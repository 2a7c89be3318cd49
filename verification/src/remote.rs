//! The OpenAI-compatible embedding endpoint: where requests go, how failed
//! responses become errors, and how a response is checked and put in input
//! order. Embedding components are held as `f32` bit patterns.
use crate::error::{error_payload, OmsError};
use crate::ids::{int_text, u64_to_string};
use crate::text::{chars_of, concat2, concat3, string_from_chars};
use vstd::prelude::*;

verus! {

broadcast use vstd::string::group_string_axioms;

/// A text with every trailing `/` removed.
pub open spec fn trim_slashes(s: Seq<char>) -> Seq<char>
    decreases s.len(),
{
    if s.len() > 0 && s.last() == '/' {
        trim_slashes(s.drop_last())
    } else {
        s
    }
}

/// The base URL with its trailing slashes removed, as the embedder keeps it.
pub fn normalize_endpoint(endpoint: &str) -> (r: String)
    ensures
        r@ == trim_slashes(endpoint@),
{
    let cs = chars_of(endpoint);
    let mut n: usize = cs.len();
    proof {
        assert(cs@.take(n as int) == cs@);
    }
    while n > 0 && cs[n - 1] == '/'
        invariant
            n <= cs.len(),
            cs@ == endpoint@,
            trim_slashes(endpoint@) == trim_slashes(cs@.take(n as int)),
        decreases n,
    {
        proof {
            assert(cs@.take(n as int).drop_last() == cs@.take(n - 1));
        }
        n = n - 1;
    }
    let mut out: Vec<char> = Vec::new();
    let mut i: usize = 0;
    while i < n
        invariant
            i <= n <= cs.len(),
            out@ == cs@.take(i as int),
        decreases n - i,
    {
        out.push(cs[i]);
        proof {
            assert(cs@.take(i + 1) == cs@.take(i as int).push(cs@[i as int]));
        }
        i = i + 1;
    }
    proof {
        assert(trim_slashes(cs@.take(n as int)) == cs@.take(n as int));
    }
    string_from_chars(out.as_slice())
}

/// The URL embeddings are requested from.
pub fn embeddings_url(endpoint: &str) -> (r: String)
    ensures
        r@ == endpoint@ + "/embeddings"@,
{
    concat2(endpoint, "/embeddings")
}

/// The error for a response whose status is not a success: rate limiting is
/// an internal error, any other client error means the request was
/// rejected, and anything else is an internal error. `status_text` is how
/// the status displays (code and reason), `body` the response's text.
pub fn failed_response_error(status: u16, status_text: &str, body: &str) -> (e: OmsError)
    ensures
        status == 429 ==> e is Internal && error_payload(e) == "embedding endpoint rate limited (429): "@
            + body@,
        status != 429 && 400 <= status < 500 ==> e is InvalidInput && error_payload(e)
            == "embedding endpoint rejected request ("@ + status_text@ + "): "@ + body@,
        !(400 <= status < 500) ==> e is Internal && error_payload(e) == "embedding endpoint returned "@
            + status_text@ + ": "@ + body@,
{
    if status == 429 {
        OmsError::Internal(concat2("embedding endpoint rate limited (429): ", body))
    } else if 400 <= status && status < 500 {
        let head = concat3("embedding endpoint rejected request (", status_text, "): ");
        OmsError::InvalidInput(concat2(head.as_str(), body))
    } else {
        let head = concat3("embedding endpoint returned ", status_text, ": ");
        OmsError::Internal(concat2(head.as_str(), body))
    }
}

/// One vector of an embedding response, with the input position the
/// endpoint gave it.
#[derive(Debug, PartialEq, Eq)]
pub struct EmbedData {
    pub embedding: Vec<u32>,
    pub index: usize,
}

/// Where an item with position `k` goes in a list sorted by position: after
/// every item whose position is not greater.
pub open spec fn insert_pos(s: Seq<EmbedData>, k: usize) -> int
    decreases s.len(),
{
    if s.len() == 0 {
        0
    } else if s.last().index <= k {
        s.len() as int
    } else {
        insert_pos(s.drop_last(), k)
    }
}

/// The items ordered by position, items with equal positions keeping their
/// order.
pub open spec fn sorted_by_index(s: Seq<EmbedData>) -> Seq<EmbedData>
    decreases s.len(),
{
    if s.len() == 0 {
        Seq::empty()
    } else {
        let r = sorted_by_index(s.drop_last());
        let p = insert_pos(r, s.last().index);
        r.take(p) + seq![s.last()] + r.skip(p)
    }
}

/// Whether the positions of a list never decrease.
pub open spec fn is_sorted_by_index(s: Seq<EmbedData>) -> bool {
    forall|i: int, j: int| 0 <= i < j < s.len() ==> s[i].index <= s[j].index
}

/// The insertion point lies within the list, after the items not greater
/// and before the greater ones.
proof fn lemma_insert_pos(s: Seq<EmbedData>, k: usize)
    requires
        is_sorted_by_index(s),
    ensures
        0 <= insert_pos(s, k) <= s.len(),
        forall|i: int| 0 <= i < insert_pos(s, k) ==> s[i].index <= k,
        forall|i: int| insert_pos(s, k) <= i < s.len() ==> s[i].index > k,
    decreases s.len(),
{
    if s.len() > 0 {
        let t = s.drop_last();
        if s.last().index <= k {
            assert forall|i: int| 0 <= i < insert_pos(s, k) implies s[i].index <= k by {
                if i < s.len() - 1 {
                    assert(s[i].index <= s[s.len() - 1].index);
                }
            }
        } else {
            assert(is_sorted_by_index(t));
            lemma_insert_pos(t, k);
            assert forall|i: int| 0 <= i < insert_pos(s, k) implies s[i].index <= k by {
                assert(s[i] == t[i]);
            }
            assert forall|i: int| insert_pos(s, k) <= i < s.len() implies s[i].index > k by {
                if i < s.len() - 1 {
                    assert(s[i] == t[i]);
                }
            }
        }
    }
}

/// Sorting keeps the length and gives a list sorted by position.
proof fn lemma_sorted_by_index(s: Seq<EmbedData>)
    ensures
        sorted_by_index(s).len() == s.len(),
        is_sorted_by_index(sorted_by_index(s)),
    decreases s.len(),
{
    if s.len() > 0 {
        lemma_sorted_by_index(s.drop_last());
        let r = sorted_by_index(s.drop_last());
        let k = s.last().index;
        lemma_insert_pos(r, k);
        let p = insert_pos(r, k);
        let t = r.take(p) + seq![s.last()] + r.skip(p);
        assert forall|i: int, j: int| 0 <= i < j < t.len() implies t[i].index <= t[j].index by {
            if j < p {
            } else if j == p {
            } else if i < p {
                assert(t[j] == r[j - 1]);
            } else if i == p {
                assert(t[j] == r[j - 1]);
            } else {
                assert(t[i] == r[i - 1]);
                assert(t[j] == r[j - 1]);
            }
        }
    }
}

/// Finds where an item with position `k` goes in a sorted list.
fn find_insert_pos(s: &Vec<EmbedData>, k: usize) -> (p: usize)
    requires
        is_sorted_by_index(s@),
    ensures
        p == insert_pos(s@, k),
{
    proof {
        lemma_insert_pos(s@, k);
    }
    let mut p: usize = 0;
    while p < s.len() && s[p].index <= k
        invariant
            0 <= p <= s.len(),
            is_sorted_by_index(s@),
            p <= insert_pos(s@, k),
            forall|i: int| 0 <= i < insert_pos(s@, k) ==> s@[i].index <= k,
            forall|i: int| insert_pos(s@, k) <= i < s@.len() ==> s@[i].index > k,
        decreases s.len() - p,
    {
        p = p + 1;
    }
    p
}

/// Orders response items by their positions, stably.
pub fn sort_by_index(data: Vec<EmbedData>) -> (r: Vec<EmbedData>)
    ensures
        r@ == sorted_by_index(data@),
        is_sorted_by_index(r@),
{
    let total = data.len();
    let mut rest = data;
    let ghost all = rest@;
    let mut out: Vec<EmbedData> = Vec::new();
    let mut taken: usize = 0;
    while rest.len() > 0
        invariant
            rest@ == all.skip(taken as int),
            total == all.len(),
            taken <= all.len(),
            out@ == sorted_by_index(all.take(taken as int)),
        decreases rest.len(),
    {
        proof {
            lemma_sorted_by_index(all.take(taken as int));
        }
        let x = rest.remove(0);
        proof {
            assert(x == all[taken as int]);
            assert(all.take(taken + 1).drop_last() == all.take(taken as int));
            assert(all.take(taken + 1).last() == x);
            assert(rest@ == all.skip(taken + 1));
        }
        let p = find_insert_pos(&out, x.index);
        proof {
            lemma_insert_pos(out@, x.index);
        }
        let ghost before = out@;
        out.insert(p, x);
        proof {
            assert(out@ =~= before.take(p as int) + seq![x] + before.skip(p as int));
        }
        taken = taken + 1;
    }
    proof {
        assert(all.take(taken as int) == all);
        lemma_sorted_by_index(all);
    }
    out
}

/// The first position of a sorted response that does not hold its own
/// index, if any.
#[verifier::opaque]
pub open spec fn first_index_gap(s: Seq<EmbedData>) -> Option<int> {
    if exists|i: int| 0 <= i < s.len() && s[i].index != i {
        Some(choose|i: int| 0 <= i < s.len() && s[i].index != i && (forall|j: int| 0 <= j < i ==> s[j].index == j))
    } else {
        None
    }
}

/// The first position of a response whose vector has the wrong size, if any.
#[verifier::opaque]
pub open spec fn first_bad_size(s: Seq<EmbedData>, dimensions: usize) -> Option<int> {
    if exists|i: int| 0 <= i < s.len() && s[i].embedding@.len() != dimensions {
        Some(choose|i: int| 0 <= i < s.len() && s[i].embedding@.len() != dimensions && (forall|j: int| 0 <= j < i ==> s[j].embedding@.len() == dimensions))
    } else {
        None
    }
}

/// The first gap is at `i` when every earlier position holds its index and
/// position `i` does not.
proof fn lemma_first_gap_at(s: Seq<EmbedData>, i: int)
    requires
        0 <= i < s.len(),
        s[i].index != i,
        forall|j: int| 0 <= j < i ==> s[j].index == j,
    ensures
        first_index_gap(s) == Some(i),
{
    reveal(first_index_gap);
    assert(exists|k: int| 0 <= k < s.len() && s[k].index != k);
    let c = choose|k: int|
        0 <= k < s.len() && s[k].index != k && (forall|j: int| 0 <= j < k ==> s[j].index == j);
    if c > i {
        assert(s[i].index == i);
    }
    if c < i {
        assert(s[c].index == c);
    }
}

/// The first wrongly sized vector is at `i` when every earlier one has the
/// right size and the one at `i` does not.
proof fn lemma_first_bad_size_at(s: Seq<EmbedData>, dimensions: usize, i: int)
    requires
        0 <= i < s.len(),
        s[i].embedding@.len() != dimensions,
        forall|j: int| 0 <= j < i ==> s[j].embedding@.len() == dimensions,
    ensures
        first_bad_size(s, dimensions) == Some(i),
{
    reveal(first_bad_size);
    assert(exists|k: int| 0 <= k < s.len() && s[k].embedding@.len() != dimensions);
    let c = choose|k: int|
        0 <= k < s.len() && s[k].embedding@.len() != dimensions && (forall|j: int|
            0 <= j < k ==> s[j].embedding@.len() == dimensions);
    if c > i {
        assert(s[i].embedding@.len() == dimensions);
    }
    if c < i {
        assert(s[c].embedding@.len() == dimensions);
    }
}

/// There is no gap when every position holds its index.
proof fn lemma_no_gap(s: Seq<EmbedData>)
    requires
        forall|j: int| 0 <= j < s.len() ==> s[j].index == j,
    ensures
        first_index_gap(s) is None,
{
    reveal(first_index_gap);
    if exists|q: int| 0 <= q < s.len() && s[q].index != q {
        let q = choose|q: int| 0 <= q < s.len() && s[q].index != q;
        assert(s[q].index == q);
    }
}

/// No vector is wrongly sized when every vector has the configured size.
proof fn lemma_no_bad_size(s: Seq<EmbedData>, dimensions: usize)
    requires
        forall|j: int| 0 <= j < s.len() ==> s[j].embedding@.len() == dimensions,
    ensures
        first_bad_size(s, dimensions) is None,
{
    reveal(first_bad_size);
    if exists|q: int| 0 <= q < s.len() && s[q].embedding@.len() != dimensions {
        let q = choose|q: int| 0 <= q < s.len() && s[q].embedding@.len() != dimensions;
        assert(s[q].embedding@.len() == dimensions);
    }
}

/// Checks a response already in position order: the positions must be
/// exactly 0 to n - 1 and every vector must have the configured size.
fn check_sorted_response(sorted: Vec<EmbedData>, dimensions: usize) -> (r: Result<
    Vec<Vec<u32>>,
    OmsError,
>)
    ensures
        match first_index_gap(sorted@) {
            Some(i) => r is Err && r->Err_0 is Internal && error_payload(r->Err_0)
                == "embedding response has invalid index sequence: expected "@ + int_text(i)
                + ", got "@ + int_text(sorted@[i].index as int),
            None => match first_bad_size(sorted@, dimensions) {
                Some(i) => r is Err && r->Err_0 is Internal && error_payload(r->Err_0)
                    == "embedding at index "@ + int_text(i) + " has "@ + int_text(
                    sorted@[i].embedding@.len() as int,
                ) + " dimensions, expected "@ + int_text(dimensions as int),
                None => r is Ok && r->Ok_0@.len() == sorted@.len() && forall|i: int|
                    0 <= i < sorted@.len() ==> #[trigger] r->Ok_0@[i] == sorted@[i].embedding,
            },
        },
{
    let ghost s0 = sorted@;
    let mut i: usize = 0;
    while i < sorted.len()
        invariant
            0 <= i <= sorted.len(),
            sorted@ == s0,
            forall|j: int| 0 <= j < i ==> sorted@[j].index == j,
        decreases sorted.len() - i,
    {
        if sorted[i].index != i {
            let a = u64_to_string(i as u64);
            let b = u64_to_string(sorted[i].index as u64);
            let head = concat3(
                "embedding response has invalid index sequence: expected ",
                a.as_str(),
                ", got ",
            );
            proof {
                lemma_first_gap_at(sorted@, i as int);
            }
            return Err(OmsError::Internal(concat2(head.as_str(), b.as_str())));
        }
        i = i + 1;
    }
    proof {
        lemma_no_gap(sorted@);
    }
    let mut k: usize = 0;
    while k < sorted.len()
        invariant
            0 <= k <= sorted.len(),
            sorted@ == s0,
            first_index_gap(s0) is None,
            forall|j: int| 0 <= j < k ==> sorted@[j].embedding@.len() == dimensions,
        decreases sorted.len() - k,
    {
        if sorted[k].embedding.len() != dimensions {
            let a = u64_to_string(k as u64);
            let b = u64_to_string(sorted[k].embedding.len() as u64);
            let c = u64_to_string(dimensions as u64);
            let head = concat3("embedding at index ", a.as_str(), " has ");
            let mid = concat3(head.as_str(), b.as_str(), " dimensions, expected ");
            proof {
                lemma_first_bad_size_at(sorted@, dimensions, k as int);
            }
            return Err(OmsError::Internal(concat2(mid.as_str(), c.as_str())));
        }
        k = k + 1;
    }
    proof {
        lemma_no_bad_size(sorted@, dimensions);
    }
    let mut rest = sorted;
    let mut out: Vec<Vec<u32>> = Vec::new();
    while rest.len() > 0
        invariant
            rest@ == s0.skip(out@.len() as int),
            out@.len() <= s0.len(),
            forall|j: int| 0 <= j < out@.len() ==> #[trigger] out@[j] == s0[j].embedding,
        decreases rest.len(),
    {
        let item = rest.remove(0);
        proof {
            assert(item == s0[out@.len() as int]);
            assert(rest@ == s0.skip(out@.len() as int + 1));
        }
        out.push(item.embedding);
    }
    Ok(out)
}

/// Checks an embedding response to `inputs` texts and returns its vectors
/// in input order. The response must hold one vector per input, its
/// positions sorted must be exactly 0 to `inputs - 1`, and every vector must
/// have the configured size; the first violation found, in that order, is
/// an internal error.
pub fn check_embed_response(inputs: usize, data: Vec<EmbedData>, dimensions: usize) -> (r: Result<
    Vec<Vec<u32>>,
    OmsError,
>)
    ensures
        data@.len() != inputs ==> r is Err && r->Err_0 is Internal && error_payload(r->Err_0)
            == "embedding endpoint returned "@ + int_text(data@.len() as int) + " vectors for "@
            + int_text(inputs as int) + " inputs"@,
        data@.len() == inputs ==> {
            let s = sorted_by_index(data@);
            match first_index_gap(s) {
                Some(i) => r is Err && r->Err_0 is Internal && error_payload(r->Err_0)
                    == "embedding response has invalid index sequence: expected "@ + int_text(i)
                    + ", got "@ + int_text(s[i].index as int),
                None => match first_bad_size(s, dimensions) {
                    Some(i) => r is Err && r->Err_0 is Internal && error_payload(r->Err_0)
                        == "embedding at index "@ + int_text(i) + " has "@ + int_text(
                        s[i].embedding@.len() as int,
                    ) + " dimensions, expected "@ + int_text(dimensions as int),
                    None => r is Ok && r->Ok_0@.len() == inputs && forall|i: int|
                        0 <= i < inputs ==> #[trigger] r->Ok_0@[i] == s[i].embedding,
                },
            }
        },
{
    let n = data.len();
    if n != inputs {
        let a = u64_to_string(n as u64);
        let b = u64_to_string(inputs as u64);
        let head = concat3("embedding endpoint returned ", a.as_str(), " vectors for ");
        return Err(OmsError::Internal(concat3(head.as_str(), b.as_str(), " inputs")));
    }
    proof {
        lemma_sorted_by_index(data@);
    }
    let sorted = sort_by_index(data);
    check_sorted_response(sorted, dimensions)
}

/// The vector of a single query, the first of the results.
pub fn first_embedding(results: Vec<Vec<u32>>) -> (r: Result<Vec<u32>, OmsError>)
    ensures
        results@.len() > 0 ==> r == Ok::<Vec<u32>, OmsError>(results@[0]),
        results@.len() == 0 ==> r is Err && r->Err_0 is Internal && error_payload(r->Err_0)
            == "embedding returned no results"@,
{
    let mut results = results;
    if results.len() == 0 {
        return Err(OmsError::Internal("embedding returned no results".to_owned()));
    }
    Ok(results.remove(0))
}

/// A well-formed response is returned in input order: when the positions
/// are exactly 0 to n - 1, the vector at each place is the one the endpoint
/// gave that position.
pub proof fn lemma_response_in_input_order(data: Seq<EmbedData>)
    requires
        first_index_gap(sorted_by_index(data)) is None,
    ensures
        forall|i: int|
            0 <= i < data.len() ==> #[trigger] sorted_by_index(data)[i].index == i,
{
    reveal(first_index_gap);
    lemma_sorted_by_index(data);
    let s = sorted_by_index(data);
    assert forall|i: int| 0 <= i < data.len() implies #[trigger] sorted_by_index(data)[i].index
        == i by {
        if s[i].index != i {
            assert(exists|k: int| 0 <= k < s.len() && s[k].index != k);
        }
    }
}

} // verus!
