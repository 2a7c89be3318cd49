//! Decoding of stored rows into the service's records.
//!
//! A row arrives with its text columns as text and its JSON columns already
//! read by the JSON parser (the parsed value, or the parser's error text);
//! decoding checks ids, enumerations and timestamps and reports the first
//! bad column, in column order, as an internal error.
use crate::audit::AuditEntry;
use crate::entry::{check_rfc3339, spec_parse_rfc3339, MemoryEntry};
use crate::graph::{EdgeLink, GraphEdge};
use crate::inheritance::{BubbleUpConfig, InheritanceFilter, InheritanceSpec};
use crate::spaces::{SharedSpace, SpaceParticipant};
use crate::store::{MemoryStore, SovereigntyConfig, StoreConfig};
use crate::error::{error_payload, OmsError};
use crate::ids::{parse_uuid_text, spec_parse_uuid};
use crate::json::{parse_string_list, spec_parse_string_list, Json};
use crate::model::{
    access_policy_from_text, conflict_resolution_from_text, inheritance_access_from_text,
    layer_from_text, parse_access_policy, parse_conflict_resolution, parse_inheritance_access,
    parse_layer, parse_participant_access, participant_access_from_text, AccessPolicy,
    MemoryLayer,
};
use crate::scope::{AccessControl, MemoryScope, SourceReference};
use crate::text::{concat3, concat2, views};
use vstd::prelude::*;

verus! {

broadcast use vstd::string::group_string_axioms;

/// The error text of a bad id column, if it is bad.
pub open spec fn id_error(text: Seq<char>, what: Seq<char>) -> Option<Seq<char>> {
    match spec_parse_uuid(text) {
        Ok(_) => None,
        Err(e) => Some("invalid "@ + what + ": "@ + e),
    }
}

/// The error text of a bad JSON column, if it is bad.
pub open spec fn json_error<T>(r: Result<T, String>, what: Seq<char>) -> Option<Seq<char>> {
    match r {
        Ok(_) => None,
        Err(e) => Some("invalid "@ + what + " json: "@ + e@),
    }
}

/// The error text of a bad optional JSON column, if it is present and bad.
pub open spec fn opt_json_error<T>(r: Option<Result<T, String>>, what: Seq<char>) -> Option<
    Seq<char>,
> {
    match r {
        Some(x) => json_error(x, what),
        None => None,
    }
}

/// The error text of a bad timestamp column, if it is bad.
pub open spec fn time_error(text: Seq<char>, what: Seq<char>) -> Option<Seq<char>> {
    match spec_parse_rfc3339(text) {
        Ok(_) => None,
        Err(e) => Some("invalid "@ + what + ": "@ + e),
    }
}

/// The error text of a bad optional timestamp column, if it is present and
/// bad.
pub open spec fn opt_time_error(text: Option<String>, what: Seq<char>) -> Option<Seq<char>> {
    match text {
        Some(t) => time_error(t@, what),
        None => None,
    }
}

/// The first error of a list, in order.
pub open spec fn first_error(errors: Seq<Option<Seq<char>>>) -> Option<Seq<char>>
    decreases errors.len(),
{
    if errors.len() == 0 {
        None
    } else if errors[0] is Some {
        errors[0]
    } else {
        first_error(errors.drop_first())
    }
}

/// Reads an id column.
pub fn decode_id(text: &str, what: &str) -> (r: Result<u128, OmsError>)
    ensures
        match spec_parse_uuid(text@) {
            Ok(v) => r == Ok::<u128, OmsError>(v),
            Err(_) => r is Err && r->Err_0 is Internal && error_payload(r->Err_0) == id_error(
                text@,
                what@,
            )->0,
        },
{
    match parse_uuid_text(text) {
        Ok(v) => Ok(v),
        Err(e) => {
            let head = concat3("invalid ", what, ": ");
            Err(OmsError::Internal(concat2(head.as_str(), e.as_str())))
        },
    }
}

/// Reads a parsed JSON column.
pub fn decode_json<T>(r: Result<T, String>, what: &str) -> (out: Result<T, OmsError>)
    ensures
        match r {
            Ok(v) => out matches Ok(w) && w == v,
            Err(_) => out is Err && out->Err_0 is Internal && error_payload(out->Err_0)
                == json_error(r, what@)->0,
        },
{
    match r {
        Ok(v) => Ok(v),
        Err(e) => {
            let head = concat3("invalid ", what, " json: ");
            Err(OmsError::Internal(concat2(head.as_str(), e.as_str())))
        },
    }
}

/// Reads an optional parsed JSON column.
pub fn decode_opt_json<T>(r: Option<Result<T, String>>, what: &str) -> (out: Result<
    Option<T>,
    OmsError,
>)
    ensures
        match r {
            None => out matches Ok(w) && w is None,
            Some(Ok(v)) => out matches Ok(w) && w == Some(v),
            Some(Err(_)) => out is Err && out->Err_0 is Internal && error_payload(out->Err_0)
                == opt_json_error(r, what@)->0,
        },
{
    match r {
        None => Ok(None),
        Some(x) => match decode_json(x, what) {
            Ok(v) => Ok(Some(v)),
            Err(e) => Err(e),
        },
    }
}

/// The error text of a bad JSON list column, if it is bad.
pub open spec fn list_error(text: Seq<char>, what: Seq<char>) -> Option<Seq<char>> {
    match spec_parse_string_list(text) {
        Ok(_) => None,
        Err(e) => Some("invalid "@ + what + " json: "@ + e),
    }
}

/// The error text of a bad optional JSON list column, if it is present and
/// bad.
pub open spec fn opt_list_error(text: Option<String>, what: Seq<char>) -> Option<Seq<char>> {
    match text {
        Some(t) => list_error(t@, what),
        None => None,
    }
}

/// Reads a JSON list column of strings.
pub fn decode_string_list(text: &str, what: &str) -> (r: Result<Vec<String>, OmsError>)
    ensures
        match spec_parse_string_list(text@) {
            Ok(v) => r is Ok && views(r->Ok_0@) == v,
            Err(_) => r is Err && r->Err_0 is Internal && error_payload(r->Err_0) == list_error(
                text@,
                what@,
            )->0,
        },
{
    match parse_string_list(text) {
        Ok(v) => Ok(v),
        Err(e) => {
            let head = concat3("invalid ", what, " json: ");
            Err(OmsError::Internal(concat2(head.as_str(), e.as_str())))
        },
    }
}

/// Reads an optional JSON list column of strings.
pub fn decode_opt_string_list(text: &Option<String>, what: &str) -> (r: Result<
    Option<Vec<String>>,
    OmsError,
>)
    ensures
        match *text {
            None => r matches Ok(w) && w is None,
            Some(t) => match spec_parse_string_list(t@) {
                Ok(v) => r matches Ok(w) && w matches Some(x) && views(x@) == v,
                Err(_) => r is Err && r->Err_0 is Internal && error_payload(r->Err_0)
                    == opt_list_error(*text, what@)->0,
            },
        },
{
    match text {
        None => Ok(None),
        Some(t) => match decode_string_list(t.as_str(), what) {
            Ok(v) => Ok(Some(v)),
            Err(e) => Err(e),
        },
    }
}

/// Checks a timestamp column.
pub fn decode_time(text: &str, what: &str) -> (r: Result<(), OmsError>)
    ensures
        time_error(text@, what@) is None ==> r is Ok,
        time_error(text@, what@) is Some ==> r is Err && r->Err_0 is Internal && error_payload(
            r->Err_0,
        ) == time_error(text@, what@)->0,
{
    match check_rfc3339(text) {
        Ok(()) => Ok(()),
        Err(e) => {
            let head = concat3("invalid ", what, ": ");
            Err(OmsError::Internal(concat2(head.as_str(), e.as_str())))
        },
    }
}

/// Checks an optional timestamp column.
pub fn decode_opt_time(text: &Option<String>, what: &str) -> (r: Result<(), OmsError>)
    ensures
        opt_time_error(*text, what@) is None ==> r is Ok,
        opt_time_error(*text, what@) is Some ==> r is Err && r->Err_0 is Internal && error_payload(
            r->Err_0,
        ) == opt_time_error(*text, what@)->0,
{
    match text {
        Some(t) => decode_time(t.as_str(), what),
        None => Ok(()),
    }
}

/// The `u32` read from four bytes, least significant first.
pub open spec fn le_u32(b0: u8, b1: u8, b2: u8, b3: u8) -> u32 {
    (b0 as int + 256 * b1 as int + 65536 * b2 as int + 16777216 * b3 as int) as u32
}

/// The `f32` bit patterns stored in an embedding column: each whole group of
/// four bytes, little-endian; trailing bytes that make no whole group are
/// ignored.
pub open spec fn bytes_to_bits(bytes: Seq<u8>) -> Seq<u32> {
    Seq::new(
        bytes.len() / 4,
        |i: int| le_u32(bytes[4 * i], bytes[4 * i + 1], bytes[4 * i + 2], bytes[4 * i + 3]),
    )
}

/// The bytes an embedding is stored as: each component's bit pattern,
/// little-endian.
pub open spec fn bits_to_bytes(bits: Seq<u32>) -> Seq<u8> {
    Seq::new(
        4 * bits.len(),
        |k: int| ((bits[k / 4] as int / pow256(k % 4)) % 256) as u8,
    )
}

/// 256 to the power `n`, for `n` below 4.
pub open spec fn pow256(n: int) -> int {
    if n == 0 {
        1
    } else if n == 1 {
        256
    } else if n == 2 {
        65536
    } else {
        16777216
    }
}

/// Reads an embedding column into component bit patterns.
pub fn bytes_to_embedding(bytes: &Vec<u8>) -> (r: Vec<u32>)
    ensures
        r@ == bytes_to_bits(bytes@),
{
    let len = bytes.len();
    let n = len / 4;
    let mut r: Vec<u32> = Vec::new();
    let mut i: usize = 0;
    while i < n
        invariant
            n == bytes@.len() / 4,
            len == bytes@.len(),
            0 <= i <= n,
            r@.len() == i,
            forall|j: int| 0 <= j < i ==> #[trigger] r@[j] == bytes_to_bits(bytes@)[j],
        decreases n - i,
    {
        proof {
            assert(4 * i + 3 < bytes@.len()) by (nonlinear_arith)
                requires
                    i < n,
                    n == len / 4,
                    len == bytes@.len(),
            ;
            assert(4 * i + 3 < len);
        }
        let b0 = bytes[4 * i] as u32;
        let b1 = bytes[4 * i + 1] as u32;
        let b2 = bytes[4 * i + 2] as u32;
        let b3 = bytes[4 * i + 3] as u32;
        proof {
            assert(b0 + 256 * b1 + 65536 * b2 + 16777216 * b3 <= u32::MAX) by (nonlinear_arith)
                requires
                    b0 < 256,
                    b1 < 256,
                    b2 < 256,
                    b3 < 256,
            ;
        }
        let v: u32 = b0 + 256 * b1 + 65536 * b2 + 16777216 * b3;
        r.push(v);
        i = i + 1;
    }
    proof {
        assert(r@ =~= bytes_to_bits(bytes@));
    }
    r
}

/// Writes component bit patterns as an embedding column.
pub fn embedding_to_bytes(bits: &Vec<u32>) -> (r: Vec<u8>)
    requires
        4 * bits@.len() <= usize::MAX,
    ensures
        r@ == bits_to_bytes(bits@),
{
    let mut r: Vec<u8> = Vec::new();
    let mut i: usize = 0;
    while i < bits.len()
        invariant
            0 <= i <= bits.len(),
            4 * bits@.len() <= usize::MAX,
            r@.len() == 4 * i,
            forall|k: int| 0 <= k < 4 * i ==> #[trigger] r@[k] == bits_to_bytes(bits@)[k],
        decreases bits.len() - i,
    {
        let v = bits[i];
        let ghost base = r@.len();
        r.push((v % 256) as u8);
        r.push(((v / 256) % 256) as u8);
        r.push(((v / 65536) % 256) as u8);
        r.push(((v / 16777216) % 256) as u8);
        proof {
            assert forall|k: int| 0 <= k < 4 * (i + 1) implies #[trigger] r@[k] == bits_to_bytes(
                bits@,
            )[k] by {
                if k >= 4 * i {
                    assert(k / 4 == i as int) by (nonlinear_arith)
                        requires
                            4 * i <= k < 4 * i + 4,
                    ;
                    assert(k % 4 == k - 4 * i) by (nonlinear_arith)
                        requires
                            4 * i <= k < 4 * i + 4,
                    ;
                }
            }
        }
        i = i + 1;
    }
    proof {
        assert(r@ =~= bits_to_bytes(bits@));
    }
    r
}

/// An embedding read back from its stored bytes is the embedding written.
pub proof fn lemma_embedding_bytes_round_trip(bits: Seq<u32>)
    ensures
        bytes_to_bits(bits_to_bytes(bits)) == bits,
{
    let bytes = bits_to_bytes(bits);
    assert((4 * bits.len()) / 4 == bits.len()) by (nonlinear_arith);
    assert forall|i: int| 0 <= i < bits.len() implies #[trigger] bytes_to_bits(bytes)[i]
        == bits[i] by {
        let v = bits[i];
        assert((4 * i) / 4 == i && (4 * i + 1) / 4 == i && (4 * i + 2) / 4 == i && (4 * i + 3)
            / 4 == i) by (nonlinear_arith)
            requires
                0 <= i,
        ;
        assert((4 * i) % 4 == 0 && (4 * i + 1) % 4 == 1 && (4 * i + 2) % 4 == 2 && (4 * i + 3)
            % 4 == 3) by (nonlinear_arith)
            requires
                0 <= i,
        ;
        assert(4 * i + 3 < 4 * bits.len()) by (nonlinear_arith)
            requires
                0 <= i < bits.len(),
        ;
        assert(le_u32(
            (v % 256) as u8,
            ((v / 256) % 256) as u8,
            ((v / 65536) % 256) as u8,
            ((v / 16777216) % 256) as u8,
        ) == v) by (bit_vector);
    }
    assert(bytes_to_bits(bytes) =~= bits);
}

/// A stored memory row: text columns as text, JSON columns as parsed.
pub struct MemoryRow {
    pub id: String,
    pub store_id: String,
    pub layer: String,
    pub content: Result<Json, String>,
    pub embedding: Option<Vec<u8>>,
    pub owner_agent_id: String,
    pub scope: MemoryScope,
    pub tags_json: String,
    pub categories_json: String,
    pub source: Option<Result<SourceReference, String>>,
    pub access_policy: String,
    pub allowed_agents_json: Option<String>,
    pub allowed_scopes_json: Option<String>,
    pub created_at: String,
    pub updated_at: String,
    pub expires_at: Option<String>,
    pub immutable: i32,
    pub version: i64,
    pub valid_from: Option<String>,
    pub valid_until: Option<String>,
    pub confidence: Option<u64>,
    pub entity_type: Option<String>,
    pub upsert_key: Option<String>,
}

/// The error text of an unknown layer column, if it is unknown.
pub open spec fn layer_error(text: Seq<char>) -> Option<Seq<char>> {
    if layer_from_text(text) is Some {
        None
    } else {
        Some("unknown layer: "@ + text)
    }
}

/// The error text of an unknown access policy column, if it is unknown.
pub open spec fn policy_error(text: Seq<char>) -> Option<Seq<char>> {
    if access_policy_from_text(text) is Some {
        None
    } else {
        Some("unknown access policy: "@ + text)
    }
}

/// The first bad column of a memory row, in column order.
pub open spec fn memory_row_error(row: MemoryRow) -> Option<Seq<char>> {
    first_error(
        seq![
            id_error(row.id@, "memory id"@),
            id_error(row.store_id@, "store id"@),
            layer_error(row.layer@),
            json_error(row.content, "content"@),
            list_error(row.tags_json@, "tags"@),
            list_error(row.categories_json@, "categories"@),
            opt_json_error(row.source, "source"@),
            policy_error(row.access_policy@),
            opt_list_error(row.allowed_agents_json, "allowed_agents"@),
            opt_list_error(row.allowed_scopes_json, "allowed_scopes"@),
            time_error(row.created_at@, "created_at"@),
            time_error(row.updated_at@, "updated_at"@),
            opt_time_error(row.expires_at, "expires_at"@),
            opt_time_error(row.valid_from, "valid_from"@),
            opt_time_error(row.valid_until, "valid_until"@),
        ],
    )
}

/// Whether `e` is what a memory row with no bad column holds.
pub open spec fn decoded_memory(e: MemoryEntry, row: MemoryRow) -> bool {
    &&& Ok::<u128, Seq<char>>(e.id) == spec_parse_uuid(row.id@)
    &&& Ok::<u128, Seq<char>>(e.store_id) == spec_parse_uuid(row.store_id@)
    &&& Some(e.layer) == layer_from_text(row.layer@)
    &&& Ok::<Json, String>(e.content) == row.content
    &&& (match row.embedding {
        Some(b) => e.embedding matches Some(v) && v@ == bytes_to_bits(b@),
        None => e.embedding is None,
    })
    &&& e.owner_agent_id == row.owner_agent_id
    &&& e.scope == row.scope
    &&& spec_parse_string_list(row.tags_json@) == Ok::<Seq<Seq<char>>, Seq<char>>(views(e.tags@))
    &&& spec_parse_string_list(row.categories_json@) == Ok::<Seq<Seq<char>>, Seq<char>>(
        views(e.categories@),
    )
    &&& (match row.source {
        Some(Ok(src)) => e.source == Some(src),
        _ => e.source is None,
    })
    &&& Some(e.access_control.policy) == access_policy_from_text(row.access_policy@)
    &&& (match row.allowed_agents_json {
        Some(t) => e.access_control.allowed_agents matches Some(v) && spec_parse_string_list(t@)
            == Ok::<Seq<Seq<char>>, Seq<char>>(views(v@)),
        None => e.access_control.allowed_agents is None,
    })
    &&& (match row.allowed_scopes_json {
        Some(t) => e.access_control.allowed_scopes matches Some(v) && spec_parse_string_list(t@)
            == Ok::<Seq<Seq<char>>, Seq<char>>(views(v@)),
        None => e.access_control.allowed_scopes is None,
    })
    &&& e.created_at == row.created_at
    &&& e.updated_at == row.updated_at
    &&& e.expires_at == row.expires_at
    &&& e.immutable == (row.immutable != 0)
    &&& e.version == row.version
    &&& e.valid_from == row.valid_from
    &&& e.valid_until == row.valid_until
    &&& e.confidence == row.confidence
    &&& e.entity_type == row.entity_type
    &&& e.upsert_key == row.upsert_key
}

/// Decodes a memory row; a bad column is an internal error naming it.
#[verifier::spinoff_prover]
#[verifier::rlimit(60)]
pub fn decode_memory_row(row: MemoryRow) -> (r: Result<MemoryEntry, OmsError>)
    ensures
        r is Err <==> memory_row_error(row) is Some,
        r is Err ==> r->Err_0 is Internal && error_payload(r->Err_0) == memory_row_error(row)->0,
        r is Ok ==> decoded_memory(r->Ok_0, row),
{
    let ghost row0 = row;
    let ghost errs = seq![
        id_error(row.id@, "memory id"@),
        id_error(row.store_id@, "store id"@),
        layer_error(row.layer@),
        json_error(row.content, "content"@),
        list_error(row.tags_json@, "tags"@),
        list_error(row.categories_json@, "categories"@),
        opt_json_error(row.source, "source"@),
        policy_error(row.access_policy@),
        opt_list_error(row.allowed_agents_json, "allowed_agents"@),
        opt_list_error(row.allowed_scopes_json, "allowed_scopes"@),
        time_error(row.created_at@, "created_at"@),
        time_error(row.updated_at@, "updated_at"@),
        opt_time_error(row.expires_at, "expires_at"@),
        opt_time_error(row.valid_from, "valid_from"@),
        opt_time_error(row.valid_until, "valid_until"@),
    ];
    proof {
        lemma_first_error_unfold(errs, 15);
    }
    let id = decode_id(row.id.as_str(), "memory id")?;
    let store_id = decode_id(row.store_id.as_str(), "store id")?;
    let layer = parse_layer(row.layer.as_str())?;
    let content = decode_json(row.content, "content")?;
    let embedding = match &row.embedding {
        Some(b) => Some(bytes_to_embedding(b)),
        None => None,
    };
    let tags = decode_string_list(row.tags_json.as_str(), "tags")?;
    let categories = decode_string_list(row.categories_json.as_str(), "categories")?;
    let source = decode_opt_json(row.source, "source")?;
    let policy = parse_access_policy(row.access_policy.as_str())?;
    let allowed_agents = decode_opt_string_list(&row.allowed_agents_json, "allowed_agents")?;
    let allowed_scopes = decode_opt_string_list(&row.allowed_scopes_json, "allowed_scopes")?;
    decode_time(row.created_at.as_str(), "created_at")?;
    decode_time(row.updated_at.as_str(), "updated_at")?;
    decode_opt_time(&row.expires_at, "expires_at")?;
    decode_opt_time(&row.valid_from, "valid_from")?;
    decode_opt_time(&row.valid_until, "valid_until")?;
    Ok(
        MemoryEntry {
            id,
            store_id,
            layer,
            content,
            embedding,
            owner_agent_id: row.owner_agent_id,
            scope: row.scope,
            tags,
            categories,
            source,
            access_control: AccessControl { policy, allowed_agents, allowed_scopes },
            created_at: row.created_at,
            updated_at: row.updated_at,
            expires_at: row.expires_at,
            immutable: row.immutable != 0,
            version: row.version,
            valid_from: row.valid_from,
            valid_until: row.valid_until,
            confidence: row.confidence,
            entity_type: row.entity_type,
            upsert_key: row.upsert_key,
        },
    )
}

/// The first error of a list is its first present entry.
pub proof fn lemma_first_error_unfold(errors: Seq<Option<Seq<char>>>, n: nat)
    requires
        n == errors.len(),
    ensures
        forall|k: int|
            0 <= k < errors.len() && (forall|j: int| 0 <= j < k ==> errors[j] is None) && (
            #[trigger] errors[k]) is Some ==> first_error(errors) == errors[k],
        (forall|j: int| 0 <= j < errors.len() ==> errors[j] is None) ==> first_error(errors) is None,
    decreases n,
{
    if errors.len() > 0 {
        lemma_first_error_unfold(errors.drop_first(), (n - 1) as nat);
        assert forall|k: int|
            0 <= k < errors.len() && (forall|j: int| 0 <= j < k ==> errors[j] is None) && (
            #[trigger] errors[k]) is Some implies first_error(errors) == errors[k] by {
            if k > 0 {
                assert(errors[0] is None);
                assert(errors.drop_first()[k - 1] == errors[k]);
                assert forall|j: int| 0 <= j < k - 1 implies errors.drop_first()[j] is None by {
                    assert(errors.drop_first()[j] == errors[j + 1]);
                }
            }
        }
        if forall|j: int| 0 <= j < errors.len() ==> errors[j] is None {
            assert forall|j: int| 0 <= j < errors.drop_first().len() implies errors.drop_first()[j]
                is None by {
                assert(errors.drop_first()[j] == errors[j + 1]);
            }
        }
    }
}

/// The error text of a bad optional id column, if it is present and bad.
pub open spec fn opt_id_error(text: Option<String>, what: Seq<char>) -> Option<Seq<char>> {
    match text {
        Some(t) => id_error(t@, what),
        None => None,
    }
}

/// The id an optional id column holds, once it is known to be good.
pub open spec fn opt_id_value(text: Option<String>) -> Option<u128> {
    match text {
        Some(t) => Some(spec_parse_uuid(t@)->Ok_0),
        None => None,
    }
}

/// Reads an optional id column.
pub fn decode_opt_id(text: &Option<String>, what: &str) -> (r: Result<Option<u128>, OmsError>)
    ensures
        opt_id_error(*text, what@) is None ==> r == Ok::<Option<u128>, OmsError>(opt_id_value(*text)),
        opt_id_error(*text, what@) is Some ==> r is Err && r->Err_0 is Internal && error_payload(
            r->Err_0,
        ) == opt_id_error(*text, what@)->0,
{
    match text {
        Some(t) => match decode_id(t.as_str(), what) {
            Ok(v) => Ok(Some(v)),
            Err(e) => Err(e),
        },
        None => Ok(None),
    }
}

/// A stored audit row.
pub struct AuditRow {
    pub id: String,
    pub store_id: String,
    pub tenant_id: String,
    pub memory_id: Option<String>,
    pub action: String,
    pub agent_id: Option<String>,
    pub details: Option<Result<Json, String>>,
    pub created_at: String,
    /// The redaction flag; 0 when the column is missing.
    pub redacted: i32,
}

/// The first bad column of an audit row, in column order.
pub open spec fn audit_row_error(row: AuditRow) -> Option<Seq<char>> {
    first_error(
        seq![
            id_error(row.id@, "audit id"@),
            id_error(row.store_id@, "audit store id"@),
            opt_id_error(row.memory_id, "audit memory id"@),
            opt_json_error(row.details, "audit details"@),
            time_error(row.created_at@, "audit created_at"@),
        ],
    )
}

/// Decodes an audit row; a bad column is an internal error naming it.
pub fn decode_audit_row(row: AuditRow) -> (r: Result<AuditEntry, OmsError>)
    ensures
        r is Err <==> audit_row_error(row) is Some,
        r is Err ==> r->Err_0 is Internal && error_payload(r->Err_0) == audit_row_error(row)->0,
        r is Ok ==> {
            let e = r->Ok_0;
            &&& Ok::<u128, Seq<char>>(e.id) == spec_parse_uuid(row.id@)
            &&& Ok::<u128, Seq<char>>(e.store_id) == spec_parse_uuid(row.store_id@)
            &&& e.tenant_id == row.tenant_id
            &&& e.memory_id == opt_id_value(row.memory_id)
            &&& e.action == row.action
            &&& e.agent_id == row.agent_id
            &&& (match row.details {
                Some(Ok(d)) => e.details == Some(d),
                _ => e.details is None,
            })
            &&& e.created_at == row.created_at
            &&& e.redacted == (row.redacted != 0)
        },
{
    let ghost errs = seq![
        id_error(row.id@, "audit id"@),
        id_error(row.store_id@, "audit store id"@),
        opt_id_error(row.memory_id, "audit memory id"@),
        opt_json_error(row.details, "audit details"@),
        time_error(row.created_at@, "audit created_at"@),
    ];
    proof {
        lemma_first_error_unfold(errs, 5);
    }
    let id = decode_id(row.id.as_str(), "audit id")?;
    let store_id = decode_id(row.store_id.as_str(), "audit store id")?;
    let memory_id = decode_opt_id(&row.memory_id, "audit memory id")?;
    let details = decode_opt_json(row.details, "audit details")?;
    decode_time(row.created_at.as_str(), "audit created_at")?;
    Ok(
        AuditEntry {
            id,
            store_id,
            tenant_id: row.tenant_id,
            memory_id,
            action: row.action,
            agent_id: row.agent_id,
            details,
            created_at: row.created_at,
            redacted: row.redacted != 0,
        },
    )
}

/// A stored store row.
pub struct StoreRow {
    pub id: String,
    pub name: String,
    pub tenant_id: String,
    pub region: Option<String>,
    pub config: Result<StoreConfig, String>,
    pub sovereignty: Result<SovereigntyConfig, String>,
    pub metadata: Result<Vec<(String, String)>, String>,
    pub created_at: String,
    pub updated_at: String,
}

/// The first bad column of a store row, in column order.
pub open spec fn store_row_error(row: StoreRow) -> Option<Seq<char>> {
    first_error(
        seq![
            id_error(row.id@, "store id"@),
            json_error(row.config, "config"@),
            json_error(row.sovereignty, "sovereignty"@),
            json_error(row.metadata, "metadata"@),
            time_error(row.created_at@, "created_at"@),
            time_error(row.updated_at@, "updated_at"@),
        ],
    )
}

/// Decodes a store row; a bad column is an internal error naming it.
pub fn decode_store_row(row: StoreRow) -> (r: Result<MemoryStore, OmsError>)
    ensures
        r is Err <==> store_row_error(row) is Some,
        r is Err ==> r->Err_0 is Internal && error_payload(r->Err_0) == store_row_error(row)->0,
        r is Ok ==> {
            let s = r->Ok_0;
            &&& Ok::<u128, Seq<char>>(s.id) == spec_parse_uuid(row.id@)
            &&& s.name == row.name
            &&& s.tenant_id == row.tenant_id
            &&& s.region == row.region
            &&& Ok::<StoreConfig, String>(s.config) == row.config
            &&& Ok::<SovereigntyConfig, String>(s.sovereignty) == row.sovereignty
            &&& Ok::<Vec<(String, String)>, String>(s.metadata) == row.metadata
            &&& s.created_at == row.created_at
            &&& s.updated_at == row.updated_at
        },
{
    let ghost errs = seq![
        id_error(row.id@, "store id"@),
        json_error(row.config, "config"@),
        json_error(row.sovereignty, "sovereignty"@),
        json_error(row.metadata, "metadata"@),
        time_error(row.created_at@, "created_at"@),
        time_error(row.updated_at@, "updated_at"@),
    ];
    proof {
        lemma_first_error_unfold(errs, 6);
    }
    let id = decode_id(row.id.as_str(), "store id")?;
    let config = decode_json(row.config, "config")?;
    let sovereignty = decode_json(row.sovereignty, "sovereignty")?;
    let metadata = decode_json(row.metadata, "metadata")?;
    decode_time(row.created_at.as_str(), "created_at")?;
    decode_time(row.updated_at.as_str(), "updated_at")?;
    Ok(
        MemoryStore {
            id,
            name: row.name,
            tenant_id: row.tenant_id,
            region: row.region,
            config,
            sovereignty,
            metadata,
            created_at: row.created_at,
            updated_at: row.updated_at,
        },
    )
}

/// A stored inheritance row.
pub struct InheritanceRow {
    pub id: String,
    pub store_id: String,
    pub tenant_id: String,
    pub parent_agent_id: String,
    pub child_agent_id: String,
    pub inherit_layers: Result<Vec<MemoryLayer>, String>,
    pub filter: Result<InheritanceFilter, String>,
    pub access: String,
    pub bubble_up: Result<BubbleUpConfig, String>,
    pub created_at: String,
}

/// The error text of an unknown inheritance access column, if it is unknown.
pub open spec fn inheritance_access_error(text: Seq<char>) -> Option<Seq<char>> {
    if inheritance_access_from_text(text) is Some {
        None
    } else {
        Some("unknown inheritance access: "@ + text)
    }
}

/// The first bad column of an inheritance row, in column order.
pub open spec fn inheritance_row_error(row: InheritanceRow) -> Option<Seq<char>> {
    first_error(
        seq![
            id_error(row.id@, "inheritance id"@),
            id_error(row.store_id@, "inheritance store id"@),
            json_error(row.inherit_layers, "inherit_layers"@),
            json_error(row.filter, "inheritance filter"@),
            inheritance_access_error(row.access@),
            json_error(row.bubble_up, "bubble_up"@),
            time_error(row.created_at@, "inheritance created_at"@),
        ],
    )
}

/// Decodes an inheritance row; a bad column is an internal error naming it.
pub fn decode_inheritance_row(row: InheritanceRow) -> (r: Result<InheritanceSpec, OmsError>)
    ensures
        r is Err <==> inheritance_row_error(row) is Some,
        r is Err ==> r->Err_0 is Internal && error_payload(r->Err_0) == inheritance_row_error(
            row,
        )->0,
        r is Ok ==> {
            let s = r->Ok_0;
            &&& Ok::<u128, Seq<char>>(s.id) == spec_parse_uuid(row.id@)
            &&& Ok::<u128, Seq<char>>(s.store_id) == spec_parse_uuid(row.store_id@)
            &&& s.tenant_id == row.tenant_id
            &&& s.parent_agent_id == row.parent_agent_id
            &&& s.child_agent_id == row.child_agent_id
            &&& Ok::<Vec<MemoryLayer>, String>(s.inherit_layers) == row.inherit_layers
            &&& Ok::<InheritanceFilter, String>(s.filter) == row.filter
            &&& Some(s.access) == inheritance_access_from_text(row.access@)
            &&& Ok::<BubbleUpConfig, String>(s.bubble_up) == row.bubble_up
            &&& s.created_at == row.created_at
        },
{
    let ghost errs = seq![
        id_error(row.id@, "inheritance id"@),
        id_error(row.store_id@, "inheritance store id"@),
        json_error(row.inherit_layers, "inherit_layers"@),
        json_error(row.filter, "inheritance filter"@),
        inheritance_access_error(row.access@),
        json_error(row.bubble_up, "bubble_up"@),
        time_error(row.created_at@, "inheritance created_at"@),
    ];
    proof {
        lemma_first_error_unfold(errs, 7);
    }
    let id = decode_id(row.id.as_str(), "inheritance id")?;
    let store_id = decode_id(row.store_id.as_str(), "inheritance store id")?;
    let inherit_layers = decode_json(row.inherit_layers, "inherit_layers")?;
    let filter = decode_json(row.filter, "inheritance filter")?;
    let access = parse_inheritance_access(row.access.as_str())?;
    let bubble_up = decode_json(row.bubble_up, "bubble_up")?;
    decode_time(row.created_at.as_str(), "inheritance created_at")?;
    Ok(
        InheritanceSpec {
            id,
            store_id,
            tenant_id: row.tenant_id,
            parent_agent_id: row.parent_agent_id,
            child_agent_id: row.child_agent_id,
            inherit_layers,
            filter,
            access,
            bubble_up,
            created_at: row.created_at,
        },
    )
}

/// A stored participant row.
pub struct ParticipantRow {
    pub agent_id: String,
    pub access: String,
    pub joined_at: String,
}

/// The first bad column of a participant row, in column order.
pub open spec fn participant_row_error(row: ParticipantRow) -> Option<Seq<char>> {
    first_error(
        seq![
            if participant_access_from_text(row.access@) is Some {
                None
            } else {
                Some("unknown participant access: "@ + row.access@)
            },
            time_error(row.joined_at@, "participant joined_at"@),
        ],
    )
}

/// Decodes a participant row; a bad column is an internal error naming it.
pub fn decode_participant_row(row: ParticipantRow) -> (r: Result<SpaceParticipant, OmsError>)
    ensures
        r is Err <==> participant_row_error(row) is Some,
        r is Err ==> r->Err_0 is Internal && error_payload(r->Err_0) == participant_row_error(
            row,
        )->0,
        r is Ok ==> r->Ok_0.agent_id == row.agent_id && Some(r->Ok_0.access)
            == participant_access_from_text(row.access@) && r->Ok_0.joined_at == row.joined_at,
{
    let ghost errs = seq![
        if participant_access_from_text(row.access@) is Some {
            None
        } else {
            Some("unknown participant access: "@ + row.access@)
        },
        time_error(row.joined_at@, "participant joined_at"@),
    ];
    proof {
        lemma_first_error_unfold(errs, 2);
    }
    let access = parse_participant_access(row.access.as_str())?;
    decode_time(row.joined_at.as_str(), "participant joined_at")?;
    Ok(SpaceParticipant { agent_id: row.agent_id, access, joined_at: row.joined_at })
}

/// A stored shared space row.
pub struct SpaceRow {
    pub id: String,
    pub name: String,
    pub store_id: String,
    pub tenant_id: String,
    pub scope: Result<MemoryScope, String>,
    pub layer: String,
    pub conflict_resolution: String,
    pub notify_on_write: i64,
    pub notify_on_delete: i64,
    pub created_at: String,
    pub updated_at: String,
}

/// The first bad column of a shared space row, in column order.
pub open spec fn space_row_error(row: SpaceRow) -> Option<Seq<char>> {
    first_error(
        seq![
            id_error(row.id@, "shared space id"@),
            id_error(row.store_id@, "shared space store id"@),
            json_error(row.scope, "shared space scope"@),
            layer_error(row.layer@),
            if conflict_resolution_from_text(row.conflict_resolution@) is Some {
                None
            } else {
                Some("unknown conflict resolution: "@ + row.conflict_resolution@)
            },
            time_error(row.created_at@, "shared space created_at"@),
            time_error(row.updated_at@, "shared space updated_at"@),
        ],
    )
}

/// Decodes a shared space row with its participants; a bad column is an
/// internal error naming it.
pub fn decode_space_row(row: SpaceRow, participants: Vec<SpaceParticipant>) -> (r: Result<
    SharedSpace,
    OmsError,
>)
    ensures
        r is Err <==> space_row_error(row) is Some,
        r is Err ==> r->Err_0 is Internal && error_payload(r->Err_0) == space_row_error(row)->0,
        r is Ok ==> {
            let s = r->Ok_0;
            &&& Ok::<u128, Seq<char>>(s.id) == spec_parse_uuid(row.id@)
            &&& s.name == row.name
            &&& Ok::<u128, Seq<char>>(s.store_id) == spec_parse_uuid(row.store_id@)
            &&& s.tenant_id == row.tenant_id
            &&& Ok::<MemoryScope, String>(s.scope) == row.scope
            &&& Some(s.layer) == layer_from_text(row.layer@)
            &&& Some(s.conflict_resolution) == conflict_resolution_from_text(
                row.conflict_resolution@,
            )
            &&& s.notify_on_write == (row.notify_on_write != 0)
            &&& s.notify_on_delete == (row.notify_on_delete != 0)
            &&& s.participants == participants
            &&& s.created_at == row.created_at
            &&& s.updated_at == row.updated_at
        },
{
    let ghost errs = seq![
        id_error(row.id@, "shared space id"@),
        id_error(row.store_id@, "shared space store id"@),
        json_error(row.scope, "shared space scope"@),
        layer_error(row.layer@),
        if conflict_resolution_from_text(row.conflict_resolution@) is Some {
            None
        } else {
            Some("unknown conflict resolution: "@ + row.conflict_resolution@)
        },
        time_error(row.created_at@, "shared space created_at"@),
        time_error(row.updated_at@, "shared space updated_at"@),
    ];
    proof {
        lemma_first_error_unfold(errs, 7);
    }
    let id = decode_id(row.id.as_str(), "shared space id")?;
    let store_id = decode_id(row.store_id.as_str(), "shared space store id")?;
    let scope = decode_json(row.scope, "shared space scope")?;
    let layer = parse_layer(row.layer.as_str())?;
    let conflict_resolution = parse_conflict_resolution(row.conflict_resolution.as_str())?;
    decode_time(row.created_at.as_str(), "shared space created_at")?;
    decode_time(row.updated_at.as_str(), "shared space updated_at")?;
    Ok(
        SharedSpace {
            id,
            name: row.name,
            store_id,
            tenant_id: row.tenant_id,
            scope,
            layer,
            conflict_resolution,
            notify_on_write: row.notify_on_write != 0,
            notify_on_delete: row.notify_on_delete != 0,
            participants,
            created_at: row.created_at,
            updated_at: row.updated_at,
        },
    )
}

/// A stored edge row.
pub struct EdgeRow {
    pub id: String,
    pub source_memory_id: String,
    pub target_memory_id: String,
    pub relation_type: String,
    pub weight: u64,
    pub metadata: Result<Json, String>,
    pub created_at: String,
}

/// The first bad endpoint column of an edge row, in column order.
pub open spec fn edge_link_error(row: EdgeRow) -> Option<Seq<char>> {
    first_error(
        seq![
            id_error(row.id@, "edge id"@),
            id_error(row.source_memory_id@, "source id"@),
            id_error(row.target_memory_id@, "target id"@),
        ],
    )
}

/// Reads the id and endpoints of an edge row, which a traversal needs for
/// every edge it loads.
pub fn decode_edge_link(row: &EdgeRow) -> (r: Result<EdgeLink, OmsError>)
    ensures
        r is Err <==> edge_link_error(*row) is Some,
        r is Err ==> r->Err_0 is Internal && error_payload(r->Err_0) == edge_link_error(*row)->0,
        r is Ok ==> Ok::<u128, Seq<char>>(r->Ok_0.id) == spec_parse_uuid(row.id@) && Ok::<
            u128,
            Seq<char>,
        >(r->Ok_0.source) == spec_parse_uuid(row.source_memory_id@) && Ok::<u128, Seq<char>>(
            r->Ok_0.target,
        ) == spec_parse_uuid(row.target_memory_id@),
{
    let ghost errs = seq![
        id_error(row.id@, "edge id"@),
        id_error(row.source_memory_id@, "source id"@),
        id_error(row.target_memory_id@, "target id"@),
    ];
    proof {
        lemma_first_error_unfold(errs, 3);
    }
    let id = decode_id(row.id.as_str(), "edge id")?;
    let source = decode_id(row.source_memory_id.as_str(), "source id")?;
    let target = decode_id(row.target_memory_id.as_str(), "target id")?;
    Ok(EdgeLink { id, source, target })
}

/// The first bad content column of an edge row being reported.
pub open spec fn edge_body_error(row: EdgeRow) -> Option<Seq<char>> {
    first_error(seq![edge_metadata_error(row), time_error(row.created_at@, "edge created_at"@)])
}

/// The error text of a bad edge metadata column, if it is bad.
pub open spec fn edge_metadata_error(row: EdgeRow) -> Option<Seq<char>> {
    match row.metadata {
        Ok(_) => None,
        Err(e) => Some("invalid edge metadata: "@ + e@),
    }
}

/// Builds the edge a traversal reports from a row whose endpoints were read
/// as `link`.
pub fn decode_edge(row: EdgeRow, link: EdgeLink, tenant_id: &str, store_id: u128) -> (r: Result<
    GraphEdge,
    OmsError,
>)
    ensures
        r is Err <==> edge_body_error(row) is Some,
        r is Err ==> r->Err_0 is Internal && error_payload(r->Err_0) == edge_body_error(row)->0,
        r is Ok ==> {
            let e = r->Ok_0;
            &&& e.id == link.id
            &&& e.store_id == store_id
            &&& e.tenant_id@ == tenant_id@
            &&& e.source_memory_id == link.source
            &&& e.target_memory_id == link.target
            &&& e.relation_type == row.relation_type
            &&& e.weight == row.weight
            &&& Ok::<Json, String>(e.metadata) == row.metadata
            &&& e.created_at == row.created_at
        },
{
    let ghost errs = seq![edge_metadata_error(row), time_error(row.created_at@, "edge created_at"@)];
    proof {
        lemma_first_error_unfold(errs, 2);
    }
    let metadata = match row.metadata {
        Ok(m) => m,
        Err(e) => {
            return Err(OmsError::Internal(concat2("invalid edge metadata: ", e.as_str())));
        },
    };
    decode_time(row.created_at.as_str(), "edge created_at")?;
    Ok(
        GraphEdge {
            id: link.id,
            store_id,
            tenant_id: tenant_id.to_owned(),
            source_memory_id: link.source,
            target_memory_id: link.target,
            relation_type: row.relation_type,
            weight: row.weight,
            metadata,
            created_at: row.created_at,
        },
    )
}

} // verus!
