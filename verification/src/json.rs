//! Memory content as a JSON tree, its compact text, and the text that is
//! embedded for it.
use crate::ids::hex_char;
use crate::text::{chars_of, join, join_spec, string_from_chars, views};
use vstd::prelude::*;

verus! {

/// What `serde_json::from_str::<Vec<String>>` gives for a text: the strings
/// of a JSON array of strings, or the text of the error it reports.
pub uninterp spec fn spec_parse_string_list(text: Seq<char>) -> Result<Seq<Seq<char>>, Seq<char>>;

/// A parsed list with its strings and error text viewed as characters.
pub open spec fn string_list_view(r: Result<Vec<String>, String>) -> Result<
    Seq<Seq<char>>,
    Seq<char>,
> {
    match r {
        Ok(v) => Ok(views(v@)),
        Err(e) => Err(e@),
    }
}

/// Reads a JSON array of strings with `serde_json::from_str`; on failure
/// gives the displayed text of the parser's error.
#[verifier::external_body]
pub(crate) fn parse_string_list(text: &str) -> (r: Result<Vec<String>, String>)
    ensures
        string_list_view(r) == spec_parse_string_list(text@),
{
    match serde_json::from_str::<Vec<String>>(text) {
        Ok(v) => Ok(v),
        Err(e) => Err(e.to_string()),
    }
}

/// A JSON value. Object members keep the order the content gives them;
/// a number holds its own JSON text.
#[derive(Debug, PartialEq)]
pub enum Json {
    Null,
    Bool(bool),
    Number(String),
    String(String),
    Array(Vec<Json>),
    Object(Vec<(String, Json)>),
}

/// The string leaves of a JSON value, depth first, in order.
pub open spec fn leaves(v: Json) -> Seq<Seq<char>>
    decreases v,
{
    match v {
        Json::String(s) => seq![s@],
        Json::Array(a) => leaves_list(a@),
        Json::Object(o) => leaves_fields(o@),
        _ => Seq::empty(),
    }
}

/// The string leaves of a list of values, in order.
pub open spec fn leaves_list(xs: Seq<Json>) -> Seq<Seq<char>>
    decreases xs,
{
    if xs.len() == 0 {
        Seq::empty()
    } else {
        leaves_list(xs.drop_last()) + leaves(xs.last())
    }
}

/// The string leaves of a list of object members' values, in order.
pub open spec fn leaves_fields(xs: Seq<(String, Json)>) -> Seq<Seq<char>>
    decreases xs,
{
    if xs.len() == 0 {
        Seq::empty()
    } else {
        leaves_fields(xs.drop_last()) + leaves(xs.last().1)
    }
}

/// The escape sequence JSON text uses for one character of a string.
pub open spec fn escape_char(c: char) -> Seq<char> {
    if c == '"' {
        seq!['\\', '"']
    } else if c == '\\' {
        seq!['\\', '\\']
    } else if c == '\u{8}' {
        seq!['\\', 'b']
    } else if c == '\t' {
        seq!['\\', 't']
    } else if c == '\n' {
        seq!['\\', 'n']
    } else if c == '\u{c}' {
        seq!['\\', 'f']
    } else if c == '\r' {
        seq!['\\', 'r']
    } else if (c as u32) < 0x20 {
        seq!['\\', 'u', '0', '0', hex_char(((c as u32) / 16) as int), hex_char(((c as u32) % 16) as int)]
    } else {
        seq![c]
    }
}

/// A string's characters with JSON escapes applied.
pub open spec fn escape_text(s: Seq<char>) -> Seq<char>
    decreases s.len(),
{
    if s.len() == 0 {
        Seq::empty()
    } else {
        escape_text(s.drop_last()) + escape_char(s.last())
    }
}

/// A string as a JSON string literal.
pub open spec fn quoted(s: Seq<char>) -> Seq<char> {
    seq!['"'] + escape_text(s) + seq!['"']
}

/// The compact JSON text of a value, as `serde_json::to_string` writes it.
pub open spec fn json_text(v: Json) -> Seq<char>
    decreases v,
{
    match v {
        Json::Null => seq!['n', 'u', 'l', 'l'],
        Json::Bool(b) => if b {
            seq!['t', 'r', 'u', 'e']
        } else {
            seq!['f', 'a', 'l', 's', 'e']
        },
        Json::Number(t) => t@,
        Json::String(s) => quoted(s@),
        Json::Array(a) => seq!['['] + items_text(a@) + seq![']'],
        Json::Object(o) => seq!['{'] + members_text(o@) + seq!['}'],
    }
}

/// The compact JSON text of array items, comma separated.
pub open spec fn items_text(xs: Seq<Json>) -> Seq<char>
    decreases xs,
{
    if xs.len() == 0 {
        Seq::empty()
    } else if xs.len() == 1 {
        json_text(xs[0])
    } else {
        items_text(xs.drop_last()) + seq![','] + json_text(xs.last())
    }
}

/// The compact JSON text of object members, comma separated.
pub open spec fn members_text(xs: Seq<(String, Json)>) -> Seq<char>
    decreases xs,
{
    if xs.len() == 0 {
        Seq::empty()
    } else if xs.len() == 1 {
        quoted(xs[0].0@) + seq![':'] + json_text(xs[0].1)
    } else {
        members_text(xs.drop_last()) + seq![','] + quoted(xs.last().0@) + seq![':'] + json_text(
            xs.last().1,
        )
    }
}

/// The text that is embedded for a content value: a string as it is; for an
/// object or array, its string leaves joined by single spaces, or its JSON
/// text when it has none; for anything else, its JSON text.
pub open spec fn content_text(v: Json) -> Seq<char> {
    match v {
        Json::String(s) => s@,
        Json::Array(_) => if leaves(v).len() == 0 {
            json_text(v)
        } else {
            join_spec(leaves(v), seq![' '])
        },
        Json::Object(_) => if leaves(v).len() == 0 {
            json_text(v)
        } else {
            join_spec(leaves(v), seq![' '])
        },
        _ => json_text(v),
    }
}

/// Appends the characters of `s`.
fn push_str(out: &mut Vec<char>, s: &str)
    ensures
        final(out)@ == old(out)@ + s@,
{
    let mut cs = chars_of(s);
    out.append(&mut cs);
}

/// Appends the escape sequence for `c`.
fn push_escaped_char(out: &mut Vec<char>, c: char)
    ensures
        final(out)@ == old(out)@ + escape_char(c),
{
    if c == '"' {
        out.push('\\');
        out.push('"');
    } else if c == '\\' {
        out.push('\\');
        out.push('\\');
    } else if c == '\u{8}' {
        out.push('\\');
        out.push('b');
    } else if c == '\t' {
        out.push('\\');
        out.push('t');
    } else if c == '\n' {
        out.push('\\');
        out.push('n');
    } else if c == '\u{c}' {
        out.push('\\');
        out.push('f');
    } else if c == '\r' {
        out.push('\\');
        out.push('r');
    } else if (c as u32) < 0x20 {
        let code = c as u32;
        out.push('\\');
        out.push('u');
        out.push('0');
        out.push('0');
        out.push(hex_digit(code / 16));
        out.push(hex_digit(code % 16));
    } else {
        out.push(c);
    }
    proof {
        assert(final(out)@ =~= old(out)@ + escape_char(c));
    }
}

/// The lowercase hexadecimal digit for `n`.
pub fn hex_digit(n: u32) -> (c: char)
    requires
        n < 16,
    ensures
        c == hex_char(n as int),
{
    match n {
        0 => '0',
        1 => '1',
        2 => '2',
        3 => '3',
        4 => '4',
        5 => '5',
        6 => '6',
        7 => '7',
        8 => '8',
        9 => '9',
        10 => 'a',
        11 => 'b',
        12 => 'c',
        13 => 'd',
        14 => 'e',
        _ => 'f',
    }
}

/// Appends `s` as a JSON string literal.
fn push_quoted(out: &mut Vec<char>, s: &str)
    ensures
        final(out)@ == old(out)@ + quoted(s@),
{
    let cs = chars_of(s);
    out.push('"');
    let ghost start = out@;
    let mut i: usize = 0;
    while i < cs.len()
        invariant
            0 <= i <= cs.len(),
            cs@ == s@,
            out@ == start + escape_text(cs@.take(i as int)),
        decreases cs.len() - i,
    {
        proof {
            assert(cs@.take(i + 1).drop_last() == cs@.take(i as int));
            assert(cs@.take(i + 1).last() == cs@[i as int]);
        }
        push_escaped_char(out, cs[i]);
        i = i + 1;
    }
    out.push('"');
    proof {
        assert(cs@.take(cs@.len() as int) == cs@);
        assert(final(out)@ =~= old(out)@ + quoted(s@));
    }
}

/// Appends the compact JSON text of `v`.
#[verifier::loop_isolation(false)]
#[verifier::spinoff_prover]
#[verifier::rlimit(60)]
pub fn write_json(v: &Json, out: &mut Vec<char>)
    ensures
        final(out)@ == old(out)@ + json_text(*v),
    decreases v,
{
    match v {
        Json::Null => {
            out.push('n');
            out.push('u');
            out.push('l');
            out.push('l');
        },
        Json::Bool(b) => {
            if *b {
                out.push('t');
                out.push('r');
                out.push('u');
                out.push('e');
            } else {
                out.push('f');
                out.push('a');
                out.push('l');
                out.push('s');
                out.push('e');
            }
        },
        Json::Number(t) => {
            push_str(out, t.as_str());
        },
        Json::String(s) => {
            push_quoted(out, s.as_str());
        },
        Json::Array(a) => {
            out.push('[');
            let ghost start = out@;
            let mut i: usize = 0;
            while i < a.len()
                invariant
                    0 <= i <= a.len(),
                    out@ == start + items_text(a@.take(i as int)),
                decreases a.len() - i,
            {
                proof {
                    assert(a@.take(i + 1).drop_last() == a@.take(i as int));
                    assert(a@.take(i + 1).last() == a@[i as int]);
                    assert(decreases_to!(*v => (*v)->Array_0));
                    assert(decreases_to!(*a => a@));
                    assert(decreases_to!(a@ => a@[i as int]));
                    assert(decreases_to!(*v => a@[i as int]));
                }
                if i > 0 {
                    out.push(',');
                }
                write_json(&a[i], out);
                proof {
                    if i == 0 {
                        assert(a@.take(1)[0] == a@[0]);
                    }
                }
                i = i + 1;
            }
            out.push(']');
            proof {
                assert(a@.take(a@.len() as int) == a@);
            }
        },
        Json::Object(o) => {
            out.push('{');
            let ghost start = out@;
            let mut i: usize = 0;
            while i < o.len()
                invariant
                    0 <= i <= o.len(),
                    out@ == start + members_text(o@.take(i as int)),
                decreases o.len() - i,
            {
                proof {
                    assert(o@.take(i + 1).drop_last() == o@.take(i as int));
                    assert(o@.take(i + 1).last() == o@[i as int]);
                    assert(decreases_to!(*v => (*v)->Object_0));
                    assert(decreases_to!(*o => o@));
                    assert(decreases_to!(o@ => o@[i as int]));
                    assert(decreases_to!(o@[i as int] => o@[i as int].1));
                    assert(decreases_to!(*v => o@[i as int].1));
                }
                if i > 0 {
                    out.push(',');
                }
                let (k, x) = &o[i];
                push_quoted(out, k.as_str());
                out.push(':');
                write_json(x, out);
                proof {
                    if i == 0 {
                        assert(o@.take(1)[0] == o@[0]);
                    }
                }
                i = i + 1;
            }
            out.push('}');
            proof {
                assert(o@.take(o@.len() as int) == o@);
            }
        },
    }
    proof {
        assert(final(out)@ =~= old(out)@ + json_text(*v));
    }
}

/// The compact JSON text of `v`, as `serde_json::to_string` writes it.
pub fn to_json_string(v: &Json) -> (s: String)
    ensures
        s@ == json_text(*v),
{
    let mut out: Vec<char> = Vec::new();
    write_json(v, &mut out);
    string_from_chars(out.as_slice())
}

/// Appends the string leaves of `value`, depth first.
#[verifier::loop_isolation(false)]
fn collect_string_leaves(value: &Json, out: &mut Vec<String>)
    ensures
        views(final(out)@) == views(old(out)@) + leaves(*value),
    decreases value,
{
    match value {
        Json::String(s) => {
            out.push(s.clone());
            proof {
                assert(views(final(out)@) =~= views(old(out)@) + leaves(*value));
            }
        },
        Json::Array(a) => {
            let mut i: usize = 0;
            while i < a.len()
                invariant
                    0 <= i <= a.len(),
                    views(out@) == views(old(out)@) + leaves_list(a@.take(i as int)),
                decreases a.len() - i,
            {
                proof {
                    assert(a@.take(i + 1).drop_last() == a@.take(i as int));
                    assert(a@.take(i + 1).last() == a@[i as int]);
                    assert(decreases_to!(*value => (*value)->Array_0));
                    assert(decreases_to!(*a => a@));
                    assert(decreases_to!(a@ => a@[i as int]));
                    assert(decreases_to!(*value => a@[i as int]));
                }
                collect_string_leaves(&a[i], out);
                i = i + 1;
            }
            proof {
                assert(a@.take(a@.len() as int) == a@);
            }
        },
        Json::Object(o) => {
            let mut i: usize = 0;
            while i < o.len()
                invariant
                    0 <= i <= o.len(),
                    views(out@) == views(old(out)@) + leaves_fields(o@.take(i as int)),
                decreases o.len() - i,
            {
                proof {
                    assert(o@.take(i + 1).drop_last() == o@.take(i as int));
                    assert(o@.take(i + 1).last() == o@[i as int]);
                    assert(decreases_to!(*value => (*value)->Object_0));
                    assert(decreases_to!(*o => o@));
                    assert(decreases_to!(o@ => o@[i as int]));
                    assert(decreases_to!(o@[i as int] => o@[i as int].1));
                    assert(decreases_to!(*value => o@[i as int].1));
                }
                collect_string_leaves(&o[i].1, out);
                i = i + 1;
            }
            proof {
                assert(o@.take(o@.len() as int) == o@);
            }
        },
        _ => {
            proof {
                assert(views(final(out)@) =~= views(old(out)@) + leaves(*value));
            }
        },
    }
}

/// Extracts embeddable text from a content value: a string is used as it
/// is; objects and arrays give their string leaves joined by spaces, or
/// their JSON text when they have none; anything else gives its JSON text.
pub fn content_to_text(content: &Json) -> (s: String)
    ensures
        s@ == content_text(*content),
{
    match content {
        Json::String(s) => crate::text::owned(s.as_str()),
        Json::Array(_) | Json::Object(_) => {
            let mut parts: Vec<String> = Vec::new();
            collect_string_leaves(content, &mut parts);
            proof {
                assert(views(parts@) =~= leaves(*content));
                reveal_strlit(" ");
                assert(" "@ =~= seq![' ']);
            }
            if parts.len() == 0 {
                to_json_string(content)
            } else {
                join(&parts, " ")
            }
        },
        _ => to_json_string(content),
    }
}

/// A text as a JSON string literal.
pub fn quote_string(s: &str) -> (r: String)
    ensures
        r@ == quoted(s@),
{
    let mut out: Vec<char> = Vec::new();
    push_quoted(&mut out, s);
    string_from_chars(out.as_slice())
}

/// The members of a JSON object whose values are all strings, comma
/// separated, in the given order.
pub open spec fn string_members(kv: Seq<(Seq<char>, Seq<char>)>) -> Seq<char>
    decreases kv.len(),
{
    if kv.len() == 0 {
        Seq::empty()
    } else if kv.len() == 1 {
        quoted(kv[0].0) + seq![':'] + quoted(kv[0].1)
    } else {
        string_members(kv.drop_last()) + seq![','] + quoted(kv.last().0) + seq![':'] + quoted(
            kv.last().1,
        )
    }
}

/// The views of key-value pairs.
pub open spec fn pair_views(kv: Seq<(String, String)>) -> Seq<(Seq<char>, Seq<char>)> {
    kv.map_values(|p: (String, String)| (p.0@, p.1@))
}

/// The compact JSON text of an object with string values, members in the
/// given order (the order `serde_json` keeps its map in is that of the
/// keys, so callers pass them sorted).
pub fn string_object(pairs: &Vec<(String, String)>) -> (r: String)
    ensures
        r@ == seq!['{'] + string_members(pair_views(pairs@)) + seq!['}'],
{
    let mut out: Vec<char> = Vec::new();
    out.push('{');
    let mut i: usize = 0;
    while i < pairs.len()
        invariant
            0 <= i <= pairs.len(),
            out@ == seq!['{'] + string_members(pair_views(pairs@.take(i as int))),
        decreases pairs.len() - i,
    {
        proof {
            let t = pair_views(pairs@.take(i + 1));
            assert(t.drop_last() =~= pair_views(pairs@.take(i as int)));
            assert(t.last() == (pairs@[i as int].0@, pairs@[i as int].1@));
            if i == 0 {
                assert(t.len() == 1);
            }
        }
        if i > 0 {
            out.push(',');
        }
        push_quoted(&mut out, pairs[i].0.as_str());
        out.push(':');
        push_quoted(&mut out, pairs[i].1.as_str());
        i = i + 1;
    }
    out.push('}');
    proof {
        assert(pairs@.take(pairs@.len() as int) == pairs@);
    }
    string_from_chars(out.as_slice())
}

/// The quoted strings of a JSON array, separated by commas.
pub open spec fn quoted_items(items: Seq<Seq<char>>) -> Seq<char>
    decreases items.len(),
{
    if items.len() == 0 {
        Seq::empty()
    } else if items.len() == 1 {
        quoted(items[0])
    } else {
        quoted_items(items.drop_last()) + seq![','] + quoted(items.last())
    }
}

/// The compact JSON text of an array of strings, as `serde_json` writes a
/// `Vec<String>`: `["a","b"]`.
pub fn string_list_json(items: &Vec<String>) -> (r: String)
    ensures
        r@ == seq!['['] + quoted_items(views(items@)) + seq![']'],
{
    let mut out: Vec<char> = Vec::new();
    out.push('[');
    let mut i: usize = 0;
    while i < items.len()
        invariant
            0 <= i <= items.len(),
            out@ == seq!['['] + quoted_items(views(items@.take(i as int))),
        decreases items.len() - i,
    {
        proof {
            let t = views(items@.take(i + 1));
            assert(t.drop_last() =~= views(items@.take(i as int)));
            assert(t.last() == items@[i as int]@);
            if i == 0 {
                assert(t.len() == 1);
            }
        }
        if i > 0 {
            out.push(',');
        }
        push_quoted(&mut out, items[i].as_str());
        i = i + 1;
    }
    out.push(']');
    proof {
        assert(items@.take(items@.len() as int) == items@);
    }
    string_from_chars(out.as_slice())
}

} // verus!
