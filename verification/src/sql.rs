//! The SQL the SQLite backend sends: escaping of user text for `LIKE` and
//! full-text queries, and the filter conditions and bind values of its
//! listing, search, audit and purge statements.
use crate::text::{
    chars_of, concat2, concat3, is_whitespace, is_ws, join, join_spec, opt_view, string_from_chars,
    views,
};
use crate::error::{error_payload, OmsError};
use crate::audit::{memory_text, AuditFilter};
use crate::ids::{uuid_text, uuid_to_string};
use crate::text::{repeat_join, repeat_join_str};
use crate::model::{layer_text, MemoryLayer};
use crate::scope::{coalesce, names_sub_tenant_level, same_upsert_scope, MemoryScope};
use crate::store::ListMemoriesFilter;
use vstd::prelude::*;

verus! {

broadcast use vstd::string::group_string_axioms;

/// One character as it stands in a `LIKE` pattern with `\` as the escape
/// character: `\`, `%` and `_` are escaped, anything else is literal.
pub open spec fn like_escape_char(c: char) -> Seq<char> {
    if c == '\\' {
        seq!['\\', '\\']
    } else if c == '%' {
        seq!['\\', '%']
    } else if c == '_' {
        seq!['\\', '_']
    } else {
        seq![c]
    }
}

/// A text with every character escaped for a `LIKE` pattern.
pub open spec fn like_escaped(s: Seq<char>) -> Seq<char>
    decreases s.len(),
{
    if s.len() == 0 {
        Seq::empty()
    } else {
        like_escaped(s.drop_last()) + like_escape_char(s.last())
    }
}

/// Escapes `\`, `%` and `_` with a backslash, so that the text matches only
/// itself inside a `LIKE ... ESCAPE '\'` pattern.
pub fn escape_like(s: &str) -> (r: String)
    ensures
        r@ == like_escaped(s@),
{
    let cs = chars_of(s);
    let mut out: Vec<char> = Vec::new();
    let mut i: usize = 0;
    while i < cs.len()
        invariant
            0 <= i <= cs.len(),
            cs@ == s@,
            out@ == like_escaped(cs@.take(i as int)),
        decreases cs.len() - i,
    {
        let c = cs[i];
        if c == '\\' {
            out.push('\\');
            out.push('\\');
        } else if c == '%' {
            out.push('\\');
            out.push('%');
        } else if c == '_' {
            out.push('\\');
            out.push('_');
        } else {
            out.push(c);
        }
        proof {
            let t = cs@.take(i + 1);
            assert(t.drop_last() == cs@.take(i as int));
            assert(t.last() == c);
        }
        i = i + 1;
    }
    proof {
        assert(cs@.take(cs@.len() as int) == cs@);
    }
    string_from_chars(out.as_slice())
}

/// The `LIKE` pattern that finds `value` as one element of a stored JSON
/// array of strings: the escaped value in double quotes, anywhere.
pub open spec fn like_pattern(value: Seq<char>) -> Seq<char> {
    seq!['%', '"'] + like_escaped(value) + seq!['"', '%']
}

/// Builds the pattern `%"<escaped value>"%`.
pub fn json_element_pattern(value: &str) -> (r: String)
    ensures
        r@ == like_pattern(value@),
{
    let escaped = escape_like(value);
    let mut out = String::new();
    out.append("%\"");
    out.append(escaped.as_str());
    out.append("\"%");
    proof {
        reveal_strlit("%\"");
        reveal_strlit("\"%");
    }
    out
}

/// The maximal runs of non-whitespace characters of a text, in order, as
/// `str::split_whitespace` gives them.
pub open spec fn words(s: Seq<char>) -> Seq<Seq<char>>
    decreases s.len(),
{
    if s.len() == 0 {
        Seq::empty()
    } else if is_ws(s.last()) {
        words(s.drop_last())
    } else if s.len() == 1 || is_ws(s[s.len() - 2]) {
        words(s.drop_last()).push(seq![s.last()])
    } else {
        let w = words(s.drop_last());
        w.update(w.len() - 1, w.last().push(s.last()))
    }
}

/// A word as an FTS5 string: in double quotes, with each double quote
/// inside doubled.
pub open spec fn fts_quoted(word: Seq<char>) -> Seq<char> {
    seq!['"'] + doubled_quotes(word) + seq!['"']
}

/// A text with each double quote doubled.
pub open spec fn doubled_quotes(s: Seq<char>) -> Seq<char>
    decreases s.len(),
{
    if s.len() == 0 {
        Seq::empty()
    } else {
        doubled_quotes(s.drop_last()) + if s.last() == '"' {
            seq!['"', '"']
        } else {
            seq![s.last()]
        }
    }
}

/// The full-text query for user input: each whitespace-separated word as a
/// quoted FTS5 string, joined by single spaces.
pub open spec fn fts_query(input: Seq<char>) -> Seq<char> {
    join_spec(quoted_words(words(input)), seq![' '])
}

/// Each word quoted for FTS5.
pub open spec fn quoted_words(ws: Seq<Seq<char>>) -> Seq<Seq<char>> {
    ws.map_values(|w: Seq<char>| fts_quoted(w))
}

/// Quotes one word for FTS5.
fn quote_fts_word(word: &Vec<char>) -> (r: String)
    ensures
        r@ == fts_quoted(word@),
{
    let mut out: Vec<char> = Vec::new();
    out.push('"');
    let mut i: usize = 0;
    while i < word.len()
        invariant
            0 <= i <= word.len(),
            out@ == seq!['"'] + doubled_quotes(word@.take(i as int)),
        decreases word.len() - i,
    {
        let c = word[i];
        if c == '"' {
            out.push('"');
            out.push('"');
        } else {
            out.push(c);
        }
        proof {
            let t = word@.take(i + 1);
            assert(t.drop_last() == word@.take(i as int));
            assert(t.last() == c);
        }
        i = i + 1;
    }
    out.push('"');
    proof {
        assert(word@.take(word@.len() as int) == word@);
    }
    string_from_chars(out.as_slice())
}

/// Escapes user input for an FTS5 `MATCH` query: each whitespace-separated
/// token is wrapped in double quotes (inner quotes doubled), so that no
/// token can act as an FTS5 operator.
pub fn sanitize_fts5_query(input: &str) -> (r: String)
    ensures
        r@ == fts_query(input@),
{
    let cs = chars_of(input);
    let mut done: Vec<String> = Vec::new();
    let mut cur: Vec<char> = Vec::new();
    let mut in_word = false;
    let mut i: usize = 0;
    while i < cs.len()
        invariant
            0 <= i <= cs.len(),
            cs@ == input@,
            in_word == (i > 0 && !is_ws(cs@[i - 1])),
            in_word ==> cur@.len() > 0,
            !in_word ==> cur@.len() == 0,
            quoted_words(words(cs@.take(i as int))) == if in_word {
                views(done@).push(fts_quoted(cur@))
            } else {
                views(done@)
            },
            in_word ==> words(cs@.take(i as int)).last() == cur@,
            in_word ==> words(cs@.take(i as int)).len() > 0,
        decreases cs.len() - i,
    {
        let c = cs[i];
        let ghost before = cs@.take(i as int);
        let ghost after = cs@.take(i + 1);
        proof {
            assert(after.drop_last() == before);
            assert(after.last() == c);
            if i > 0 {
                assert(after[after.len() - 2] == cs@[i - 1]);
            }
        }
        if is_whitespace(c) {
            if in_word {
                let ghost d0 = done@;
                let q = quote_fts_word(&cur);
                done.push(q);
                cur = Vec::new();
                proof {
                    assert(views(done@) =~= views(d0).push(q@));
                }
            }
            in_word = false;
        } else {
            proof {
                let wb = words(before);
                if in_word {
                    let wa = wb.update(wb.len() - 1, wb.last().push(c));
                    assert(words(after) == wa);
                    assert(quoted_words(wa) =~= quoted_words(wb).drop_last().push(
                        fts_quoted(cur@.push(c)),
                    ));
                } else {
                    assert(words(after) == wb.push(seq![c]));
                    assert(quoted_words(wb.push(seq![c])) =~= quoted_words(wb).push(
                        fts_quoted(seq![c]),
                    ));
                }
            }
            if !in_word {
                proof {
                    assert(cur@.push(c) =~= seq![c]);
                }
            }
            cur.push(c);
            in_word = true;
        }
        i = i + 1;
    }
    if in_word {
        let ghost d0 = done@;
        let q = quote_fts_word(&cur);
        done.push(q);
        proof {
            assert(views(done@) =~= views(d0).push(q@));
        }
    }
    proof {
        assert(cs@.take(cs@.len() as int) == cs@);
        assert(views(done@) =~= quoted_words(words(cs@)));
        reveal_strlit(" ");
        assert(" "@ =~= seq![' ']);
    }
    join(&done, " ")
}

/// The condition of an equality filter on `column`, when it is set.
pub open spec fn eq_conds(prefix: Seq<char>, column: Seq<char>, value: Option<Seq<char>>) -> Seq<
    Seq<char>,
> {
    if value is Some {
        seq![prefix + column + " = ?"@]
    } else {
        Seq::empty()
    }
}

/// The bind value of an equality filter, when it is set.
pub open spec fn eq_binds(value: Option<Seq<char>>) -> Seq<Seq<char>> {
    match value {
        Some(v) => seq![v],
        None => Seq::empty(),
    }
}

/// One `LIKE` condition on `column` for each of `n` values.
pub open spec fn like_conds(prefix: Seq<char>, column: Seq<char>, n: nat) -> Seq<Seq<char>> {
    Seq::new(n, |i: int| prefix + column + " LIKE ? ESCAPE '\\'"@)
}

/// The `LIKE` patterns for a list of values.
pub open spec fn like_binds(values: Seq<Seq<char>>) -> Seq<Seq<char>> {
    values.map_values(|v: Seq<char>| like_pattern(v))
}

/// The values of an optional list, or none.
pub open spec fn opt_list(values: Option<Vec<String>>) -> Seq<Seq<char>> {
    match values {
        Some(v) => views(v@),
        None => Seq::empty(),
    }
}

/// Appends the condition and bind value of an equality filter on `column`
/// when `value` is set.
pub fn push_eq_filter(
    conds: &mut Vec<String>,
    binds: &mut Vec<String>,
    prefix: &str,
    column: &str,
    value: &Option<String>,
)
    ensures
        views(final(conds)@) == views(old(conds)@) + eq_conds(prefix@, column@, opt_view(*value)),
        views(final(binds)@) == views(old(binds)@) + eq_binds(opt_view(*value)),
{
    let ghost c0 = conds@;
    let ghost b0 = binds@;
    if let Some(v) = value {
        conds.push(concat3(prefix, column, " = ?"));
        binds.push(v.clone());
        proof {
            assert(views(conds@) =~= views(c0) + eq_conds(prefix@, column@, opt_view(*value)));
            assert(views(binds@) =~= views(b0) + eq_binds(opt_view(*value)));
        }
    } else {
        proof {
            assert(views(conds@) =~= views(c0) + eq_conds(prefix@, column@, opt_view(*value)));
            assert(views(binds@) =~= views(b0) + eq_binds(opt_view(*value)));
        }
    }
}

/// Appends one `LIKE` condition on `column` per value, each finding the
/// value as an element of the stored JSON array.
pub fn push_like_filters(
    conds: &mut Vec<String>,
    binds: &mut Vec<String>,
    prefix: &str,
    column: &str,
    values: &Option<Vec<String>>,
)
    ensures
        views(final(conds)@) == views(old(conds)@) + like_conds(
            prefix@,
            column@,
            opt_list(*values).len(),
        ),
        views(final(binds)@) == views(old(binds)@) + like_binds(opt_list(*values)),
{
    let ghost c0 = conds@;
    let ghost b0 = binds@;
    match values {
        Some(vs) => {
            let mut i: usize = 0;
            while i < vs.len()
                invariant
                    0 <= i <= vs.len(),
                    views(conds@) == views(c0) + like_conds(prefix@, column@, i as nat),
                    views(binds@) == views(b0) + like_binds(views(vs@.take(i as int))),
                decreases vs.len() - i,
            {
                let ghost cb = conds@;
                let ghost bb = binds@;
                conds.push(concat3(prefix, column, " LIKE ? ESCAPE '\\'"));
                binds.push(json_element_pattern(vs[i].as_str()));
                proof {
                    assert(views(conds@) =~= views(cb).push(conds@.last()@));
                    assert(like_conds(prefix@, column@, (i + 1) as nat) =~= like_conds(
                        prefix@,
                        column@,
                        i as nat,
                    ).push(prefix@ + column@ + " LIKE ? ESCAPE '\\'"@));
                    assert(views(conds@) =~= views(c0) + like_conds(
                        prefix@,
                        column@,
                        (i + 1) as nat,
                    ));
                    assert(views(vs@.take(i + 1)) =~= views(vs@.take(i as int)).push(vs@[i as int]@));
                    assert(views(binds@) =~= views(bb).push(binds@.last()@));
                    assert(views(binds@) =~= views(b0) + like_binds(views(vs@.take(i + 1))));
                }
                i = i + 1;
            }
            proof {
                assert(vs@.take(vs@.len() as int) == vs@);
            }
        },
        None => {
            proof {
                assert(views(conds@) =~= views(c0) + like_conds(prefix@, column@, 0));
                assert(views(binds@) =~= views(b0) + like_binds(Seq::empty()));
            }
        },
    }
}

/// The conditions on the scope levels below the tenant, from broadest to
/// narrowest, for each level the scope sets.
pub open spec fn scope_level_conds(prefix: Seq<char>, s: MemoryScope) -> Seq<Seq<char>> {
    eq_conds(prefix, "scope_org_id"@, opt_view(s.org_id)) + eq_conds(
        prefix,
        "scope_team_id"@,
        opt_view(s.team_id),
    ) + eq_conds(prefix, "scope_project_id"@, opt_view(s.project_id)) + eq_conds(
        prefix,
        "scope_user_id"@,
        opt_view(s.user_id),
    ) + eq_conds(prefix, "scope_agent_id"@, opt_view(s.agent_id)) + eq_conds(
        prefix,
        "scope_session_id"@,
        opt_view(s.session_id),
    ) + eq_conds(prefix, "scope_run_id"@, opt_view(s.run_id))
}

/// The bind values of [`scope_level_conds`], in the same order.
pub open spec fn scope_level_binds(s: MemoryScope) -> Seq<Seq<char>> {
    eq_binds(opt_view(s.org_id)) + eq_binds(opt_view(s.team_id)) + eq_binds(
        opt_view(s.project_id),
    ) + eq_binds(opt_view(s.user_id)) + eq_binds(opt_view(s.agent_id)) + eq_binds(
        opt_view(s.session_id),
    ) + eq_binds(opt_view(s.run_id))
}

/// Appends the conditions and bind values of the scope levels a scope sets.
#[verifier::spinoff_prover]
#[verifier::rlimit(50)]
pub fn push_scope_levels(
    conds: &mut Vec<String>,
    binds: &mut Vec<String>,
    prefix: &str,
    scope: &MemoryScope,
)
    ensures
        views(final(conds)@) == views(old(conds)@) + scope_level_conds(prefix@, *scope),
        views(final(binds)@) == views(old(binds)@) + scope_level_binds(*scope),
{
    let ghost c0 = views(conds@);
    let ghost b0 = views(binds@);
    let ghost mut pc: Seq<Seq<char>> = Seq::empty();
    let ghost mut pb: Seq<Seq<char>> = Seq::empty();
    push_eq_filter(conds, binds, prefix, "scope_org_id", &scope.org_id);
    proof {
        pc = pc + eq_conds(prefix@, "scope_org_id"@, opt_view(scope.org_id));
        pb = pb + eq_binds(opt_view(scope.org_id));
        assert(views(conds@) =~= c0 + pc);
        assert(views(binds@) =~= b0 + pb);
    }
    push_eq_filter(conds, binds, prefix, "scope_team_id", &scope.team_id);
    proof {
        pc = pc + eq_conds(prefix@, "scope_team_id"@, opt_view(scope.team_id));
        pb = pb + eq_binds(opt_view(scope.team_id));
        assert(views(conds@) =~= c0 + pc);
        assert(views(binds@) =~= b0 + pb);
    }
    push_eq_filter(conds, binds, prefix, "scope_project_id", &scope.project_id);
    proof {
        pc = pc + eq_conds(prefix@, "scope_project_id"@, opt_view(scope.project_id));
        pb = pb + eq_binds(opt_view(scope.project_id));
        assert(views(conds@) =~= c0 + pc);
        assert(views(binds@) =~= b0 + pb);
    }
    push_eq_filter(conds, binds, prefix, "scope_user_id", &scope.user_id);
    proof {
        pc = pc + eq_conds(prefix@, "scope_user_id"@, opt_view(scope.user_id));
        pb = pb + eq_binds(opt_view(scope.user_id));
        assert(views(conds@) =~= c0 + pc);
        assert(views(binds@) =~= b0 + pb);
    }
    push_eq_filter(conds, binds, prefix, "scope_agent_id", &scope.agent_id);
    proof {
        pc = pc + eq_conds(prefix@, "scope_agent_id"@, opt_view(scope.agent_id));
        pb = pb + eq_binds(opt_view(scope.agent_id));
        assert(views(conds@) =~= c0 + pc);
        assert(views(binds@) =~= b0 + pb);
    }
    push_eq_filter(conds, binds, prefix, "scope_session_id", &scope.session_id);
    proof {
        pc = pc + eq_conds(prefix@, "scope_session_id"@, opt_view(scope.session_id));
        pb = pb + eq_binds(opt_view(scope.session_id));
        assert(views(conds@) =~= c0 + pc);
        assert(views(binds@) =~= b0 + pb);
    }
    push_eq_filter(conds, binds, prefix, "scope_run_id", &scope.run_id);
    proof {
        pc = pc + eq_conds(prefix@, "scope_run_id"@, opt_view(scope.run_id));
        pb = pb + eq_binds(opt_view(scope.run_id));
        assert(views(conds@) =~= c0 + pc);
        assert(views(binds@) =~= b0 + pb);
    }
    proof {
        assert(pc =~= scope_level_conds(prefix@, *scope));
        assert(pb =~= scope_level_binds(*scope));
    }
}

/// A visibility condition on a scope level of a stored memory. When the
/// asking scope sets the level, the memory's level must hold the same value
/// or be unset (a broader memory); when the asking scope leaves it unset,
/// the memory's level must be unset too (a memory more specific than the
/// asking scope is not visible to it).
pub open spec fn visible_conds(prefix: Seq<char>, column: Seq<char>, value: Option<Seq<char>>) -> Seq<
    Seq<char>,
> {
    if value is Some {
        seq!["("@ + prefix + column + " = ? OR "@ + prefix + column + " IS NULL)"@]
    } else {
        seq![prefix + column + " IS NULL"@]
    }
}

/// Appends the visibility condition of a scope level, and its bind value
/// when `value` is set.
pub fn push_visible_filter(
    conds: &mut Vec<String>,
    binds: &mut Vec<String>,
    prefix: &str,
    column: &str,
    value: &Option<String>,
)
    ensures
        views(final(conds)@) == views(old(conds)@) + visible_conds(prefix@, column@, opt_view(*value)),
        views(final(binds)@) == views(old(binds)@) + eq_binds(opt_view(*value)),
{
    let ghost c0 = conds@;
    let ghost b0 = binds@;
    if let Some(v) = value {
        let a = concat3("(", prefix, column);
        let b = concat3(a.as_str(), " = ? OR ", prefix);
        let c = concat3(b.as_str(), column, " IS NULL)");
        proof {
            assert(c@ =~= "("@ + prefix@ + column@ + " = ? OR "@ + prefix@ + column@ + " IS NULL)"@);
        }
        conds.push(c);
        binds.push(v.clone());
        proof {
            assert(views(conds@) =~= views(c0) + visible_conds(prefix@, column@, opt_view(*value)));
            assert(views(binds@) =~= views(b0) + eq_binds(opt_view(*value)));
        }
    } else {
        conds.push(concat3(prefix, column, " IS NULL"));
        proof {
            assert(views(conds@) =~= views(c0) + visible_conds(prefix@, column@, opt_view(*value)));
            assert(views(binds@) =~= views(b0) + eq_binds(opt_view(*value)));
        }
    }
}

/// The visibility conditions of every scope level below the tenant: a
/// memory is visible to an asking scope exactly when each level the memory
/// sets holds the asking scope's value there, that is when the asking scope
/// is equal to or more specific than the memory's.
pub open spec fn scope_visible_conds(prefix: Seq<char>, s: MemoryScope) -> Seq<Seq<char>> {
    visible_conds(prefix, "scope_org_id"@, opt_view(s.org_id)) + visible_conds(
        prefix,
        "scope_team_id"@,
        opt_view(s.team_id),
    ) + visible_conds(prefix, "scope_project_id"@, opt_view(s.project_id)) + visible_conds(
        prefix,
        "scope_user_id"@,
        opt_view(s.user_id),
    ) + visible_conds(prefix, "scope_agent_id"@, opt_view(s.agent_id)) + visible_conds(
        prefix,
        "scope_session_id"@,
        opt_view(s.session_id),
    ) + visible_conds(prefix, "scope_run_id"@, opt_view(s.run_id))
}

/// Appends the visibility conditions of every scope level below the tenant,
/// with the bind values of the levels the scope sets.
#[verifier::spinoff_prover]
#[verifier::rlimit(50)]
pub fn push_scope_visibility(
    conds: &mut Vec<String>,
    binds: &mut Vec<String>,
    prefix: &str,
    scope: &MemoryScope,
)
    ensures
        views(final(conds)@) == views(old(conds)@) + scope_visible_conds(prefix@, *scope),
        views(final(binds)@) == views(old(binds)@) + scope_level_binds(*scope),
{
    let ghost c0 = views(conds@);
    let ghost b0 = views(binds@);
    let ghost mut pc: Seq<Seq<char>> = Seq::empty();
    let ghost mut pb: Seq<Seq<char>> = Seq::empty();
    push_visible_filter(conds, binds, prefix, "scope_org_id", &scope.org_id);
    proof {
        pc = pc + visible_conds(prefix@, "scope_org_id"@, opt_view(scope.org_id));
        pb = pb + eq_binds(opt_view(scope.org_id));
        assert(views(conds@) =~= c0 + pc);
        assert(views(binds@) =~= b0 + pb);
    }
    push_visible_filter(conds, binds, prefix, "scope_team_id", &scope.team_id);
    proof {
        pc = pc + visible_conds(prefix@, "scope_team_id"@, opt_view(scope.team_id));
        pb = pb + eq_binds(opt_view(scope.team_id));
        assert(views(conds@) =~= c0 + pc);
        assert(views(binds@) =~= b0 + pb);
    }
    push_visible_filter(conds, binds, prefix, "scope_project_id", &scope.project_id);
    proof {
        pc = pc + visible_conds(prefix@, "scope_project_id"@, opt_view(scope.project_id));
        pb = pb + eq_binds(opt_view(scope.project_id));
        assert(views(conds@) =~= c0 + pc);
        assert(views(binds@) =~= b0 + pb);
    }
    push_visible_filter(conds, binds, prefix, "scope_user_id", &scope.user_id);
    proof {
        pc = pc + visible_conds(prefix@, "scope_user_id"@, opt_view(scope.user_id));
        pb = pb + eq_binds(opt_view(scope.user_id));
        assert(views(conds@) =~= c0 + pc);
        assert(views(binds@) =~= b0 + pb);
    }
    push_visible_filter(conds, binds, prefix, "scope_agent_id", &scope.agent_id);
    proof {
        pc = pc + visible_conds(prefix@, "scope_agent_id"@, opt_view(scope.agent_id));
        pb = pb + eq_binds(opt_view(scope.agent_id));
        assert(views(conds@) =~= c0 + pc);
        assert(views(binds@) =~= b0 + pb);
    }
    push_visible_filter(conds, binds, prefix, "scope_session_id", &scope.session_id);
    proof {
        pc = pc + visible_conds(prefix@, "scope_session_id"@, opt_view(scope.session_id));
        pb = pb + eq_binds(opt_view(scope.session_id));
        assert(views(conds@) =~= c0 + pc);
        assert(views(binds@) =~= b0 + pb);
    }
    push_visible_filter(conds, binds, prefix, "scope_run_id", &scope.run_id);
    proof {
        pc = pc + visible_conds(prefix@, "scope_run_id"@, opt_view(scope.run_id));
        pb = pb + eq_binds(opt_view(scope.run_id));
        assert(views(conds@) =~= c0 + pc);
        assert(views(binds@) =~= b0 + pb);
    }
    proof {
        assert(pc =~= scope_visible_conds(prefix@, *scope));
        assert(pb =~= scope_level_binds(*scope));
    }
}


/// An optional scope level as `COALESCE(level, '')` reads it: the text, or
/// the empty text when absent.
fn coalesce_text(o: &Option<String>) -> (r: String)
    ensures
        r@ == coalesce(*o),
{
    match o {
        Some(s) => s.clone(),
        None => String::new(),
    }
}

/// The lookup of the entry an upsert replaces: the entry of the store and
/// layer with the same upsert key and the same scope, absent levels read as
/// empty on both sides.
pub open spec fn upsert_lookup_sql() -> Seq<char> {
    "SELECT id, version, content_json, created_at, immutable FROM memories WHERE store_id = ? AND layer = ? AND upsert_key = ? AND scope_tenant_id = ? AND COALESCE(scope_org_id, '') = ? AND COALESCE(scope_team_id, '') = ? AND COALESCE(scope_project_id, '') = ? AND COALESCE(scope_user_id, '') = ? AND COALESCE(scope_agent_id, '') = ? AND COALESCE(scope_session_id, '') = ? AND COALESCE(scope_run_id, '') = ? LIMIT 1"@
}

/// The bind values of [`upsert_lookup_sql`], in order.
pub open spec fn upsert_lookup_binds(
    store_id: u128,
    layer: MemoryLayer,
    upsert_key: Seq<char>,
    scope: MemoryScope,
) -> Seq<Seq<char>> {
    seq![
        uuid_text(store_id),
        layer_text(layer),
        upsert_key,
        scope.tenant_id@,
        coalesce(scope.org_id),
        coalesce(scope.team_id),
        coalesce(scope.project_id),
        coalesce(scope.user_id),
        coalesce(scope.agent_id),
        coalesce(scope.session_id),
        coalesce(scope.run_id),
    ]
}

/// The query that finds the entry an upsert replaces, with its bind values.
pub fn upsert_lookup_query(
    store_id: u128,
    layer: MemoryLayer,
    upsert_key: &str,
    scope: &MemoryScope,
) -> (q: (String, Vec<String>))
    ensures
        q.0@ == upsert_lookup_sql(),
        views(q.1@) == upsert_lookup_binds(store_id, layer, upsert_key@, *scope),
{
    let sql = "SELECT id, version, content_json, created_at, immutable FROM memories WHERE store_id = ? AND layer = ? AND upsert_key = ? AND scope_tenant_id = ? AND COALESCE(scope_org_id, '') = ? AND COALESCE(scope_team_id, '') = ? AND COALESCE(scope_project_id, '') = ? AND COALESCE(scope_user_id, '') = ? AND COALESCE(scope_agent_id, '') = ? AND COALESCE(scope_session_id, '') = ? AND COALESCE(scope_run_id, '') = ? LIMIT 1";
    let binds = vec![
        uuid_to_string(store_id),
        layer.to_string(),
        upsert_key.to_owned(),
        scope.tenant_id.clone(),
        coalesce_text(&scope.org_id),
        coalesce_text(&scope.team_id),
        coalesce_text(&scope.project_id),
        coalesce_text(&scope.user_id),
        coalesce_text(&scope.agent_id),
        coalesce_text(&scope.session_id),
        coalesce_text(&scope.run_id),
    ];
    proof {
        assert(views(binds@) =~= upsert_lookup_binds(store_id, layer, upsert_key@, *scope));
    }
    (sql.to_owned(), binds)
}


/// Two create requests with the same store, layer and upsert key look up
/// the same entry exactly when their scopes are the same once absent levels
/// are read as empty.
pub proof fn lemma_upsert_lookup_same_scope(
    store_id: u128,
    layer: MemoryLayer,
    upsert_key: Seq<char>,
    a: MemoryScope,
    b: MemoryScope,
)
    ensures
        upsert_lookup_binds(store_id, layer, upsert_key, a) == upsert_lookup_binds(
            store_id,
            layer,
            upsert_key,
            b,
        ) <==> same_upsert_scope(a, b),
{
    let x = upsert_lookup_binds(store_id, layer, upsert_key, a);
    let y = upsert_lookup_binds(store_id, layer, upsert_key, b);
    if x == y {
        assert(x[3] == y[3]);
        assert(x[4] == y[4]);
        assert(x[5] == y[5]);
        assert(x[6] == y[6]);
        assert(x[7] == y[7]);
        assert(x[8] == y[8]);
        assert(x[9] == y[9]);
        assert(x[10] == y[10]);
    }
    if same_upsert_scope(a, b) {
        assert(x =~= y);
    }
}

/// The deletion of a store's entries that expired before `now`, with its
/// bind values: entries without an expiry are kept.
pub fn expired_purge_query(tenant_id: &str, store_id: u128, now: &str) -> (q: (String, Vec<String>))
    ensures
        q.0@ == "DELETE FROM memories WHERE store_id = ? AND tenant_id = ? AND expires_at IS NOT NULL AND expires_at < ?"@,
        views(q.1@) == seq![uuid_text(store_id), tenant_id@, now@],
{
    let binds = vec![uuid_to_string(store_id), tenant_id.to_owned(), now.to_owned()];
    proof {
        assert(views(binds@) =~= seq![uuid_text(store_id), tenant_id@, now@]);
    }
    (
        "DELETE FROM memories WHERE store_id = ? AND tenant_id = ? AND expires_at IS NOT NULL AND expires_at < ?".to_owned(),
        binds,
    )
}

/// The text of an optional layer.
pub open spec fn opt_layer_text(l: Option<MemoryLayer>) -> Option<Seq<char>> {
    match l {
        Some(x) => Some(layer_text(x)),
        None => None,
    }
}

/// The text of an optional layer, built.
fn layer_option_text(l: Option<MemoryLayer>) -> (r: Option<String>)
    ensures
        opt_view(r) == opt_layer_text(l),
{
    match l {
        Some(x) => Some(x.to_string()),
        None => None,
    }
}

/// A page's limit and offset: the limit defaults to 50 and is capped at
/// 1000, the offset defaults to 0.
pub fn page_bounds(limit: Option<u32>, offset: Option<u32>) -> (r: (u32, u32))
    ensures
        r.0 == (match limit {
            Some(l) => if l < 1000 {
                l
            } else {
                1000
            },
            None => 50,
        }),
        r.1 == (match offset {
            Some(o) => o,
            None => 0,
        }),
{
    let l = match limit {
        Some(l) => if l < 1000 {
            l
        } else {
            1000
        },
        None => 50,
    };
    let o = match offset {
        Some(o) => o,
        None => 0,
    };
    (l, o)
}

/// A counted, paged listing: the statement that counts the matching rows,
/// the statement that fetches one page of them (its last two parameters are
/// the limit and offset), the bind values of their conditions, and the
/// page bounds.
pub struct PagedQuery {
    pub count_sql: String,
    pub data_sql: String,
    pub binds: Vec<String>,
    pub limit: u32,
    pub offset: u32,
}

/// The conditions of a memory listing: store and tenant, then the layer,
/// owner, each tag, each category and each scope level the filter sets.
pub open spec fn list_conds(f: ListMemoriesFilter) -> Seq<Seq<char>> {
    seq!["store_id = ?"@, "tenant_id = ?"@] + eq_conds(
        Seq::empty(),
        "layer"@,
        opt_layer_text(f.layer),
    ) + eq_conds(Seq::empty(), "owner_agent_id"@, opt_view(f.owner_agent_id)) + like_conds(
        Seq::empty(),
        "tags_json"@,
        opt_list(f.tags).len(),
    ) + like_conds(Seq::empty(), "categories_json"@, opt_list(f.categories).len()) + match f.scope {
        Some(s) => scope_level_conds(Seq::empty(), s),
        None => Seq::empty(),
    }
}

/// The bind values of [`list_conds`], in the same order.
pub open spec fn list_binds(store_id: u128, tenant_id: Seq<char>, f: ListMemoriesFilter) -> Seq<
    Seq<char>,
> {
    seq![uuid_text(store_id), tenant_id] + eq_binds(opt_layer_text(f.layer)) + eq_binds(
        opt_view(f.owner_agent_id),
    ) + like_binds(opt_list(f.tags)) + like_binds(opt_list(f.categories)) + match f.scope {
        Some(s) => scope_level_binds(s),
        None => Seq::empty(),
    }
}

/// The memory listing for a filter: newest first, counted and paged.
pub fn list_memories_query(tenant_id: &str, store_id: u128, filter: &ListMemoriesFilter) -> (q:
    PagedQuery)
    ensures
        q.count_sql@ == "SELECT COUNT(*) as cnt FROM memories WHERE "@ + join_spec(
            list_conds(*filter),
            " AND "@,
        ),
        q.data_sql@ == "SELECT * FROM memories WHERE "@ + join_spec(list_conds(*filter), " AND "@)
            + " ORDER BY created_at DESC LIMIT ? OFFSET ?"@,
        views(q.binds@) == list_binds(store_id, tenant_id@, *filter),
        (q.limit, q.offset) == page_bounds_spec(filter.limit, filter.offset),
{
    let (limit, offset) = page_bounds(filter.limit, filter.offset);
    let mut conds: Vec<String> = vec!["store_id = ?".to_owned(), "tenant_id = ?".to_owned()];
    let mut binds: Vec<String> = vec![uuid_to_string(store_id), tenant_id.to_owned()];
    proof {
        assert(views(conds@) =~= seq!["store_id = ?"@, "tenant_id = ?"@]);
        assert(views(binds@) =~= seq![uuid_text(store_id), tenant_id@]);
    }
    let layer = layer_option_text(filter.layer);
    push_eq_filter(&mut conds, &mut binds, "", "layer", &layer);
    push_eq_filter(&mut conds, &mut binds, "", "owner_agent_id", &filter.owner_agent_id);
    push_like_filters(&mut conds, &mut binds, "", "tags_json", &filter.tags);
    push_like_filters(&mut conds, &mut binds, "", "categories_json", &filter.categories);
    if let Some(scope) = &filter.scope {
        push_scope_levels(&mut conds, &mut binds, "", scope);
    }
    proof {
        reveal_strlit("");
        assert(""@ =~= Seq::<char>::empty());
        assert(views(conds@) =~= list_conds(*filter));
        assert(views(binds@) =~= list_binds(store_id, tenant_id@, *filter));
    }
    let where_clause = join(&conds, " AND ");
    let count_sql = concat2("SELECT COUNT(*) as cnt FROM memories WHERE ", where_clause.as_str());
    let data_sql = concat3(
        "SELECT * FROM memories WHERE ",
        where_clause.as_str(),
        " ORDER BY created_at DESC LIMIT ? OFFSET ?",
    );
    PagedQuery { count_sql, data_sql, binds, limit, offset }
}

/// [`page_bounds`] as a specification.
pub open spec fn page_bounds_spec(limit: Option<u32>, offset: Option<u32>) -> (u32, u32) {
    (
        match limit {
            Some(l) => if l < 1000 {
                l
            } else {
                1000
            },
            None => 50,
        },
        match offset {
            Some(o) => o,
            None => 0,
        },
    )
}

/// The conditions of an audit log query: store and tenant, then the
/// memory, action and agent the filter sets.
pub open spec fn audit_conds(f: AuditFilter) -> Seq<Seq<char>> {
    seq!["store_id = ?"@, "tenant_id = ?"@] + eq_conds(
        Seq::empty(),
        "memory_id"@,
        memory_text(f.memory_id),
    ) + eq_conds(Seq::empty(), "action"@, opt_view(f.action)) + eq_conds(
        Seq::empty(),
        "agent_id"@,
        opt_view(f.agent_id),
    )
}

/// The bind values of [`audit_conds`], in the same order.
pub open spec fn audit_binds(store_id: u128, tenant_id: Seq<char>, f: AuditFilter) -> Seq<
    Seq<char>,
> {
    seq![uuid_text(store_id), tenant_id] + eq_binds(memory_text(f.memory_id)) + eq_binds(
        opt_view(f.action),
    ) + eq_binds(opt_view(f.agent_id))
}

/// The audit log query for a filter: newest first, counted and paged.
pub fn audit_log_query(tenant_id: &str, store_id: u128, filter: &AuditFilter) -> (q: PagedQuery)
    ensures
        q.count_sql@ == "SELECT COUNT(*) AS cnt FROM audit_log WHERE "@ + join_spec(
            audit_conds(*filter),
            " AND "@,
        ),
        q.data_sql@ == "SELECT * FROM audit_log WHERE "@ + join_spec(audit_conds(*filter), " AND "@)
            + " ORDER BY created_at DESC LIMIT ? OFFSET ?"@,
        views(q.binds@) == audit_binds(store_id, tenant_id@, *filter),
        (q.limit, q.offset) == page_bounds_spec(filter.limit, filter.offset),
{
    let (limit, offset) = page_bounds(filter.limit, filter.offset);
    let mut conds: Vec<String> = vec!["store_id = ?".to_owned(), "tenant_id = ?".to_owned()];
    let mut binds: Vec<String> = vec![uuid_to_string(store_id), tenant_id.to_owned()];
    proof {
        assert(views(conds@) =~= seq!["store_id = ?"@, "tenant_id = ?"@]);
        assert(views(binds@) =~= seq![uuid_text(store_id), tenant_id@]);
    }
    let memory = match filter.memory_id {
        Some(m) => Some(uuid_to_string(m)),
        None => None,
    };
    push_eq_filter(&mut conds, &mut binds, "", "memory_id", &memory);
    push_eq_filter(&mut conds, &mut binds, "", "action", &filter.action);
    push_eq_filter(&mut conds, &mut binds, "", "agent_id", &filter.agent_id);
    proof {
        reveal_strlit("");
        assert(""@ =~= Seq::<char>::empty());
        assert(views(conds@) =~= audit_conds(*filter));
        assert(views(binds@) =~= audit_binds(store_id, tenant_id@, *filter));
    }
    let where_clause = join(&conds, " AND ");
    let count_sql = concat2("SELECT COUNT(*) AS cnt FROM audit_log WHERE ", where_clause.as_str());
    let data_sql = concat3(
        "SELECT * FROM audit_log WHERE ",
        where_clause.as_str(),
        " ORDER BY created_at DESC LIMIT ? OFFSET ?",
    );
    PagedQuery { count_sql, data_sql, binds, limit, offset }
}

/// The conditions of a GDPR purge: store and tenant, then each scope level
/// the scope sets, user and agent first.
pub open spec fn purge_conds(s: MemoryScope) -> Seq<Seq<char>> {
    seq!["store_id = ?"@, "tenant_id = ?"@] + purge_levels_conds(s)
}

/// The bind values of [`purge_conds`], in the same order.
pub open spec fn purge_binds(store_id: u128, tenant_id: Seq<char>, s: MemoryScope) -> Seq<
    Seq<char>,
> {
    seq![uuid_text(store_id), tenant_id] + purge_levels_binds(s)
}

/// The conditions on the scope levels a GDPR purge filters by, user and
/// agent first.
pub open spec fn purge_levels_conds(s: MemoryScope) -> Seq<Seq<char>> {
    eq_conds(Seq::empty(), "scope_user_id"@, opt_view(s.user_id)) + eq_conds(
        Seq::empty(),
        "scope_agent_id"@,
        opt_view(s.agent_id),
    ) + eq_conds(Seq::empty(), "scope_org_id"@, opt_view(s.org_id)) + eq_conds(
        Seq::empty(),
        "scope_team_id"@,
        opt_view(s.team_id),
    ) + eq_conds(Seq::empty(), "scope_project_id"@, opt_view(s.project_id)) + eq_conds(
        Seq::empty(),
        "scope_session_id"@,
        opt_view(s.session_id),
    ) + eq_conds(Seq::empty(), "scope_run_id"@, opt_view(s.run_id))
}

/// The bind values of [`purge_levels_conds`], in the same order.
pub open spec fn purge_levels_binds(s: MemoryScope) -> Seq<Seq<char>> {
    eq_binds(opt_view(s.user_id)) + eq_binds(opt_view(s.agent_id)) + eq_binds(opt_view(s.org_id))
        + eq_binds(opt_view(s.team_id)) + eq_binds(opt_view(s.project_id)) + eq_binds(
        opt_view(s.session_id),
    ) + eq_binds(opt_view(s.run_id))
}

/// Whether conditions and bind values hold, at one position, the equality
/// test on `column` with `value`'s text bound to it (when `value` is set).
#[verifier::opaque]
pub open spec fn filters_level(
    conds: Seq<Seq<char>>,
    binds: Seq<Seq<char>>,
    column: Seq<char>,
    value: Option<String>,
) -> bool {
    value matches Some(v) ==> exists|i: int|
        0 <= i < conds.len() && i < binds.len() && #[trigger] conds[i] == column + " = ?"@
            && binds[i] == v@
}

/// An equality filter on its own names its level.
proof fn lemma_level_alone(column: Seq<char>, value: Option<String>)
    ensures
        filters_level(eq_conds(Seq::empty(), column, opt_view(value)), eq_binds(opt_view(value)), column, value),
{
    reveal(filters_level);
    if value is Some {
        let c = eq_conds(Seq::empty(), column, opt_view(value));
        assert(Seq::<char>::empty() + column + " = ?"@ =~= column + " = ?"@);
        assert(c[0] == column + " = ?"@);
    }
}

/// Appending conditions and bind values keeps a level filter where it is.
proof fn lemma_level_append(
    c: Seq<Seq<char>>,
    b: Seq<Seq<char>>,
    column: Seq<char>,
    value: Option<String>,
    x: Seq<Seq<char>>,
    y: Seq<Seq<char>>,
)
    requires
        filters_level(c, b, column, value),
    ensures
        filters_level(c + x, b + y, column, value),
{
    reveal(filters_level);
    if value is Some {
        let i = choose|i: int|
            0 <= i < c.len() && i < b.len() && #[trigger] c[i] == column + " = ?"@ && b[i]
                == value->0@;
        assert((c + x)[i] == c[i]);
        assert((b + y)[i] == b[i]);
    }
}

/// Prepending as many conditions as bind values keeps a level filter,
/// shifted by that many positions.
proof fn lemma_level_prepend(
    c: Seq<Seq<char>>,
    b: Seq<Seq<char>>,
    column: Seq<char>,
    value: Option<String>,
    x: Seq<Seq<char>>,
    y: Seq<Seq<char>>,
)
    requires
        filters_level(c, b, column, value),
        x.len() == y.len(),
    ensures
        filters_level(x + c, y + b, column, value),
{
    reveal(filters_level);
    if value is Some {
        let i = choose|i: int|
            0 <= i < c.len() && i < b.len() && #[trigger] c[i] == column + " = ?"@ && b[i]
                == value->0@;
        assert((x + c)[x.len() + i] == c[i]);
        assert((y + b)[x.len() + i] == b[i]);
    }
}

/// A GDPR purge deletes only what matches every scope level it names: for
/// each level the scope sets, the purge's conditions hold that level's
/// equality test with the level's value bound at the same position, and
/// conditions and bind values stay aligned.
#[verifier::spinoff_prover]
pub proof fn lemma_purge_filters_every_level(store_id: u128, tenant_id: Seq<char>, s: MemoryScope)
    ensures
        purge_conds(s).len() == purge_binds(store_id, tenant_id, s).len(),
        filters_level(purge_conds(s), purge_binds(store_id, tenant_id, s), "scope_org_id"@, s.org_id),
        filters_level(purge_conds(s), purge_binds(store_id, tenant_id, s), "scope_team_id"@, s.team_id),
        filters_level(
            purge_conds(s),
            purge_binds(store_id, tenant_id, s),
            "scope_project_id"@,
            s.project_id,
        ),
        filters_level(purge_conds(s), purge_binds(store_id, tenant_id, s), "scope_user_id"@, s.user_id),
        filters_level(
            purge_conds(s),
            purge_binds(store_id, tenant_id, s),
            "scope_agent_id"@,
            s.agent_id,
        ),
        filters_level(
            purge_conds(s),
            purge_binds(store_id, tenant_id, s),
            "scope_session_id"@,
            s.session_id,
        ),
        filters_level(purge_conds(s), purge_binds(store_id, tenant_id, s), "scope_run_id"@, s.run_id),
{
    let e = Seq::<char>::empty();
    let cu = eq_conds(e, "scope_user_id"@, opt_view(s.user_id));
    let ca = eq_conds(e, "scope_agent_id"@, opt_view(s.agent_id));
    let co = eq_conds(e, "scope_org_id"@, opt_view(s.org_id));
    let ct = eq_conds(e, "scope_team_id"@, opt_view(s.team_id));
    let cp = eq_conds(e, "scope_project_id"@, opt_view(s.project_id));
    let cs = eq_conds(e, "scope_session_id"@, opt_view(s.session_id));
    let cr = eq_conds(e, "scope_run_id"@, opt_view(s.run_id));
    let bu = eq_binds(opt_view(s.user_id));
    let ba = eq_binds(opt_view(s.agent_id));
    let bo = eq_binds(opt_view(s.org_id));
    let bt = eq_binds(opt_view(s.team_id));
    let bp = eq_binds(opt_view(s.project_id));
    let bs = eq_binds(opt_view(s.session_id));
    let br = eq_binds(opt_view(s.run_id));
    let c0 = seq!["store_id = ?"@, "tenant_id = ?"@];
    let b0 = seq![uuid_text(store_id), tenant_id];
    assert(purge_levels_conds(s) == cu + ca + co + ct + cp + cs + cr);
    assert(purge_levels_binds(s) == bu + ba + bo + bt + bp + bs + br);
    assert(cu.len() == bu.len() && ca.len() == ba.len() && co.len() == bo.len() && ct.len()
        == bt.len() && cp.len() == bp.len() && cs.len() == bs.len() && cr.len() == br.len());
    assert(filters_level(purge_conds(s), purge_binds(store_id, tenant_id, s), "scope_user_id"@, s.user_id)) by {
        lemma_level_alone("scope_user_id"@, s.user_id);
        lemma_level_append(cu, bu, "scope_user_id"@, s.user_id, ca, ba);
        lemma_level_append(cu + ca, bu + ba, "scope_user_id"@, s.user_id, co, bo);
        lemma_level_append(cu + ca + co, bu + ba + bo, "scope_user_id"@, s.user_id, ct, bt);
        lemma_level_append(cu + ca + co + ct, bu + ba + bo + bt, "scope_user_id"@, s.user_id, cp, bp);
        lemma_level_append(cu + ca + co + ct + cp, bu + ba + bo + bt + bp, "scope_user_id"@, s.user_id, cs, bs);
        lemma_level_append(cu + ca + co + ct + cp + cs, bu + ba + bo + bt + bp + bs, "scope_user_id"@, s.user_id, cr, br);
        lemma_level_prepend(cu + ca + co + ct + cp + cs + cr, bu + ba + bo + bt + bp + bs + br, "scope_user_id"@, s.user_id, c0, b0);
    }
    assert(filters_level(purge_conds(s), purge_binds(store_id, tenant_id, s), "scope_agent_id"@, s.agent_id)) by {
        lemma_level_alone("scope_agent_id"@, s.agent_id);
        lemma_level_prepend(ca, ba, "scope_agent_id"@, s.agent_id, cu, bu);
        lemma_level_append(cu + ca, bu + ba, "scope_agent_id"@, s.agent_id, co, bo);
        lemma_level_append(cu + ca + co, bu + ba + bo, "scope_agent_id"@, s.agent_id, ct, bt);
        lemma_level_append(cu + ca + co + ct, bu + ba + bo + bt, "scope_agent_id"@, s.agent_id, cp, bp);
        lemma_level_append(cu + ca + co + ct + cp, bu + ba + bo + bt + bp, "scope_agent_id"@, s.agent_id, cs, bs);
        lemma_level_append(cu + ca + co + ct + cp + cs, bu + ba + bo + bt + bp + bs, "scope_agent_id"@, s.agent_id, cr, br);
        lemma_level_prepend(cu + ca + co + ct + cp + cs + cr, bu + ba + bo + bt + bp + bs + br, "scope_agent_id"@, s.agent_id, c0, b0);
    }
    assert(filters_level(purge_conds(s), purge_binds(store_id, tenant_id, s), "scope_org_id"@, s.org_id)) by {
        lemma_level_alone("scope_org_id"@, s.org_id);
        lemma_level_prepend(co, bo, "scope_org_id"@, s.org_id, cu + ca, bu + ba);
        lemma_level_append(cu + ca + co, bu + ba + bo, "scope_org_id"@, s.org_id, ct, bt);
        lemma_level_append(cu + ca + co + ct, bu + ba + bo + bt, "scope_org_id"@, s.org_id, cp, bp);
        lemma_level_append(cu + ca + co + ct + cp, bu + ba + bo + bt + bp, "scope_org_id"@, s.org_id, cs, bs);
        lemma_level_append(cu + ca + co + ct + cp + cs, bu + ba + bo + bt + bp + bs, "scope_org_id"@, s.org_id, cr, br);
        lemma_level_prepend(cu + ca + co + ct + cp + cs + cr, bu + ba + bo + bt + bp + bs + br, "scope_org_id"@, s.org_id, c0, b0);
    }
    assert(filters_level(purge_conds(s), purge_binds(store_id, tenant_id, s), "scope_team_id"@, s.team_id)) by {
        lemma_level_alone("scope_team_id"@, s.team_id);
        lemma_level_prepend(ct, bt, "scope_team_id"@, s.team_id, cu + ca + co, bu + ba + bo);
        lemma_level_append(cu + ca + co + ct, bu + ba + bo + bt, "scope_team_id"@, s.team_id, cp, bp);
        lemma_level_append(cu + ca + co + ct + cp, bu + ba + bo + bt + bp, "scope_team_id"@, s.team_id, cs, bs);
        lemma_level_append(cu + ca + co + ct + cp + cs, bu + ba + bo + bt + bp + bs, "scope_team_id"@, s.team_id, cr, br);
        lemma_level_prepend(cu + ca + co + ct + cp + cs + cr, bu + ba + bo + bt + bp + bs + br, "scope_team_id"@, s.team_id, c0, b0);
    }
    assert(filters_level(purge_conds(s), purge_binds(store_id, tenant_id, s), "scope_project_id"@, s.project_id)) by {
        lemma_level_alone("scope_project_id"@, s.project_id);
        lemma_level_prepend(cp, bp, "scope_project_id"@, s.project_id, cu + ca + co + ct, bu + ba + bo + bt);
        lemma_level_append(cu + ca + co + ct + cp, bu + ba + bo + bt + bp, "scope_project_id"@, s.project_id, cs, bs);
        lemma_level_append(cu + ca + co + ct + cp + cs, bu + ba + bo + bt + bp + bs, "scope_project_id"@, s.project_id, cr, br);
        lemma_level_prepend(cu + ca + co + ct + cp + cs + cr, bu + ba + bo + bt + bp + bs + br, "scope_project_id"@, s.project_id, c0, b0);
    }
    assert(filters_level(purge_conds(s), purge_binds(store_id, tenant_id, s), "scope_session_id"@, s.session_id)) by {
        lemma_level_alone("scope_session_id"@, s.session_id);
        lemma_level_prepend(cs, bs, "scope_session_id"@, s.session_id, cu + ca + co + ct + cp, bu + ba + bo + bt + bp);
        lemma_level_append(cu + ca + co + ct + cp + cs, bu + ba + bo + bt + bp + bs, "scope_session_id"@, s.session_id, cr, br);
        lemma_level_prepend(cu + ca + co + ct + cp + cs + cr, bu + ba + bo + bt + bp + bs + br, "scope_session_id"@, s.session_id, c0, b0);
    }
    assert(filters_level(purge_conds(s), purge_binds(store_id, tenant_id, s), "scope_run_id"@, s.run_id)) by {
        lemma_level_alone("scope_run_id"@, s.run_id);
        lemma_level_prepend(cr, br, "scope_run_id"@, s.run_id, cu + ca + co + ct + cp + cs, bu + ba + bo + bt + bp + bs);
        lemma_level_prepend(cu + ca + co + ct + cp + cs + cr, bu + ba + bo + bt + bp + bs + br, "scope_run_id"@, s.run_id, c0, b0);
    }
}

/// Appends the scope-level conditions and bind values of a GDPR purge.
#[verifier::spinoff_prover]
#[verifier::rlimit(50)]
fn push_purge_levels(conds: &mut Vec<String>, binds: &mut Vec<String>, scope: &MemoryScope)
    ensures
        views(final(conds)@) == views(old(conds)@) + purge_levels_conds(*scope),
        views(final(binds)@) == views(old(binds)@) + purge_levels_binds(*scope),
{
    let ghost c0 = views(conds@);
    let ghost b0 = views(binds@);
    let ghost mut pc: Seq<Seq<char>> = Seq::empty();
    let ghost mut pb: Seq<Seq<char>> = Seq::empty();
    proof {
        reveal_strlit("");
        assert(""@ =~= Seq::<char>::empty());
    }
    push_eq_filter(conds, binds, "", "scope_user_id", &scope.user_id);
    proof {
        pc = pc + eq_conds(Seq::empty(), "scope_user_id"@, opt_view(scope.user_id));
        pb = pb + eq_binds(opt_view(scope.user_id));
        assert(views(conds@) =~= c0 + pc);
        assert(views(binds@) =~= b0 + pb);
    }
    push_eq_filter(conds, binds, "", "scope_agent_id", &scope.agent_id);
    proof {
        pc = pc + eq_conds(Seq::empty(), "scope_agent_id"@, opt_view(scope.agent_id));
        pb = pb + eq_binds(opt_view(scope.agent_id));
        assert(views(conds@) =~= c0 + pc);
        assert(views(binds@) =~= b0 + pb);
    }
    push_eq_filter(conds, binds, "", "scope_org_id", &scope.org_id);
    proof {
        pc = pc + eq_conds(Seq::empty(), "scope_org_id"@, opt_view(scope.org_id));
        pb = pb + eq_binds(opt_view(scope.org_id));
        assert(views(conds@) =~= c0 + pc);
        assert(views(binds@) =~= b0 + pb);
    }
    push_eq_filter(conds, binds, "", "scope_team_id", &scope.team_id);
    proof {
        pc = pc + eq_conds(Seq::empty(), "scope_team_id"@, opt_view(scope.team_id));
        pb = pb + eq_binds(opt_view(scope.team_id));
        assert(views(conds@) =~= c0 + pc);
        assert(views(binds@) =~= b0 + pb);
    }
    push_eq_filter(conds, binds, "", "scope_project_id", &scope.project_id);
    proof {
        pc = pc + eq_conds(Seq::empty(), "scope_project_id"@, opt_view(scope.project_id));
        pb = pb + eq_binds(opt_view(scope.project_id));
        assert(views(conds@) =~= c0 + pc);
        assert(views(binds@) =~= b0 + pb);
    }
    push_eq_filter(conds, binds, "", "scope_session_id", &scope.session_id);
    proof {
        pc = pc + eq_conds(Seq::empty(), "scope_session_id"@, opt_view(scope.session_id));
        pb = pb + eq_binds(opt_view(scope.session_id));
        assert(views(conds@) =~= c0 + pc);
        assert(views(binds@) =~= b0 + pb);
    }
    push_eq_filter(conds, binds, "", "scope_run_id", &scope.run_id);
    proof {
        pc = pc + eq_conds(Seq::empty(), "scope_run_id"@, opt_view(scope.run_id));
        pb = pb + eq_binds(opt_view(scope.run_id));
        assert(views(conds@) =~= c0 + pc);
        assert(views(binds@) =~= b0 + pb);
    }
    proof {
        assert(pc =~= purge_levels_conds(*scope));
        assert(pb =~= purge_levels_binds(*scope));
    }
}

/// The statements of a GDPR purge: the one that lists the ids of the
/// memories it removes, the one that removes them, and their bind values.
pub struct PurgePlan {
    pub select_sql: String,
    pub delete_sql: String,
    pub binds: Vec<String>,
}

/// The error a GDPR purge gives for a scope that names nothing below the
/// tenant, which would erase the whole tenant.
pub open spec fn gdpr_scope_message() -> Seq<char> {
    "GDPR purge requires at least one scope field (user_id, agent_id, org_id, team_id, project_id, session_id, or run_id)"@
}

/// Plans a GDPR purge of everything a scope covers in a store. The scope
/// must name at least one level below the tenant.
#[verifier::spinoff_prover]
#[verifier::rlimit(50)]
pub fn gdpr_purge_plan(tenant_id: &str, store_id: u128, scope: &MemoryScope) -> (r: Result<
    PurgePlan,
    OmsError,
>)
    ensures
        r is Err <==> !names_sub_tenant_level(*scope),
        r is Err ==> r->Err_0 is InvalidInput && error_payload(r->Err_0) == gdpr_scope_message(),
        r is Ok ==> r->Ok_0.select_sql@ == "SELECT id FROM memories WHERE "@ + join_spec(
            purge_conds(*scope),
            " AND "@,
        ),
        r is Ok ==> r->Ok_0.delete_sql@ == "DELETE FROM memories WHERE "@ + join_spec(
            purge_conds(*scope),
            " AND "@,
        ),
        r is Ok ==> views(r->Ok_0.binds@) == purge_binds(store_id, tenant_id@, *scope),
{
    if !scope.has_sub_tenant_level() {
        return Err(
            OmsError::InvalidInput(
                "GDPR purge requires at least one scope field (user_id, agent_id, org_id, team_id, project_id, session_id, or run_id)".to_owned(),
            ),
        );
    }
    let mut conds: Vec<String> = vec!["store_id = ?".to_owned(), "tenant_id = ?".to_owned()];
    let mut binds: Vec<String> = vec![uuid_to_string(store_id), tenant_id.to_owned()];
    let ghost c0 = seq!["store_id = ?"@, "tenant_id = ?"@];
    let ghost b0 = seq![uuid_text(store_id), tenant_id@];
    proof {
        assert(views(conds@) =~= c0);
        assert(views(binds@) =~= b0);
    }
    push_purge_levels(&mut conds, &mut binds, scope);
    proof {
        assert(views(conds@) =~= purge_conds(*scope));
        assert(views(binds@) =~= purge_binds(store_id, tenant_id@, *scope));
    }
    let where_clause = join(&conds, " AND ");
    let select_sql = concat2("SELECT id FROM memories WHERE ", where_clause.as_str());
    let delete_sql = concat2("DELETE FROM memories WHERE ", where_clause.as_str());
    Ok(PurgePlan { select_sql, delete_sql, binds })
}

/// The statement that anonymizes the audit entries of `n` purged memories
/// (their ids are its last `n` parameters): agent and details cleared, the
/// redaction flag set.
pub fn anonymize_audit_sql(n: usize) -> (r: String)
    ensures
        r@ == "UPDATE audit_log SET agent_id = NULL, details_json = NULL, redacted = 1 WHERE store_id = ? AND tenant_id = ? AND memory_id IN ("@
            + repeat_join(n as nat, "?"@, ","@) + ")"@,
{
    let placeholders = repeat_join_str(n, "?", ",");
    concat3(
        "UPDATE audit_log SET agent_id = NULL, details_json = NULL, redacted = 1 WHERE store_id = ? AND tenant_id = ? AND memory_id IN (",
        placeholders.as_str(),
        ")",
    )
}

/// The most ids one anonymizing statement names.
pub const ANONYMIZE_CHUNK: usize = 500;

/// The `k`-th chunk of `len` ids: from `500 * k` up to 500 further, or to
/// the end.
pub open spec fn chunk_at(len: nat, k: int) -> (usize, usize) {
    (
        (ANONYMIZE_CHUNK * k) as usize,
        (if ANONYMIZE_CHUNK * (k + 1) < len {
            ANONYMIZE_CHUNK * (k + 1)
        } else {
            len as int
        }) as usize,
    )
}

/// Splits `len` ids into consecutive chunks of at most [`ANONYMIZE_CHUNK`],
/// as start and end positions.
pub fn id_chunks(len: usize) -> (r: Vec<(usize, usize)>)
    ensures
        r@.len() == (len + ANONYMIZE_CHUNK - 1) / ANONYMIZE_CHUNK as int,
        forall|k: int| 0 <= k < r@.len() ==> #[trigger] r@[k] == chunk_at(len as nat, k),
{
    let mut r: Vec<(usize, usize)> = Vec::new();
    let mut start: usize = 0;
    while start < len
        invariant
            start <= len,
            start < len ==> start == ANONYMIZE_CHUNK * r@.len(),
            r@.len() <= (len + ANONYMIZE_CHUNK - 1) / ANONYMIZE_CHUNK as int,
            start < len ==> r@.len() < (len + ANONYMIZE_CHUNK - 1) / ANONYMIZE_CHUNK as int,
            start >= len ==> r@.len() == (len + ANONYMIZE_CHUNK - 1) / ANONYMIZE_CHUNK as int,
            forall|k: int| 0 <= k < r@.len() ==> #[trigger] r@[k] == chunk_at(len as nat, k),
        decreases len - start,
    {
        let end: usize = if len - start > ANONYMIZE_CHUNK {
            start + ANONYMIZE_CHUNK
        } else {
            len
        };
        proof {
            let k = r@.len() as int;
            assert(chunk_at(len as nat, k) == (start, end));
        }
        r.push((start, end));
        start = end;
    }
    r
}

/// The chunks cover the ids exactly: they start at 0, each begins where the
/// one before ends, the last ends at `len`, and none is empty or longer than
/// [`ANONYMIZE_CHUNK`].
pub proof fn lemma_chunks_partition(len: nat)
    requires
        len <= usize::MAX,
    ensures
        ({
            let n = (len + ANONYMIZE_CHUNK - 1) / ANONYMIZE_CHUNK as int;
            &&& n > 0 ==> chunk_at(len, 0).0 == 0
            &&& n > 0 ==> chunk_at(len, n - 1).1 == len
            &&& forall|k: int| 0 < k < n ==> #[trigger] chunk_at(len, k).0 == chunk_at(len, k - 1).1
            &&& forall|k: int|
                0 <= k < n ==> chunk_at(len, k).0 < #[trigger] chunk_at(len, k).1 <= chunk_at(
                    len,
                    k,
                ).0 + ANONYMIZE_CHUNK
        }),
{
    let n = (len + ANONYMIZE_CHUNK - 1) / ANONYMIZE_CHUNK as int;
    if n > 0 {
        lemma_chunk_start_below(len, 0);
        lemma_chunk_start_below(len, n - 1);
        assert(ANONYMIZE_CHUNK * n >= len) by (nonlinear_arith)
            requires
                n == (len + 499) / 500,
                ANONYMIZE_CHUNK == 500,
        ;
    }
    assert forall|k: int| 0 < k < n implies #[trigger] chunk_at(len, k).0 == chunk_at(len, k - 1).1 by {
        lemma_chunk_start_below(len, k);
    }
    assert forall|k: int| 0 <= k < n implies chunk_at(len, k).0 < #[trigger] chunk_at(len, k).1
        <= chunk_at(len, k).0 + ANONYMIZE_CHUNK by {
        lemma_chunk_start_below(len, k);
    }
}

/// Every chunk starts before the end.
proof fn lemma_chunk_start_below(len: nat, k: int)
    requires
        0 <= k < (len + ANONYMIZE_CHUNK - 1) / ANONYMIZE_CHUNK as int,
    ensures
        ANONYMIZE_CHUNK * k < len,
{
    let n = (len + ANONYMIZE_CHUNK - 1) / ANONYMIZE_CHUNK as int;
    assert(500 * k < len) by (nonlinear_arith)
        requires
            0 <= k < n,
            n == (len + 499) / 500,
    ;
}

/// Tenant isolation: every listing, audit query and GDPR purge is confined
/// to the store and the authenticated tenant, which are its first two
/// conditions and bind values whatever the filter says.
#[verifier::spinoff_prover]
pub proof fn lemma_queries_confined_to_tenant(
    store_id: u128,
    tenant_id: Seq<char>,
    list: ListMemoriesFilter,
    audit: AuditFilter,
    scope: MemoryScope,
)
    ensures
        list_conds(list).take(2) == seq!["store_id = ?"@, "tenant_id = ?"@],
        list_binds(store_id, tenant_id, list).take(2) == seq![uuid_text(store_id), tenant_id],
        audit_conds(audit).take(2) == seq!["store_id = ?"@, "tenant_id = ?"@],
        audit_binds(store_id, tenant_id, audit).take(2) == seq![uuid_text(store_id), tenant_id],
        purge_conds(scope).take(2) == seq!["store_id = ?"@, "tenant_id = ?"@],
        purge_binds(store_id, tenant_id, scope).take(2) == seq![uuid_text(store_id), tenant_id],
{
    let base_c = seq!["store_id = ?"@, "tenant_id = ?"@];
    let base_b = seq![uuid_text(store_id), tenant_id];
    assert(list_conds(list).take(2) =~= base_c);
    assert(list_binds(store_id, tenant_id, list).take(2) =~= base_b);
    assert(audit_conds(audit).take(2) =~= base_c);
    assert(audit_binds(store_id, tenant_id, audit).take(2) =~= base_b);
    assert(purge_conds(scope).take(2) =~= base_c);
    assert(purge_binds(store_id, tenant_id, scope).take(2) =~= base_b);
}

} // verus!
