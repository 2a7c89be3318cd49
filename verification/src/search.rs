//! Search queries: what they ask for, and the statements the SQLite backend
//! runs for their vector and keyword halves.
//!
//! Scores are floating point and are computed and ranked by the caller; a
//! query's embedding and threshold are held as the bit patterns of their
//! `f32` values.
use crate::error::{error_payload, OmsError};
use crate::ids::{uuid_text, uuid_to_string};
use crate::model::{layer_text, MemoryLayer};
use crate::scope::MemoryScope;
use crate::sql::{
    like_pattern,
    eq_binds, eq_conds, fts_query, like_binds, like_conds, opt_list, push_eq_filter,
    push_like_filters, push_scope_visibility, sanitize_fts5_query, scope_level_binds, scope_visible_conds,
};
use crate::store::MetadataFilters;
use crate::text::{concat2, concat3, is_blank, is_blank_spec, join, join_spec, opt_view, repeat_join,
    repeat_join_str, views};
use vstd::prelude::*;

verus! {

broadcast use vstd::string::group_string_axioms;

/// A search for memories by vector similarity and, optionally, keywords.
#[derive(Debug, PartialEq)]
pub struct SearchQuery {
    /// Natural language query or structured query string.
    pub query: String,
    /// Pre-computed query embedding, as `f32` bit patterns.
    pub embedding: Option<Vec<u32>>,
    /// Which layers to search (empty = all layers).
    pub layers: Vec<MemoryLayer>,
    pub scope: Option<MemoryScope>,
    /// Maximum number of results.
    pub top_k: usize,
    /// Minimum similarity score, as an `f32` bit pattern.
    pub threshold: u32,
    pub filters: MetadataFilters,
    /// Include full-text keyword search results.
    pub keyword: bool,
}

/// The number of results a search returns when none is given.
pub fn default_top_k() -> (k: usize)
    ensures
        k == 10,
{
    10
}

/// The layers' texts.
pub open spec fn layer_texts(layers: Seq<MemoryLayer>) -> Seq<Seq<char>> {
    layers.map_values(|l: MemoryLayer| layer_text(l))
}

/// The filter conditions of a search, each column name behind `prefix`:
/// store and tenant; a stored embedding when asked; the layers; each tag
/// and category; the owner; and the scope's tenant and, for each level
/// below it, that the memory's level is unset or the scope's value.
pub open spec fn search_conds(prefix: Seq<char>, q: SearchQuery, include_embedding: bool) -> Seq<
    Seq<char>,
> {
    seq![prefix + "store_id = ?"@, prefix + "tenant_id = ?"@] + (if include_embedding {
        seq![prefix + "embedding IS NOT NULL"@]
    } else {
        Seq::empty()
    }) + (if q.layers@.len() > 0 {
        seq![prefix + "layer IN ("@ + repeat_join(q.layers@.len(), "?"@, ","@) + ")"@]
    } else {
        Seq::empty()
    }) + like_conds(prefix, "tags_json"@, opt_list(q.filters.tags).len()) + like_conds(
        prefix,
        "categories_json"@,
        opt_list(q.filters.categories).len(),
    ) + eq_conds(prefix, "owner_agent_id"@, opt_view(q.filters.owner_agent_id))
        + search_scope_conds(prefix, q.scope)
}

/// The scope conditions of a search: the scope's tenant and, for each level
/// below it, that the memory's level is unset or, when the scope sets the
/// level, the same.
pub open spec fn search_scope_conds(prefix: Seq<char>, scope: Option<MemoryScope>) -> Seq<Seq<char>> {
    match scope {
        Some(s) => seq![prefix + "scope_tenant_id = ?"@] + scope_visible_conds(prefix, s),
        None => Seq::empty(),
    }
}

/// The bind values of [`search_scope_conds`], in the same order.
pub open spec fn search_scope_binds(scope: Option<MemoryScope>) -> Seq<Seq<char>> {
    match scope {
        Some(s) => seq![s.tenant_id@] + scope_level_binds(s),
        None => Seq::empty(),
    }
}

/// A search filters on everything it is given: it is confined to the store
/// and tenant first; for the tag (and the category) at any position `k`,
/// the conditions hold a `LIKE` test on the stored tag (category) list and
/// the bind values hold that tag's (category's) pattern; an owner filter
/// tests the owner against the given agent; and every requested layer is
/// bound.
pub proof fn lemma_search_filters_each_tag(
    prefix: Seq<char>,
    store_id: u128,
    tenant_id: Seq<char>,
    q: SearchQuery,
    include_embedding: bool,
    k: int,
)
    ensures
        q.filters.tags is Some && 0 <= k < q.filters.tags->0@.len() ==> search_conds(
            prefix,
            q,
            include_embedding,
        ).contains(prefix + "tags_json"@ + " LIKE ? ESCAPE '\\'"@) && search_binds(
            store_id,
            tenant_id,
            q,
        ).contains(like_pattern(q.filters.tags->0@[k]@)),
        q.filters.categories is Some && 0 <= k < q.filters.categories->0@.len() ==> search_conds(
            prefix,
            q,
            include_embedding,
        ).contains(prefix + "categories_json"@ + " LIKE ? ESCAPE '\\'"@) && search_binds(
            store_id,
            tenant_id,
            q,
        ).contains(like_pattern(q.filters.categories->0@[k]@)),
        search_conds(prefix, q, include_embedding).len() >= 2 + opt_list(q.filters.tags).len()
            + opt_list(q.filters.categories).len(),
        q.filters.owner_agent_id matches Some(o) ==> search_conds(
            prefix,
            q,
            include_embedding,
        ).contains(prefix + "owner_agent_id"@ + " = ?"@) && search_binds(
            store_id,
            tenant_id,
            q,
        ).contains(o@),
        0 <= k < q.layers@.len() ==> search_binds(store_id, tenant_id, q).contains(
            layer_text(q.layers@[k]),
        ),
        search_conds(prefix, q, include_embedding)[0] == prefix + "store_id = ?"@,
        search_conds(prefix, q, include_embedding)[1] == prefix + "tenant_id = ?"@,
        search_binds(store_id, tenant_id, q)[0] == uuid_text(store_id),
        search_binds(store_id, tenant_id, q)[1] == tenant_id,
{
    let c = search_conds(prefix, q, include_embedding);
    let b = search_binds(store_id, tenant_id, q);
    let head = seq![prefix + "store_id = ?"@, prefix + "tenant_id = ?"@] + (if include_embedding {
        seq![prefix + "embedding IS NOT NULL"@]
    } else {
        Seq::empty()
    }) + (if q.layers@.len() > 0 {
        seq![prefix + "layer IN ("@ + repeat_join(q.layers@.len(), "?"@, ","@) + ")"@]
    } else {
        Seq::empty()
    });
    let tc = like_conds(prefix, "tags_json"@, opt_list(q.filters.tags).len());
    let cc = like_conds(prefix, "categories_json"@, opt_list(q.filters.categories).len());
    let rest = eq_conds(prefix, "owner_agent_id"@, opt_view(q.filters.owner_agent_id))
        + search_scope_conds(prefix, q.scope);
    assert(c =~= head + tc + cc + rest);
    let bhead = seq![uuid_text(store_id), tenant_id] + layer_texts(q.layers@);
    let tb = like_binds(opt_list(q.filters.tags));
    let cb = like_binds(opt_list(q.filters.categories));
    let brest = eq_binds(opt_view(q.filters.owner_agent_id)) + search_scope_binds(q.scope);
    assert(b =~= bhead + tb + cb + brest);
    if q.filters.tags is Some && 0 <= k < q.filters.tags->0@.len() {
        assert(c[head.len() + k] == tc[k]);
        assert(b[bhead.len() + k] == tb[k]);
        assert(c.contains(prefix + "tags_json"@ + " LIKE ? ESCAPE '\\'"@));
        assert(b.contains(like_pattern(q.filters.tags->0@[k]@)));
    }
    if q.filters.categories is Some && 0 <= k < q.filters.categories->0@.len() {
        assert(c[head.len() + tc.len() + k] == cc[k]);
        assert(b[bhead.len() + tb.len() + k] == cb[k]);
        assert(c.contains(prefix + "categories_json"@ + " LIKE ? ESCAPE '\\'"@));
        assert(b.contains(like_pattern(q.filters.categories->0@[k]@)));
    }
    if q.filters.owner_agent_id is Some {
        let oc = eq_conds(prefix, "owner_agent_id"@, opt_view(q.filters.owner_agent_id));
        assert(c[(head.len() + tc.len() + cc.len()) as int] == oc[0]);
        assert(b[(bhead.len() + tb.len() + cb.len()) as int] == q.filters.owner_agent_id->0@);
        assert(c.contains(prefix + "owner_agent_id"@ + " = ?"@));
    }
    if 0 <= k < q.layers@.len() {
        assert(b[2 + k] == layer_texts(q.layers@)[k]);
        assert(b.contains(layer_text(q.layers@[k])));
    }
}

/// Appends the scope conditions and bind values of a search.
fn push_search_scope(
    conds: &mut Vec<String>,
    binds: &mut Vec<String>,
    prefix: &str,
    scope: &Option<MemoryScope>,
)
    ensures
        views(final(conds)@) == views(old(conds)@) + search_scope_conds(prefix@, *scope),
        views(final(binds)@) == views(old(binds)@) + search_scope_binds(*scope),
{
    let ghost pc = views(conds@);
    let ghost pb = views(binds@);
    if let Some(scope) = scope {
        conds.push(concat2(prefix, "scope_tenant_id = ?"));
        binds.push(scope.tenant_id.clone());
        proof {
            assert(views(conds@) =~= pc.push(prefix@ + "scope_tenant_id = ?"@));
            assert(views(binds@) =~= pb.push(scope.tenant_id@));
        }
        push_scope_visibility(conds, binds, prefix, scope);
        proof {
            assert(views(conds@) =~= pc + (seq![prefix@ + "scope_tenant_id = ?"@]
                + scope_visible_conds(prefix@, *scope)));
            assert(views(binds@) =~= pb + (seq![scope.tenant_id@] + scope_level_binds(*scope)));
        }
    } else {
        proof {
            assert(views(conds@) =~= pc + Seq::empty());
            assert(views(binds@) =~= pb + Seq::empty());
        }
    }
}

/// The bind values of [`search_conds`], in the same order.
pub open spec fn search_binds(store_id: u128, tenant_id: Seq<char>, q: SearchQuery) -> Seq<
    Seq<char>,
> {
    seq![uuid_text(store_id), tenant_id] + layer_texts(q.layers@) + like_binds(
        opt_list(q.filters.tags),
    ) + like_binds(opt_list(q.filters.categories)) + eq_binds(opt_view(q.filters.owner_agent_id))
        + search_scope_binds(q.scope)
}

/// The filter conditions and bind values of a search.
#[verifier::spinoff_prover]
#[verifier::rlimit(50)]
pub fn build_search_conditions(
    prefix: &str,
    store_id: u128,
    tenant_id: &str,
    query: &SearchQuery,
    include_embedding: bool,
) -> (r: (Vec<String>, Vec<String>))
    ensures
        views(r.0@) == search_conds(prefix@, *query, include_embedding),
        views(r.1@) == search_binds(store_id, tenant_id@, *query),
{
    let mut conds: Vec<String> = Vec::new();
    let mut binds: Vec<String> = Vec::new();
    conds.push(concat2(prefix, "store_id = ?"));
    conds.push(concat2(prefix, "tenant_id = ?"));
    binds.push(uuid_to_string(store_id));
    binds.push(tenant_id.to_owned());
    let ghost mut pc: Seq<Seq<char>> = seq![prefix@ + "store_id = ?"@, prefix@ + "tenant_id = ?"@];
    let ghost mut pb: Seq<Seq<char>> = seq![uuid_text(store_id), tenant_id@];
    proof {
        assert(views(conds@) =~= pc);
        assert(views(binds@) =~= pb);
    }
    if include_embedding {
        conds.push(concat2(prefix, "embedding IS NOT NULL"));
    }
    proof {
        pc = pc + (if include_embedding {
            seq![prefix@ + "embedding IS NOT NULL"@]
        } else {
            Seq::empty()
        });
        assert(views(conds@) =~= pc);
    }
    if query.layers.len() > 0 {
        let placeholders = repeat_join_str(query.layers.len(), "?", ",");
        let head = concat2(prefix, "layer IN (");
        conds.push(concat3(head.as_str(), placeholders.as_str(), ")"));
        let mut i: usize = 0;
        while i < query.layers.len()
            invariant
                0 <= i <= query.layers.len(),
                views(binds@) == pb + layer_texts(query.layers@.take(i as int)),
            decreases query.layers.len() - i,
        {
            let ghost b1 = views(binds@);
            binds.push(query.layers[i].to_string());
            proof {
                assert(views(binds@) =~= b1.push(layer_text(query.layers@[i as int])));
                assert(layer_texts(query.layers@.take(i + 1)) =~= layer_texts(
                    query.layers@.take(i as int),
                ).push(layer_text(query.layers@[i as int])));
            }
            i = i + 1;
        }
        proof {
            assert(query.layers@.take(query.layers@.len() as int) == query.layers@);
        }
    } else {
        proof {
            assert(layer_texts(query.layers@) =~= Seq::empty());
        }
    }
    proof {
        pc = pc + (if query.layers@.len() > 0 {
            seq![prefix@ + "layer IN ("@ + repeat_join(query.layers@.len(), "?"@, ","@) + ")"@]
        } else {
            Seq::empty()
        });
        pb = pb + layer_texts(query.layers@);
        assert(views(conds@) =~= pc);
        assert(views(binds@) =~= pb);
    }
    push_like_filters(&mut conds, &mut binds, prefix, "tags_json", &query.filters.tags);
    proof {
        pc = pc + like_conds(prefix@, "tags_json"@, opt_list(query.filters.tags).len());
        pb = pb + like_binds(opt_list(query.filters.tags));
        assert(views(conds@) =~= pc);
        assert(views(binds@) =~= pb);
    }
    push_like_filters(&mut conds, &mut binds, prefix, "categories_json", &query.filters.categories);
    proof {
        pc = pc + like_conds(prefix@, "categories_json"@, opt_list(query.filters.categories).len());
        pb = pb + like_binds(opt_list(query.filters.categories));
        assert(views(conds@) =~= pc);
        assert(views(binds@) =~= pb);
    }
    push_eq_filter(&mut conds, &mut binds, prefix, "owner_agent_id", &query.filters.owner_agent_id);
    proof {
        pc = pc + eq_conds(prefix@, "owner_agent_id"@, opt_view(query.filters.owner_agent_id));
        pb = pb + eq_binds(opt_view(query.filters.owner_agent_id));
        assert(views(conds@) =~= pc);
        assert(views(binds@) =~= pb);
    }
    push_search_scope(&mut conds, &mut binds, prefix, &query.scope);
    proof {
        assert(views(conds@) =~= pc + search_scope_conds(prefix@, query.scope));
        assert(views(binds@) =~= pb + search_scope_binds(query.scope));
    }
    (conds, binds)
}

/// Whether a query runs its keyword half: keyword search is asked for and
/// the query text is not blank.
pub open spec fn uses_keyword_search(q: SearchQuery) -> bool {
    q.keyword && !is_blank_spec(q.query@)
}

/// The most rows the vector half reads.
pub const MAX_VECTOR_SCAN_ROWS: u32 = 10000;

/// The keyword half of a search: the statement (its first parameter is the
/// full-text query, its last the row limit), the full-text query, the bind
/// values of its filter conditions, and the row limit.
pub struct KeywordSearch {
    pub sql: String,
    pub match_query: String,
    pub binds: Vec<String>,
    pub limit: i64,
}

/// The vector half of a search: the statement and the bind values of its
/// filter conditions.
pub struct VectorSearch {
    pub sql: String,
    pub binds: Vec<String>,
}

/// The statements a search runs: the vector half when the query has an
/// embedding, the keyword half when it asks for one.
pub struct SearchPlan {
    pub vector: Option<VectorSearch>,
    pub keyword: Option<KeywordSearch>,
}

/// How many keyword rows a search reads: five per wanted result, at least
/// five, saturating.
pub open spec fn keyword_row_limit(top_k: usize) -> i64 {
    let k = if top_k < 1 {
        1
    } else {
        top_k as int
    };
    (if k * 5 > usize::MAX {
        usize::MAX as int
    } else {
        k * 5
    }) as i64
}

/// The keyword row limit, computed.
fn keyword_limit(top_k: usize) -> (r: i64)
    ensures
        r == keyword_row_limit(top_k),
{
    let k: usize = if top_k < 1 {
        1
    } else {
        top_k
    };
    let m: usize = if k > usize::MAX / 5 {
        usize::MAX
    } else {
        k * 5
    };
    #[verifier::truncate]
    (m as i64)
}

/// Decides what a search runs. Without an embedding and without a keyword
/// half there is nothing to search by, which is invalid input.
pub fn plan_search(tenant_id: &str, store_id: u128, query: &SearchQuery) -> (r: Result<
    SearchPlan,
    OmsError,
>)
    ensures
        r is Err <==> query.embedding is None && !uses_keyword_search(*query),
        r is Err ==> r->Err_0 is InvalidInput && error_payload(r->Err_0)
            == "embedding is required for vector search unless keyword search is enabled"@,
        r is Ok ==> {
            let p = r->Ok_0;
            &&& (p.vector is Some <==> query.embedding is Some)
            &&& p.vector is Some ==> p.vector->0.sql@ == "SELECT * FROM memories WHERE "@
                + join_spec(search_conds(Seq::empty(), *query, true), " AND "@) + " LIMIT 10000"@
            &&& p.vector is Some ==> views(p.vector->0.binds@) == search_binds(
                store_id,
                tenant_id@,
                *query,
            )
            &&& (p.keyword is Some <==> uses_keyword_search(*query))
            &&& p.keyword is Some ==> p.keyword->0.sql@ == "SELECT m.*, bm25(memories_fts) AS keyword_rank                  FROM memories_fts                  JOIN memories m ON m.rowid = memories_fts.rowid                  WHERE memories_fts.content MATCH ? AND "@ + join_spec(
                search_conds("m."@, *query, false),
                " AND "@,
            ) + "                  ORDER BY bm25(memories_fts) LIMIT ?"@
            &&& p.keyword is Some ==> p.keyword->0.match_query@ == fts_query(query.query@)
            &&& p.keyword is Some ==> views(p.keyword->0.binds@) == search_binds(
                store_id,
                tenant_id@,
                *query,
            )
            &&& p.keyword is Some ==> p.keyword->0.limit == keyword_row_limit(query.top_k)
        },
{
    let use_keyword = query.keyword && !is_blank(query.query.as_str());
    if query.embedding.is_none() && !use_keyword {
        return Err(
            OmsError::InvalidInput(
                "embedding is required for vector search unless keyword search is enabled".to_owned(),
            ),
        );
    }
    let vector = if query.embedding.is_some() {
        let (conds, binds) = build_search_conditions("", store_id, tenant_id, query, true);
        let where_clause = join(&conds, " AND ");
        let sql = concat3("SELECT * FROM memories WHERE ", where_clause.as_str(), " LIMIT 10000");
        proof {
            reveal_strlit("");
            assert(""@ =~= Seq::<char>::empty());
        }
        Some(VectorSearch { sql, binds })
    } else {
        None
    };
    let keyword = if use_keyword {
        let (conds, binds) = build_search_conditions("m.", store_id, tenant_id, query, false);
        let where_clause = join(&conds, " AND ");
        let sql = concat3("SELECT m.*, bm25(memories_fts) AS keyword_rank                  FROM memories_fts                  JOIN memories m ON m.rowid = memories_fts.rowid                  WHERE memories_fts.content MATCH ? AND ", where_clause.as_str(), "                  ORDER BY bm25(memories_fts) LIMIT ?");
        let match_query = sanitize_fts5_query(query.query.as_str());
        let limit = keyword_limit(query.top_k);
        Some(KeywordSearch { sql, match_query, binds, limit })
    } else {
        None
    };
    Ok(SearchPlan { vector, keyword })
}

} // verus!
