use kd6::audit::AuditFilter;
use kd6::model::MemoryLayer;
use kd6::scope::MemoryScope;
use kd6::search::{build_search_conditions, plan_search, SearchQuery};
use kd6::sql::{
    anonymize_audit_sql, audit_log_query, escape_like, gdpr_purge_plan, id_chunks,
    expired_purge_query, json_element_pattern, list_memories_query, page_bounds,
    sanitize_fts5_query, upsert_lookup_query,
};
use kd6::store::store_by_name_query;
use kd6::store::{ListMemoriesFilter, MetadataFilters};
use kd6::error::OmsError;

const STORE: u128 = 0x67e55044_10b1_426f_9247_bb680e5fe0c8;
const STORE_TEXT: &str = "67e55044-10b1-426f-9247-bb680e5fe0c8";

#[test]
fn escape_like_escapes_wildcards_and_backslash() {
    assert_eq!(escape_like("plain"), "plain");
    assert_eq!(escape_like("50%_off\\"), "50\\%\\_off\\\\");
    assert_eq!(json_element_pattern("a_b"), "%\"a\\_b\"%");
}

#[test]
fn fts_query_quotes_each_word() {
    assert_eq!(sanitize_fts5_query("hello world"), "\"hello\" \"world\"");
    assert_eq!(sanitize_fts5_query("  a\t\"b\"  "), "\"a\" \"\"\"b\"\"\"");
    assert_eq!(sanitize_fts5_query("   "), "");
    assert_eq!(sanitize_fts5_query("NEAR(x OR y)"), "\"NEAR(x\" \"OR\" \"y)\"");
}

#[test]
fn page_bounds_defaults_and_cap() {
    assert_eq!(page_bounds(None, None), (50, 0));
    assert_eq!(page_bounds(Some(5000), Some(7)), (1000, 7));
    assert_eq!(page_bounds(Some(3), None), (3, 0));
}

#[test]
fn list_query_with_filters() {
    let filter = ListMemoriesFilter {
        layer: Some(MemoryLayer::Episodic),
        tags: Some(vec!["x".into()]),
        categories: None,
        owner_agent_id: Some("agent".into()),
        scope: Some(MemoryScope {
            tenant_id: "ignored".into(),
            user_id: Some("u1".into()),
            ..Default::default()
        }),
        limit: None,
        offset: Some(10),
    };
    let q = list_memories_query("t1", STORE, &filter);
    let where_clause = "store_id = ? AND tenant_id = ? AND layer = ? AND owner_agent_id = ? AND tags_json LIKE ? ESCAPE '\\' AND scope_user_id = ?";
    assert_eq!(q.count_sql, format!("SELECT COUNT(*) as cnt FROM memories WHERE {where_clause}"));
    assert_eq!(
        q.data_sql,
        format!("SELECT * FROM memories WHERE {where_clause} ORDER BY created_at DESC LIMIT ? OFFSET ?")
    );
    assert_eq!(
        q.binds,
        vec![STORE_TEXT, "t1", "episodic", "agent", "%\"x\"%", "u1"]
    );
    assert_eq!((q.limit, q.offset), (50, 10));
}

#[test]
fn audit_query_with_filters() {
    let filter = AuditFilter {
        memory_id: Some(STORE),
        action: Some("create".into()),
        agent_id: None,
        limit: Some(2),
        offset: None,
    };
    let q = audit_log_query("t", STORE, &filter);
    assert_eq!(
        q.count_sql,
        "SELECT COUNT(*) AS cnt FROM audit_log WHERE store_id = ? AND tenant_id = ? AND memory_id = ? AND action = ?"
    );
    assert_eq!(q.binds, vec![STORE_TEXT, "t", STORE_TEXT, "create"]);
    assert_eq!((q.limit, q.offset), (2, 0));
}

fn query(keyword: bool, embedding: Option<Vec<u32>>, text: &str) -> SearchQuery {
    SearchQuery {
        query: text.into(),
        embedding,
        layers: vec![MemoryLayer::Working, MemoryLayer::Semantic],
        scope: Some(MemoryScope { tenant_id: "t".into(), agent_id: Some("a".into()), ..Default::default() }),
        top_k: 3,
        threshold: 0,
        filters: MetadataFilters {
            tags: None,
            categories: Some(vec!["c".into()]),
            owner_agent_id: None,
        },
        keyword,
    }
}

#[test]
fn search_conditions_with_prefix() {
    let (conds, binds) = build_search_conditions("m.", STORE, "t", &query(true, None, "x"), true);
    assert_eq!(
        conds,
        vec![
            "m.store_id = ?",
            "m.tenant_id = ?",
            "m.embedding IS NOT NULL",
            "m.layer IN (?,?)",
            "m.categories_json LIKE ? ESCAPE '\\'",
            "m.scope_tenant_id = ?",
            "m.scope_org_id IS NULL",
            "m.scope_team_id IS NULL",
            "m.scope_project_id IS NULL",
            "m.scope_user_id IS NULL",
            "(m.scope_agent_id = ? OR m.scope_agent_id IS NULL)",
            "m.scope_session_id IS NULL",
            "m.scope_run_id IS NULL",
        ]
    );
    assert_eq!(binds, vec![STORE_TEXT, "t", "working", "semantic", "%\"c\"%", "t", "a"]);
}

#[test]
fn search_requires_embedding_or_keyword() {
    match plan_search("t", STORE, &query(false, None, "x")) {
        Err(OmsError::InvalidInput(m)) => assert_eq!(
            m,
            "embedding is required for vector search unless keyword search is enabled"
        ),
        _ => panic!("expected invalid input"),
    }
    assert!(plan_search("t", STORE, &query(true, None, "   ")).is_err());
    let plan = plan_search("t", STORE, &query(true, None, "hello there")).unwrap();
    assert!(plan.vector.is_none());
    let kw = plan.keyword.unwrap();
    assert_eq!(kw.match_query, "\"hello\" \"there\"");
    assert_eq!(kw.limit, 15);
    let plan = plan_search("t", STORE, &query(false, Some(vec![0, 0]), "")).unwrap();
    assert!(plan.keyword.is_none());
    assert!(plan.vector.unwrap().sql.ends_with(" LIMIT 10000"));
}

#[test]
fn gdpr_plan_requires_scope_level() {
    let empty = MemoryScope { tenant_id: "t".into(), ..Default::default() };
    match gdpr_purge_plan("t", STORE, &empty) {
        Err(OmsError::InvalidInput(m)) => assert!(m.starts_with("GDPR purge requires at least one scope field")),
        _ => panic!("expected invalid input"),
    }
    let scope = MemoryScope {
        tenant_id: "t".into(),
        org_id: Some("o".into()),
        user_id: Some("u".into()),
        ..Default::default()
    };
    let plan = gdpr_purge_plan("t", STORE, &scope).unwrap();
    assert_eq!(
        plan.delete_sql,
        "DELETE FROM memories WHERE store_id = ? AND tenant_id = ? AND scope_user_id = ? AND scope_org_id = ?"
    );
    assert_eq!(plan.binds, vec![STORE_TEXT, "t", "u", "o"]);
}

#[test]
fn anonymize_statement_and_chunks() {
    assert_eq!(
        anonymize_audit_sql(3),
        "UPDATE audit_log SET agent_id = NULL, details_json = NULL, redacted = 1 WHERE store_id = ? AND tenant_id = ? AND memory_id IN (?,?,?)"
    );
    assert_eq!(id_chunks(0), vec![]);
    assert_eq!(id_chunks(500), vec![(0, 500)]);
    assert_eq!(id_chunks(1201), vec![(0, 500), (500, 1000), (1000, 1201)]);
}

#[test]
fn upsert_lookup_reads_absent_levels_as_empty() {
    let scope = MemoryScope {
        tenant_id: "t1".into(),
        user_id: Some("u1".into()),
        ..Default::default()
    };
    let (sql, binds) = upsert_lookup_query(STORE, MemoryLayer::Semantic, "status", &scope);
    assert_eq!(
        sql,
        "SELECT id, version, content_json, created_at, immutable FROM memories WHERE store_id = ? AND layer = ? AND upsert_key = ? AND scope_tenant_id = ? AND COALESCE(scope_org_id, '') = ? AND COALESCE(scope_team_id, '') = ? AND COALESCE(scope_project_id, '') = ? AND COALESCE(scope_user_id, '') = ? AND COALESCE(scope_agent_id, '') = ? AND COALESCE(scope_session_id, '') = ? AND COALESCE(scope_run_id, '') = ? LIMIT 1"
    );
    assert_eq!(binds, vec![STORE_TEXT, "semantic", "status", "t1", "", "", "", "u1", "", "", ""]);
}

#[test]
fn expired_purge_and_store_name_queries() {
    let (sql, binds) = expired_purge_query("t1", STORE, "2025-01-01T00:00:00+00:00");
    assert_eq!(
        sql,
        "DELETE FROM memories WHERE store_id = ? AND tenant_id = ? AND expires_at IS NOT NULL AND expires_at < ?"
    );
    assert_eq!(binds, vec![STORE_TEXT, "t1", "2025-01-01T00:00:00+00:00"]);
    let (sql, binds) = store_by_name_query("t1", "notes");
    assert_eq!(sql, "SELECT * FROM stores WHERE tenant_id = ? AND name = ?");
    assert_eq!(binds, vec!["t1", "notes"]);
}
