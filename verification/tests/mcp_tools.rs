use kd6::json::Json;
use kd6::mcp::{
    default_depth, default_keyword, default_layer_str, default_top_k, err_json, normalize_content,
    parse_layer, parse_uuid, prepare_create_memory, prepare_gdpr_purge, prepare_memory_call,
    prepare_store_call, prepare_traverse, search_query_from_params, validate_tenant_id,
    CreateMemoryParams, GdprPurgeParams, GraphTraverseParams, SearchMemoriesParams,
};
use kd6::model::MemoryLayer;

const MEMORY: &str = "550e8400-e29b-41d4-a716-446655440000";

#[test]
fn parse_uuid_accepts_valid_uuid() {
    let uuid = uuid::Uuid::new_v4();

    assert_eq!(parse_uuid(&uuid.to_string()).unwrap(), uuid.as_u128());
}

#[test]
fn parse_uuid_rejects_invalid_uuid() {
    let error = parse_uuid("not-a-uuid").unwrap_err();

    assert!(error.contains("invalid UUID 'not-a-uuid'"));
}

#[test]
fn parse_layer_accepts_all_valid_layers() {
    let cases = [
        ("working", MemoryLayer::Working),
        ("episodic", MemoryLayer::Episodic),
        ("semantic", MemoryLayer::Semantic),
        ("procedural", MemoryLayer::Procedural),
        ("archival", MemoryLayer::Archival),
    ];

    for (input, expected) in cases {
        assert_eq!(parse_layer(input).unwrap(), expected);
    }
}

#[test]
fn parse_layer_rejects_invalid_layer() {
    let error = parse_layer("invalid-layer").unwrap_err();

    assert!(error.contains("unknown layer 'invalid-layer'"));
}

#[test]
fn validate_tenant_id_rejects_empty_and_whitespace() {
    assert!(validate_tenant_id("tenant-1").is_ok());
    assert_eq!(
        validate_tenant_id("").unwrap_err(),
        "tenant_id is required and cannot be empty"
    );
    assert_eq!(
        validate_tenant_id("   ").unwrap_err(),
        "tenant_id is required and cannot be empty"
    );
}

#[test]
fn err_json_serializes_error_payload() {
    let value: serde_json::Value = serde_json::from_str(&err_json("boom")).unwrap();

    assert_eq!(value["success"], serde_json::Value::Bool(false));
    assert_eq!(value["error"], serde_json::Value::String("boom".into()));
}

#[test]
fn err_json_exact_text_and_escaping() {
    assert_eq!(err_json("boom"), r#"{"success":false,"error":"boom"}"#);
    assert_eq!(
        err_json("say \"hi\"\n"),
        r#"{"success":false,"error":"say \"hi\"\n"}"#
    );
}

#[test]
fn parse_layer_full_message() {
    assert_eq!(
        parse_layer("bogus").unwrap_err(),
        "unknown layer 'bogus': must be one of working, episodic, semantic, procedural, archival"
    );
}

#[test]
fn parse_uuid_message_carries_parser_reason() {
    let error = parse_uuid("xyz").unwrap_err();
    let reason = uuid::Uuid::parse_str("xyz").unwrap_err().to_string();
    assert_eq!(error, format!("invalid UUID 'xyz': {reason}"));
}

#[test]
fn tool_defaults() {
    assert_eq!(default_layer_str(), "working");
    assert_eq!(default_top_k(), 10);
    assert!(default_keyword());
    assert_eq!(default_depth(), 2);
}

#[test]
fn store_call_checks_tenant_and_names_store() {
    assert_eq!(
        prepare_store_call(" ", "notes").unwrap_err(),
        "tenant_id is required and cannot be empty"
    );
    assert_eq!(prepare_store_call("t", "notes").unwrap(), "notes");
    let (s, m) = prepare_memory_call("t", "notes", MEMORY).unwrap();
    assert_eq!(s, "notes");
    assert_eq!(m, uuid::Uuid::parse_str(MEMORY).unwrap().as_u128());
    assert!(prepare_memory_call("t", "notes", "bad")
        .unwrap_err()
        .starts_with("invalid UUID 'bad'"));
    assert_eq!(
        prepare_memory_call("", "notes", "bad").unwrap_err(),
        "tenant_id is required and cannot be empty"
    );
}

fn memory_params(content: Json, layer: &str) -> CreateMemoryParams {
    CreateMemoryParams {
        tenant_id: "t1".into(),
        store_name: "test-store".into(),
        layer: layer.into(),
        content,
        owner_agent_id: "agent-1".into(),
        tags: vec!["a".into()],
        entity_type: Some("person".into()),
        upsert_key: None,
        scope_user_id: Some("u".into()),
        scope_agent_id: None,
        scope_session_id: Some("s".into()),
    }
}

#[test]
fn create_memory_params_become_request() {
    let (store, req) =
        prepare_create_memory(memory_params(Json::String("hello".into()), "semantic")).unwrap();
    assert_eq!(store, "test-store");
    assert_eq!(req.layer, MemoryLayer::Semantic);
    assert_eq!(req.content, Json::String("hello".into()));
    assert!(req.embedding.is_none());
    assert_eq!(req.owner_agent_id, "agent-1");
    assert_eq!(req.scope.tenant_id, "t1");
    assert_eq!(req.scope.user_id, Some("u".into()));
    assert_eq!(req.scope.session_id, Some("s".into()));
    assert!(req.scope.org_id.is_none());
    assert_eq!(req.tags, vec!["a".to_string()]);
    assert!(req.categories.is_empty());
    assert_eq!(req.entity_type, Some("person".into()));
}

#[test]
fn create_memory_null_content_becomes_empty_string() {
    let (_, req) = prepare_create_memory(memory_params(Json::Null, "working")).unwrap();
    assert_eq!(req.content, Json::String(String::new()));
    assert_eq!(normalize_content(Json::Bool(true)), Json::Bool(true));
}

#[test]
fn create_memory_rejects_unknown_layer() {
    let err = prepare_create_memory(memory_params(Json::Null, "nope")).unwrap_err();
    assert!(err.starts_with("unknown layer 'nope'"));
}

#[test]
fn search_params_become_query() {
    let p = SearchMemoriesParams {
        tenant_id: "t".into(),
        store_name: "test-store".into(),
        query: "find me".into(),
        top_k: 7,
        keyword: true,
    };
    let q = search_query_from_params(p, None);
    assert_eq!(q.query, "find me");
    assert_eq!(q.top_k, 7);
    assert!(q.keyword);
    assert_eq!(q.threshold, 0);
    assert!(q.layers.is_empty());
    assert!(q.scope.is_none());
}

#[test]
fn traverse_and_gdpr_params() {
    let (s, req) = prepare_traverse(GraphTraverseParams {
        tenant_id: "t".into(),
        store_name: "test-store".into(),
        start_memory_id: MEMORY.into(),
        depth: 4,
        relation_types: Some(vec!["rel".into()]),
    })
    .unwrap();
    assert_eq!(s, "test-store");
    assert_eq!(req.start_memory_id, uuid::Uuid::parse_str(MEMORY).unwrap().as_u128());
    assert_eq!(req.depth, 4);
    let (_, scope) = prepare_gdpr_purge(GdprPurgeParams {
        tenant_id: "t".into(),
        store_name: "test-store".into(),
        scope_org_id: None,
        scope_team_id: None,
        scope_project_id: None,
        scope_user_id: Some("user-9".into()),
        scope_agent_id: None,
        scope_session_id: None,
        scope_run_id: None,
    })
    .unwrap();
    assert_eq!(scope.tenant_id, "t");
    assert_eq!(scope.user_id, Some("user-9".into()));
}

#[test]
fn unknown_store_name_is_not_found() {
    let e = kd6::store::store_name_not_found("nonexistent-store");
    assert_eq!(e.to_string(), "store not found: nonexistent-store");
}
