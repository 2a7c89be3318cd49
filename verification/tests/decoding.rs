use kd6::error::OmsError;
use kd6::json::Json;
use kd6::model::{AccessPolicy, MemoryLayer};
use kd6::remote::{
    check_embed_response, embeddings_url, failed_response_error, first_embedding,
    normalize_endpoint, sort_by_index, EmbedData,
};
use kd6::rows::{
    bytes_to_embedding, decode_audit_row, decode_edge, decode_edge_link, decode_memory_row,
    embedding_to_bytes, AuditRow, EdgeRow, MemoryRow,
};
use kd6::scope::MemoryScope;

const ID: &str = "550e8400-e29b-41d4-a716-446655440000";
const TS: &str = "2025-01-01T00:00:00+00:00";

fn row() -> MemoryRow {
    MemoryRow {
        id: ID.into(),
        store_id: ID.into(),
        layer: "semantic".into(),
        content: Ok(Json::String("c".into())),
        embedding: Some(1.5f32.to_le_bytes().iter().chain(2.0f32.to_le_bytes().iter()).copied().collect()),
        owner_agent_id: "a".into(),
        scope: MemoryScope { tenant_id: "t".into(), ..Default::default() },
        tags_json: r#"["x"]"#.into(),
        categories_json: "[]".into(),
        source: None,
        access_policy: "publicread".into(),
        allowed_agents_json: Some(r#"["b"]"#.into()),
        allowed_scopes_json: None,
        created_at: TS.into(),
        updated_at: TS.into(),
        expires_at: None,
        immutable: 1,
        version: 3,
        valid_from: None,
        valid_until: None,
        confidence: None,
        entity_type: None,
        upsert_key: None,
    }
}

fn internal(r: Result<impl std::fmt::Debug, OmsError>) -> String {
    match r {
        Err(OmsError::Internal(m)) => m,
        other => panic!("expected an internal error, got {other:?}"),
    }
}

#[test]
fn memory_row_decodes() {
    let e = decode_memory_row(row()).unwrap();
    assert_eq!(e.id, 0x550e8400_e29b_41d4_a716_446655440000);
    assert_eq!(e.layer, MemoryLayer::Semantic);
    assert_eq!(e.access_control.policy, AccessPolicy::PublicRead);
    assert_eq!(e.embedding, Some(vec![1.5f32.to_bits(), 2.0f32.to_bits()]));
    assert!(e.immutable);
    assert_eq!(e.version, 3);
    assert_eq!(e.tags, vec!["x".to_string()]);
    assert!(e.categories.is_empty());
    assert_eq!(e.access_control.allowed_agents, Some(vec!["b".to_string()]));
    assert!(e.access_control.allowed_scopes.is_none());
}

#[test]
fn memory_row_reports_first_bad_column() {
    let mut r = row();
    r.layer = "nope".into();
    r.tags_json = "not json".into();
    assert_eq!(internal(decode_memory_row(r)), "unknown layer: nope");
    let mut r = row();
    r.tags_json = "not json".into();
    r.created_at = "bad".into();
    let reason = serde_json::from_str::<Vec<String>>("not json").unwrap_err().to_string();
    assert_eq!(internal(decode_memory_row(r)), format!("invalid tags json: {reason}"));
    let mut r = row();
    r.expires_at = Some("yesterday".into());
    let reason = chrono::DateTime::parse_from_rfc3339("yesterday").unwrap_err().to_string();
    assert_eq!(internal(decode_memory_row(r)), format!("invalid expires_at: {reason}"));
    let mut r = row();
    r.id = "zz".into();
    assert!(internal(decode_memory_row(r)).starts_with("invalid memory id: "));
    let mut r = row();
    r.access_policy = "open".into();
    assert_eq!(internal(decode_memory_row(r)), "unknown access policy: open");
}

#[test]
fn embedding_bytes_round_trip() {
    let bits = vec![0u32, 1, 0xdeadbeef, u32::MAX];
    let bytes = embedding_to_bytes(&bits);
    assert_eq!(bytes.len(), 16);
    assert_eq!(&bytes[8..12], &0xdeadbeefu32.to_le_bytes());
    assert_eq!(bytes_to_embedding(&bytes), bits);
    assert_eq!(bytes_to_embedding(&vec![1, 0, 0, 0, 9]), vec![1]);
}

#[test]
fn audit_and_edge_rows() {
    let a = AuditRow {
        id: ID.into(),
        store_id: ID.into(),
        tenant_id: "t".into(),
        memory_id: Some("x".into()),
        action: "create".into(),
        agent_id: None,
        details: None,
        created_at: TS.into(),
        redacted: 0,
    };
    assert!(internal(decode_audit_row(a)).starts_with("invalid audit memory id: "));
    let edge = EdgeRow {
        id: ID.into(),
        source_memory_id: ID.into(),
        target_memory_id: "nope".into(),
        relation_type: "r".into(),
        weight: 1.0f64.to_bits(),
        metadata: Err("eof".into()),
        created_at: TS.into(),
    };
    assert!(internal(decode_edge_link(&edge)).starts_with("invalid target id: "));
    let link = kd6::graph::EdgeLink { id: 1, source: 2, target: 3 };
    assert_eq!(internal(decode_edge(edge, link, "t", 9)), "invalid edge metadata: eof");
}

#[test]
fn endpoint_handling() {
    assert_eq!(normalize_endpoint("https://api.example.com/v1//"), "https://api.example.com/v1");
    assert_eq!(embeddings_url("http://x"), "http://x/embeddings");
    assert!(matches!(failed_response_error(429, "429 Too Many Requests", "slow"), OmsError::Internal(m) if m == "embedding endpoint rate limited (429): slow"));
    assert!(matches!(failed_response_error(400, "400 Bad Request", "no"), OmsError::InvalidInput(m) if m == "embedding endpoint rejected request (400 Bad Request): no"));
    assert!(matches!(failed_response_error(503, "503 Service Unavailable", "down"), OmsError::Internal(m) if m == "embedding endpoint returned 503 Service Unavailable: down"));
}

fn item(index: usize, v: &[u32]) -> EmbedData {
    EmbedData { embedding: v.to_vec(), index }
}

#[test]
fn response_is_put_in_input_order() {
    let out = check_embed_response(3, vec![item(2, &[3, 3]), item(0, &[1, 1]), item(1, &[2, 2])], 2).unwrap();
    assert_eq!(out, vec![vec![1, 1], vec![2, 2], vec![3, 3]]);
    let sorted = sort_by_index(vec![item(1, &[1]), item(0, &[2]), item(1, &[3])]);
    assert_eq!(sorted.iter().map(|d| d.embedding[0]).collect::<Vec<_>>(), vec![2, 1, 3]);
}

#[test]
fn response_errors() {
    assert_eq!(
        internal(check_embed_response(2, vec![item(0, &[1])], 1)),
        "embedding endpoint returned 1 vectors for 2 inputs"
    );
    assert_eq!(
        internal(check_embed_response(2, vec![item(0, &[1]), item(0, &[2])], 1)),
        "embedding response has invalid index sequence: expected 1, got 0"
    );
    assert_eq!(
        internal(check_embed_response(2, vec![item(1, &[1, 2]), item(0, &[1])], 1)),
        "embedding at index 1 has 2 dimensions, expected 1"
    );
    assert_eq!(first_embedding(vec![vec![7], vec![8]]).unwrap(), vec![7]);
    assert_eq!(internal(first_embedding(vec![])), "embedding returned no results");
}

#[test]
fn string_lists_are_written_as_serde_json_writes_them() {
    let items = vec!["a".to_string(), "b \"q\"\n\\".to_string(), String::new()];
    let text = kd6::json::string_list_json(&items);
    assert_eq!(text, serde_json::to_string(&items).unwrap());
    assert_eq!(kd6::json::string_list_json(&Vec::new()), "[]");
    let back: Vec<String> = serde_json::from_str(&text).unwrap();
    assert_eq!(back, items);
}
