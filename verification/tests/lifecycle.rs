use kd6::entry::{
    apply_update, check_deletable, concurrent_update_conflict, delete_outcome, update_write_outcome,
    versioned_update_statement, memory_not_found, new_memory,
    upsert_replacement, CreateMemoryRequest, MemoryEntry, UpdateMemoryRequest, UpsertTarget,
};
use kd6::error::{ApiError, DbFailure, OmsError, map_db_error};
use kd6::json::Json;
use kd6::model::{AccessPolicy, MemoryLayer};
use kd6::scope::{AccessControl, MemoryScope};
use kd6::store::{
    apply_store_update, capabilities, check_batch_size, new_store, record_create_outcome,
    record_delete_outcome, store_details, store_write_outcome, BatchCreateResponse,
    BatchDeleteResponse, CreateStoreRequest, MemoryStore, StoreConfig, UpdateStoreRequest,
};

const ID: u128 = 0x550e8400_e29b_41d4_a716_446655440000;
const ID_TEXT: &str = "550e8400-e29b-41d4-a716-446655440000";
const NOW: &str = "2025-01-01T00:00:00+00:00";

fn request(agent: &str) -> CreateMemoryRequest {
    CreateMemoryRequest {
        layer: MemoryLayer::Episodic,
        content: Json::String("remember".into()),
        embedding: Some(vec![1, 2, 3]),
        owner_agent_id: agent.into(),
        scope: MemoryScope { tenant_id: "spoofed".into(), agent_id: Some(agent.into()), ..Default::default() },
        tags: vec!["t".into()],
        categories: vec![],
        source: None,
        access_control: AccessControl::default(),
        expires_at: None,
        immutable: false,
        valid_from: None,
        valid_until: None,
        confidence: None,
        entity_type: None,
        upsert_key: Some("k".into()),
    }
}

fn entry(immutable: bool, version: i64) -> MemoryEntry {
    let mut r = request("agent-1");
    r.immutable = immutable;
    let mut e = new_memory(r, "tenant", 7, ID, NOW.into());
    e.version = version;
    e
}

#[test]
fn new_memory_starts_at_version_one_in_authenticated_tenant() {
    let e = new_memory(request("agent-1"), "tenant", 7, ID, NOW.into());
    assert_eq!(e.id, ID);
    assert_eq!(e.store_id, 7);
    assert_eq!(e.version, 1);
    assert_eq!(e.scope.tenant_id, "tenant");
    assert_eq!(e.scope.agent_id, Some("agent-1".into()));
    assert_eq!(e.created_at, NOW);
    assert_eq!(e.updated_at, NOW);
    assert_eq!(e.upsert_key, Some("k".into()));
}

#[test]
fn upsert_keeps_id_and_creation_time() {
    let target = UpsertTarget { id: 99, version: 4, content_json: "\"old\"".into(), created_at: "2020-05-05T10:00:00Z".into(), immutable: false };
    let e = upsert_replacement(request("a"), "tenant", 7, &target, NOW.into()).unwrap();
    assert_eq!(e.id, 99);
    assert_eq!(e.version, 5);
    assert_eq!(e.created_at, "2020-05-05T10:00:00Z");
    assert_eq!(e.updated_at, NOW);
    let bad = UpsertTarget { id: 99, version: 1, content_json: "1".into(), created_at: "yesterday".into(), immutable: false };
    let e = upsert_replacement(request("a"), "tenant", 7, &bad, NOW.into()).unwrap();
    assert_eq!(e.created_at, NOW);
    let frozen = UpsertTarget { id: 99, version: i64::MAX, content_json: "1".into(), created_at: NOW.into(), immutable: true };
    match upsert_replacement(request("a"), "tenant", 7, &frozen, NOW.into()) {
        Err(OmsError::Immutable(id)) => assert_eq!(id, "00000000-0000-0000-0000-000000000063"),
        other => panic!("expected Immutable, got {other:?}"),
    }
}

#[test]
fn update_increments_version_and_keeps_unmentioned_fields() {
    let req = UpdateMemoryRequest {
        content: Some(Json::Bool(true)),
        embedding: Some(None),
        tags: None,
        categories: Some(vec!["c".into()]),
        access_control: None,
        expires_at: None,
    };
    let e = apply_update(entry(false, 3), req, "later".into()).unwrap();
    assert_eq!(e.version, 4);
    assert_eq!(e.content, Json::Bool(true));
    assert!(e.embedding.is_none());
    assert_eq!(e.tags, vec!["t".to_string()]);
    assert_eq!(e.categories, vec!["c".to_string()]);
    assert_eq!(e.updated_at, "later");
    assert_eq!(e.created_at, NOW);
}

#[test]
fn update_of_immutable_entry_is_refused() {
    let req = UpdateMemoryRequest { content: None, embedding: None, tags: None, categories: None, access_control: None, expires_at: None };
    match apply_update(entry(true, 1), req, "later".into()) {
        Err(e) => {
            assert!(matches!(e, OmsError::Immutable(_)));
            assert_eq!(e.to_string(), format!("immutable entry cannot be modified: {ID_TEXT}"));
        }
        Ok(_) => panic!("immutable entry was updated"),
    }
}

#[test]
fn conflict_and_not_found_messages() {
    let e = concurrent_update_conflict(ID, 3);
    assert_eq!(e.to_string(), format!("conflict: memory {ID_TEXT} was modified concurrently (expected version 3)"));
    assert!(update_write_outcome(ID, 3, 1).is_ok());
    assert_eq!(
        update_write_outcome(ID, 3, 0).unwrap_err().to_string(),
        format!("conflict: memory {ID_TEXT} was modified concurrently (expected version 3)")
    );
    assert!(versioned_update_statement().ends_with("WHERE id = ? AND store_id = ? AND tenant_id = ? AND version = ?"));
    assert!(delete_outcome(ID, 1).is_ok());
    assert!(check_deletable(ID, false).is_ok());
    assert_eq!(
        check_deletable(ID, true).unwrap_err().to_string(),
        format!("immutable entry cannot be modified: {ID_TEXT}")
    );
    assert_eq!(delete_outcome(ID, 0).unwrap_err().to_string(), format!("memory not found: {ID_TEXT}"));
    assert!(matches!(memory_not_found(ID), OmsError::MemoryNotFound(_)));
}

#[test]
fn error_display_and_status() {
    let cases: Vec<(OmsError, u16, &str)> = vec![
        (OmsError::StoreNotFound("s".into()), 404, "store not found: s"),
        (OmsError::MemoryNotFound("m".into()), 404, "memory not found: m"),
        (OmsError::InheritanceNotFound("i".into()), 404, "inheritance not found: i"),
        (OmsError::SpaceNotFound("p".into()), 404, "shared space not found: p"),
        (OmsError::NotFound("n".into()), 404, "n"),
        (OmsError::TenantRequired, 401, "tenant required"),
        (OmsError::Unauthorized("u".into()), 401, "u"),
        (OmsError::Forbidden("f".into()), 403, "f"),
        (OmsError::Conflict("c".into()), 409, "c"),
        (OmsError::ConstraintViolation("x".into()), 409, "constraint violation: x"),
        (OmsError::Immutable("i".into()), 409, "immutable entry cannot be modified: i"),
        (OmsError::InvalidInput("bad".into()), 400, "bad"),
        (OmsError::NotImplemented("z".into()), 501, "not implemented: z"),
        (OmsError::Internal("secret".into()), 500, "internal server error"),
    ];
    for (e, status, message) in cases {
        let (s, m) = ApiError::from(e).status_and_message();
        assert_eq!(s, status);
        assert_eq!(m, message);
    }
    assert_eq!(OmsError::InvalidInput("bad".into()).to_string(), "invalid input: bad");
}

#[test]
fn database_failures_map_to_constraint_or_internal() {
    let unique = DbFailure {
        code: Some("2067".into()),
        message: Some("UNIQUE constraint failed: stores.name".into()),
        db_display: Some("UNIQUE constraint failed: stores.name".into()),
        display: "error returned from database: UNIQUE constraint failed: stores.name".into(),
    };
    match map_db_error("insert store", &unique) {
        OmsError::ConstraintViolation(m) => assert_eq!(m, "insert store: UNIQUE constraint failed: stores.name"),
        other => panic!("unexpected {other:?}"),
    }
    let other = DbFailure { code: None, message: None, db_display: None, display: "pool timed out".into() };
    match map_db_error("query store", &other) {
        OmsError::Internal(m) => assert_eq!(m, "query store: pool timed out"),
        e => panic!("unexpected {e:?}"),
    }
}

fn store() -> MemoryStore {
    new_store(
        CreateStoreRequest { name: "s1".into(), region: Some("eu".into()), config: StoreConfig::default(), metadata: vec![("k".into(), "v".into())] },
        "tenant",
        ID,
        NOW.into(),
    )
}

#[test]
fn store_create_and_partial_update() {
    let s = store();
    assert_eq!(s.name, "s1");
    assert_eq!(s.tenant_id, "tenant");
    assert_eq!(s.created_at, NOW);
    let cfg = StoreConfig { default_ttl_seconds: Some(60), default_sharing_policy: None, embedding_model: None };
    let u = apply_store_update(s, UpdateStoreRequest { config: Some(cfg), metadata: None }, "later".into());
    assert_eq!(u.name, "s1");
    assert_eq!(u.config.default_ttl_seconds, Some(60));
    assert_eq!(u.metadata, vec![("k".to_string(), "v".to_string())]);
    assert_eq!(u.updated_at, "later");
    assert_eq!(u.created_at, NOW);
    assert!(store_write_outcome(ID, 0).is_err());
    assert_eq!(store_details(ID, "s1"), format!("{{\"entity\":\"store\",\"name\":\"s1\",\"store_id\":\"{ID_TEXT}\"}}"));
}

#[test]
fn sqlite_capabilities() {
    let c = capabilities();
    assert_eq!(c.supported_layers.len(), 5);
    assert_eq!(c.max_batch_size, Some(1000));
    assert_eq!(c.supported_distance_metrics, vec!["cosine".to_string()]);
    assert!(c.audit_log && !c.encryption_at_rest);
}

#[test]
fn batch_size_limit_and_outcomes() {
    assert!(check_batch_size(1000).is_ok());
    assert_eq!(check_batch_size(1001).unwrap_err().to_string(), "invalid input: batch size 1001 exceeds maximum of 1000");
    let mut created = BatchCreateResponse { created: vec![], errors: vec![] };
    record_create_outcome(&mut created, 0, Ok(entry(false, 1)));
    record_create_outcome(&mut created, 1, Err(OmsError::StoreNotFound("x".into())));
    assert_eq!(created.created.len(), 1);
    assert_eq!(created.errors.len(), 1);
    assert_eq!(created.errors[0].index, 1);
    assert_eq!(created.errors[0].error, "store not found: x");
    let mut deleted = BatchDeleteResponse { deleted: 0, errors: vec![] };
    record_delete_outcome(&mut deleted, 0, Ok(()));
    record_delete_outcome(&mut deleted, 1, Err(OmsError::MemoryNotFound("m".into())));
    record_delete_outcome(&mut deleted, 2, Ok(()));
    assert_eq!(deleted.deleted, 2);
    assert_eq!(deleted.errors[0].index, 1);
}

#[test]
fn access_control_default() {
    let a = AccessControl::default();
    assert_eq!(a.policy, AccessPolicy::Private);
    assert!(a.allowed_agents.is_none());
}
