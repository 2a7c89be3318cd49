use kd6::model::{AccessPolicy, MemoryLayer};
use kd6::scope::MemoryScope;
use kd6::store::{ListMemoriesFilter, StoreConfig};

#[test]
fn normalize_overrides_tenant_id() {
    let scope = MemoryScope {
        tenant_id: "user-provided".into(),
        org_id: Some("org-1".into()),
        ..Default::default()
    };
    let normalized = scope.normalize("auth-tenant");
    assert_eq!(normalized.tenant_id, "auth-tenant");
    assert_eq!(normalized.org_id, Some("org-1".into()));
}

#[test]
fn normalize_sets_empty_tenant() {
    let scope = MemoryScope::default();
    assert_eq!(scope.tenant_id, "");
    let normalized = scope.normalize("t1");
    assert_eq!(normalized.tenant_id, "t1");
}

#[test]
fn default_scope_has_all_none_fields() {
    let scope = MemoryScope::default();
    assert_eq!(scope.tenant_id, "");
    assert!(scope.org_id.is_none());
    assert!(scope.team_id.is_none());
    assert!(scope.project_id.is_none());
    assert!(scope.user_id.is_none());
    assert!(scope.agent_id.is_none());
    assert!(scope.session_id.is_none());
    assert!(scope.run_id.is_none());
}

#[test]
fn memory_layer_display() {
    assert_eq!(MemoryLayer::Working.to_string(), "working");
    assert_eq!(MemoryLayer::Episodic.to_string(), "episodic");
    assert_eq!(MemoryLayer::Semantic.to_string(), "semantic");
    assert_eq!(MemoryLayer::Procedural.to_string(), "procedural");
    assert_eq!(MemoryLayer::Archival.to_string(), "archival");
}

#[test]
fn access_policy_default_is_private() {
    assert_eq!(AccessPolicy::default(), AccessPolicy::Private);
}

#[test]
fn store_config_defaults_to_none() {
    let config = StoreConfig::default();
    assert!(config.default_ttl_seconds.is_none());
    assert!(config.default_sharing_policy.is_none());
    assert!(config.embedding_model.is_none());
}

#[test]
fn list_memories_filter_defaults() {
    let filter = ListMemoriesFilter::default();
    assert!(filter.layer.is_none());
    assert!(filter.tags.is_none());
    assert!(filter.limit.is_none());
    assert!(filter.offset.is_none());
}
