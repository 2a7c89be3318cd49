use kd6::audit::{
    build_audit_hash, deleted_count_details, gdpr_purge_details, new_audit_record, upsert_details,
    version_details,
};
use kd6::graph::edge_deleted_details;
use kd6::scope::MemoryScope;
use kd6::server::{
    error_body, parse_store_ref, resolve_agent, resolve_store_ref, resolve_tenant, ServerConfig,
    StoreRef, StoreResolution,
};
use sha2::Digest;

const ID: u128 = 0x550e8400_e29b_41d4_a716_446655440000;

fn hex(bytes: &[u8]) -> String {
    bytes.iter().map(|b| format!("{b:02x}")).collect()
}

#[test]
fn audit_hash_is_sha256_of_fields_in_order() {
    let h = build_audit_hash(ID, 7, "t1", Some("m"), "create", None, Some("{}"), "now", Some("prev"));
    let mut hasher = sha2::Sha256::new();
    hasher.update(uuid::Uuid::from_u128(ID).to_string().as_bytes());
    hasher.update(uuid::Uuid::from_u128(7).to_string().as_bytes());
    hasher.update(b"t1");
    hasher.update(b"m");
    hasher.update(b"create");
    hasher.update(b"");
    hasher.update(b"{}");
    hasher.update(b"now");
    hasher.update(b"prev");
    assert_eq!(h, hex(&hasher.finalize()));
    assert_eq!(h.len(), 64);
}

#[test]
fn audit_hash_of_empty_fields_is_known_digest() {
    let h = build_audit_hash(0, 0, "", None, "", None, None, "", None);
    let text = "00000000-0000-0000-0000-00000000000000000000-0000-0000-0000-000000000000";
    assert_eq!(h, hex(&sha2::Sha256::digest(text.as_bytes())));
    assert_ne!(h, text);
}

#[test]
fn audit_chain_links_each_entry_to_the_previous_hash() {
    let first = new_audit_record(1, 9, "t", Some(ID), "create", Some("a".into()), Some(version_details(1)), "t0".into(), None);
    assert!(first.prev_hash.is_none());
    let second = new_audit_record(2, 9, "t", Some(ID), "delete", Some("a".into()), Some(version_details(1)), "t1".into(), Some(first.entry_hash.clone()));
    assert_eq!(second.prev_hash.as_deref(), Some(first.entry_hash.as_str()));
    assert_ne!(first.entry_hash, second.entry_hash);
    let expected = build_audit_hash(
        2, 9, "t", Some(&uuid::Uuid::from_u128(ID).to_string()), "delete", Some("a"),
        Some("{\"version\":1}"), "t1", Some(&first.entry_hash),
    );
    assert_eq!(second.entry_hash, expected);
    assert!(!second.redacted);
}

#[test]
fn audit_details_texts() {
    assert_eq!(version_details(-3), "{\"version\":-3}");
    assert_eq!(upsert_details(2, "\"old\""), "{\"previous_content\":\"\\\"old\\\"\",\"version\":2}");
    assert_eq!(deleted_count_details(12), "{\"deleted_count\":12}");
}

#[test]
fn tenant_resolution() {
    let on = ServerConfig::default();
    let off = ServerConfig { auto_provision: false, default_tenant: false };
    assert_eq!(resolve_tenant(Some("  acme "), &on).unwrap().0, "acme");
    assert_eq!(resolve_tenant(Some("   "), &on).unwrap().0, "_default");
    assert_eq!(resolve_tenant(None, &on).unwrap().0, "_default");
    assert_eq!(resolve_tenant(None, &off).unwrap_err().0, "X-Tenant-ID header is required");
    assert_eq!(resolve_agent(Some(" bot ")).unwrap().0, "bot");
    assert_eq!(resolve_agent(Some("")).unwrap_err().0, "X-Agent-ID header is required");
}

#[test]
fn store_references() {
    assert_eq!(parse_store_ref("_default").unwrap(), StoreRef::Default);
    assert_eq!(
        parse_store_ref("550e8400-e29b-41d4-a716-446655440000").unwrap(),
        StoreRef::Id(ID)
    );
    assert!(parse_store_ref("nope").is_err());
    let on = ServerConfig::default();
    let off = ServerConfig { auto_provision: false, default_tenant: true };
    match resolve_store_ref(&StoreRef::Id(5), &off) {
        Ok(StoreResolution::Known(id)) => assert_eq!(id, 5),
        _ => panic!("expected a known store"),
    }
    match resolve_store_ref(&StoreRef::Default, &on) {
        Ok(StoreResolution::Provision(req)) => {
            assert_eq!(req.name, "_default");
            assert!(req.region.is_none());
        }
        _ => panic!("expected provisioning"),
    }
    match resolve_store_ref(&StoreRef::Default, &off) {
        Err(e) => assert_eq!(e.to_string(), "invalid input: _default store alias is disabled; create a store explicitly"),
        _ => panic!("expected refusal"),
    }
}

#[test]
fn error_bodies() {
    assert_eq!(error_body("boom"), "{\"error\":\"boom\"}");
}

#[test]
fn gdpr_details_match_serde_json_with_sorted_keys() {
    let scope = MemoryScope {
        tenant_id: "t1".into(),
        user_id: Some("u\"1".into()),
        org_id: Some("org".into()),
        ..Default::default()
    };
    let d = gdpr_purge_details(&scope, 12);
    assert_eq!(d, r#"{"deleted_count":12,"scope":{"org_id":"org","tenant_id":"t1","user_id":"u\"1"}}"#);
    let value: serde_json::Value = serde_json::from_str(
        r#"{"scope": {"tenant_id": "t1", "user_id": "u\"1", "org_id": "org"}, "deleted_count": 12}"#,
    )
    .unwrap();
    let expected = value.to_string();
    assert_eq!(d, expected);
}

#[test]
fn edge_deletion_details() {
    assert_eq!(
        edge_deleted_details(ID),
        r#"{"edge_id":"550e8400-e29b-41d4-a716-446655440000","entity":"graph_edge"}"#
    );
}
