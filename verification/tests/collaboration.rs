use kd6::entry::{new_memory, CreateMemoryRequest};
use kd6::error::OmsError;
use kd6::graph::{
    default_depth, edge_delete_outcome, edge_details, edge_query, neighbor_query, EdgeLink,
    Traversal, TraversalStep,
};
use kd6::inheritance::{
    already_bubbled, bubble_copy, bubble_layers, bubble_source_query, bubble_uri,
    bubbled_source_id, check_bubble_up_enabled, inheritance_delete_outcome, inheritance_details,
    inheritance_not_found, new_inheritance, summary_request, BubbleUpConfig, BubbleUpRequest,
    CreateInheritanceRequest, InheritanceFilter, InheritanceSpec,
};
use kd6::json::Json;
use kd6::model::{InheritanceAccess, MemoryLayer, ParticipantAccess, ConflictResolution};
use kd6::scope::{AccessControl, MemoryScope};
use kd6::spaces::{
    group_participants, new_shared_space, participants_query, space_delete_outcome,
    space_joined_details, CreateSharedSpaceRequest,
};

const SRC: u128 = 0x550e8400_e29b_41d4_a716_446655440000;
const SRC_TEXT: &str = "550e8400-e29b-41d4-a716-446655440000";

fn inheritance(layers: Vec<MemoryLayer>, bubble: Vec<MemoryLayer>, enabled: bool) -> InheritanceSpec {
    new_inheritance(
        CreateInheritanceRequest {
            parent_agent_id: "parent".into(),
            child_agent_id: "child".into(),
            inherit_layers: layers,
            filter: InheritanceFilter::default(),
            access: InheritanceAccess::ReadOnly,
            bubble_up: BubbleUpConfig { enabled, auto_summarize: false, layers: bubble },
        },
        "t",
        1,
        2,
        "now".into(),
    )
    .unwrap()
}

#[test]
fn inheritance_needs_distinct_agents() {
    let r = new_inheritance(
        CreateInheritanceRequest {
            parent_agent_id: "a".into(),
            child_agent_id: "a".into(),
            inherit_layers: vec![],
            filter: InheritanceFilter::default(),
            access: InheritanceAccess::ReadWrite,
            bubble_up: BubbleUpConfig::default(),
        },
        "t",
        1,
        2,
        "now".into(),
    );
    match r {
        Err(OmsError::InvalidInput(m)) => assert_eq!(m, "parent_agent_id and child_agent_id must be different"),
        _ => panic!("expected invalid input"),
    }
    let spec = inheritance(vec![MemoryLayer::Working], vec![], true);
    assert_eq!(spec.tenant_id, "t");
    assert_eq!(spec.created_at, "now");
}

#[test]
fn inheritance_errors_and_details() {
    assert_eq!(
        inheritance_not_found("p", "c").to_string(),
        "invalid input: inheritance not found for parent p and child c"
    );
    assert!(inheritance_delete_outcome(SRC, 0).unwrap_err().to_string().ends_with(SRC_TEXT));
    assert!(check_bubble_up_enabled(&inheritance(vec![], vec![], false)).is_err());
    assert!(check_bubble_up_enabled(&inheritance(vec![], vec![], true)).is_ok());
    let d = inheritance_details(&inheritance(vec![], vec![], true));
    assert_eq!(
        d,
        "{\"child_agent_id\":\"child\",\"entity\":\"inheritance\",\"inheritance_id\":\"00000000-0000-0000-0000-000000000002\",\"parent_agent_id\":\"parent\"}"
    );
}

fn bubble_request(layers: Vec<MemoryLayer>) -> BubbleUpRequest {
    BubbleUpRequest { child_agent_id: "child".into(), parent_agent_id: "parent".into(), summary: None, layers }
}

#[test]
fn bubble_layers_selection() {
    let (working, episodic, semantic, archival) =
        (MemoryLayer::Working, MemoryLayer::Episodic, MemoryLayer::Semantic, MemoryLayer::Archival);
    let spec = inheritance(vec![working, episodic], vec![], true);
    assert_eq!(bubble_layers(&bubble_request(vec![]), &spec), vec![working, episodic]);
    assert_eq!(bubble_layers(&bubble_request(vec![semantic, episodic]), &spec), vec![episodic]);
    let spec = inheritance(vec![working, episodic], vec![episodic, semantic], true);
    assert_eq!(bubble_layers(&bubble_request(vec![]), &spec), vec![episodic]);
    let spec = inheritance(vec![], vec![], true);
    assert_eq!(bubble_layers(&bubble_request(vec![archival]), &spec), vec![archival]);
}

#[test]
fn bubble_uri_round_trip_and_dedupe() {
    let uri = bubble_uri(SRC);
    assert_eq!(uri, format!("bubble_up:{SRC_TEXT}"));
    assert_eq!(bubbled_source_id(&uri), Some(SRC));
    assert_eq!(bubbled_source_id("bubble_up:not-a-uuid"), None);
    assert_eq!(bubbled_source_id("https://example.com"), None);
    let seen = already_bubbled(&vec!["x".into(), uri.clone(), "bubble_up:zz".into()]);
    assert_eq!(seen, vec![SRC]);
}

fn child_memory() -> kd6::entry::MemoryEntry {
    let req = CreateMemoryRequest {
        layer: MemoryLayer::Episodic,
        content: Json::String("finding".into()),
        embedding: None,
        owner_agent_id: "child".into(),
        scope: MemoryScope {
            tenant_id: "t".into(),
            agent_id: Some("child".into()),
            session_id: Some("s".into()),
            run_id: Some("r".into()),
            ..Default::default()
        },
        tags: vec!["x".into()],
        categories: vec![],
        source: None,
        access_control: AccessControl::default(),
        expires_at: None,
        immutable: false,
        valid_from: None,
        valid_until: None,
        confidence: None,
        entity_type: None,
        upsert_key: None,
    };
    new_memory(req, "t", 1, SRC, "now".into())
}

#[test]
fn bubble_copy_moves_memory_to_parent_scope() {
    let copy = bubble_copy(child_memory(), &vec![], "parent").unwrap();
    assert_eq!(copy.owner_agent_id, "parent");
    assert_eq!(copy.scope.agent_id, Some("parent".into()));
    assert!(copy.scope.session_id.is_none());
    assert!(copy.scope.run_id.is_none());
    assert_eq!(copy.source.unwrap().uri, Some(format!("bubble_up:{SRC_TEXT}")));
    assert!(bubble_copy(child_memory(), &vec![SRC], "parent").is_none());
}

#[test]
fn summary_goes_to_first_layer() {
    let r = summary_request(Json::String("sum".into()), &vec![MemoryLayer::Semantic], "parent", "t");
    assert_eq!(r.layer, MemoryLayer::Semantic);
    assert_eq!(r.tags, vec!["bubble_up".to_string(), "summary".to_string()]);
    assert_eq!(r.categories, vec!["summary".to_string()]);
    let r = summary_request(Json::Null, &vec![], "parent", "t");
    assert_eq!(r.layer, MemoryLayer::Working);
    assert_eq!(r.scope.agent_id, Some("parent".into()));
}

#[test]
fn bubble_source_query_text() {
    let filter = InheritanceFilter {
        tags: Some(vec!["x".into()]),
        categories: None,
        max_entries: Some(5),
        time_from: Some("2024-01-01T00:00:00+00:00".into()),
        time_to: None,
    };
    let q = bubble_source_query("t", 1, "child", &vec![MemoryLayer::Working, MemoryLayer::Episodic], &filter);
    assert_eq!(
        q.sql,
        "SELECT * FROM memories WHERE store_id = ? AND tenant_id = ? AND owner_agent_id = ? AND layer IN (?,?) AND tags_json LIKE ? ESCAPE '\\' AND created_at >= ? ORDER BY created_at DESC LIMIT ?"
    );
    assert_eq!(q.binds.len(), 7);
    assert_eq!(q.limit, 5);
    let q = bubble_source_query("t", 1, "child", &vec![MemoryLayer::Working], &InheritanceFilter::default());
    assert_eq!(q.limit, 100);
}

#[test]
fn shared_space_bookkeeping() {
    let s = new_shared_space(
        CreateSharedSpaceRequest {
            name: "board".into(),
            scope: MemoryScope { tenant_id: "other".into(), ..Default::default() },
            layer: MemoryLayer::Working,
            conflict_resolution: ConflictResolution::LastWriteWins,
            notify_on_write: true,
            notify_on_delete: false,
        },
        "t",
        1,
        SRC,
        "now".into(),
    );
    assert_eq!(s.scope.tenant_id, "t");
    assert!(s.participants.is_empty());
    assert_eq!(
        space_delete_outcome(SRC, 0).unwrap_err().to_string(),
        format!("invalid input: shared space not found: {SRC_TEXT}")
    );
    assert!(participants_query(2).contains("sp.space_id IN (?, ?)"));
    assert_eq!(group_participants(&vec![1, 2, 3], &vec![2, 1, 2]), vec![vec![1], vec![0, 2], vec![]]);
    assert!(space_joined_details(SRC, "a", ParticipantAccess::Admin).starts_with("{\"access\":\"admin\",\"agent_id\":\"a\""));
}

#[test]
fn traversal_visits_each_node_once_within_depth() {
    let mut t = Traversal::start(1, 1);
    assert_eq!(t.next_step(), TraversalStep::Expand { node: 1, depth: 0 });
    let edges = vec![
        EdgeLink { id: 10, source: 1, target: 2 },
        EdgeLink { id: 11, source: 3, target: 1 },
        EdgeLink { id: 10, source: 1, target: 2 },
    ];
    let (kept, fresh) = t.absorb_edges(1, 0, &edges);
    assert_eq!(kept, vec![0, 1]);
    assert_eq!(fresh, vec![2, 3]);
    assert_eq!(t.visited_count(), 3);
    // Nodes at depth 1 are at the cap and are not expanded.
    assert_eq!(t.next_step(), TraversalStep::Finished);
    assert_eq!(t.next_step(), TraversalStep::Finished);
    let mut deep = Traversal::start(1, 99);
    assert_eq!(deep.next_step(), TraversalStep::Expand { node: 1, depth: 0 });
    assert_eq!(default_depth(), 2);
}

#[test]
fn edge_statements() {
    let (sql, binds) = edge_query("t", 1, 2, &Some(vec!["a".into(), "b".into()]));
    assert!(sql.ends_with("AND (source_memory_id = ? OR target_memory_id = ?) AND relation_type IN (?,?) LIMIT 500"));
    assert_eq!(binds.len(), 6);
    let (sql, binds) = edge_query("t", 1, 2, &Some(vec![]));
    assert!(sql.ends_with("target_memory_id = ?) LIMIT 500"));
    assert_eq!(binds.len(), 4);
    let (sql, binds) = neighbor_query("t", 1, &vec![5, 6]);
    assert_eq!(sql, "SELECT * FROM memories WHERE id IN (?,?) AND store_id = ? AND tenant_id = ?");
    assert_eq!(binds[2], "00000000-0000-0000-0000-000000000001");
    assert!(edge_details(1, 2, 3, "rel").contains("\"entity\":\"graph_edge\""));
    assert!(edge_delete_outcome(1, 0).is_err());
}
