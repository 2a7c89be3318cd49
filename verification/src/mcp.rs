//! The MCP tool surface: tool parameters, their validation, and the
//! requests they turn into.
use crate::entry::CreateMemoryRequest;
use crate::graph::GraphTraversalRequest;
use crate::ids::{parse_uuid_text, spec_parse_uuid};
use crate::json::{quote_string, quoted, Json};
use crate::model::{layer_from_text, AccessPolicy, MemoryLayer};
use crate::scope::{AccessControl, MemoryScope};
use crate::search::SearchQuery;
use crate::store::{CreateStoreRequest, MetadataFilters, StoreConfig};
use crate::text::{concat2, concat3, is_blank, is_blank_spec, str_eq};
use vstd::prelude::*;

verus! {

broadcast use vstd::string::group_string_axioms;

/// Parameters of `create_store`.
#[derive(Debug, PartialEq, Eq)]
pub struct CreateStoreParams {
    pub tenant_id: String,
    pub name: String,
}

/// Parameters of `list_stores`.
#[derive(Debug, PartialEq, Eq)]
pub struct ListStoresParams {
    pub tenant_id: String,
}

/// Parameters of `create_memory`.
#[derive(Debug, PartialEq)]
pub struct CreateMemoryParams {
    pub tenant_id: String,
    pub store_name: String,
    /// Memory layer: working, episodic, semantic, procedural, or archival.
    pub layer: String,
    pub content: Json,
    pub owner_agent_id: String,
    pub tags: Vec<String>,
    pub entity_type: Option<String>,
    pub upsert_key: Option<String>,
    pub scope_user_id: Option<String>,
    pub scope_agent_id: Option<String>,
    pub scope_session_id: Option<String>,
}

/// Parameters of `get_memory`.
#[derive(Debug, PartialEq, Eq)]
pub struct GetMemoryParams {
    pub tenant_id: String,
    pub store_name: String,
    pub memory_id: String,
}

/// Parameters of `search_memories`.
#[derive(Debug, PartialEq, Eq)]
pub struct SearchMemoriesParams {
    pub tenant_id: String,
    pub store_name: String,
    pub query: String,
    pub top_k: usize,
    pub keyword: bool,
}

/// Parameters of `delete_memory`.
#[derive(Debug, PartialEq, Eq)]
pub struct DeleteMemoryParams {
    pub tenant_id: String,
    pub store_name: String,
    pub memory_id: String,
}

/// Parameters of `traverse_graph`.
#[derive(Debug, PartialEq, Eq)]
pub struct GraphTraverseParams {
    pub tenant_id: String,
    pub store_name: String,
    pub start_memory_id: String,
    pub depth: u32,
    pub relation_types: Option<Vec<String>>,
}

/// Parameters of `store_stats`.
#[derive(Debug, PartialEq, Eq)]
pub struct StoreStatsParams {
    pub tenant_id: String,
    pub store_name: String,
}

/// Parameters of `gdpr_purge`: the scope levels to purge.
#[derive(Debug, PartialEq, Eq)]
pub struct GdprPurgeParams {
    pub tenant_id: String,
    pub store_name: String,
    pub scope_org_id: Option<String>,
    pub scope_team_id: Option<String>,
    pub scope_project_id: Option<String>,
    pub scope_user_id: Option<String>,
    pub scope_agent_id: Option<String>,
    pub scope_session_id: Option<String>,
    pub scope_run_id: Option<String>,
}

/// The layer a memory is created in when the tool call names none.
pub fn default_layer_str() -> (s: String)
    ensures
        s@ == "working"@,
{
    "working".to_owned()
}

/// The number of search results when the tool call gives none.
pub fn default_top_k() -> (k: usize)
    ensures
        k == 10,
{
    10
}

/// Whether a search includes keyword results when the tool call does not
/// say: yes, as tool calls bring no embeddings.
pub fn default_keyword() -> (b: bool)
    ensures
        b,
{
    true
}

/// The traversal depth when the tool call gives none.
pub fn default_depth() -> (d: u32)
    ensures
        d == 2,
{
    2
}

/// The message for a missing tenant.
pub open spec fn tenant_required_message() -> Seq<char> {
    "tenant_id is required and cannot be empty"@
}

/// Refuses a blank tenant id.
pub fn validate_tenant_id(tenant_id: &str) -> (r: Result<(), String>)
    ensures
        r is Ok <==> !is_blank_spec(tenant_id@),
        r is Err ==> r->Err_0@ == tenant_required_message(),
{
    if is_blank(tenant_id) {
        return Err("tenant_id is required and cannot be empty".to_owned());
    }
    Ok(())
}

/// The message for a layer name the tool does not know.
pub open spec fn unknown_layer_message(s: Seq<char>) -> Seq<char> {
    "unknown layer '"@ + s + "': must be one of working, episodic, semantic, procedural, archival"@
}

/// Reads a layer name.
pub fn parse_layer(s: &str) -> (r: Result<MemoryLayer, String>)
    ensures
        match r {
            Ok(l) => layer_from_text(s@) == Some(l),
            Err(e) => layer_from_text(s@) is None && e@ == unknown_layer_message(s@),
        },
{
    match crate::model::parse_layer(s) {
        Ok(l) => Ok(l),
        Err(_) => Err(
            concat3(
                "unknown layer '",
                s,
                "': must be one of working, episodic, semantic, procedural, archival",
            ),
        ),
    }
}

/// The message for a text that is not a UUID, with the parser's reason.
pub open spec fn invalid_uuid_message(s: Seq<char>, reason: Seq<char>) -> Seq<char> {
    "invalid UUID '"@ + s + "': "@ + reason
}

/// Reads a UUID, naming the text and the parser's reason when it is not
/// one.
pub fn parse_uuid(s: &str) -> (r: Result<u128, String>)
    ensures
        match spec_parse_uuid(s@) {
            Ok(v) => r == Ok::<u128, String>(v),
            Err(reason) => r is Err && r->Err_0@ == invalid_uuid_message(s@, reason),
        },
{
    match parse_uuid_text(s) {
        Ok(v) => Ok(v),
        Err(reason) => {
            let head = concat3("invalid UUID '", s, "': ");
            Err(concat2(head.as_str(), reason.as_str()))
        },
    }
}

/// The JSON text of a failed tool call.
pub fn err_json(msg: &str) -> (r: String)
    ensures
        r@ == "{\"success\":false,\"error\":"@ + quoted(msg@) + "}"@,
{
    let q = quote_string(msg);
    concat3("{\"success\":false,\"error\":", q.as_str(), "}")
}

/// Whether a content value is null or the empty string.
pub open spec fn is_empty_content(c: Json) -> bool {
    match c {
        Json::Null => true,
        Json::String(s) => s@.len() == 0,
        _ => false,
    }
}

/// Whether a content value is the empty string.
pub open spec fn is_empty_string(c: Json) -> bool {
    match c {
        Json::String(s) => s@.len() == 0,
        _ => false,
    }
}

/// Content as a tool call stores it: null becomes the empty string.
pub fn normalize_content(content: Json) -> (r: Json)
    ensures
        is_empty_content(content) ==> is_empty_string(r),
        !is_empty_content(content) ==> r == content,
{
    match content {
        Json::Null => Json::String(String::new()),
        other => other,
    }
}

/// Validates a `create_store` call and builds its request: the given name,
/// no region, the default config and no metadata.
pub fn prepare_create_store(p: CreateStoreParams) -> (r: Result<CreateStoreRequest, String>)
    ensures
        r is Err <==> is_blank_spec(p.tenant_id@),
        r is Err ==> r->Err_0@ == tenant_required_message(),
        r is Ok ==> r->Ok_0.name == p.name && r->Ok_0.region is None
            && r->Ok_0.config.default_ttl_seconds is None
            && r->Ok_0.config.default_sharing_policy is None
            && r->Ok_0.config.embedding_model is None && r->Ok_0.metadata@.len() == 0,
{
    validate_tenant_id(p.tenant_id.as_str())?;
    Ok(CreateStoreRequest { name: p.name, region: None, config: StoreConfig::default(), metadata: Vec::new() })
}

/// Validates the tenant of a call on a store, which the call names; the
/// store is then looked up by that name for the tenant.
pub fn prepare_store_call(tenant_id: &str, store_name: &str) -> (r: Result<String, String>)
    ensures
        is_blank_spec(tenant_id@) ==> r is Err && r->Err_0@ == tenant_required_message(),
        !is_blank_spec(tenant_id@) ==> r is Ok && r->Ok_0@ == store_name@,
{
    validate_tenant_id(tenant_id)?;
    Ok(store_name.to_owned())
}

/// Validates the tenant of a call on a memory and reads the memory's id;
/// the store is named by `store_name`.
pub fn prepare_memory_call(tenant_id: &str, store_name: &str, memory_id: &str) -> (r: Result<
    (String, u128),
    String,
>)
    ensures
        is_blank_spec(tenant_id@) ==> r is Err && r->Err_0@ == tenant_required_message(),
        !is_blank_spec(tenant_id@) ==> match spec_parse_uuid(memory_id@) {
            Err(reason) => r is Err && r->Err_0@ == invalid_uuid_message(memory_id@, reason),
            Ok(m) => r is Ok && r->Ok_0.0@ == store_name@ && r->Ok_0.1 == m,
        },
{
    let s = prepare_store_call(tenant_id, store_name)?;
    let m = parse_uuid(memory_id)?;
    Ok((s, m))
}

/// Validates a `create_memory` call and builds its request: the layer it
/// names, its content (null read as the empty string), no embedding yet,
/// its owner, the tenant with the user, agent and session levels it gives,
/// its tags, entity type and upsert key, and nothing else.
pub fn prepare_create_memory(p: CreateMemoryParams) -> (r: Result<(String, CreateMemoryRequest), String>)
    ensures
        is_blank_spec(p.tenant_id@) ==> r is Err && r->Err_0@ == tenant_required_message(),
        !is_blank_spec(p.tenant_id@) && layer_from_text(p.layer@) is None ==> r is Err
            && r->Err_0@ == unknown_layer_message(p.layer@),
        !is_blank_spec(p.tenant_id@) && layer_from_text(p.layer@) is Some ==> r is Ok && {
            let (store, q) = r->Ok_0;
            &&& store@ == p.store_name@
            &&& Some(q.layer) == layer_from_text(p.layer@)
            &&& (is_empty_content(p.content) ==> is_empty_string(q.content))
            &&& (!is_empty_content(p.content) ==> q.content == p.content)
            &&& q.embedding is None
            &&& q.owner_agent_id == p.owner_agent_id
            &&& q.scope.tenant_id == p.tenant_id
            &&& q.scope.org_id is None
            &&& q.scope.team_id is None
            &&& q.scope.project_id is None
            &&& q.scope.user_id == p.scope_user_id
            &&& q.scope.agent_id == p.scope_agent_id
            &&& q.scope.session_id == p.scope_session_id
            &&& q.scope.run_id is None
            &&& q.tags == p.tags
            &&& q.categories@.len() == 0
            &&& q.source is None
            &&& q.access_control.policy == AccessPolicy::Private
            &&& q.access_control.allowed_agents is None
            &&& q.access_control.allowed_scopes is None
            &&& q.expires_at is None
            &&& !q.immutable
            &&& q.valid_from is None
            &&& q.valid_until is None
            &&& q.confidence is None
            &&& q.entity_type == p.entity_type
            &&& q.upsert_key == p.upsert_key
        },
{
    let store_name = prepare_store_call(p.tenant_id.as_str(), p.store_name.as_str())?;
    let layer = parse_layer(p.layer.as_str())?;
    let content = normalize_content(p.content);
    let scope = MemoryScope {
        tenant_id: p.tenant_id,
        org_id: None,
        team_id: None,
        project_id: None,
        user_id: p.scope_user_id,
        agent_id: p.scope_agent_id,
        session_id: p.scope_session_id,
        run_id: None,
    };
    let request = CreateMemoryRequest {
        layer,
        content,
        embedding: None,
        owner_agent_id: p.owner_agent_id,
        scope,
        tags: p.tags,
        categories: Vec::new(),
        source: None,
        access_control: AccessControl::default(),
        expires_at: None,
        immutable: false,
        valid_from: None,
        valid_until: None,
        confidence: None,
        entity_type: p.entity_type,
        upsert_key: p.upsert_key,
    };
    Ok((store_name, request))
}

/// The search a `search_memories` call runs once its query is embedded (or
/// not): all layers, no scope, the given result count, a zero threshold,
/// no filters, and keyword results as asked.
pub fn search_query_from_params(p: SearchMemoriesParams, embedding: Option<Vec<u32>>) -> (q:
    SearchQuery)
    ensures
        q.query == p.query,
        q.embedding == embedding,
        q.layers@.len() == 0,
        q.scope is None,
        q.top_k == p.top_k,
        q.threshold == 0,
        q.filters.tags is None,
        q.filters.categories is None,
        q.filters.owner_agent_id is None,
        q.keyword == p.keyword,
{
    SearchQuery {
        query: p.query,
        embedding,
        layers: Vec::new(),
        scope: None,
        top_k: p.top_k,
        threshold: 0,
        filters: MetadataFilters::default(),
        keyword: p.keyword,
    }
}

/// Validates a `traverse_graph` call and builds its request.
pub fn prepare_traverse(p: GraphTraverseParams) -> (r: Result<(String, GraphTraversalRequest), String>)
    ensures
        is_blank_spec(p.tenant_id@) ==> r is Err && r->Err_0@ == tenant_required_message(),
        !is_blank_spec(p.tenant_id@) ==> match spec_parse_uuid(p.start_memory_id@) {
            Err(reason) => r is Err && r->Err_0@ == invalid_uuid_message(p.start_memory_id@, reason),
            Ok(m) => r is Ok && r->Ok_0.0@ == p.store_name@ && r->Ok_0.1.start_memory_id == m
                && r->Ok_0.1.depth == p.depth && r->Ok_0.1.relation_types == p.relation_types,
        },
{
    let (store_name, start) = prepare_memory_call(
        p.tenant_id.as_str(),
        p.store_name.as_str(),
        p.start_memory_id.as_str(),
    )?;
    Ok(
        (
            store_name,
            GraphTraversalRequest {
                start_memory_id: start,
                depth: p.depth,
                relation_types: p.relation_types,
            },
        ),
    )
}

/// Validates a `gdpr_purge` call and builds the scope it purges: the tenant
/// with the levels the call gives.
pub fn prepare_gdpr_purge(p: GdprPurgeParams) -> (r: Result<(String, MemoryScope), String>)
    ensures
        is_blank_spec(p.tenant_id@) ==> r is Err && r->Err_0@ == tenant_required_message(),
        !is_blank_spec(p.tenant_id@) ==> r is Ok && r->Ok_0.0@ == p.store_name@ && r->Ok_0.1 == (
        MemoryScope {
            tenant_id: p.tenant_id,
            org_id: p.scope_org_id,
            team_id: p.scope_team_id,
            project_id: p.scope_project_id,
            user_id: p.scope_user_id,
            agent_id: p.scope_agent_id,
            session_id: p.scope_session_id,
            run_id: p.scope_run_id,
        }),
{
    let store_name = prepare_store_call(p.tenant_id.as_str(), p.store_name.as_str())?;
    Ok(
        (
            store_name,
            MemoryScope {
                tenant_id: p.tenant_id,
                org_id: p.scope_org_id,
                team_id: p.scope_team_id,
                project_id: p.scope_project_id,
                user_id: p.scope_user_id,
                agent_id: p.scope_agent_id,
                session_id: p.scope_session_id,
                run_id: p.scope_run_id,
            },
        ),
    )
}

} // verus!
