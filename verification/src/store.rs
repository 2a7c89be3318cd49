//! Stores, their configuration and sovereignty settings, the capabilities the
//! SQLite backend declares, list filters, pages, and batch bookkeeping.
use crate::entry::{CreateMemoryRequest, MemoryEntry};
use crate::error::{error_payload, error_text, OmsError};
use crate::ids::{int_text, u64_to_string, uuid_text, uuid_to_string};
use crate::model::{layer_from_text, parse_layer, MemoryLayer};
use crate::json::{pair_views, string_members, string_object};
use crate::scope::MemoryScope;
use vstd::prelude::*;

verus! {

/// Configuration for a memory store.
#[derive(Debug, PartialEq, Eq)]
pub struct StoreConfig {
    pub default_ttl_seconds: Option<i64>,
    pub default_sharing_policy: Option<String>,
    pub embedding_model: Option<String>,
}

impl Default for StoreConfig {
    fn default() -> (c: Self)
        ensures
            c.default_ttl_seconds is None,
            c.default_sharing_policy is None,
            c.embedding_model is None,
    {
        StoreConfig { default_ttl_seconds: None, default_sharing_policy: None, embedding_model: None }
    }
}

/// How strictly a store keeps its data in its region.
#[derive(Debug, Clone, Copy, PartialEq, Eq, Structural)]
pub enum SovereigntyMode {
    Strict,
    Preferred,
    Any,
}

/// The consistency replicas are kept at.
#[derive(Debug, Clone, Copy, PartialEq, Eq, Structural)]
pub enum Consistency {
    Strong,
    Eventual,
}

impl Default for Consistency {
    fn default() -> (c: Self)
        ensures
            c == Consistency::Eventual,
    {
        Consistency::Eventual
    }
}

/// The sovereignty mode a store gets when none is given: any region.
pub fn default_mode() -> (m: SovereigntyMode)
    ensures
        m == SovereigntyMode::Any,
{
    SovereigntyMode::Any
}

/// The replica consistency used when none is given: eventual.
pub fn default_consistency() -> (c: Consistency)
    ensures
        c == Consistency::Eventual,
{
    Consistency::Eventual
}

/// Replication settings of a store.
#[derive(Debug, PartialEq, Eq)]
pub struct ReplicationConfig {
    pub enabled: bool,
    pub target_regions: Vec<String>,
    pub consistency: Consistency,
}

impl Default for ReplicationConfig {
    fn default() -> (r: Self)
        ensures
            !r.enabled,
            r.target_regions@.len() == 0,
            r.consistency == Consistency::Eventual,
    {
        ReplicationConfig {
            enabled: false,
            target_regions: Vec::new(),
            consistency: Consistency::Eventual,
        }
    }
}

/// Data sovereignty configuration for a memory store.
#[derive(Debug, PartialEq, Eq)]
pub struct SovereigntyConfig {
    pub mode: SovereigntyMode,
    pub region: Option<String>,
    pub replication: ReplicationConfig,
}

impl Default for SovereigntyConfig {
    fn default() -> (s: Self)
        ensures
            s.mode == SovereigntyMode::Any,
            s.region is None,
            !s.replication.enabled,
            s.replication.target_regions@.len() == 0,
            s.replication.consistency == Consistency::Eventual,
    {
        SovereigntyConfig { mode: SovereigntyMode::Any, region: None, replication: ReplicationConfig::default() }
    }
}

/// A named, configured container for memories. Metadata is held as
/// key-value pairs; timestamps as their RFC 3339 text.
#[derive(Debug, PartialEq, Eq)]
pub struct MemoryStore {
    pub id: u128,
    pub name: String,
    pub tenant_id: String,
    pub region: Option<String>,
    pub config: StoreConfig,
    pub sovereignty: SovereigntyConfig,
    pub metadata: Vec<(String, String)>,
    pub created_at: String,
    pub updated_at: String,
}

/// Input for creating a new store.
#[derive(Debug, PartialEq, Eq)]
pub struct CreateStoreRequest {
    pub name: String,
    pub region: Option<String>,
    pub config: StoreConfig,
    pub metadata: Vec<(String, String)>,
}

/// Input for updating a store; an absent field is left as it is. A store's
/// name is fixed at creation, so an update takes only config and metadata.
#[derive(Debug, PartialEq, Eq)]
pub struct UpdateStoreRequest {
    pub config: Option<StoreConfig>,
    pub metadata: Option<Vec<(String, String)>>,
}

/// The store a create request makes: the request's name, region, config
/// and metadata under the authenticated tenant, default sovereignty, and
/// both timestamps at `now`.
pub fn new_store(request: CreateStoreRequest, tenant_id: &str, id: u128, now: String) -> (s:
    MemoryStore)
    ensures
        s.id == id,
        s.name == request.name,
        s.tenant_id@ == tenant_id@,
        s.region == request.region,
        s.config == request.config,
        s.sovereignty.mode == SovereigntyMode::Any,
        s.sovereignty.region is None,
        !s.sovereignty.replication.enabled,
        s.sovereignty.replication.target_regions@.len() == 0,
        s.sovereignty.replication.consistency == Consistency::Eventual,
        s.metadata == request.metadata,
        s.created_at == now,
        s.updated_at == now,
{
    let created = now.clone();
    MemoryStore {
        id,
        name: request.name,
        tenant_id: tenant_id.to_owned(),
        region: request.region,
        config: request.config,
        sovereignty: SovereigntyConfig::default(),
        metadata: request.metadata,
        created_at: created,
        updated_at: now,
    }
}

/// The store an update leaves: the config and metadata the request gives
/// replace the stored ones, everything else (the name among it) stays, and
/// the update time becomes `now`.
pub fn apply_store_update(existing: MemoryStore, request: UpdateStoreRequest, now: String) -> (s:
    MemoryStore)
    ensures
        s.id == existing.id,
        s.name == existing.name,
        s.tenant_id == existing.tenant_id,
        s.region == existing.region,
        s.config == (match request.config {
            Some(c) => c,
            None => existing.config,
        }),
        s.sovereignty == existing.sovereignty,
        s.metadata == (match request.metadata {
            Some(m) => m,
            None => existing.metadata,
        }),
        s.created_at == existing.created_at,
        s.updated_at == now,
{
    let config = match request.config {
        Some(c) => c,
        None => existing.config,
    };
    let metadata = match request.metadata {
        Some(m) => m,
        None => existing.metadata,
    };
    MemoryStore {
        id: existing.id,
        name: existing.name,
        tenant_id: existing.tenant_id,
        region: existing.region,
        config,
        sovereignty: existing.sovereignty,
        metadata,
        created_at: existing.created_at,
        updated_at: now,
    }
}

/// The error for a store that does not exist for the tenant.
pub fn store_not_found(store_id: u128) -> (e: OmsError)
    ensures
        e is StoreNotFound,
        error_payload(e) == uuid_text(store_id),
{
    OmsError::StoreNotFound(uuid_to_string(store_id))
}

/// The error for a store name the tenant has no store under.
pub fn store_name_not_found(name: &str) -> (e: OmsError)
    ensures
        e is StoreNotFound,
        error_payload(e) == name@,
{
    OmsError::StoreNotFound(name.to_owned())
}

/// The lookup of a tenant's store by its name, with its bind values.
pub fn store_by_name_query(tenant_id: &str, name: &str) -> (q: (String, Vec<String>))
    ensures
        q.0@ == "SELECT * FROM stores WHERE tenant_id = ? AND name = ?"@,
        q.1@.len() == 2,
        q.1@[0]@ == tenant_id@,
        q.1@[1]@ == name@,
{
    ("SELECT * FROM stores WHERE tenant_id = ? AND name = ?".to_owned(), vec![tenant_id.to_owned(), name.to_owned()])
}

/// The outcome of a write to a store row, given how many rows it changed:
/// none means the store is gone.
pub fn store_write_outcome(store_id: u128, rows_affected: u64) -> (r: Result<(), OmsError>)
    ensures
        rows_affected == 0 ==> r is Err && r->Err_0 is StoreNotFound && error_payload(r->Err_0)
            == uuid_text(store_id),
        rows_affected != 0 ==> r is Ok,
{
    if rows_affected == 0 {
        Err(store_not_found(store_id))
    } else {
        Ok(())
    }
}

/// Capabilities declared by a backend provider.
#[derive(Debug, PartialEq, Eq)]
pub struct ProviderCapabilities {
    pub supported_layers: Vec<MemoryLayer>,
    pub vector_search: bool,
    pub graph_support: bool,
    pub temporal_queries: bool,
    pub keyword_search: bool,
    pub max_embedding_dimensions: Option<usize>,
    pub supported_distance_metrics: Vec<String>,
    pub compaction_support: bool,
    pub archival_support: bool,
    pub max_entry_size_bytes: Option<usize>,
    pub batch_operations: bool,
    pub max_batch_size: Option<usize>,
    pub pub_sub_notifications: bool,
    pub encryption_at_rest: bool,
    pub audit_log: bool,
}

/// The most entries one batch may hold.
pub const MAX_BATCH_SIZE: usize = 1000;

/// What the SQLite backend supports: all five layers, cosine vector search,
/// graphs, temporal and keyword queries, batches of up to
/// [`MAX_BATCH_SIZE`], and an audit log; no compaction, archival, pub/sub
/// or encryption at rest, and no declared size limits.
pub fn capabilities() -> (c: ProviderCapabilities)
    ensures
        c.supported_layers@ == seq![
            MemoryLayer::Working,
            MemoryLayer::Episodic,
            MemoryLayer::Semantic,
            MemoryLayer::Procedural,
            MemoryLayer::Archival,
        ],
        c.vector_search,
        c.graph_support,
        c.temporal_queries,
        c.keyword_search,
        c.max_embedding_dimensions is None,
        c.supported_distance_metrics@.len() == 1,
        c.supported_distance_metrics@[0]@ == "cosine"@,
        !c.compaction_support,
        !c.archival_support,
        c.max_entry_size_bytes is None,
        c.batch_operations,
        c.max_batch_size == Some(MAX_BATCH_SIZE),
        !c.pub_sub_notifications,
        !c.encryption_at_rest,
        c.audit_log,
{
    let layers = vec![
        MemoryLayer::Working,
        MemoryLayer::Episodic,
        MemoryLayer::Semantic,
        MemoryLayer::Procedural,
        MemoryLayer::Archival,
    ];
    let metrics = vec!["cosine".to_owned()];
    ProviderCapabilities {
        supported_layers: layers,
        vector_search: true,
        graph_support: true,
        temporal_queries: true,
        keyword_search: true,
        max_embedding_dimensions: None,
        supported_distance_metrics: metrics,
        compaction_support: false,
        archival_support: false,
        max_entry_size_bytes: None,
        batch_operations: true,
        max_batch_size: Some(MAX_BATCH_SIZE),
        pub_sub_notifications: false,
        encryption_at_rest: false,
        audit_log: true,
    }
}

/// One page of a listing.
#[derive(Debug)]
pub struct Page<T> {
    pub items: Vec<T>,
    pub total: u64,
    pub limit: u32,
    pub offset: u32,
}

/// Additional metadata filters of a search.
#[derive(Debug, PartialEq, Eq)]
pub struct MetadataFilters {
    pub tags: Option<Vec<String>>,
    pub categories: Option<Vec<String>>,
    pub owner_agent_id: Option<String>,
}

impl Default for MetadataFilters {
    fn default() -> (f: Self)
        ensures
            f.tags is None,
            f.categories is None,
            f.owner_agent_id is None,
    {
        MetadataFilters { tags: None, categories: None, owner_agent_id: None }
    }
}

/// Filter parameters for listing memories.
#[derive(Debug, PartialEq, Eq)]
pub struct ListMemoriesFilter {
    pub layer: Option<MemoryLayer>,
    pub tags: Option<Vec<String>>,
    pub categories: Option<Vec<String>>,
    pub owner_agent_id: Option<String>,
    pub scope: Option<MemoryScope>,
    pub limit: Option<u32>,
    pub offset: Option<u32>,
}

impl Default for ListMemoriesFilter {
    fn default() -> (f: Self)
        ensures
            f.layer is None,
            f.tags is None,
            f.categories is None,
            f.owner_agent_id is None,
            f.scope is None,
            f.limit is None,
            f.offset is None,
    {
        ListMemoriesFilter {
            layer: None,
            tags: None,
            categories: None,
            owner_agent_id: None,
            scope: None,
            limit: None,
            offset: None,
        }
    }
}

/// One failed item of a batch: its position and the error's text.
#[derive(Debug, PartialEq, Eq)]
pub struct BatchError {
    pub index: usize,
    pub error: String,
}

/// A batch of entries to create.
#[derive(Debug, PartialEq)]
pub struct BatchCreateRequest {
    pub entries: Vec<CreateMemoryRequest>,
}

/// A batch of entries to delete, by id.
#[derive(Debug, PartialEq, Eq)]
pub struct BatchDeleteRequest {
    pub memory_ids: Vec<u128>,
}

/// What a batch create did: the entries it created and the items it could
/// not create.
#[derive(Debug)]
pub struct BatchCreateResponse {
    pub created: Vec<MemoryEntry>,
    pub errors: Vec<BatchError>,
}

/// What a batch delete did: how many entries it deleted and the items it
/// could not delete.
#[derive(Debug, PartialEq, Eq)]
pub struct BatchDeleteResponse {
    pub deleted: u64,
    pub errors: Vec<BatchError>,
}

/// Refuses a batch of more than [`MAX_BATCH_SIZE`] items.
pub fn check_batch_size(len: usize) -> (r: Result<(), OmsError>)
    ensures
        len <= MAX_BATCH_SIZE ==> r is Ok,
        len > MAX_BATCH_SIZE ==> r is Err && r->Err_0 is InvalidInput && error_payload(r->Err_0)
            == "batch size "@ + int_text(len as int) + " exceeds maximum of 1000"@,
{
    if len > MAX_BATCH_SIZE {
        let n = u64_to_string(len as u64);
        let head = crate::text::concat2("batch size ", n.as_str());
        Err(OmsError::InvalidInput(crate::text::concat2(head.as_str(), " exceeds maximum of 1000")))
    } else {
        Ok(())
    }
}

/// Records the outcome of creating item `index` of a batch: a created entry
/// joins `created`, a failure joins `errors` with its text.
pub fn record_create_outcome(
    response: &mut BatchCreateResponse,
    index: usize,
    outcome: Result<MemoryEntry, OmsError>,
)
    ensures
        outcome is Ok ==> final(response).created@ == old(response).created@.push(outcome->Ok_0)
            && final(response).errors@ == old(response).errors@,
        outcome is Err ==> final(response).created@ == old(response).created@
            && final(response).errors@.len() == old(response).errors@.len() + 1
            && final(response).errors@.drop_last() == old(response).errors@
            && final(response).errors@.last().index == index
            && final(response).errors@.last().error@ == error_text(outcome->Err_0),
{
    match outcome {
        Ok(entry) => response.created.push(entry),
        Err(e) => {
            let error = e.to_string();
            response.errors.push(BatchError { index, error });
            proof {
                assert(response.errors@.drop_last() == old(response).errors@);
            }
        },
    }
}

/// Records the outcome of deleting item `index` of a batch: a success adds
/// one to `deleted`, a failure joins `errors` with its text.
pub fn record_delete_outcome(
    response: &mut BatchDeleteResponse,
    index: usize,
    outcome: Result<(), OmsError>,
)
    requires
        old(response).deleted < u64::MAX,
    ensures
        outcome is Ok ==> final(response).deleted == old(response).deleted + 1
            && final(response).errors@ == old(response).errors@,
        outcome is Err ==> final(response).deleted == old(response).deleted
            && final(response).errors@.len() == old(response).errors@.len() + 1
            && final(response).errors@.drop_last() == old(response).errors@
            && final(response).errors@.last().index == index
            && final(response).errors@.last().error@ == error_text(outcome->Err_0),
{
    match outcome {
        Ok(()) => {
            response.deleted = response.deleted + 1;
        },
        Err(e) => {
            let error = e.to_string();
            response.errors.push(BatchError { index, error });
            proof {
                assert(response.errors@.drop_last() == old(response).errors@);
            }
        },
    }
}

/// Response of an expiry purge: how many entries it deleted.
#[derive(Debug, PartialEq, Eq)]
pub struct PurgeResponse {
    pub deleted: u64,
}

/// Response of a GDPR purge: how many entries it deleted.
#[derive(Debug, PartialEq, Eq)]
pub struct GdprPurgeResponse {
    pub deleted: u64,
}

/// The audit details of a created or updated store, as JSON text with
/// sorted keys.
pub fn store_details(store_id: u128, name: &str) -> (d: String)
    ensures
        d@ == seq!['{'] + string_members(
            seq![("entity"@, "store"@), ("name"@, name@), ("store_id"@, uuid_text(store_id))],
        ) + seq!['}'],
{
    let pairs = vec![
        ("entity".to_owned(), "store".to_owned()),
        ("name".to_owned(), name.to_owned()),
        ("store_id".to_owned(), uuid_to_string(store_id)),
    ];
    let d = string_object(&pairs);
    proof {
        assert(pair_views(pairs@) =~= seq![
            ("entity"@, "store"@),
            ("name"@, name@),
            ("store_id"@, uuid_text(store_id)),
        ]);
    }
    d
}

/// The store `get_or_create_store` makes when the tenant has none by that
/// name: as [`new_store`], under the given name.
pub fn new_named_store(
    request: CreateStoreRequest,
    name: &str,
    tenant_id: &str,
    id: u128,
    now: String,
) -> (s: MemoryStore)
    ensures
        s.id == id,
        s.name@ == name@,
        s.tenant_id@ == tenant_id@,
        s.region == request.region,
        s.config == request.config,
        s.sovereignty.mode == SovereigntyMode::Any,
        s.sovereignty.region is None,
        s.metadata == request.metadata,
        s.created_at == now,
        s.updated_at == now,
{
    let request = CreateStoreRequest { name: name.to_owned(), ..request };
    new_store(request, tenant_id, id, now)
}

/// Usage statistics for a store.
#[derive(Debug, PartialEq, Eq)]
pub struct StoreStats {
    pub store_id: u128,
    pub tenant_id: String,
    pub total_entries: u64,
    /// Entry counts per layer, for the layers that have entries.
    pub entries_by_layer: Vec<(MemoryLayer, u64)>,
    pub total_size_bytes: Option<u64>,
}

/// The layers of per-layer count rows, when all of them are known layers.
pub open spec fn layer_rows_error(rows: Seq<(String, i64)>) -> Option<Seq<char>>
    decreases rows.len(),
{
    if rows.len() == 0 {
        None
    } else if layer_from_text(rows[0].0@) is None {
        Some("unknown layer: "@ + rows[0].0@)
    } else {
        layer_rows_error(rows.drop_first())
    }
}

/// Whether `s` reports the given total and per-layer count rows.
pub open spec fn stats_from_rows(
    s: StoreStats,
    store_id: u128,
    tenant_id: Seq<char>,
    total: i64,
    rows: Seq<(String, i64)>,
) -> bool {
    &&& s.store_id == store_id
    &&& s.tenant_id@ == tenant_id
    &&& s.total_entries == total as u64
    &&& s.total_size_bytes is None
    &&& s.entries_by_layer@.len() == rows.len()
    &&& forall|i: int|
        0 <= i < rows.len() ==> Some(#[trigger] s.entries_by_layer@[i].0) == layer_from_text(
            rows[i].0@,
        ) && s.entries_by_layer@[i].1 == rows[i].1 as u64
}

/// The statistics of a store from its total count and its per-layer count
/// rows (layer text and count). Counts are reported as unsigned, as the
/// count query gives them; an unknown layer is an internal error.
pub fn store_stats(store_id: u128, tenant_id: &str, total: i64, layer_rows: &Vec<(String, i64)>) -> (r:
    Result<StoreStats, OmsError>)
    ensures
        r is Err <==> layer_rows_error(layer_rows@) is Some,
        r is Err ==> r->Err_0 is Internal && error_payload(r->Err_0) == layer_rows_error(
            layer_rows@,
        )->0,
        r is Ok ==> stats_from_rows(r->Ok_0, store_id, tenant_id@, total, layer_rows@),
{
    let mut counts: Vec<(MemoryLayer, u64)> = Vec::new();
    let mut i: usize = 0;
    proof {
        assert(layer_rows@.skip(0) == layer_rows@);
    }
    while i < layer_rows.len()
        invariant
            0 <= i <= layer_rows.len(),
            counts@.len() == i,
            layer_rows_error(layer_rows@) == layer_rows_error(layer_rows@.skip(i as int)),
            forall|j: int|
                0 <= j < i ==> Some(#[trigger] counts@[j].0) == layer_from_text(layer_rows@[j].0@)
                    && counts@[j].1 == layer_rows@[j].1 as u64,
        decreases layer_rows.len() - i,
    {
        proof {
            assert(layer_rows@.skip(i as int).drop_first() == layer_rows@.skip(i + 1));
            assert(layer_rows@.skip(i as int)[0] == layer_rows@[i as int]);
        }
        let layer = parse_layer(layer_rows[i].0.as_str())?;
        let count: u64 = #[verifier::truncate] (layer_rows[i].1 as u64);
        counts.push((layer, count));
        i = i + 1;
    }
    proof {
        assert(layer_rows@.skip(layer_rows@.len() as int).len() == 0);
    }
    let total_entries: u64 = #[verifier::truncate] (total as u64);
    let stats = StoreStats {
        store_id,
        tenant_id: tenant_id.to_owned(),
        total_entries,
        entries_by_layer: counts,
        total_size_bytes: None,
    };
    proof {
        assert forall|i: int| 0 <= i < layer_rows@.len() implies Some(
            #[trigger] stats.entries_by_layer@[i].0,
        ) == layer_from_text(layer_rows@[i].0@) && stats.entries_by_layer@[i].1
            == layer_rows@[i].1 as u64 by {
            assert(counts@[i] == stats.entries_by_layer@[i]);
        }
        assert(stats_from_rows(stats, store_id, tenant_id@, total, layer_rows@));
    }
    Ok(stats)
}

} // verus!
