//! Memory entries and the decisions that create, replace, update and delete
//! them.
//!
//! Timestamps are held as the RFC 3339 text they are stored as. Embedding
//! components are held as the bit patterns of their `f32` values and a
//! confidence as the bit pattern of its `f64` value: the logic here only
//! carries them.
use crate::error::{error_payload, OmsError};
use crate::ids::{i64_to_string, int_text, uuid_text, uuid_to_string};
use crate::json::Json;
use crate::model::MemoryLayer;
use crate::scope::{AccessControl, MemoryScope, SourceReference};
use crate::text::{concat2, concat3, owned};
use vstd::prelude::*;

verus! {

/// A single unit of stored memory.
#[derive(Debug, PartialEq)]
pub struct MemoryEntry {
    pub id: u128,
    pub store_id: u128,
    pub layer: MemoryLayer,
    pub content: Json,
    pub embedding: Option<Vec<u32>>,
    pub owner_agent_id: String,
    pub scope: MemoryScope,
    pub tags: Vec<String>,
    pub categories: Vec<String>,
    pub source: Option<SourceReference>,
    pub access_control: AccessControl,
    pub created_at: String,
    pub updated_at: String,
    pub expires_at: Option<String>,
    pub immutable: bool,
    pub version: i64,
    pub valid_from: Option<String>,
    pub valid_until: Option<String>,
    pub confidence: Option<u64>,
    pub entity_type: Option<String>,
    pub upsert_key: Option<String>,
}

/// Input for creating a memory entry.
#[derive(Debug, PartialEq)]
pub struct CreateMemoryRequest {
    pub layer: MemoryLayer,
    pub content: Json,
    pub embedding: Option<Vec<u32>>,
    pub owner_agent_id: String,
    pub scope: MemoryScope,
    pub tags: Vec<String>,
    pub categories: Vec<String>,
    pub source: Option<SourceReference>,
    pub access_control: AccessControl,
    pub expires_at: Option<String>,
    pub immutable: bool,
    pub valid_from: Option<String>,
    pub valid_until: Option<String>,
    pub confidence: Option<u64>,
    pub entity_type: Option<String>,
    /// When set, enables atomic create-or-replace within the same store,
    /// layer, and scope.
    pub upsert_key: Option<String>,
}

/// Input for updating a memory entry. For nullable fields the outer option
/// says whether to change the field and the inner one gives its new value.
#[derive(Debug, PartialEq)]
pub struct UpdateMemoryRequest {
    pub content: Option<Json>,
    pub embedding: Option<Option<Vec<u32>>>,
    pub tags: Option<Vec<String>>,
    pub categories: Option<Vec<String>>,
    pub access_control: Option<AccessControl>,
    pub expires_at: Option<Option<String>>,
}

/// The stored entry an upsert replaces: its id, version, content as stored
/// JSON text, and creation time as stored.
pub struct UpsertTarget {
    pub id: u128,
    pub version: i64,
    pub content_json: String,
    pub created_at: String,
    pub immutable: bool,
}

/// What `chrono::DateTime::parse_from_rfc3339` decides about a text: that
/// it is a valid RFC 3339 timestamp, or the text of the error it reports.
pub uninterp spec fn spec_parse_rfc3339(s: Seq<char>) -> Result<(), Seq<char>>;

/// A unit result with its error text viewed as characters.
pub open spec fn unit_result_view(r: Result<(), String>) -> Result<(), Seq<char>> {
    match r {
        Ok(()) => Ok(()),
        Err(e) => Err(e@),
    }
}

/// Checks that `s` is an RFC 3339 timestamp with
/// `chrono::DateTime::parse_from_rfc3339`, giving the displayed text of the
/// parser's error when it is not.
#[verifier::external_body]
pub(crate) fn check_rfc3339(s: &str) -> (r: Result<(), String>)
    ensures
        unit_result_view(r) == spec_parse_rfc3339(s@),
{
    match chrono::DateTime::parse_from_rfc3339(s) {
        Ok(_) => Ok(()),
        Err(e) => Err(e.to_string()),
    }
}

/// Whether a text is an RFC 3339 timestamp.
pub open spec fn spec_is_rfc3339(s: Seq<char>) -> bool {
    spec_parse_rfc3339(s) is Ok
}

/// Whether `s` parses as an RFC 3339 timestamp.
pub fn is_rfc3339(s: &str) -> (b: bool)
    ensures
        b == spec_is_rfc3339(s@),
{
    check_rfc3339(s).is_ok()
}

/// Whether `e` holds exactly the request's data, with the given identity,
/// store, scope tenant and bookkeeping fields.
pub open spec fn entry_from_request(
    e: MemoryEntry,
    r: CreateMemoryRequest,
    tenant_id: Seq<char>,
    store_id: u128,
    id: u128,
    created_at: Seq<char>,
    updated_at: Seq<char>,
    version: i64,
) -> bool {
    &&& e.id == id
    &&& e.store_id == store_id
    &&& e.layer == r.layer
    &&& e.content == r.content
    &&& e.embedding == r.embedding
    &&& e.owner_agent_id == r.owner_agent_id
    &&& e.scope.tenant_id@ == tenant_id
    &&& e.scope.org_id == r.scope.org_id
    &&& e.scope.team_id == r.scope.team_id
    &&& e.scope.project_id == r.scope.project_id
    &&& e.scope.user_id == r.scope.user_id
    &&& e.scope.agent_id == r.scope.agent_id
    &&& e.scope.session_id == r.scope.session_id
    &&& e.scope.run_id == r.scope.run_id
    &&& e.tags == r.tags
    &&& e.categories == r.categories
    &&& e.source == r.source
    &&& e.access_control == r.access_control
    &&& e.created_at@ == created_at
    &&& e.updated_at@ == updated_at
    &&& e.expires_at == r.expires_at
    &&& e.immutable == r.immutable
    &&& e.version == version
    &&& e.valid_from == r.valid_from
    &&& e.valid_until == r.valid_until
    &&& e.confidence == r.confidence
    &&& e.entity_type == r.entity_type
    &&& e.upsert_key == r.upsert_key
}

/// Builds an entry from a request: the scope's tenant becomes the
/// authenticated tenant, and the entry starts at version 1.
fn entry_from(
    request: CreateMemoryRequest,
    tenant_id: &str,
    store_id: u128,
    id: u128,
    created_at: String,
    updated_at: String,
    version: i64,
) -> (e: MemoryEntry)
    ensures
        entry_from_request(e, request, tenant_id@, store_id, id, created_at@, updated_at@, version),
{
    let ghost r = request;
    let scope = request.scope.normalize(tenant_id);
    MemoryEntry {
        id,
        store_id,
        layer: request.layer,
        content: request.content,
        embedding: request.embedding,
        owner_agent_id: request.owner_agent_id,
        scope,
        tags: request.tags,
        categories: request.categories,
        source: request.source,
        access_control: request.access_control,
        created_at,
        updated_at,
        expires_at: request.expires_at,
        immutable: request.immutable,
        version,
        valid_from: request.valid_from,
        valid_until: request.valid_until,
        confidence: request.confidence,
        entity_type: request.entity_type,
        upsert_key: request.upsert_key,
    }
}

/// The entry a create request produces when it replaces nothing: a new id,
/// the authenticated tenant, both timestamps at `now`, and version 1.
pub fn new_memory(
    request: CreateMemoryRequest,
    tenant_id: &str,
    store_id: u128,
    id: u128,
    now: String,
) -> (e: MemoryEntry)
    ensures
        entry_from_request(e, request, tenant_id@, store_id, id, now@, now@, 1),
{
    let created = now.clone();
    entry_from(request, tenant_id, store_id, id, created, now, 1)
}

/// The entry an upsert produces when it replaces `target`: the target's id,
/// its version plus one, its creation time (or `now` when the stored time
/// does not parse), and everything else from the request. An immutable
/// target cannot be modified, so it is refused with `Immutable`, naming its
/// id.
pub fn upsert_replacement(
    request: CreateMemoryRequest,
    tenant_id: &str,
    store_id: u128,
    target: &UpsertTarget,
    now: String,
) -> (r: Result<MemoryEntry, OmsError>)
    requires
        !target.immutable ==> target.version < i64::MAX,
    ensures
        target.immutable ==> r is Err && r->Err_0 is Immutable && error_payload(r->Err_0)
            == uuid_text(target.id),
        !target.immutable ==> r is Ok && entry_from_request(
            r->Ok_0,
            request,
            tenant_id@,
            store_id,
            target.id,
            if spec_is_rfc3339(target.created_at@) {
                target.created_at@
            } else {
                now@
            },
            now@,
            (target.version + 1) as i64,
        ),
{
    if target.immutable {
        return Err(OmsError::Immutable(uuid_to_string(target.id)));
    }
    let created = if is_rfc3339(target.created_at.as_str()) {
        target.created_at.clone()
    } else {
        now.clone()
    };
    Ok(entry_from(request, tenant_id, store_id, target.id, created, now, target.version + 1))
}

/// The entry an update produces from `existing`: every field the request
/// mentions takes the request's value, every other keeps its value, the
/// version goes up by one and the update time becomes `now`.
pub open spec fn updated_from(
    e: MemoryEntry,
    existing: MemoryEntry,
    r: UpdateMemoryRequest,
    now: Seq<char>,
) -> bool {
    &&& e.id == existing.id
    &&& e.store_id == existing.store_id
    &&& e.layer == existing.layer
    &&& e.content == (match r.content {
        Some(c) => c,
        None => existing.content,
    })
    &&& e.embedding == (match r.embedding {
        Some(v) => v,
        None => existing.embedding,
    })
    &&& e.owner_agent_id == existing.owner_agent_id
    &&& e.scope == existing.scope
    &&& e.tags == (match r.tags {
        Some(t) => t,
        None => existing.tags,
    })
    &&& e.categories == (match r.categories {
        Some(c) => c,
        None => existing.categories,
    })
    &&& e.source == existing.source
    &&& e.access_control == (match r.access_control {
        Some(a) => a,
        None => existing.access_control,
    })
    &&& e.created_at == existing.created_at
    &&& e.updated_at@ == now
    &&& e.expires_at == (match r.expires_at {
        Some(x) => x,
        None => existing.expires_at,
    })
    &&& e.immutable == existing.immutable
    &&& e.version == existing.version + 1
    &&& e.valid_from == existing.valid_from
    &&& e.valid_until == existing.valid_until
    &&& e.confidence == existing.confidence
    &&& e.entity_type == existing.entity_type
    &&& e.upsert_key == existing.upsert_key
}

/// What an update does to each field: a field the request mentions takes
/// the request's value, whatever the entry held; a field it leaves out
/// keeps the entry's value; the identity, owner, scope and creation time
/// never change; the version goes up by exactly one; and the update time is
/// the time of the update.
pub proof fn lemma_update_fields(
    e: MemoryEntry,
    existing: MemoryEntry,
    r: UpdateMemoryRequest,
    now: Seq<char>,
)
    requires
        updated_from(e, existing, r, now),
    ensures
        r.content matches Some(c) ==> e.content == c,
        r.content is None ==> e.content == existing.content,
        r.embedding matches Some(v) ==> e.embedding == v,
        r.embedding is None ==> e.embedding == existing.embedding,
        r.tags matches Some(t) ==> e.tags == t,
        r.tags is None ==> e.tags == existing.tags,
        r.categories matches Some(c) ==> e.categories == c,
        r.categories is None ==> e.categories == existing.categories,
        r.access_control matches Some(a) ==> e.access_control == a,
        r.access_control is None ==> e.access_control == existing.access_control,
        r.expires_at matches Some(x) ==> e.expires_at == x,
        r.expires_at is None ==> e.expires_at == existing.expires_at,
        e.id == existing.id && e.store_id == existing.store_id && e.layer == existing.layer,
        e.owner_agent_id == existing.owner_agent_id && e.scope == existing.scope,
        e.created_at == existing.created_at && e.updated_at@ == now,
        e.version == existing.version + 1,
        e.immutable == existing.immutable,
{
}

/// Applies an update request to the current entry. An immutable entry is
/// refused with `Immutable`, naming its id.
pub fn apply_update(existing: MemoryEntry, request: UpdateMemoryRequest, now: String) -> (r: Result<
    MemoryEntry,
    OmsError,
>)
    requires
        !existing.immutable ==> existing.version < i64::MAX,
    ensures
        existing.immutable ==> r is Err && r->Err_0 is Immutable && error_payload(r->Err_0)
            == uuid_text(existing.id),
        !existing.immutable ==> r is Ok && updated_from(r->Ok_0, existing, request, now@),
{
    if existing.immutable {
        return Err(OmsError::Immutable(uuid_to_string(existing.id)));
    }
    let e = existing;
    let content = match request.content {
        Some(c) => c,
        None => e.content,
    };
    let embedding = match request.embedding {
        Some(v) => v,
        None => e.embedding,
    };
    let tags = match request.tags {
        Some(t) => t,
        None => e.tags,
    };
    let categories = match request.categories {
        Some(c) => c,
        None => e.categories,
    };
    let access_control = match request.access_control {
        Some(a) => a,
        None => e.access_control,
    };
    let expires_at = match request.expires_at {
        Some(x) => x,
        None => e.expires_at,
    };
    Ok(
        MemoryEntry {
            id: e.id,
            store_id: e.store_id,
            layer: e.layer,
            content,
            embedding,
            owner_agent_id: e.owner_agent_id,
            scope: e.scope,
            tags,
            categories,
            source: e.source,
            access_control,
            created_at: e.created_at,
            updated_at: now,
            expires_at,
            immutable: e.immutable,
            version: e.version + 1,
            valid_from: e.valid_from,
            valid_until: e.valid_until,
            confidence: e.confidence,
            entity_type: e.entity_type,
            upsert_key: e.upsert_key,
        },
    )
}

/// The error an update gets when the stored version moved on between the
/// read and the write.
pub fn concurrent_update_conflict(memory_id: u128, expected_version: i64) -> (e: OmsError)
    ensures
        e is Conflict,
        error_payload(e) == "memory "@ + uuid_text(memory_id)
            + " was modified concurrently (expected version "@ + int_text(expected_version as int)
            + ")"@,
{
    let id = uuid_to_string(memory_id);
    let version = i64_to_string(expected_version);
    let head = concat3("memory ", id.as_str(), " was modified concurrently (expected version ");
    OmsError::Conflict(concat3(head.as_str(), version.as_str(), ")"))
}

/// The statement an update writes with. It changes the row only while the
/// stored version is still the one the update read (the last bind value),
/// so a write that another writer overtook changes nothing.
pub open spec fn versioned_update_sql() -> Seq<char> {
    "UPDATE memories SET content_json = ?, embedding = ?, tags_json = ?, categories_json = ?, access_policy = ?, allowed_agents_json = ?, allowed_scopes_json = ?, expires_at = ?, updated_at = ?, version = ? WHERE id = ? AND store_id = ? AND tenant_id = ? AND version = ?"@
}

/// The text of [`versioned_update_sql`].
pub fn versioned_update_statement() -> (s: &'static str)
    ensures
        s@ == versioned_update_sql(),
{
    "UPDATE memories SET content_json = ?, embedding = ?, tags_json = ?, categories_json = ?, access_policy = ?, allowed_agents_json = ?, allowed_scopes_json = ?, expires_at = ?, updated_at = ?, version = ? WHERE id = ? AND store_id = ? AND tenant_id = ? AND version = ?"
}

/// The outcome of a version-guarded update, given how many rows it changed:
/// none means another writer changed the entry after it was read, which is
/// a conflict naming the version the update expected.
pub fn update_write_outcome(memory_id: u128, expected_version: i64, rows_affected: u64) -> (r: Result<
    (),
    OmsError,
>)
    ensures
        rows_affected == 0 ==> r is Err && r->Err_0 is Conflict && error_payload(r->Err_0)
            == "memory "@ + uuid_text(memory_id) + " was modified concurrently (expected version "@
            + int_text(expected_version as int) + ")"@,
        rows_affected != 0 ==> r is Ok,
{
    if rows_affected == 0 {
        Err(concurrent_update_conflict(memory_id, expected_version))
    } else {
        Ok(())
    }
}

/// Whether an entry may be deleted: an immutable entry cannot be, and is
/// refused with `Immutable`, naming its id.
pub fn check_deletable(memory_id: u128, immutable: bool) -> (r: Result<(), OmsError>)
    ensures
        immutable ==> r is Err && r->Err_0 is Immutable && error_payload(r->Err_0) == uuid_text(
            memory_id,
        ),
        !immutable ==> r is Ok,
{
    if immutable {
        Err(OmsError::Immutable(uuid_to_string(memory_id)))
    } else {
        Ok(())
    }
}

/// The outcome of a delete, given how many rows it removed.
pub fn delete_outcome(memory_id: u128, rows_affected: u64) -> (r: Result<(), OmsError>)
    ensures
        rows_affected == 0 ==> r is Err && r->Err_0 is MemoryNotFound && error_payload(r->Err_0)
            == uuid_text(memory_id),
        rows_affected != 0 ==> r is Ok,
{
    if rows_affected == 0 {
        Err(OmsError::MemoryNotFound(uuid_to_string(memory_id)))
    } else {
        Ok(())
    }
}

/// The error a lookup gets when no entry has the id.
pub fn memory_not_found(memory_id: u128) -> (e: OmsError)
    ensures
        e is MemoryNotFound,
        error_payload(e) == uuid_text(memory_id),
{
    OmsError::MemoryNotFound(uuid_to_string(memory_id))
}

} // verus!
