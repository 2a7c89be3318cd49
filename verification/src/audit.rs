//! The audit log: every write leaves an entry whose hash covers its content
//! and the hash of the entry before it in the same store and tenant, so the
//! entries of a store form a chain.
use crate::ids::{hex_char, i64_to_string, int_text, u64_to_string, uuid_text, uuid_to_string};
use crate::json::{hex_digit, quote_string, quoted};
use crate::json::{pair_views, string_members, string_object, Json};
use crate::scope::MemoryScope;
use crate::text::{concat2, concat3, opt_view, string_from_chars};
use vstd::prelude::*;
use vstd::utf8::encode_utf8;

verus! {

broadcast use vstd::string::group_string_axioms;

/// What `sha2::Sha256` computes for a byte string: its 32-byte digest.
pub uninterp spec fn spec_sha256(data: Seq<u8>) -> Seq<u8>;

/// The SHA-256 digest of `data`, computed by `sha2::Sha256`; a digest is
/// always 32 bytes long.
#[verifier::external_body]
fn sha256(data: &[u8]) -> (d: Vec<u8>)
    ensures
        d@ == spec_sha256(data@),
        d@.len() == 32,
{
    <sha2::Sha256 as sha2::Digest>::digest(data).to_vec()
}

/// Each byte as two lowercase hexadecimal digits, as `{:x}` prints a digest.
pub open spec fn lower_hex(bytes: Seq<u8>) -> Seq<char>
    decreases bytes.len(),
{
    if bytes.len() == 0 {
        Seq::empty()
    } else {
        lower_hex(bytes.drop_last()) + seq![
            hex_char((bytes.last() / 16) as int),
            hex_char((bytes.last() % 16) as int),
        ]
    }
}

/// The characters of an optional text, or nothing when it is absent.
pub open spec fn or_empty(o: Option<Seq<char>>) -> Seq<char> {
    match o {
        Some(s) => s,
        None => Seq::empty(),
    }
}

/// The characters of an optional string slice.
pub open spec fn opt_str(o: Option<&str>) -> Option<Seq<char>> {
    match o {
        Some(s) => Some(s@),
        None => None,
    }
}

/// The bytes an entry's hash is taken over: the UTF-8 text of each field in
/// a fixed order, an absent field contributing nothing.
pub open spec fn audit_hash_input(
    id: u128,
    store_id: u128,
    tenant_id: Seq<char>,
    memory_id: Option<Seq<char>>,
    action: Seq<char>,
    agent_id: Option<Seq<char>>,
    details_json: Option<Seq<char>>,
    created_at: Seq<char>,
    prev_hash: Option<Seq<char>>,
) -> Seq<u8> {
    encode_utf8(uuid_text(id)) + encode_utf8(uuid_text(store_id)) + encode_utf8(tenant_id)
        + encode_utf8(or_empty(memory_id)) + encode_utf8(action) + encode_utf8(or_empty(agent_id))
        + encode_utf8(or_empty(details_json)) + encode_utf8(created_at) + encode_utf8(
        or_empty(prev_hash),
    )
}

/// The hash of an entry: the lowercase hexadecimal SHA-256 of its hash input.
pub open spec fn audit_hash(
    id: u128,
    store_id: u128,
    tenant_id: Seq<char>,
    memory_id: Option<Seq<char>>,
    action: Seq<char>,
    agent_id: Option<Seq<char>>,
    details_json: Option<Seq<char>>,
    created_at: Seq<char>,
    prev_hash: Option<Seq<char>>,
) -> Seq<char> {
    lower_hex(
        spec_sha256(
            audit_hash_input(
                id,
                store_id,
                tenant_id,
                memory_id,
                action,
                agent_id,
                details_json,
                created_at,
                prev_hash,
            ),
        ),
    )
}

/// Appends the UTF-8 bytes of `s`.
fn push_bytes(buf: &mut Vec<u8>, s: &str)
    ensures
        final(buf)@ == old(buf)@ + encode_utf8(s@),
{
    let b = s.as_bytes();
    let ghost start = buf@;
    let mut i: usize = 0;
    while i < b.len()
        invariant
            0 <= i <= b@.len(),
            b@ == encode_utf8(s@),
            buf@ == start + b@.take(i as int),
        decreases b@.len() - i,
    {
        buf.push(b[i]);
        proof {
            assert(b@.take(i + 1) == b@.take(i as int).push(b@[i as int]));
        }
        i = i + 1;
    }
    proof {
        assert(b@.take(b@.len() as int) == b@);
    }
}

/// Appends the UTF-8 bytes of an optional text; nothing when it is absent.
fn push_opt_bytes(buf: &mut Vec<u8>, s: Option<&str>)
    ensures
        final(buf)@ == old(buf)@ + encode_utf8(or_empty(opt_str(s))),
{
    match s {
        Some(t) => push_bytes(buf, t),
        None => {
            proof {
                let e = encode_utf8(Seq::<char>::empty());
                assert(e.len() == 0) by {
                    reveal_with_fuel(encode_utf8, 1);
                }
                assert(buf@ == buf@ + e);
            }
        },
    }
}

/// The lowercase hexadecimal text of a byte string.
fn to_lower_hex(bytes: &Vec<u8>) -> (s: String)
    ensures
        s@ == lower_hex(bytes@),
{
    let mut out: Vec<char> = Vec::new();
    let mut i: usize = 0;
    while i < bytes.len()
        invariant
            0 <= i <= bytes.len(),
            out@ == lower_hex(bytes@.take(i as int)),
        decreases bytes.len() - i,
    {
        let b = bytes[i];
        let hi = hex_digit((b / 16) as u32);
        let lo = hex_digit((b % 16) as u32);
        out.push(hi);
        out.push(lo);
        proof {
            let t = bytes@.take(i + 1);
            assert(t.drop_last() == bytes@.take(i as int));
            assert(t.last() == b);
        }
        i = i + 1;
    }
    proof {
        assert(bytes@.take(bytes@.len() as int) == bytes@);
    }
    string_from_chars(out.as_slice())
}

/// The hash of an audit entry: SHA-256 over the UTF-8 text of its id, store
/// id, tenant, memory id, action, agent, details JSON, creation time and the
/// previous entry's hash (absent fields contribute nothing), as lowercase
/// hexadecimal.
pub fn build_audit_hash(
    id: u128,
    store_id: u128,
    tenant_id: &str,
    memory_id: Option<&str>,
    action: &str,
    agent_id: Option<&str>,
    details_json: Option<&str>,
    now_str: &str,
    prev_hash: Option<&str>,
) -> (h: String)
    ensures
        h@ == audit_hash(
            id,
            store_id,
            tenant_id@,
            opt_str(memory_id),
            action@,
            opt_str(agent_id),
            opt_str(details_json),
            now_str@,
            opt_str(prev_hash),
        ),
        h@.len() == 64,
{
    let mut buf: Vec<u8> = Vec::new();
    let id_text = uuid_to_string(id);
    let store_text = uuid_to_string(store_id);
    push_bytes(&mut buf, id_text.as_str());
    push_bytes(&mut buf, store_text.as_str());
    push_bytes(&mut buf, tenant_id);
    push_opt_bytes(&mut buf, memory_id);
    push_bytes(&mut buf, action);
    push_opt_bytes(&mut buf, agent_id);
    push_opt_bytes(&mut buf, details_json);
    push_bytes(&mut buf, now_str);
    push_opt_bytes(&mut buf, prev_hash);
    let digest = sha256(buf.as_slice());
    let h = to_lower_hex(&digest);
    proof {
        lemma_lower_hex_len(digest@);
    }
    h
}

/// The hex text of a byte string is twice as long as the byte string.
pub proof fn lemma_lower_hex_len(bytes: Seq<u8>)
    ensures
        lower_hex(bytes).len() == 2 * bytes.len(),
    decreases bytes.len(),
{
    if bytes.len() > 0 {
        lemma_lower_hex_len(bytes.drop_last());
    }
}

/// One row of the audit log.
pub struct AuditRecord {
    pub id: u128,
    pub store_id: u128,
    pub tenant_id: String,
    pub memory_id: Option<u128>,
    pub action: String,
    pub agent_id: Option<String>,
    pub details_json: Option<String>,
    pub created_at: String,
    pub entry_hash: String,
    pub prev_hash: Option<String>,
    /// Set once a GDPR purge has stripped the entry's personal data; the
    /// entry hash then no longer matches the row's content.
    pub redacted: bool,
}

/// The text of an optional memory id.
pub open spec fn memory_text(m: Option<u128>) -> Option<Seq<char>> {
    match m {
        Some(v) => Some(uuid_text(v)),
        None => None,
    }
}

/// The hash a record's current content and link give.
pub open spec fn record_hash(r: AuditRecord) -> Seq<char> {
    audit_hash(
        r.id,
        r.store_id,
        r.tenant_id@,
        memory_text(r.memory_id),
        r.action@,
        opt_view(r.agent_id),
        opt_view(r.details_json),
        r.created_at@,
        opt_view(r.prev_hash),
    )
}

/// Whether each entry names the hash of the entry before it, and the first
/// names none.
pub open spec fn chain_linked(log: Seq<AuditRecord>) -> bool {
    &&& (log.len() > 0 ==> log[0].prev_hash is None)
    &&& forall|i: int|
        0 < i < log.len() ==> #[trigger] opt_view(log[i].prev_hash) == Some(
            log[i - 1].entry_hash@,
        )
}

/// Whether a record's hash matches its content; a redacted record is exempt.
pub open spec fn content_sealed(r: AuditRecord) -> bool {
    r.redacted || r.entry_hash@ == record_hash(r)
}

/// Whether a store's log is a linked chain of sealed records.
pub open spec fn log_intact(log: Seq<AuditRecord>) -> bool {
    &&& chain_linked(log)
    &&& forall|i: int| 0 <= i < log.len() ==> #[trigger] content_sealed(log[i])
}

/// The hash a new entry links to: that of the latest entry, if any.
pub open spec fn latest_hash(log: Seq<AuditRecord>) -> Option<Seq<char>> {
    if log.len() == 0 {
        None
    } else {
        Some(log.last().entry_hash@)
    }
}

/// A new audit entry, sealed with its hash and linked to `prev_hash`, the
/// hash of the latest entry of the same store and tenant.
pub fn new_audit_record(
    id: u128,
    store_id: u128,
    tenant_id: &str,
    memory_id: Option<u128>,
    action: &str,
    agent_id: Option<String>,
    details_json: Option<String>,
    now: String,
    prev_hash: Option<String>,
) -> (r: AuditRecord)
    ensures
        r.id == id,
        r.store_id == store_id,
        r.tenant_id@ == tenant_id@,
        r.memory_id == memory_id,
        r.action@ == action@,
        r.agent_id == agent_id,
        r.details_json == details_json,
        r.created_at == now,
        r.prev_hash == prev_hash,
        !r.redacted,
        r.entry_hash@ == record_hash(r),
{
    let memory_text = match memory_id {
        Some(m) => Some(uuid_to_string(m)),
        None => None,
    };
    let mem_ref: Option<&str> = match &memory_text {
        Some(t) => Some(t.as_str()),
        None => None,
    };
    let agent_ref: Option<&str> = match &agent_id {
        Some(t) => Some(t.as_str()),
        None => None,
    };
    let details_ref: Option<&str> = match &details_json {
        Some(t) => Some(t.as_str()),
        None => None,
    };
    let prev_ref: Option<&str> = match &prev_hash {
        Some(t) => Some(t.as_str()),
        None => None,
    };
    let entry_hash = build_audit_hash(
        id,
        store_id,
        tenant_id,
        mem_ref,
        action,
        agent_ref,
        details_ref,
        now.as_str(),
        prev_ref,
    );
    AuditRecord {
        id,
        store_id,
        tenant_id: tenant_id.to_owned(),
        memory_id,
        action: action.to_owned(),
        agent_id,
        details_json,
        created_at: now,
        entry_hash,
        prev_hash,
        redacted: false,
    }
}

/// A record as a GDPR purge leaves it: agent and details cleared and the
/// redaction flag set; its hash and link are kept.
pub open spec fn redacted(r: AuditRecord) -> AuditRecord {
    AuditRecord { agent_id: None, details_json: None, redacted: true, ..r }
}

/// What a purge of the memories in `purged` does to one record: a record
/// about a purged memory is redacted, any other is left alone.
pub open spec fn purge_record(r: AuditRecord, purged: Set<u128>) -> AuditRecord {
    match r.memory_id {
        Some(m) => if purged.contains(m) {
            redacted(r)
        } else {
            r
        },
        None => r,
    }
}

/// Appending an entry that links to the latest hash keeps a log intact.
pub proof fn lemma_append_keeps_log_intact(log: Seq<AuditRecord>, r: AuditRecord)
    requires
        log_intact(log),
        opt_view(r.prev_hash) == latest_hash(log),
        r.entry_hash@ == record_hash(r),
    ensures
        log_intact(log.push(r)),
{
    let l2 = log.push(r);
    assert forall|i: int| 0 < i < l2.len() implies #[trigger] opt_view(l2[i].prev_hash) == Some(
        l2[i - 1].entry_hash@,
    ) by {
        if i < log.len() {
            assert(l2[i] == log[i]);
            assert(l2[i - 1] == log[i - 1]);
        }
    }
    assert forall|i: int| 0 <= i < l2.len() implies #[trigger] content_sealed(l2[i]) by {
        if i < log.len() {
            assert(l2[i] == log[i]);
        }
    }
}

/// A GDPR purge keeps the chain: redacting the records of purged memories
/// leaves every link in place, and the log intact.
pub proof fn lemma_purge_keeps_log_intact(log: Seq<AuditRecord>, purged: Set<u128>)
    requires
        log_intact(log),
    ensures
        log_intact(log.map_values(|r: AuditRecord| purge_record(r, purged))),
{
    let l2 = log.map_values(|r: AuditRecord| purge_record(r, purged));
    assert forall|i: int| 0 < i < l2.len() implies #[trigger] opt_view(l2[i].prev_hash) == Some(
        l2[i - 1].entry_hash@,
    ) by {
        assert(l2[i] == purge_record(log[i], purged));
        assert(l2[i - 1] == purge_record(log[i - 1], purged));
        assert(opt_view(log[i].prev_hash) == Some(log[i - 1].entry_hash@));
    }
    assert forall|i: int| 0 <= i < l2.len() implies #[trigger] content_sealed(l2[i]) by {
        assert(l2[i] == purge_record(log[i], purged));
        assert(content_sealed(log[i]));
    }
    if l2.len() > 0 {
        assert(l2[0] == purge_record(log[0], purged));
    }
}

/// Filter for querying audit logs.
#[derive(Debug, PartialEq, Eq)]
pub struct AuditFilter {
    pub memory_id: Option<u128>,
    pub action: Option<String>,
    pub agent_id: Option<String>,
    pub limit: Option<u32>,
    pub offset: Option<u32>,
}

impl Default for AuditFilter {
    fn default() -> (f: Self)
        ensures
            f.memory_id is None,
            f.action is None,
            f.agent_id is None,
            f.limit is None,
            f.offset is None,
    {
        AuditFilter { memory_id: None, action: None, agent_id: None, limit: None, offset: None }
    }
}

/// The details of a create, update or delete of a memory, as JSON text:
/// `{"version":N}`.
pub fn version_details(version: i64) -> (d: String)
    ensures
        d@ == "{\"version\":"@ + int_text(version as int) + "}"@,
{
    let n = i64_to_string(version);
    concat3("{\"version\":", n.as_str(), "}")
}

/// The details of an upsert, as JSON text: the replaced content's stored
/// JSON text as a string, then the new version, keys in sorted order.
pub fn upsert_details(version: i64, previous_content: &str) -> (d: String)
    ensures
        d@ == "{\"previous_content\":"@ + quoted(previous_content@) + ",\"version\":"@ + int_text(
            version as int,
        ) + "}"@,
{
    let q = quote_string(previous_content);
    let n = i64_to_string(version);
    let head = concat2("{\"previous_content\":", q.as_str());
    let tail = concat3(",\"version\":", n.as_str(), "}");
    concat2(head.as_str(), tail.as_str())
}

/// The details of a purge of expired entries, as JSON text:
/// `{"deleted_count":N}`.
pub fn deleted_count_details(deleted: u64) -> (d: String)
    ensures
        d@ == "{\"deleted_count\":"@ + int_text(deleted as int) + "}"@,
{
    let n = u64_to_string(deleted);
    concat3("{\"deleted_count\":", n.as_str(), "}")
}

/// A JSON member for an optional text: present only when the text is.
pub open spec fn opt_pair(key: Seq<char>, value: Option<String>) -> Seq<(Seq<char>, Seq<char>)> {
    match value {
        Some(v) => seq![(key, v@)],
        None => Seq::empty(),
    }
}

/// The members of a scope as its JSON object holds them: the tenant and
/// every level that is set, keys sorted.
pub open spec fn scope_pairs(s: MemoryScope) -> Seq<(Seq<char>, Seq<char>)> {
    opt_pair("agent_id"@, s.agent_id) + opt_pair("org_id"@, s.org_id) + opt_pair(
        "project_id"@,
        s.project_id,
    ) + opt_pair("run_id"@, s.run_id) + opt_pair("session_id"@, s.session_id) + opt_pair(
        "team_id"@,
        s.team_id,
    ) + seq![("tenant_id"@, s.tenant_id@)] + opt_pair("user_id"@, s.user_id)
}

/// Appends the member of an optional text when it is present.
fn push_opt_pair(pairs: &mut Vec<(String, String)>, key: &str, value: &Option<String>)
    ensures
        pair_views(final(pairs)@) == pair_views(old(pairs)@) + opt_pair(key@, *value),
{
    let ghost p0 = pairs@;
    if let Some(v) = value {
        pairs.push((key.to_owned(), v.clone()));
    }
    proof {
        assert(pair_views(pairs@) =~= pair_views(p0) + opt_pair(key@, *value));
    }
}

/// The details of a GDPR purge, as JSON text with sorted keys: how many
/// entries it deleted and the scope it purged.
#[verifier::spinoff_prover]
pub fn gdpr_purge_details(scope: &MemoryScope, deleted: u64) -> (d: String)
    ensures
        d@ == "{\"deleted_count\":"@ + int_text(deleted as int) + ",\"scope\":"@ + seq!['{']
            + string_members(scope_pairs(*scope)) + seq!['}'] + "}"@,
{
    let mut pairs: Vec<(String, String)> = Vec::new();
    push_opt_pair(&mut pairs, "agent_id", &scope.agent_id);
    push_opt_pair(&mut pairs, "org_id", &scope.org_id);
    push_opt_pair(&mut pairs, "project_id", &scope.project_id);
    push_opt_pair(&mut pairs, "run_id", &scope.run_id);
    push_opt_pair(&mut pairs, "session_id", &scope.session_id);
    push_opt_pair(&mut pairs, "team_id", &scope.team_id);
    let ghost p6 = pair_views(pairs@);
    pairs.push(("tenant_id".to_owned(), scope.tenant_id.clone()));
    proof {
        assert(pair_views(pairs@) =~= p6 + seq![("tenant_id"@, scope.tenant_id@)]);
    }
    push_opt_pair(&mut pairs, "user_id", &scope.user_id);
    proof {
        assert(pair_views(pairs@) =~= scope_pairs(*scope));
    }
    let inner = string_object(&pairs);
    let n = u64_to_string(deleted);
    let head = concat3("{\"deleted_count\":", n.as_str(), ",\"scope\":");
    let d = concat3(head.as_str(), inner.as_str(), "}");
    proof {
        assert(d@ =~= "{\"deleted_count\":"@ + int_text(deleted as int) + ",\"scope\":"@
            + seq!['{'] + string_members(scope_pairs(*scope)) + seq!['}'] + "}"@);
    }
    d
}

/// An audit log entry as the service reports it.
#[derive(Debug, PartialEq)]
pub struct AuditEntry {
    pub id: u128,
    pub store_id: u128,
    pub tenant_id: String,
    pub memory_id: Option<u128>,
    pub action: String,
    pub agent_id: Option<String>,
    pub details: Option<Json>,
    pub created_at: String,
    /// When true, a GDPR purge has anonymized this entry: its stored hash
    /// covers the original content, so only its chain link can be checked.
    pub redacted: bool,
}

} // verus!
