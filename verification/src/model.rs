//! The enumerations of the memory model and their stored text codes.
use crate::error::{error_payload, OmsError};
use crate::text::{concat2, owned, str_eq};
use vstd::prelude::*;

verus! {

/// The tier of the memory hierarchy an entry lives in.
#[derive(Clone, Copy, Debug, PartialEq, Eq, Hash, Structural)]
pub enum MemoryLayer {
    Working,
    Episodic,
    Semantic,
    Procedural,
    Archival,
}

/// Who may read an entry.
#[derive(Clone, Copy, Debug, PartialEq, Eq, Hash, Structural)]
pub enum AccessPolicy {
    Private,
    Inherit,
    Shared,
    PublicRead,
}

/// What a child agent may do with inherited memories.
#[derive(Clone, Copy, Debug, PartialEq, Eq, Hash, Structural)]
pub enum InheritanceAccess {
    ReadOnly,
    ReadWrite,
}

/// How concurrent writes to a shared space are reconciled.
#[derive(Clone, Copy, Debug, PartialEq, Eq, Hash, Structural)]
pub enum ConflictResolution {
    LastWriteWins,
    OrchestratorMerge,
    Crdt,
}

/// What a participant may do in a shared space.
#[derive(Clone, Copy, Debug, PartialEq, Eq, Hash, Structural)]
pub enum ParticipantAccess {
    ReadOnly,
    ReadWrite,
    Admin,
}

/// The text a layer is stored and displayed as.
pub open spec fn layer_text(l: MemoryLayer) -> Seq<char> {
    match l {
        MemoryLayer::Working => "working"@,
        MemoryLayer::Episodic => "episodic"@,
        MemoryLayer::Semantic => "semantic"@,
        MemoryLayer::Procedural => "procedural"@,
        MemoryLayer::Archival => "archival"@,
    }
}

/// The layer a stored text names, if any.
pub open spec fn layer_from_text(s: Seq<char>) -> Option<MemoryLayer> {
    if s == "working"@ {
        Some(MemoryLayer::Working)
    } else if s == "episodic"@ {
        Some(MemoryLayer::Episodic)
    } else if s == "semantic"@ {
        Some(MemoryLayer::Semantic)
    } else if s == "procedural"@ {
        Some(MemoryLayer::Procedural)
    } else if s == "archival"@ {
        Some(MemoryLayer::Archival)
    } else {
        None
    }
}

/// The layer new memories land in when the request names none.
pub fn default_layer() -> (l: MemoryLayer)
    ensures
        l == MemoryLayer::Working,
{
    MemoryLayer::Working
}

impl MemoryLayer {
    /// The text this layer is stored and displayed as.
    pub fn as_str(&self) -> (s: &'static str)
        ensures
            s@ == layer_text(*self),
    {
        match self {
            MemoryLayer::Working => "working",
            MemoryLayer::Episodic => "episodic",
            MemoryLayer::Semantic => "semantic",
            MemoryLayer::Procedural => "procedural",
            MemoryLayer::Archival => "archival",
        }
    }

    /// The text this layer is displayed as.
    pub fn to_string(&self) -> (s: String)
        ensures
            s@ == layer_text(*self),
    {
        owned(self.as_str())
    }
}

/// Reads a layer back from its stored text; any other text is an internal
/// error naming it.
pub fn parse_layer(s: &str) -> (r: Result<MemoryLayer, OmsError>)
    ensures
        match r {
            Ok(l) => layer_from_text(s@) == Some(l),
            Err(e) => layer_from_text(s@) is None && e is Internal && error_payload(e)
                == "unknown layer: "@ + s@,
        },
{
    if str_eq(s, "working") {
        Ok(MemoryLayer::Working)
    } else if str_eq(s, "episodic") {
        Ok(MemoryLayer::Episodic)
    } else if str_eq(s, "semantic") {
        Ok(MemoryLayer::Semantic)
    } else if str_eq(s, "procedural") {
        Ok(MemoryLayer::Procedural)
    } else if str_eq(s, "archival") {
        Ok(MemoryLayer::Archival)
    } else {
        Err(OmsError::Internal(concat2("unknown layer: ", s)))
    }
}

/// The text an access policy is stored as.
pub open spec fn access_policy_text(p: AccessPolicy) -> Seq<char> {
    match p {
        AccessPolicy::Private => "private"@,
        AccessPolicy::Inherit => "inherit"@,
        AccessPolicy::Shared => "shared"@,
        AccessPolicy::PublicRead => "public_read"@,
    }
}

/// The access policy a stored text names, if any; `publicread` is accepted
/// as an older spelling of `public_read`.
pub open spec fn access_policy_from_text(s: Seq<char>) -> Option<AccessPolicy> {
    if s == "private"@ {
        Some(AccessPolicy::Private)
    } else if s == "inherit"@ {
        Some(AccessPolicy::Inherit)
    } else if s == "shared"@ {
        Some(AccessPolicy::Shared)
    } else if s == "public_read"@ || s == "publicread"@ {
        Some(AccessPolicy::PublicRead)
    } else {
        None
    }
}

impl Default for AccessPolicy {
    fn default() -> (p: Self)
        ensures
            p == AccessPolicy::Private,
    {
        AccessPolicy::Private
    }
}

/// The text an access policy is stored as.
pub fn access_policy_to_str(policy: &AccessPolicy) -> (s: &'static str)
    ensures
        s@ == access_policy_text(*policy),
{
    match policy {
        AccessPolicy::Private => "private",
        AccessPolicy::Inherit => "inherit",
        AccessPolicy::Shared => "shared",
        AccessPolicy::PublicRead => "public_read",
    }
}

/// Reads an access policy back from its stored text.
pub fn parse_access_policy(s: &str) -> (r: Result<AccessPolicy, OmsError>)
    ensures
        match r {
            Ok(p) => access_policy_from_text(s@) == Some(p),
            Err(e) => access_policy_from_text(s@) is None && e is Internal && error_payload(e)
                == "unknown access policy: "@ + s@,
        },
{
    if str_eq(s, "private") {
        Ok(AccessPolicy::Private)
    } else if str_eq(s, "inherit") {
        Ok(AccessPolicy::Inherit)
    } else if str_eq(s, "shared") {
        Ok(AccessPolicy::Shared)
    } else if str_eq(s, "public_read") || str_eq(s, "publicread") {
        Ok(AccessPolicy::PublicRead)
    } else {
        Err(OmsError::Internal(concat2("unknown access policy: ", s)))
    }
}

/// The text an inheritance access mode is stored as.
pub open spec fn inheritance_access_text(a: InheritanceAccess) -> Seq<char> {
    match a {
        InheritanceAccess::ReadOnly => "read_only"@,
        InheritanceAccess::ReadWrite => "read_write"@,
    }
}

/// The inheritance access mode a stored text names, if any.
pub open spec fn inheritance_access_from_text(s: Seq<char>) -> Option<InheritanceAccess> {
    if s == "read_only"@ {
        Some(InheritanceAccess::ReadOnly)
    } else if s == "read_write"@ {
        Some(InheritanceAccess::ReadWrite)
    } else {
        None
    }
}

/// The access an inheritance grants when the request names none.
pub fn default_access() -> (a: InheritanceAccess)
    ensures
        a == InheritanceAccess::ReadOnly,
{
    InheritanceAccess::ReadOnly
}

/// The text an inheritance access mode is stored as.
pub fn inheritance_access_to_str(access: InheritanceAccess) -> (s: &'static str)
    ensures
        s@ == inheritance_access_text(access),
{
    match access {
        InheritanceAccess::ReadOnly => "read_only",
        InheritanceAccess::ReadWrite => "read_write",
    }
}

/// Reads an inheritance access mode back from its stored text.
pub fn parse_inheritance_access(s: &str) -> (r: Result<InheritanceAccess, OmsError>)
    ensures
        match r {
            Ok(a) => inheritance_access_from_text(s@) == Some(a),
            Err(e) => inheritance_access_from_text(s@) is None && e is Internal && error_payload(e)
                == "unknown inheritance access: "@ + s@,
        },
{
    if str_eq(s, "read_only") {
        Ok(InheritanceAccess::ReadOnly)
    } else if str_eq(s, "read_write") {
        Ok(InheritanceAccess::ReadWrite)
    } else {
        Err(OmsError::Internal(concat2("unknown inheritance access: ", s)))
    }
}

/// The text a conflict resolution policy is stored as.
pub open spec fn conflict_resolution_text(c: ConflictResolution) -> Seq<char> {
    match c {
        ConflictResolution::LastWriteWins => "last_write_wins"@,
        ConflictResolution::OrchestratorMerge => "orchestrator_merge"@,
        ConflictResolution::Crdt => "crdt"@,
    }
}

/// The conflict resolution policy a stored text names, if any.
pub open spec fn conflict_resolution_from_text(s: Seq<char>) -> Option<ConflictResolution> {
    if s == "last_write_wins"@ {
        Some(ConflictResolution::LastWriteWins)
    } else if s == "orchestrator_merge"@ {
        Some(ConflictResolution::OrchestratorMerge)
    } else if s == "crdt"@ {
        Some(ConflictResolution::Crdt)
    } else {
        None
    }
}

/// The policy a shared space uses when the request names none.
pub fn default_conflict_resolution() -> (c: ConflictResolution)
    ensures
        c == ConflictResolution::LastWriteWins,
{
    ConflictResolution::LastWriteWins
}

/// The text a conflict resolution policy is stored as.
pub fn conflict_resolution_to_str(conflict_resolution: ConflictResolution) -> (s: &'static str)
    ensures
        s@ == conflict_resolution_text(conflict_resolution),
{
    match conflict_resolution {
        ConflictResolution::LastWriteWins => "last_write_wins",
        ConflictResolution::OrchestratorMerge => "orchestrator_merge",
        ConflictResolution::Crdt => "crdt",
    }
}

/// Reads a conflict resolution policy back from its stored text.
pub fn parse_conflict_resolution(s: &str) -> (r: Result<ConflictResolution, OmsError>)
    ensures
        match r {
            Ok(c) => conflict_resolution_from_text(s@) == Some(c),
            Err(e) => conflict_resolution_from_text(s@) is None && e is Internal && error_payload(
                e,
            ) == "unknown conflict resolution: "@ + s@,
        },
{
    if str_eq(s, "last_write_wins") {
        Ok(ConflictResolution::LastWriteWins)
    } else if str_eq(s, "orchestrator_merge") {
        Ok(ConflictResolution::OrchestratorMerge)
    } else if str_eq(s, "crdt") {
        Ok(ConflictResolution::Crdt)
    } else {
        Err(OmsError::Internal(concat2("unknown conflict resolution: ", s)))
    }
}

/// The text a participant access level is stored as.
pub open spec fn participant_access_text(a: ParticipantAccess) -> Seq<char> {
    match a {
        ParticipantAccess::ReadOnly => "read_only"@,
        ParticipantAccess::ReadWrite => "read_write"@,
        ParticipantAccess::Admin => "admin"@,
    }
}

/// The participant access level a stored text names, if any.
pub open spec fn participant_access_from_text(s: Seq<char>) -> Option<ParticipantAccess> {
    if s == "read_only"@ {
        Some(ParticipantAccess::ReadOnly)
    } else if s == "read_write"@ {
        Some(ParticipantAccess::ReadWrite)
    } else if s == "admin"@ {
        Some(ParticipantAccess::Admin)
    } else {
        None
    }
}

/// The access a joining agent gets when the request names none.
pub fn default_participant_access() -> (a: ParticipantAccess)
    ensures
        a == ParticipantAccess::ReadWrite,
{
    ParticipantAccess::ReadWrite
}

/// The text a participant access level is stored as.
pub fn participant_access_to_str(access: ParticipantAccess) -> (s: &'static str)
    ensures
        s@ == participant_access_text(access),
{
    match access {
        ParticipantAccess::ReadOnly => "read_only",
        ParticipantAccess::ReadWrite => "read_write",
        ParticipantAccess::Admin => "admin",
    }
}

/// Reads a participant access level back from its stored text.
pub fn parse_participant_access(s: &str) -> (r: Result<ParticipantAccess, OmsError>)
    ensures
        match r {
            Ok(a) => participant_access_from_text(s@) == Some(a),
            Err(e) => participant_access_from_text(s@) is None && e is Internal && error_payload(e)
                == "unknown participant access: "@ + s@,
        },
{
    if str_eq(s, "read_only") {
        Ok(ParticipantAccess::ReadOnly)
    } else if str_eq(s, "read_write") {
        Ok(ParticipantAccess::ReadWrite)
    } else if str_eq(s, "admin") {
        Ok(ParticipantAccess::Admin)
    } else {
        Err(OmsError::Internal(concat2("unknown participant access: ", s)))
    }
}

/// Every layer reads back as itself from the text it is stored as, and no
/// two layers share a text.
pub proof fn lemma_layer_codes_round_trip(l: MemoryLayer, m: MemoryLayer)
    ensures
        layer_from_text(layer_text(l)) == Some(l),
        layer_text(l) == layer_text(m) ==> l == m,
{
    reveal_strlit("working");
    reveal_strlit("episodic");
    reveal_strlit("semantic");
    reveal_strlit("procedural");
    reveal_strlit("archival");
    assert("working"@[0] == 'w');
    assert("episodic"@[0] == 'e');
    assert("semantic"@[0] == 's');
    assert("procedural"@[0] == 'p');
    assert("archival"@[0] == 'a');
}

/// Every access policy reads back as itself from the text it is stored as;
/// every text that reads as a policy other than `public_read` is that
/// policy's own text.
pub proof fn lemma_access_policy_codes_round_trip(p: AccessPolicy, s: Seq<char>)
    ensures
        access_policy_from_text(access_policy_text(p)) == Some(p),
        access_policy_from_text(s) == Some(p) && p != AccessPolicy::PublicRead ==> s
            == access_policy_text(p),
{
    reveal_strlit("private");
    reveal_strlit("inherit");
    reveal_strlit("shared");
    reveal_strlit("public_read");
    reveal_strlit("publicread");
    assert("private"@[0] == 'p');
    assert("inherit"@[0] == 'i');
    assert("shared"@[0] == 's');
    assert("public_read"@[0] == 'p');
    assert("publicread"@[0] == 'p');
    assert("private"@[1] == 'r');
    assert("public_read"@[1] == 'u');
    assert("publicread"@[1] == 'u');
    assert("public_read"@.len() != "publicread"@.len());
}

/// Every inheritance access mode reads back as itself from its stored text.
pub proof fn lemma_inheritance_access_codes_round_trip(a: InheritanceAccess)
    ensures
        inheritance_access_from_text(inheritance_access_text(a)) == Some(a),
{
    reveal_strlit("read_only");
    reveal_strlit("read_write");
    assert("read_only"@[5] == 'o');
    assert("read_write"@[5] == 'w');
}

/// Every conflict resolution policy reads back as itself from its stored
/// text.
pub proof fn lemma_conflict_resolution_codes_round_trip(c: ConflictResolution)
    ensures
        conflict_resolution_from_text(conflict_resolution_text(c)) == Some(c),
{
    reveal_strlit("last_write_wins");
    reveal_strlit("orchestrator_merge");
    reveal_strlit("crdt");
    assert("last_write_wins"@[0] == 'l');
    assert("orchestrator_merge"@[0] == 'o');
    assert("crdt"@[0] == 'c');
}

/// Every participant access level reads back as itself from its stored text.
pub proof fn lemma_participant_access_codes_round_trip(a: ParticipantAccess)
    ensures
        participant_access_from_text(participant_access_text(a)) == Some(a),
{
    reveal_strlit("read_only");
    reveal_strlit("read_write");
    reveal_strlit("admin");
    assert("read_only"@[5] == 'o');
    assert("read_write"@[5] == 'w');
    assert("read_only"@[0] == 'r');
    assert("admin"@[0] == 'a');
}

} // verus!
