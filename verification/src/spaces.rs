//! Shared memory spaces for peer agents (the blackboard pattern): their
//! records, participants, and the bookkeeping around them.
use crate::error::{error_payload, OmsError};
use crate::ids::{uuid_text, uuid_to_string};
use crate::json::{pair_views, string_members, string_object};
use crate::model::{participant_access_text, participant_access_to_str, ConflictResolution,
    MemoryLayer, ParticipantAccess};
use crate::scope::MemoryScope;
use crate::text::{concat2, concat3, repeat_join, repeat_join_str};
use vstd::prelude::*;

verus! {

broadcast use vstd::string::group_string_axioms;

/// An agent taking part in a shared space. Times are RFC 3339 text.
#[derive(Debug, PartialEq, Eq)]
pub struct SpaceParticipant {
    pub agent_id: String,
    pub access: ParticipantAccess,
    pub joined_at: String,
}

/// A shared memory space.
#[derive(Debug, PartialEq, Eq)]
pub struct SharedSpace {
    pub id: u128,
    pub name: String,
    pub store_id: u128,
    pub tenant_id: String,
    pub scope: MemoryScope,
    pub layer: MemoryLayer,
    pub conflict_resolution: ConflictResolution,
    pub notify_on_write: bool,
    pub notify_on_delete: bool,
    pub participants: Vec<SpaceParticipant>,
    pub created_at: String,
    pub updated_at: String,
}

/// Request to create a shared memory space.
#[derive(Debug, PartialEq, Eq)]
pub struct CreateSharedSpaceRequest {
    pub name: String,
    pub scope: MemoryScope,
    pub layer: MemoryLayer,
    pub conflict_resolution: ConflictResolution,
    pub notify_on_write: bool,
    pub notify_on_delete: bool,
}

/// Request to join or add an agent to a shared space.
#[derive(Debug, PartialEq, Eq)]
pub struct JoinSpaceRequest {
    pub agent_id: String,
    pub access: ParticipantAccess,
}

/// Request to leave a shared space.
#[derive(Debug, PartialEq, Eq)]
pub struct LeaveSpaceRequest {
    pub agent_id: String,
}

/// The space a create request makes: the request's settings, its scope
/// under the authenticated tenant, no participants yet, and both times at
/// `now`.
pub fn new_shared_space(
    request: CreateSharedSpaceRequest,
    tenant_id: &str,
    store_id: u128,
    id: u128,
    now: String,
) -> (s: SharedSpace)
    ensures
        s.id == id,
        s.name == request.name,
        s.store_id == store_id,
        s.tenant_id@ == tenant_id@,
        s.scope.tenant_id@ == tenant_id@,
        s.scope.org_id == request.scope.org_id,
        s.scope.team_id == request.scope.team_id,
        s.scope.project_id == request.scope.project_id,
        s.scope.user_id == request.scope.user_id,
        s.scope.agent_id == request.scope.agent_id,
        s.scope.session_id == request.scope.session_id,
        s.scope.run_id == request.scope.run_id,
        s.layer == request.layer,
        s.conflict_resolution == request.conflict_resolution,
        s.notify_on_write == request.notify_on_write,
        s.notify_on_delete == request.notify_on_delete,
        s.participants@.len() == 0,
        s.created_at == now,
        s.updated_at == now,
{
    let created = now.clone();
    SharedSpace {
        id,
        name: request.name,
        store_id,
        tenant_id: tenant_id.to_owned(),
        scope: request.scope.normalize(tenant_id),
        layer: request.layer,
        conflict_resolution: request.conflict_resolution,
        notify_on_write: request.notify_on_write,
        notify_on_delete: request.notify_on_delete,
        participants: Vec::new(),
        created_at: created,
        updated_at: now,
    }
}

/// The error for a space that does not exist in the store.
pub fn space_not_found(space_id: u128) -> (e: OmsError)
    ensures
        e is InvalidInput,
        error_payload(e) == "shared space not found: "@ + uuid_text(space_id),
{
    let id = uuid_to_string(space_id);
    OmsError::InvalidInput(concat2("shared space not found: ", id.as_str()))
}

/// The outcome of deleting a space, given how many rows went.
pub fn space_delete_outcome(space_id: u128, rows_affected: u64) -> (r: Result<(), OmsError>)
    ensures
        rows_affected == 0 ==> r is Err && r->Err_0 is InvalidInput && error_payload(r->Err_0)
            == "shared space not found: "@ + uuid_text(space_id),
        rows_affected != 0 ==> r is Ok,
{
    if rows_affected == 0 {
        Err(space_not_found(space_id))
    } else {
        Ok(())
    }
}

/// The statement that loads the participants of `n` spaces at once (their
/// ids are its last `n` parameters), grouped by space, earliest joiner
/// first.
pub fn participants_query(n: usize) -> (r: String)
    ensures
        r@ == "SELECT sp.space_id, sp.agent_id, sp.access, sp.joined_at\n         FROM space_participants sp\n         JOIN shared_spaces ss ON ss.id = sp.space_id\n         WHERE ss.store_id = ? AND ss.tenant_id = ? AND sp.space_id IN ("@
            + repeat_join(n as nat, "?"@, ", "@)
            + ")\n         ORDER BY sp.space_id ASC, sp.joined_at ASC"@,
{
    let placeholders = repeat_join_str(n, "?", ", ");
    concat3(
        "SELECT sp.space_id, sp.agent_id, sp.access, sp.joined_at\n         FROM space_participants sp\n         JOIN shared_spaces ss ON ss.id = sp.space_id\n         WHERE ss.store_id = ? AND ss.tenant_id = ? AND sp.space_id IN (",
        placeholders.as_str(),
        ")\n         ORDER BY sp.space_id ASC, sp.joined_at ASC",
    )
}

/// The positions, in order, of the rows that belong to `space`.
pub open spec fn rows_of(row_spaces: Seq<u128>, space: u128) -> Seq<usize>
    decreases row_spaces.len(),
{
    if row_spaces.len() == 0 {
        Seq::empty()
    } else {
        let r = rows_of(row_spaces.drop_last(), space);
        if row_spaces.last() == space {
            r.push((row_spaces.len() - 1) as usize)
        } else {
            r
        }
    }
}

/// The positions of the rows of one space.
fn rows_for(row_spaces: &Vec<u128>, space: u128) -> (r: Vec<usize>)
    ensures
        r@ == rows_of(row_spaces@, space),
{
    let mut r: Vec<usize> = Vec::new();
    let mut j: usize = 0;
    while j < row_spaces.len()
        invariant
            0 <= j <= row_spaces.len(),
            r@ == rows_of(row_spaces@.take(j as int), space),
        decreases row_spaces.len() - j,
    {
        proof {
            assert(row_spaces@.take(j + 1).drop_last() == row_spaces@.take(j as int));
            assert(row_spaces@.take(j + 1).last() == row_spaces@[j as int]);
        }
        if row_spaces[j] == space {
            r.push(j);
        }
        j = j + 1;
    }
    proof {
        assert(row_spaces@.take(row_spaces@.len() as int) == row_spaces@);
    }
    r
}

/// Groups participant rows by space: for each listed space, the positions
/// of its rows, in row order; a space with no rows gets none.
pub fn group_participants(space_ids: &Vec<u128>, row_spaces: &Vec<u128>) -> (r: Vec<Vec<usize>>)
    ensures
        r@.len() == space_ids@.len(),
        forall|i: int| 0 <= i < r@.len() ==> #[trigger] r@[i]@ == rows_of(row_spaces@, space_ids@[i]),
{
    let mut r: Vec<Vec<usize>> = Vec::new();
    let mut i: usize = 0;
    while i < space_ids.len()
        invariant
            0 <= i <= space_ids.len(),
            r@.len() == i,
            forall|k: int| 0 <= k < i ==> #[trigger] r@[k]@ == rows_of(row_spaces@, space_ids@[k]),
        decreases space_ids.len() - i,
    {
        let rows = rows_for(row_spaces, space_ids[i]);
        r.push(rows);
        i = i + 1;
    }
    r
}

/// Each row is in the group of the space it names, so grouping loses no
/// participant of a listed space and puts none in the wrong space.
pub proof fn lemma_rows_of_exact(row_spaces: Seq<u128>, space: u128, j: int)
    requires
        0 <= j < row_spaces.len(),
        row_spaces.len() <= usize::MAX,
    ensures
        rows_of(row_spaces, space).contains(j as usize) <==> row_spaces[j] == space,
    decreases row_spaces.len(),
{
    let r = rows_of(row_spaces.drop_last(), space);
    lemma_rows_of_bounded(row_spaces.drop_last(), space);
    if j < row_spaces.len() - 1 {
        lemma_rows_of_exact(row_spaces.drop_last(), space, j);
        if row_spaces.last() == space {
            let rr = r.push((row_spaces.len() - 1) as usize);
            if rr.contains(j as usize) {
                let k = choose|k: int| 0 <= k < rr.len() && rr[k] == j as usize;
                if k < r.len() {
                    assert(r[k] == j as usize);
                }
            }
            if r.contains(j as usize) {
                let k = choose|k: int| 0 <= k < r.len() && r[k] == j as usize;
                assert(rr[k] == j as usize);
            }
        }
    } else {
        if row_spaces.last() == space {
            let rr = r.push((row_spaces.len() - 1) as usize);
            assert(rr[r.len() as int] == j as usize);
        } else {
            if r.contains(j as usize) {
                let k = choose|k: int| 0 <= k < r.len() && r[k] == j as usize;
                assert(r[k] < row_spaces.len() - 1);
            }
        }
    }
}

/// Every position in a group is a row position.
proof fn lemma_rows_of_bounded(row_spaces: Seq<u128>, space: u128)
    requires
        row_spaces.len() <= usize::MAX,
    ensures
        forall|k: int|
            0 <= k < rows_of(row_spaces, space).len() ==> #[trigger] rows_of(row_spaces, space)[k]
                < row_spaces.len(),
    decreases row_spaces.len(),
{
    if row_spaces.len() > 0 {
        lemma_rows_of_bounded(row_spaces.drop_last(), space);
        let r = rows_of(row_spaces.drop_last(), space);
        if row_spaces.last() == space {
            assert forall|k: int| 0 <= k < r.len() + 1 implies #[trigger] r.push(
                (row_spaces.len() - 1) as usize,
            )[k] < row_spaces.len() by {
                if k < r.len() {
                    assert(r.push((row_spaces.len() - 1) as usize)[k] == r[k]);
                }
            }
        }
    }
}

/// The audit details of a new space, as JSON text with sorted keys.
pub fn space_created_details(space_id: u128, name: &str) -> (d: String)
    ensures
        d@ == seq!['{'] + string_members(
            seq![("entity"@, "shared_space"@), ("name"@, name@), ("space_id"@, uuid_text(space_id))],
        ) + seq!['}'],
{
    let pairs = vec![
        ("entity".to_owned(), "shared_space".to_owned()),
        ("name".to_owned(), name.to_owned()),
        ("space_id".to_owned(), uuid_to_string(space_id)),
    ];
    let d = string_object(&pairs);
    proof {
        assert(pair_views(pairs@) =~= seq![
            ("entity"@, "shared_space"@),
            ("name"@, name@),
            ("space_id"@, uuid_text(space_id)),
        ]);
    }
    d
}

/// The audit details of an agent joining a space, as JSON text with sorted
/// keys.
pub fn space_joined_details(space_id: u128, agent_id: &str, access: ParticipantAccess) -> (d:
    String)
    ensures
        d@ == seq!['{'] + string_members(
            seq![
                ("access"@, participant_access_text(access)),
                ("agent_id"@, agent_id@),
                ("entity"@, "shared_space"@),
                ("space_id"@, uuid_text(space_id)),
            ],
        ) + seq!['}'],
{
    let pairs = vec![
        ("access".to_owned(), participant_access_to_str(access).to_owned()),
        ("agent_id".to_owned(), agent_id.to_owned()),
        ("entity".to_owned(), "shared_space".to_owned()),
        ("space_id".to_owned(), uuid_to_string(space_id)),
    ];
    let d = string_object(&pairs);
    proof {
        assert(pair_views(pairs@) =~= seq![
            ("access"@, participant_access_text(access)),
            ("agent_id"@, agent_id@),
            ("entity"@, "shared_space"@),
            ("space_id"@, uuid_text(space_id)),
        ]);
    }
    d
}

/// The audit details of an agent leaving a space, as JSON text with sorted
/// keys.
pub fn space_left_details(space_id: u128, agent_id: &str) -> (d: String)
    ensures
        d@ == seq!['{'] + string_members(
            seq![
                ("agent_id"@, agent_id@),
                ("entity"@, "shared_space"@),
                ("space_id"@, uuid_text(space_id)),
            ],
        ) + seq!['}'],
{
    let pairs = vec![
        ("agent_id".to_owned(), agent_id.to_owned()),
        ("entity".to_owned(), "shared_space".to_owned()),
        ("space_id".to_owned(), uuid_to_string(space_id)),
    ];
    let d = string_object(&pairs);
    proof {
        assert(pair_views(pairs@) =~= seq![
            ("agent_id"@, agent_id@),
            ("entity"@, "shared_space"@),
            ("space_id"@, uuid_text(space_id)),
        ]);
    }
    d
}

/// The audit details of a deleted space, as JSON text with sorted keys.
pub fn space_deleted_details(space_id: u128) -> (d: String)
    ensures
        d@ == seq!['{'] + string_members(
            seq![("entity"@, "shared_space"@), ("space_id"@, uuid_text(space_id))],
        ) + seq!['}'],
{
    let pairs = vec![
        ("entity".to_owned(), "shared_space".to_owned()),
        ("space_id".to_owned(), uuid_to_string(space_id)),
    ];
    let d = string_object(&pairs);
    proof {
        assert(pair_views(pairs@) =~= seq![
            ("entity"@, "shared_space"@),
            ("space_id"@, uuid_text(space_id)),
        ]);
    }
    d
}

} // verus!
