//! Breadth-first traversal of the memory knowledge graph.
//!
//! The traversal is a state machine: the caller asks for the next node to
//! expand, loads the edges incident to that node, and hands them back to
//! `absorb_edges`, which decides which edges and neighbours are new.
use crate::entry::MemoryEntry;
use crate::error::{error_payload, OmsError};
use crate::ids::{uuid_text, uuid_to_string};
use crate::json::{pair_views, string_members, string_object, Json};
use crate::text::{concat2, concat3, opt_view, repeat_join, repeat_join_str, views};
use std::collections::VecDeque;
use vstd::prelude::*;

verus! {

/// Deepest traversal the service performs, whatever the request asks for.
pub const MAX_TRAVERSAL_DEPTH: u32 = 10;

/// Once this many nodes have been visited, no further node is expanded.
pub const MAX_TRAVERSAL_NODES: usize = 1000;

/// At most this many edges are loaded for one expanded node.
pub const MAX_EDGES_PER_NODE: u32 = 500;

/// The endpoints of a stored edge, by id.
#[derive(Clone, Copy, Debug, PartialEq, Eq)]
pub struct EdgeLink {
    pub id: u128,
    pub source: u128,
    pub target: u128,
}

/// What the traversal asks the caller to do next.
#[derive(Clone, Copy, Debug, PartialEq, Eq)]
pub enum TraversalStep {
    /// Load the edges incident to `node`, found at `depth` hops from the start.
    Expand { node: u128, depth: u32 },
    /// The traversal is over.
    Finished,
}

/// The state of a breadth-first traversal.
pub struct Traversal {
    max_depth: u32,
    visited: Vec<u128>,
    seen_edges: Vec<u128>,
    queue: VecDeque<(u128, u32)>,
    finished: bool,
}

/// The node at the other end of `e`, seen from `current`.
pub open spec fn neighbor_of(e: EdgeLink, current: u128) -> u128 {
    if e.source == current {
        e.target
    } else {
        e.source
    }
}

/// Folds a batch of edges into the visited nodes and seen edges, in order:
/// returns the new seen edges, the new visited nodes, the indices of the
/// edges that were new, and the neighbours that were new.
pub open spec fn absorb_spec(
    seen: Seq<u128>,
    visited: Seq<u128>,
    current: u128,
    edges: Seq<EdgeLink>,
) -> (Seq<u128>, Seq<u128>, Seq<usize>, Seq<u128>)
    decreases edges.len(),
{
    if edges.len() == 0 {
        (seen, visited, Seq::empty(), Seq::empty())
    } else {
        let prev = absorb_spec(seen, visited, current, edges.drop_last());
        let e = edges.last();
        let i = (edges.len() - 1) as usize;
        let (s2, k2) = if prev.0.contains(e.id) {
            (prev.0, prev.2)
        } else {
            (prev.0.push(e.id), prev.2.push(i))
        };
        let nb = neighbor_of(e, current);
        let (v2, n2) = if prev.1.contains(nb) {
            (prev.1, prev.3)
        } else {
            (prev.1.push(nb), prev.3.push(nb))
        };
        (s2, v2, k2, n2)
    }
}

/// Index of the first queued entry that may still be expanded (its depth is
/// below `max_depth`), or the queue's length when there is none.
pub open spec fn first_expandable(q: Seq<(u128, u32)>, max_depth: u32) -> int
    decreases q.len(),
{
    if q.len() == 0 {
        0
    } else if q[0].1 < max_depth {
        0
    } else {
        1 + first_expandable(q.drop_first(), max_depth)
    }
}

/// The depth cap a request is served with.
pub open spec fn effective_depth(requested: u32) -> u32 {
    if requested < MAX_TRAVERSAL_DEPTH {
        requested
    } else {
        MAX_TRAVERSAL_DEPTH
    }
}

impl Traversal {
    /// Nodes visited so far, in discovery order.
    pub closed spec fn visited(&self) -> Seq<u128> {
        self.visited@
    }

    /// Ids of the edges reported so far, in discovery order.
    pub closed spec fn seen_edges(&self) -> Seq<u128> {
        self.seen_edges@
    }

    /// Nodes waiting to be expanded, with their depth.
    pub closed spec fn queue(&self) -> Seq<(u128, u32)> {
        self.queue@
    }

    /// The depth below which nodes are expanded.
    pub closed spec fn max_depth(&self) -> u32 {
        self.max_depth
    }

    /// Whether the traversal has ended.
    pub closed spec fn is_finished(&self) -> bool {
        self.finished
    }

    /// The traversal's invariant: no node or edge is recorded twice, every
    /// queued node has been visited, and no queued depth exceeds the cap.
    pub closed spec fn wf(&self) -> bool {
        &&& self.max_depth <= MAX_TRAVERSAL_DEPTH
        &&& self.visited@.no_duplicates()
        &&& self.seen_edges@.no_duplicates()
        &&& forall|i: int|
            0 <= i < self.queue@.len() ==> {
                &&& self.visited@.contains(#[trigger] self.queue@[i].0)
                &&& self.queue@[i].1 <= self.max_depth
            }
    }

    /// Starts a traversal at `start`, capping the requested depth at
    /// `MAX_TRAVERSAL_DEPTH`.
    pub fn start(start: u128, requested_depth: u32) -> (t: Self)
        ensures
            t.wf(),
            !t.is_finished(),
            t.max_depth() == effective_depth(requested_depth),
            t.visited() == seq![start],
            t.seen_edges() == Seq::<u128>::empty(),
            t.queue() == seq![(start, 0u32)],
    {
        let max_depth = if requested_depth < MAX_TRAVERSAL_DEPTH {
            requested_depth
        } else {
            MAX_TRAVERSAL_DEPTH
        };
        let mut visited: Vec<u128> = Vec::new();
        visited.push(start);
        let mut queue: VecDeque<(u128, u32)> = VecDeque::new();
        queue.push_back((start, 0u32));
        let t = Traversal { max_depth, visited, seen_edges: Vec::new(), queue, finished: false };
        assert(t.visited@ == seq![start]);
        assert(t.visited@[0] == start);
        assert(t.queue@ == seq![(start, 0u32)]);
        t
    }

    /// Number of nodes visited so far.
    pub fn visited_count(&self) -> (n: usize)
        ensures
            n == self.visited().len(),
    {
        self.visited.len()
    }

    /// Decides the next step: skips queued nodes that lie at the depth cap,
    /// ends the traversal when the queue runs dry or once
    /// `MAX_TRAVERSAL_NODES` nodes have been visited, and otherwise hands out
    /// the next node to expand.
    pub fn next_step(&mut self) -> (step: TraversalStep)
        requires
            old(self).wf(),
        ensures
            final(self).wf(),
            final(self).visited() == old(self).visited(),
            final(self).seen_edges() == old(self).seen_edges(),
            final(self).max_depth() == old(self).max_depth(),
            ({
                let q = old(self).queue();
                let k = first_expandable(q, old(self).max_depth());
                if old(self).is_finished() {
                    step == TraversalStep::Finished && final(self).is_finished()
                } else if k >= q.len() {
                    &&& step == TraversalStep::Finished
                    &&& final(self).is_finished()
                    &&& final(self).queue() == Seq::<(u128, u32)>::empty()
                } else if old(self).visited().len() >= MAX_TRAVERSAL_NODES {
                    &&& step == TraversalStep::Finished
                    &&& final(self).is_finished()
                    &&& final(self).queue() == q.skip(k + 1)
                } else {
                    &&& step == TraversalStep::Expand { node: q[k].0, depth: q[k].1 }
                    &&& !final(self).is_finished()
                    &&& final(self).queue() == q.skip(k + 1)
                }
            }),
    {
        if self.finished {
            return TraversalStep::Finished;
        }
        let ghost q0 = self.queue@;
        let ghost md = self.max_depth;
        let ghost mut skipped: int = 0;
        loop
            invariant
                self.wf(),
                !self.finished,
                !old(self).finished,
                self.max_depth == md,
                self.visited@ == old(self).visited@,
                self.seen_edges@ == old(self).seen_edges@,
                q0 == old(self).queue@,
                md == old(self).max_depth,
                0 <= skipped <= q0.len(),
                self.queue@ == q0.skip(skipped),
                first_expandable(q0, md) == skipped + first_expandable(q0.skip(skipped), md),
            decreases self.queue@.len(),
        {
            let ghost before = self.queue@;
            match self.queue.pop_front() {
                None => {
                    self.finished = true;
                    proof {
                        assert(q0.skip(skipped).len() == 0);
                    }
                    return TraversalStep::Finished;
                },
                Some((node, depth)) => {
                    proof {
                        assert(before.drop_first() =~= q0.skip(skipped + 1));
                        assert(before[0] == (node, depth));
                        assert forall|j: int| 0 <= j < self.queue@.len() implies self.queue@[j]
                            == before[j + 1] by {}
                    }
                    if depth < self.max_depth {
                        proof {
                            assert(first_expandable(before, md) == 0);
                            assert(q0[skipped] == before[0]);
                        }
                        if self.visited.len() >= MAX_TRAVERSAL_NODES {
                            self.finished = true;
                            return TraversalStep::Finished;
                        }
                        return TraversalStep::Expand { node, depth };
                    }
                    proof {
                        skipped = skipped + 1;
                    }
                },
            }
        }
    }

    /// Records the edges loaded for `current` (found at `depth` hops): each
    /// edge not reported before is kept, and each neighbour not visited
    /// before is visited and queued one hop deeper. Returns the indices of
    /// the kept edges and the new neighbours, both in the order of `edges`.
    pub fn absorb_edges(&mut self, current: u128, depth: u32, edges: &Vec<EdgeLink>) -> (r: (
        Vec<usize>,
        Vec<u128>,
    ))
        requires
            old(self).wf(),
            depth < old(self).max_depth(),
        ensures
            final(self).wf(),
            final(self).max_depth() == old(self).max_depth(),
            final(self).is_finished() == old(self).is_finished(),
            ({
                let s = absorb_spec(old(self).seen_edges(), old(self).visited(), current, edges@);
                &&& final(self).seen_edges() == s.0
                &&& final(self).visited() == s.1
                &&& r.0@ == s.2
                &&& r.1@ == s.3
                &&& final(self).queue() == old(self).queue() + s.3.map_values(
                    |n: u128| (n, (depth + 1) as u32),
                )
            }),
    {
        let mut kept: Vec<usize> = Vec::new();
        let mut fresh: Vec<u128> = Vec::new();
        let ghost seen0 = self.seen_edges@;
        let ghost visited0 = self.visited@;
        let ghost queue0 = self.queue@;
        let mut i: usize = 0;
        assert(edges@.len() == edges.len());
        while i < edges.len()
            invariant
                0 <= i <= edges.len(),
                self.wf(),
                self.max_depth == old(self).max_depth,
                self.finished == old(self).finished,
                depth < self.max_depth,
                seen0 == old(self).seen_edges@,
                visited0 == old(self).visited@,
                queue0 == old(self).queue@,
                forall|j: int| 0 <= j < queue0.len() ==> visited0.contains(#[trigger] queue0[j].0),
                edges@.len() <= usize::MAX,
                ({
                    let s = absorb_spec(seen0, visited0, current, edges@.take(i as int));
                    &&& self.seen_edges@ == s.0
                    &&& self.visited@ == s.1
                    &&& kept@ == s.2
                    &&& fresh@ == s.3
                }),
                self.queue@ == queue0 + fresh@.map_values(|n: u128| (n, (depth + 1) as u32)),
            decreases edges.len() - i,
        {
            let e = edges[i];
            proof {
                assert(edges@.take(i + 1).drop_last() == edges@.take(i as int));
                assert(edges@.take(i + 1).last() == e);
            }
            if !contains_id(&self.seen_edges, e.id) {
                self.seen_edges.push(e.id);
                kept.push(i);
            }
            let nb = if e.source == current {
                e.target
            } else {
                e.source
            };
            if !contains_id(&self.visited, nb) {
                let ghost qb = self.queue@;
                self.visited.push(nb);
                fresh.push(nb);
                self.queue.push_back((nb, depth + 1));
                proof {
                    let f = |n: u128| (n, (depth + 1) as u32);
                    assert(fresh@.map_values(f) == fresh@.drop_last().map_values(f).push(
                        (nb, (depth + 1) as u32),
                    ));
                }
            }
            proof {
                let s_next = absorb_spec(seen0, visited0, current, edges@.take(i + 1));
                assert(self.visited@ == s_next.1);
                assert(fresh@ == s_next.3);
                assert forall|j: int| 0 <= j < self.queue@.len() implies {
                    &&& self.visited@.contains(#[trigger] self.queue@[j].0)
                    &&& self.queue@[j].1 <= self.max_depth
                } by {
                    if j < queue0.len() {
                        assert(self.queue@[j] == queue0[j]);
                        assert(visited0.contains(queue0[j].0));
                        lemma_absorb_visited_grows(seen0, visited0, current, edges@.take(i + 1));
                    } else {
                        let k = j - queue0.len();
                        let f = |n: u128| (n, (depth + 1) as u32);
                        assert(self.queue@[j] == fresh@.map_values(f)[k]);
                        assert(self.queue@[j] == (fresh@[k], (depth + 1) as u32));
                        lemma_absorb_fresh_visited(seen0, visited0, current, edges@.take(i + 1));
                    }
                }
            }
            i = i + 1;
        }
        proof {
            assert(edges@.take(edges@.len() as int) == edges@);
        }
        (kept, fresh)
    }
}

/// What a traversal reports is free of repeats at every point: whatever
/// sequence of starts, steps and absorbed edge batches led to `t`, its
/// visited nodes and its reported edges hold no id twice, and every node
/// still waiting to be expanded lies within the depth cap, which is at most
/// [`MAX_TRAVERSAL_DEPTH`]. (Each operation keeps `wf`, so this holds of
/// every traversal the library hands out.)
pub proof fn lemma_traversal_reports_distinct(t: Traversal)
    requires
        t.wf(),
    ensures
        t.visited().no_duplicates(),
        t.seen_edges().no_duplicates(),
        t.max_depth() <= MAX_TRAVERSAL_DEPTH,
        forall|i: int|
            0 <= i < t.queue().len() ==> t.visited().contains(#[trigger] t.queue()[i].0)
                && t.queue()[i].1 <= t.max_depth(),
{
}

/// Whether `id` occurs in `v`.
pub fn contains_id(v: &Vec<u128>, id: u128) -> (b: bool)
    ensures
        b == v@.contains(id),
{
    let mut i: usize = 0;
    while i < v.len()
        invariant
            0 <= i <= v.len(),
            forall|j: int| 0 <= j < i ==> v@[j] != id,
        decreases v.len() - i,
    {
        if v[i] == id {
            return true;
        }
        i = i + 1;
    }
    false
}

/// Absorbing edges only ever adds to the visited nodes.
pub proof fn lemma_absorb_visited_grows(
    seen: Seq<u128>,
    visited: Seq<u128>,
    current: u128,
    edges: Seq<EdgeLink>,
)
    requires
        edges.len() <= usize::MAX,
    ensures
        absorb_spec(seen, visited, current, edges).1 == visited + absorb_spec(
            seen,
            visited,
            current,
            edges,
        ).3,
        absorb_spec(seen, visited, current, edges).0 == seen + absorb_spec(
            seen,
            visited,
            current,
            edges,
        ).2.map_values(|i: usize| edges[i as int].id),
        forall|x: u128| visited.contains(x) ==> absorb_spec(seen, visited, current, edges).1.contains(x),
    decreases edges.len(),
{
    if edges.len() > 0 {
        let prefix = edges.drop_last();
        lemma_absorb_visited_grows(seen, visited, current, prefix);
        lemma_absorb_indices_bounded(seen, visited, current, prefix);
        let p = absorb_spec(seen, visited, current, prefix);
        let s = absorb_spec(seen, visited, current, edges);
        let f = |i: usize| edges[i as int].id;
        let g = |i: usize| prefix[i as int].id;
        assert(p.2.map_values(f) == p.2.map_values(g));
        if !p.0.contains(edges.last().id) {
            assert(s.2 == p.2.push((edges.len() - 1) as usize));
            assert forall|j: int| 0 <= j < p.2.len() implies #[trigger] f(s.2[j]) == f(p.2[j]) by {
                assert(s.2[j] == p.2[j]);
            }
            assert(f(s.2[p.2.len() as int]) == edges.last().id);
            assert(s.2.map_values(f) =~= p.2.map_values(f).push(edges.last().id));
        } else {
            assert(s.2 == p.2);
        }
        assert forall|x: u128| visited.contains(x) implies s.1.contains(x) by {
            assert(p.1.contains(x));
            if !p.1.contains(neighbor_of(edges.last(), current)) {
                assert(s.1 == p.1.push(neighbor_of(edges.last(), current)));
                let j = choose|j: int| 0 <= j < p.1.len() && p.1[j] == x;
                assert(s.1[j] == x);
            }
        }
    }
}

/// The kept indices are valid, strictly increasing indices into the batch.
pub proof fn lemma_absorb_indices_bounded(
    seen: Seq<u128>,
    visited: Seq<u128>,
    current: u128,
    edges: Seq<EdgeLink>,
)
    requires
        edges.len() <= usize::MAX,
    ensures
        forall|j: int|
            0 <= j < absorb_spec(seen, visited, current, edges).2.len() ==> #[trigger] absorb_spec(
                seen,
                visited,
                current,
                edges,
            ).2[j] < edges.len(),
        forall|j: int, k: int|
            0 <= j < k < absorb_spec(seen, visited, current, edges).2.len() ==> absorb_spec(
                seen,
                visited,
                current,
                edges,
            ).2[j] < absorb_spec(seen, visited, current, edges).2[k],
    decreases edges.len(),
{
    if edges.len() > 0 {
        let prefix = edges.drop_last();
        lemma_absorb_indices_bounded(seen, visited, current, prefix);
        let p = absorb_spec(seen, visited, current, prefix);
        let s = absorb_spec(seen, visited, current, edges);
        if p.0.contains(edges.last().id) {
            assert(s.2 == p.2);
        } else {
            assert(s.2 == p.2.push((edges.len() - 1) as usize));
            assert forall|j: int, k: int| 0 <= j < k < s.2.len() implies s.2[j] < s.2[k] by {
                if k == s.2.len() - 1 {
                    assert(s.2[j] == p.2[j]);
                    assert(p.2[j] < prefix.len());
                } else {
                    assert(s.2[j] == p.2[j]);
                    assert(s.2[k] == p.2[k]);
                }
            }
        }
    }
}

/// After an absorb, the edges seen are those seen before and every edge of
/// the batch.
pub proof fn lemma_absorb_seen_members(
    seen: Seq<u128>,
    visited: Seq<u128>,
    current: u128,
    edges: Seq<EdgeLink>,
    x: u128,
)
    requires
        edges.len() <= usize::MAX,
    ensures
        absorb_spec(seen, visited, current, edges).0.contains(x) <==> (seen.contains(x) || exists|
            j: int,
        |
            0 <= j < edges.len() && #[trigger] edges[j].id == x),
    decreases edges.len(),
{
    if edges.len() > 0 {
        let prefix = edges.drop_last();
        lemma_absorb_seen_members(seen, visited, current, prefix, x);
        let p = absorb_spec(seen, visited, current, prefix);
        let s = absorb_spec(seen, visited, current, edges);
        let e = edges.last();
        if p.0.contains(e.id) {
            assert(s.0 == p.0);
        } else {
            assert(s.0 == p.0.push(e.id));
            if s.0.contains(x) && !p.0.contains(x) {
                let k = choose|k: int| 0 <= k < s.0.len() && s.0[k] == x;
                assert(k == p.0.len());
                assert(edges[edges.len() - 1].id == x);
            }
            if p.0.contains(x) {
                let k = choose|k: int| 0 <= k < p.0.len() && p.0[k] == x;
                assert(s.0[k] == x);
            }
            if e.id == x {
                assert(s.0[p.0.len() as int] == x);
            }
        }
        if exists|j: int| 0 <= j < prefix.len() && #[trigger] prefix[j].id == x {
            let j = choose|j: int| 0 <= j < prefix.len() && #[trigger] prefix[j].id == x;
            assert(edges[j].id == x);
        }
        if exists|j: int| 0 <= j < edges.len() && #[trigger] edges[j].id == x {
            let j = choose|j: int| 0 <= j < edges.len() && #[trigger] edges[j].id == x;
            if j < prefix.len() {
                assert(prefix[j].id == x);
            } else {
                assert(e.id == x);
            }
        }
    }
}

/// Which edges of a batch an absorb reports: exactly those whose id was not
/// seen before and does not occur earlier in the batch. Whether the edge's
/// far end was already visited plays no part, so an edge between two
/// visited nodes is still reported the first time it is loaded.
pub proof fn lemma_absorb_kept_members(
    seen: Seq<u128>,
    visited: Seq<u128>,
    current: u128,
    edges: Seq<EdgeLink>,
    i: int,
)
    requires
        edges.len() <= usize::MAX,
        0 <= i < edges.len(),
    ensures
        absorb_spec(seen, visited, current, edges).2.contains(i as usize) <==> (!seen.contains(
            edges[i].id,
        ) && forall|j: int| 0 <= j < i ==> #[trigger] edges[j].id != edges[i].id),
    decreases edges.len(),
{
    let n = edges.len() as int;
    let prefix = edges.drop_last();
    let p = absorb_spec(seen, visited, current, prefix);
    let s = absorb_spec(seen, visited, current, edges);
    let e = edges.last();
    if p.0.contains(e.id) {
        assert(s.2 == p.2);
    } else {
        assert(s.2 == p.2.push((n - 1) as usize));
    }
    if i < n - 1 {
        lemma_absorb_kept_members(seen, visited, current, prefix, i);
        assert(prefix[i] == edges[i]);
        assert forall|j: int| 0 <= j < i implies #[trigger] edges[j] == prefix[j] by {}
        if !p.0.contains(e.id) {
            if s.2.contains(i as usize) && !p.2.contains(i as usize) {
                let k = choose|k: int| 0 <= k < s.2.len() && s.2[k] == i as usize;
                assert(k == p.2.len());
            }
            if p.2.contains(i as usize) {
                let k = choose|k: int| 0 <= k < p.2.len() && p.2[k] == i as usize;
                assert(s.2[k] == i as usize);
            }
        }
    } else {
        lemma_absorb_indices_bounded(seen, visited, current, prefix);
        lemma_absorb_seen_members(seen, visited, current, prefix, e.id);
        assert(!p.2.contains((n - 1) as usize));
        if !p.0.contains(e.id) {
            assert(s.2[p.2.len() as int] == (n - 1) as usize);
            assert forall|j: int| 0 <= j < i implies #[trigger] edges[j].id != edges[i].id by {
                assert(prefix[j] == edges[j]);
            }
        } else {
            if !seen.contains(e.id) {
                let j = choose|j: int| 0 <= j < prefix.len() && #[trigger] prefix[j].id == e.id;
                assert(edges[j].id == edges[i].id);
            }
        }
    }
}

/// Every neighbour reported as new is among the visited nodes afterwards.
pub proof fn lemma_absorb_fresh_visited(
    seen: Seq<u128>,
    visited: Seq<u128>,
    current: u128,
    edges: Seq<EdgeLink>,
)
    requires
        edges.len() <= usize::MAX,
    ensures
        forall|k: int|
            0 <= k < absorb_spec(seen, visited, current, edges).3.len() ==> absorb_spec(
                seen,
                visited,
                current,
                edges,
            ).1.contains(#[trigger] absorb_spec(seen, visited, current, edges).3[k]),
{
    lemma_absorb_visited_grows(seen, visited, current, edges);
    let s = absorb_spec(seen, visited, current, edges);
    assert forall|k: int| 0 <= k < s.3.len() implies s.1.contains(#[trigger] s.3[k]) by {
        assert(s.1[visited.len() + k] == s.3[k]);
    }
}

/// Request for a graph traversal.
#[derive(Debug, PartialEq, Eq)]
pub struct GraphTraversalRequest {
    pub start_memory_id: u128,
    pub depth: u32,
    pub relation_types: Option<Vec<String>>,
}

/// The traversal depth used when none is given.
pub fn default_depth() -> (d: u32)
    ensures
        d == 2,
{
    2
}

/// The relation types an edge query filters by: those given, or none.
pub open spec fn relation_list(types: Option<Vec<String>>) -> Seq<Seq<char>> {
    match types {
        Some(t) => views(t@),
        None => Seq::empty(),
    }
}

/// The statement loading the edges incident to a node: both directions,
/// only the given relation types when there are any, at most
/// [`MAX_EDGES_PER_NODE`] of them.
pub open spec fn edge_query_sql(n_types: nat) -> Seq<char> {
    "SELECT id, store_id, tenant_id, source_memory_id, target_memory_id, relation_type, weight, metadata_json, created_at\n             FROM graph_edges\n             WHERE store_id = ? AND tenant_id = ? AND (source_memory_id = ? OR target_memory_id = ?)"@ + (if n_types > 0 {
        " AND relation_type IN ("@ + repeat_join(n_types, "?"@, ","@) + ")"@
    } else {
        Seq::empty()
    }) + " LIMIT 500"@
}

/// Builds the statement and bind values that load the edges of `node`.
pub fn edge_query(
    tenant_id: &str,
    store_id: u128,
    node: u128,
    relation_types: &Option<Vec<String>>,
) -> (r: (String, Vec<String>))
    ensures
        r.0@ == edge_query_sql(relation_list(*relation_types).len()),
        views(r.1@) == seq![uuid_text(store_id), tenant_id@, uuid_text(node), uuid_text(node)]
            + relation_list(*relation_types),
{
    let mut sql = "SELECT id, store_id, tenant_id, source_memory_id, target_memory_id, relation_type, weight, metadata_json, created_at\n             FROM graph_edges\n             WHERE store_id = ? AND tenant_id = ? AND (source_memory_id = ? OR target_memory_id = ?)".to_owned();
    let n: usize = match relation_types {
        Some(t) => t.len(),
        None => 0,
    };
    if n > 0 {
        let placeholders = repeat_join_str(n, "?", ",");
        let clause = concat3(" AND relation_type IN (", placeholders.as_str(), ")");
        sql.append(clause.as_str());
    }
    sql.append(" LIMIT 500");
    let node_text = uuid_to_string(node);
    let mut binds: Vec<String> = vec![
        uuid_to_string(store_id),
        tenant_id.to_owned(),
        node_text.clone(),
        node_text,
    ];
    let ghost b0 = seq![uuid_text(store_id), tenant_id@, uuid_text(node), uuid_text(node)];
    proof {
        assert(views(binds@) =~= b0);
        reveal_strlit("");
    }
    if let Some(types) = relation_types {
        let mut i: usize = 0;
        while i < types.len()
            invariant
                0 <= i <= types.len(),
                views(binds@) == b0 + views(types@.take(i as int)),
            decreases types.len() - i,
        {
            let ghost bb = views(binds@);
            binds.push(types[i].clone());
            proof {
                assert(views(binds@) =~= bb.push(types@[i as int]@));
                assert(views(types@.take(i + 1)) =~= views(types@.take(i as int)).push(
                    types@[i as int]@,
                ));
            }
            i = i + 1;
        }
        proof {
            assert(types@.take(types@.len() as int) == types@);
        }
    } else {
        proof {
            assert(views(binds@) =~= b0 + relation_list(*relation_types));
        }
    }
    proof {
        if n == 0 {
            assert(sql@ =~= edge_query_sql(0));
        }
    }
    (sql, binds)
}

/// The statement and bind values that fetch newly reached nodes in one go.
pub fn neighbor_query(tenant_id: &str, store_id: u128, ids: &Vec<u128>) -> (r: (String, Vec<String>))
    ensures
        r.0@ == "SELECT * FROM memories WHERE id IN ("@ + repeat_join(ids@.len(), "?"@, ","@)
            + ") AND store_id = ? AND tenant_id = ?"@,
        views(r.1@) == ids@.map_values(|v: u128| uuid_text(v)) + seq![uuid_text(store_id), tenant_id@],
{
    let placeholders = repeat_join_str(ids.len(), "?", ",");
    let sql = concat3(
        "SELECT * FROM memories WHERE id IN (",
        placeholders.as_str(),
        ") AND store_id = ? AND tenant_id = ?",
    );
    let mut binds: Vec<String> = Vec::new();
    let mut i: usize = 0;
    while i < ids.len()
        invariant
            0 <= i <= ids.len(),
            views(binds@) == ids@.take(i as int).map_values(|v: u128| uuid_text(v)),
        decreases ids.len() - i,
    {
        let ghost bb = views(binds@);
        binds.push(uuid_to_string(ids[i]));
        proof {
            assert(views(binds@) =~= bb.push(uuid_text(ids@[i as int])));
            assert(ids@.take(i + 1).map_values(|v: u128| uuid_text(v)) =~= ids@.take(
                i as int,
            ).map_values(|v: u128| uuid_text(v)).push(uuid_text(ids@[i as int])));
        }
        i = i + 1;
    }
    let ghost bb = views(binds@);
    binds.push(uuid_to_string(store_id));
    binds.push(tenant_id.to_owned());
    proof {
        assert(ids@.take(ids@.len() as int) == ids@);
        assert(views(binds@) =~= bb + seq![uuid_text(store_id), tenant_id@]);
    }
    (sql, binds)
}

/// The audit details of a new edge, as JSON text with sorted keys.
pub fn edge_details(edge_id: u128, source: u128, target: u128, relation_type: &str) -> (d: String)
    ensures
        d@ == seq!['{'] + string_members(
            seq![
                ("edge_id"@, uuid_text(edge_id)),
                ("entity"@, "graph_edge"@),
                ("relation_type"@, relation_type@),
                ("source_memory_id"@, uuid_text(source)),
                ("target_memory_id"@, uuid_text(target)),
            ],
        ) + seq!['}'],
{
    let pairs = vec![
        ("edge_id".to_owned(), uuid_to_string(edge_id)),
        ("entity".to_owned(), "graph_edge".to_owned()),
        ("relation_type".to_owned(), relation_type.to_owned()),
        ("source_memory_id".to_owned(), uuid_to_string(source)),
        ("target_memory_id".to_owned(), uuid_to_string(target)),
    ];
    let d = string_object(&pairs);
    proof {
        assert(pair_views(pairs@) =~= seq![
            ("edge_id"@, uuid_text(edge_id)),
            ("entity"@, "graph_edge"@),
            ("relation_type"@, relation_type@),
            ("source_memory_id"@, uuid_text(source)),
            ("target_memory_id"@, uuid_text(target)),
        ]);
    }
    d
}

/// The audit details of a deleted edge, as JSON text with sorted keys.
pub fn edge_deleted_details(edge_id: u128) -> (d: String)
    ensures
        d@ == seq!['{'] + string_members(
            seq![("edge_id"@, uuid_text(edge_id)), ("entity"@, "graph_edge"@)],
        ) + seq!['}'],
{
    let pairs = vec![
        ("edge_id".to_owned(), uuid_to_string(edge_id)),
        ("entity".to_owned(), "graph_edge".to_owned()),
    ];
    let d = string_object(&pairs);
    proof {
        assert(pair_views(pairs@) =~= seq![
            ("edge_id"@, uuid_text(edge_id)),
            ("entity"@, "graph_edge"@),
        ]);
    }
    d
}

/// The outcome of deleting an edge, given how many rows went.
pub fn edge_delete_outcome(edge_id: u128, rows_affected: u64) -> (r: Result<(), OmsError>)
    ensures
        rows_affected == 0 ==> r is Err && r->Err_0 is InvalidInput && error_payload(r->Err_0)
            == "graph edge not found: "@ + uuid_text(edge_id),
        rows_affected != 0 ==> r is Ok,
{
    if rows_affected == 0 {
        let id = uuid_to_string(edge_id);
        Err(OmsError::InvalidInput(concat2("graph edge not found: ", id.as_str())))
    } else {
        Ok(())
    }
}

/// The depth cap holds for every node handed out: the entry
/// [`Traversal::next_step`] expands lies below the traversal's depth, which
/// never exceeds [`MAX_TRAVERSAL_DEPTH`].
pub proof fn lemma_expanded_below_depth(q: Seq<(u128, u32)>, max_depth: u32)
    ensures
        0 <= first_expandable(q, max_depth) <= q.len(),
        first_expandable(q, max_depth) < q.len() ==> q[first_expandable(q, max_depth)].1
            < max_depth,
        forall|j: int| 0 <= j < first_expandable(q, max_depth) ==> q[j].1 >= max_depth,
    decreases q.len(),
{
    if q.len() > 0 && q[0].1 >= max_depth {
        lemma_expanded_below_depth(q.drop_first(), max_depth);
        assert forall|j: int| 0 <= j < first_expandable(q, max_depth) implies q[j].1 >= max_depth by {
            if j > 0 {
                assert(q[j] == q.drop_first()[j - 1]);
            }
        }
    }
}

/// No node is reached twice: the neighbours absorbing edges reports as new
/// were not visited before, so no node is fetched or queued a second time.
pub proof fn lemma_fresh_neighbors_unvisited(
    seen: Seq<u128>,
    visited: Seq<u128>,
    current: u128,
    edges: Seq<EdgeLink>,
    n: u128,
)
    requires
        edges.len() <= usize::MAX,
        absorb_spec(seen, visited, current, edges).1.no_duplicates(),
        absorb_spec(seen, visited, current, edges).3.contains(n),
    ensures
        !visited.contains(n),
{
    lemma_absorb_visited_grows(seen, visited, current, edges);
    let s = absorb_spec(seen, visited, current, edges);
    let k = choose|k: int| 0 <= k < s.3.len() && s.3[k] == n;
    if visited.contains(n) {
        let j = choose|j: int| 0 <= j < visited.len() && visited[j] == n;
        assert(s.1[j] == n);
        assert(s.1[visited.len() + k] == n);
    }
}

/// An edge of the memory knowledge graph. The weight is held as the bit
/// pattern of its `f64` value; times as RFC 3339 text.
#[derive(Debug, PartialEq)]
pub struct GraphEdge {
    pub id: u128,
    pub store_id: u128,
    pub tenant_id: String,
    pub source_memory_id: u128,
    pub target_memory_id: u128,
    pub relation_type: String,
    pub weight: u64,
    pub metadata: Json,
    pub created_at: String,
}

/// What a traversal reached: the entries it visited and the edges it
/// followed.
#[derive(Debug, PartialEq)]
pub struct GraphTraversalResult {
    pub nodes: Vec<MemoryEntry>,
    pub edges: Vec<GraphEdge>,
}

/// Request to create a graph edge.
#[derive(Debug, PartialEq)]
pub struct CreateEdgeRequest {
    pub source_memory_id: u128,
    pub target_memory_id: u128,
    pub relation_type: String,
    pub weight: u64,
    pub metadata: Json,
}

/// The edge a create request makes under the authenticated tenant.
pub fn new_edge(request: CreateEdgeRequest, tenant_id: &str, store_id: u128, id: u128, now: String) -> (e:
    GraphEdge)
    ensures
        e.id == id,
        e.store_id == store_id,
        e.tenant_id@ == tenant_id@,
        e.source_memory_id == request.source_memory_id,
        e.target_memory_id == request.target_memory_id,
        e.relation_type == request.relation_type,
        e.weight == request.weight,
        e.metadata == request.metadata,
        e.created_at == now,
{
    GraphEdge {
        id,
        store_id,
        tenant_id: tenant_id.to_owned(),
        source_memory_id: request.source_memory_id,
        target_memory_id: request.target_memory_id,
        relation_type: request.relation_type,
        weight: request.weight,
        metadata: request.metadata,
        created_at: now,
    }
}

} // verus!
