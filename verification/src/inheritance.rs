//! Parent-child memory inheritance between agents, and bubbling a child's
//! memories up to its parent.
//!
//! A bubbled copy records its source in its provenance URI
//! (`bubble_up:<source id>`), which is how a later bubble-up recognises the
//! sources it already copied.
use crate::entry::{CreateMemoryRequest, MemoryEntry};
use crate::error::{error_payload, OmsError};
use crate::graph::contains_id;
use crate::ids::{parse_result_view, parse_uuid_text, parsed_uuid, spec_parse_uuid, uuid_text,
    uuid_to_string};
use crate::json::{pair_views, string_members, string_object, Json};
use crate::model::{layer_text, InheritanceAccess, MemoryLayer};
use crate::scope::{AccessControl, MemoryScope, SourceReference};
use crate::search::layer_texts;
use crate::sql::{like_binds, like_conds, opt_list, push_like_filters};
use crate::text::{concat2, concat3, join, join_spec, opt_view, repeat_join, repeat_join_str,
    str_eq, strip_prefix, strip_prefix_spec, views};
use vstd::prelude::*;

verus! {

broadcast use vstd::string::group_string_axioms;

/// Which of a child's memories a parent inherits. Times are RFC 3339 text.
#[derive(Debug, PartialEq, Eq)]
pub struct InheritanceFilter {
    pub tags: Option<Vec<String>>,
    pub categories: Option<Vec<String>>,
    pub max_entries: Option<u32>,
    pub time_from: Option<String>,
    pub time_to: Option<String>,
}

impl Default for InheritanceFilter {
    fn default() -> (f: Self)
        ensures
            f.tags is None,
            f.categories is None,
            f.max_entries is None,
            f.time_from is None,
            f.time_to is None,
    {
        InheritanceFilter { tags: None, categories: None, max_entries: None, time_from: None, time_to: None }
    }
}

/// Whether and which memories a child may bubble up to its parent.
#[derive(Debug, PartialEq, Eq)]
pub struct BubbleUpConfig {
    pub enabled: bool,
    pub auto_summarize: bool,
    pub layers: Vec<MemoryLayer>,
}

impl Default for BubbleUpConfig {
    fn default() -> (c: Self)
        ensures
            !c.enabled,
            !c.auto_summarize,
            c.layers@.len() == 0,
    {
        BubbleUpConfig { enabled: false, auto_summarize: false, layers: Vec::new() }
    }
}

/// A parent-child memory inheritance relationship.
#[derive(Debug, PartialEq, Eq)]
pub struct InheritanceSpec {
    pub id: u128,
    pub store_id: u128,
    pub tenant_id: String,
    pub parent_agent_id: String,
    pub child_agent_id: String,
    pub inherit_layers: Vec<MemoryLayer>,
    pub filter: InheritanceFilter,
    pub access: InheritanceAccess,
    pub bubble_up: BubbleUpConfig,
    pub created_at: String,
}

/// Request to create an inheritance relationship.
#[derive(Debug, PartialEq, Eq)]
pub struct CreateInheritanceRequest {
    pub parent_agent_id: String,
    pub child_agent_id: String,
    pub inherit_layers: Vec<MemoryLayer>,
    pub filter: InheritanceFilter,
    pub access: InheritanceAccess,
    pub bubble_up: BubbleUpConfig,
}

/// Request to bubble a child's memories up to its parent.
#[derive(Debug, PartialEq)]
pub struct BubbleUpRequest {
    pub child_agent_id: String,
    pub parent_agent_id: String,
    /// Optional summary to store as a new memory in the parent's scope.
    pub summary: Option<Json>,
    /// Which layers to copy from child to parent.
    pub layers: Vec<MemoryLayer>,
}

/// The relationship a create request makes under the authenticated tenant.
/// An agent cannot inherit from itself.
pub fn new_inheritance(
    request: CreateInheritanceRequest,
    tenant_id: &str,
    store_id: u128,
    id: u128,
    now: String,
) -> (r: Result<InheritanceSpec, OmsError>)
    ensures
        r is Err <==> request.parent_agent_id@ == request.child_agent_id@,
        r is Err ==> r->Err_0 is InvalidInput && error_payload(r->Err_0)
            == "parent_agent_id and child_agent_id must be different"@,
        r is Ok ==> {
            let s = r->Ok_0;
            &&& s.id == id
            &&& s.store_id == store_id
            &&& s.tenant_id@ == tenant_id@
            &&& s.parent_agent_id == request.parent_agent_id
            &&& s.child_agent_id == request.child_agent_id
            &&& s.inherit_layers == request.inherit_layers
            &&& s.filter == request.filter
            &&& s.access == request.access
            &&& s.bubble_up == request.bubble_up
            &&& s.created_at == now
        },
{
    if str_eq(request.parent_agent_id.as_str(), request.child_agent_id.as_str()) {
        return Err(
            OmsError::InvalidInput("parent_agent_id and child_agent_id must be different".to_owned()),
        );
    }
    Ok(
        InheritanceSpec {
            id,
            store_id,
            tenant_id: tenant_id.to_owned(),
            parent_agent_id: request.parent_agent_id,
            child_agent_id: request.child_agent_id,
            inherit_layers: request.inherit_layers,
            filter: request.filter,
            access: request.access,
            bubble_up: request.bubble_up,
            created_at: now,
        },
    )
}

/// The audit details of a new relationship, as JSON text with sorted keys.
pub fn inheritance_details(spec: &InheritanceSpec) -> (d: String)
    ensures
        d@ == seq!['{'] + string_members(
            seq![
                ("child_agent_id"@, spec.child_agent_id@),
                ("entity"@, "inheritance"@),
                ("inheritance_id"@, uuid_text(spec.id)),
                ("parent_agent_id"@, spec.parent_agent_id@),
            ],
        ) + seq!['}'],
{
    let pairs = vec![
        ("child_agent_id".to_owned(), spec.child_agent_id.clone()),
        ("entity".to_owned(), "inheritance".to_owned()),
        ("inheritance_id".to_owned(), uuid_to_string(spec.id)),
        ("parent_agent_id".to_owned(), spec.parent_agent_id.clone()),
    ];
    let d = string_object(&pairs);
    proof {
        assert(pair_views(pairs@) =~= seq![
            ("child_agent_id"@, spec.child_agent_id@),
            ("entity"@, "inheritance"@),
            ("inheritance_id"@, uuid_text(spec.id)),
            ("parent_agent_id"@, spec.parent_agent_id@),
        ]);
    }
    d
}

/// The outcome of deleting a relationship, given how many rows went.
pub fn inheritance_delete_outcome(inheritance_id: u128, rows_affected: u64) -> (r: Result<
    (),
    OmsError,
>)
    ensures
        rows_affected == 0 ==> r is Err && r->Err_0 is InvalidInput && error_payload(r->Err_0)
            == "inheritance not found: "@ + uuid_text(inheritance_id),
        rows_affected != 0 ==> r is Ok,
{
    if rows_affected == 0 {
        let id = uuid_to_string(inheritance_id);
        Err(OmsError::InvalidInput(concat2("inheritance not found: ", id.as_str())))
    } else {
        Ok(())
    }
}

/// The error for a bubble-up between agents with no relationship.
pub fn inheritance_not_found(parent_agent_id: &str, child_agent_id: &str) -> (e: OmsError)
    ensures
        e is InvalidInput,
        error_payload(e) == "inheritance not found for parent "@ + parent_agent_id@
            + " and child "@ + child_agent_id@,
{
    let head = concat3("inheritance not found for parent ", parent_agent_id, " and child ");
    OmsError::InvalidInput(concat2(head.as_str(), child_agent_id))
}

/// Refuses a bubble-up the relationship does not enable.
pub fn check_bubble_up_enabled(spec: &InheritanceSpec) -> (r: Result<(), OmsError>)
    ensures
        spec.bubble_up.enabled ==> r is Ok,
        !spec.bubble_up.enabled ==> r is Err && r->Err_0 is InvalidInput && error_payload(r->Err_0)
            == "bubble up is not enabled for this inheritance"@,
{
    if spec.bubble_up.enabled {
        Ok(())
    } else {
        Err(OmsError::InvalidInput("bubble up is not enabled for this inheritance".to_owned()))
    }
}

/// The layers of `s` that `allowed` holds, in order.
pub open spec fn retained(s: Seq<MemoryLayer>, allowed: Seq<MemoryLayer>) -> Seq<MemoryLayer>
    decreases s.len(),
{
    if s.len() == 0 {
        Seq::empty()
    } else {
        let r = retained(s.drop_last(), allowed);
        if allowed.contains(s.last()) {
            r.push(s.last())
        } else {
            r
        }
    }
}

/// `s` narrowed to `allowed`, unless `allowed` is empty.
pub open spec fn narrowed(s: Seq<MemoryLayer>, allowed: Seq<MemoryLayer>) -> Seq<MemoryLayer> {
    if allowed.len() == 0 {
        s
    } else {
        retained(s, allowed)
    }
}

/// The layers a bubble-up copies: those the request names, else those the
/// bubble-up configuration names, else the inherited layers; narrowed to
/// the inherited layers and to the bubble-up layers, where those are set.
pub open spec fn bubble_layers_spec(
    requested: Seq<MemoryLayer>,
    inherit: Seq<MemoryLayer>,
    bubble: Seq<MemoryLayer>,
) -> Seq<MemoryLayer> {
    let base = if requested.len() == 0 {
        if bubble.len() == 0 {
            inherit
        } else {
            bubble
        }
    } else {
        requested
    };
    narrowed(narrowed(base, inherit), bubble)
}

/// Whether `v` holds `l`.
fn layer_in(l: MemoryLayer, v: &Vec<MemoryLayer>) -> (b: bool)
    ensures
        b == v@.contains(l),
{
    let mut i: usize = 0;
    while i < v.len()
        invariant
            0 <= i <= v.len(),
            forall|j: int| 0 <= j < i ==> v@[j] != l,
        decreases v.len() - i,
    {
        if v[i] == l {
            return true;
        }
        i = i + 1;
    }
    false
}

/// `s` narrowed to `allowed`, unless `allowed` is empty.
fn narrow(s: Vec<MemoryLayer>, allowed: &Vec<MemoryLayer>) -> (r: Vec<MemoryLayer>)
    ensures
        r@ == narrowed(s@, allowed@),
{
    if allowed.len() == 0 {
        return s;
    }
    let mut r: Vec<MemoryLayer> = Vec::new();
    let mut i: usize = 0;
    while i < s.len()
        invariant
            0 <= i <= s.len(),
            allowed@.len() > 0,
            r@ == retained(s@.take(i as int), allowed@),
        decreases s.len() - i,
    {
        let l = s[i];
        proof {
            assert(s@.take(i + 1).drop_last() == s@.take(i as int));
            assert(s@.take(i + 1).last() == l);
        }
        if layer_in(l, allowed) {
            r.push(l);
        }
        i = i + 1;
    }
    proof {
        assert(s@.take(s@.len() as int) == s@);
    }
    r
}

/// A copy of a list of layers.
fn copy_layers(v: &Vec<MemoryLayer>) -> (r: Vec<MemoryLayer>)
    ensures
        r@ == v@,
{
    let mut r: Vec<MemoryLayer> = Vec::new();
    let mut i: usize = 0;
    while i < v.len()
        invariant
            0 <= i <= v.len(),
            r@ == v@.take(i as int),
        decreases v.len() - i,
    {
        r.push(v[i]);
        proof {
            assert(v@.take(i + 1) == v@.take(i as int).push(v@[i as int]));
        }
        i = i + 1;
    }
    proof {
        assert(v@.take(v@.len() as int) == v@);
    }
    r
}

/// The layers a bubble-up copies.
pub fn bubble_layers(request: &BubbleUpRequest, spec: &InheritanceSpec) -> (r: Vec<MemoryLayer>)
    ensures
        r@ == bubble_layers_spec(request.layers@, spec.inherit_layers@, spec.bubble_up.layers@),
{
    let base = if request.layers.len() == 0 {
        if spec.bubble_up.layers.len() == 0 {
            copy_layers(&spec.inherit_layers)
        } else {
            copy_layers(&spec.bubble_up.layers)
        }
    } else {
        copy_layers(&request.layers)
    };
    let r = narrow(base, &spec.inherit_layers);
    narrow(r, &spec.bubble_up.layers)
}

/// Narrowing only removes layers: each layer kept was in the list.
pub proof fn lemma_narrowed_within(s: Seq<MemoryLayer>, allowed: Seq<MemoryLayer>)
    ensures
        forall|l: MemoryLayer| #[trigger] narrowed(s, allowed).contains(l) ==> s.contains(l),
        forall|l: MemoryLayer|
            allowed.len() > 0 && #[trigger] narrowed(s, allowed).contains(l) ==> allowed.contains(l),
    decreases s.len(),
{
    if allowed.len() > 0 {
        lemma_retained_within(s, allowed);
    }
}

/// Every layer [`retained`] keeps is in both lists.
proof fn lemma_retained_within(s: Seq<MemoryLayer>, allowed: Seq<MemoryLayer>)
    ensures
        forall|l: MemoryLayer| #[trigger] retained(s, allowed).contains(l) ==> s.contains(l)
            && allowed.contains(l),
    decreases s.len(),
{
    if s.len() > 0 {
        lemma_retained_within(s.drop_last(), allowed);
        let r = retained(s.drop_last(), allowed);
        assert forall|l: MemoryLayer| #[trigger] retained(s, allowed).contains(l) implies s.contains(
            l,
        ) && allowed.contains(l) by {
            if r.contains(l) {
                let j = choose|j: int| 0 <= j < r.len() && r[j] == l;
                assert(s.drop_last().contains(l));
                let k = choose|k: int| 0 <= k < s.drop_last().len() && s.drop_last()[k] == l;
                assert(s[k] == l);
            } else {
                let rs = retained(s, allowed);
                let j = choose|j: int| 0 <= j < rs.len() && rs[j] == l;
                assert(allowed.contains(s.last()));
                assert(rs == r.push(s.last()));
                assert(l == s.last());
                assert(s[s.len() - 1] == l);
            }
        }
    }
}

/// A bubble-up never copies a layer the relationship does not let through:
/// every layer it copies is inherited (when inherited layers are set) and
/// enabled for bubbling up (when bubble-up layers are set).
pub proof fn lemma_bubble_layers_allowed(
    requested: Seq<MemoryLayer>,
    inherit: Seq<MemoryLayer>,
    bubble: Seq<MemoryLayer>,
    l: MemoryLayer,
)
    requires
        bubble_layers_spec(requested, inherit, bubble).contains(l),
    ensures
        inherit.len() > 0 ==> inherit.contains(l),
        bubble.len() > 0 ==> bubble.contains(l),
{
    let base = if requested.len() == 0 {
        if bubble.len() == 0 {
            inherit
        } else {
            bubble
        }
    } else {
        requested
    };
    lemma_narrowed_within(narrowed(base, inherit), bubble);
    lemma_narrowed_within(base, inherit);
    assert(narrowed(base, inherit).contains(l));
}

/// Every layer in both lists is kept by [`retained`].
proof fn lemma_retained_keeps(s: Seq<MemoryLayer>, allowed: Seq<MemoryLayer>, l: MemoryLayer)
    requires
        s.contains(l),
        allowed.contains(l),
    ensures
        retained(s, allowed).contains(l),
    decreases s.len(),
{
    let r = retained(s.drop_last(), allowed);
    if s.last() == l {
        assert(retained(s, allowed) == r.push(l));
        assert(retained(s, allowed)[r.len() as int] == l);
    } else {
        let k = choose|k: int| 0 <= k < s.len() && s[k] == l;
        assert(k < s.len() - 1);
        assert(s.drop_last()[k] == l);
        lemma_retained_keeps(s.drop_last(), allowed, l);
        let j = choose|j: int| 0 <= j < r.len() && r[j] == l;
        if allowed.contains(s.last()) {
            assert(retained(s, allowed) == r.push(s.last()));
            assert(retained(s, allowed)[j] == l);
        }
    }
}

/// A layer survives narrowing exactly when it is in the list and, when the
/// allowed layers are set, among them.
proof fn lemma_narrowed_members(s: Seq<MemoryLayer>, allowed: Seq<MemoryLayer>, l: MemoryLayer)
    ensures
        narrowed(s, allowed).contains(l) <==> s.contains(l) && (allowed.len() == 0
            || allowed.contains(l)),
{
    lemma_narrowed_within(s, allowed);
    if s.contains(l) && allowed.len() > 0 && allowed.contains(l) {
        lemma_retained_keeps(s, allowed, l);
    }
}

/// Which layers a bubble-up copies, layer by layer: when the request names
/// layers, exactly the requested layers that the relationship lets through
/// (inherited, where inherited layers are set, and enabled for bubbling up,
/// where bubble-up layers are set); when it names none, exactly the
/// configured bubble-up layers that are inherited; and when neither names
/// any, exactly the inherited layers. The configuration only ever narrows
/// the request.
pub proof fn lemma_bubble_layers_members(
    requested: Seq<MemoryLayer>,
    inherit: Seq<MemoryLayer>,
    bubble: Seq<MemoryLayer>,
    l: MemoryLayer,
)
    ensures
        requested.len() > 0 ==> (bubble_layers_spec(requested, inherit, bubble).contains(l) <==> (
        requested.contains(l) && (inherit.len() == 0 || inherit.contains(l)) && (bubble.len() == 0
            || bubble.contains(l)))),
        requested.len() == 0 && bubble.len() > 0 ==> (bubble_layers_spec(
            requested,
            inherit,
            bubble,
        ).contains(l) <==> (bubble.contains(l) && (inherit.len() == 0 || inherit.contains(l)))),
        requested.len() == 0 && bubble.len() == 0 ==> (bubble_layers_spec(
            requested,
            inherit,
            bubble,
        ).contains(l) <==> inherit.contains(l)),
{
    let base = if requested.len() == 0 {
        if bubble.len() == 0 {
            inherit
        } else {
            bubble
        }
    } else {
        requested
    };
    lemma_narrowed_members(base, inherit, l);
    lemma_narrowed_members(narrowed(base, inherit), bubble, l);
    assert(bubble_layers_spec(requested, inherit, bubble) == narrowed(narrowed(base, inherit), bubble));
}

/// The condition on the creation time a bound of the filter sets.
pub open spec fn time_conds(cond: Seq<char>, bound: Option<String>) -> Seq<Seq<char>> {
    if bound is Some {
        seq![cond]
    } else {
        Seq::empty()
    }
}

/// The bind value of a time bound, when it is set.
pub open spec fn time_binds(bound: Option<String>) -> Seq<Seq<char>> {
    match bound {
        Some(t) => seq![t@],
        None => Seq::empty(),
    }
}

/// The conditions selecting a child's memories to bubble up: store, tenant
/// and owner, the layers, each tag and category of the filter, and its
/// time bounds.
pub open spec fn bubble_conds(n_layers: nat, f: InheritanceFilter) -> Seq<Seq<char>> {
    seq![
        "store_id = ?"@,
        "tenant_id = ?"@,
        "owner_agent_id = ?"@,
        "layer IN ("@ + repeat_join(n_layers, "?"@, ","@) + ")"@,
    ] + like_conds(Seq::empty(), "tags_json"@, opt_list(f.tags).len()) + like_conds(
        Seq::empty(),
        "categories_json"@,
        opt_list(f.categories).len(),
    ) + time_conds("created_at >= ?"@, f.time_from) + time_conds("created_at <= ?"@, f.time_to)
}

/// The bind values of [`bubble_conds`], in the same order.
pub open spec fn bubble_binds(
    store_id: u128,
    tenant_id: Seq<char>,
    child: Seq<char>,
    layers: Seq<MemoryLayer>,
    f: InheritanceFilter,
) -> Seq<Seq<char>> {
    seq![uuid_text(store_id), tenant_id, child] + layer_texts(layers) + like_binds(opt_list(f.tags))
        + like_binds(opt_list(f.categories)) + time_binds(f.time_from) + time_binds(f.time_to)
}

/// The query for the child memories a bubble-up considers: newest first,
/// at most the filter's `max_entries` (100 when unset).
pub struct BubbleSourceQuery {
    pub sql: String,
    pub binds: Vec<String>,
    pub limit: i64,
}

/// Builds the query for a bubble-up's source memories.
#[verifier::spinoff_prover]
#[verifier::rlimit(50)]
pub fn bubble_source_query(
    tenant_id: &str,
    store_id: u128,
    child_agent_id: &str,
    layers: &Vec<MemoryLayer>,
    filter: &InheritanceFilter,
) -> (q: BubbleSourceQuery)
    ensures
        q.sql@ == "SELECT * FROM memories WHERE "@ + join_spec(
            bubble_conds(layers@.len(), *filter),
            " AND "@,
        ) + " ORDER BY created_at DESC LIMIT ?"@,
        views(q.binds@) == bubble_binds(store_id, tenant_id@, child_agent_id@, layers@, *filter),
        q.limit == (match filter.max_entries {
            Some(m) => m as i64,
            None => 100,
        }),
{
    let placeholders = repeat_join_str(layers.len(), "?", ",");
    let mut conds: Vec<String> = vec![
        "store_id = ?".to_owned(),
        "tenant_id = ?".to_owned(),
        "owner_agent_id = ?".to_owned(),
        concat3("layer IN (", placeholders.as_str(), ")"),
    ];
    let mut binds: Vec<String> = vec![
        uuid_to_string(store_id),
        tenant_id.to_owned(),
        child_agent_id.to_owned(),
    ];
    let ghost c0 = seq![
        "store_id = ?"@,
        "tenant_id = ?"@,
        "owner_agent_id = ?"@,
        "layer IN ("@ + repeat_join(layers@.len(), "?"@, ","@) + ")"@,
    ];
    let ghost b0 = seq![uuid_text(store_id), tenant_id@, child_agent_id@];
    proof {
        assert(views(conds@) =~= c0);
        assert(views(binds@) =~= b0);
    }
    let mut i: usize = 0;
    while i < layers.len()
        invariant
            0 <= i <= layers.len(),
            views(conds@) == c0,
            views(binds@) == b0 + layer_texts(layers@.take(i as int)),
        decreases layers.len() - i,
    {
        let ghost bb = views(binds@);
        binds.push(layers[i].to_string());
        proof {
            assert(views(binds@) =~= bb.push(layer_text(layers@[i as int])));
            assert(layer_texts(layers@.take(i + 1)) =~= layer_texts(layers@.take(i as int)).push(
                layer_text(layers@[i as int]),
            ));
        }
        i = i + 1;
    }
    proof {
        assert(layers@.take(layers@.len() as int) == layers@);
        reveal_strlit("");
        assert(""@ =~= Seq::<char>::empty());
    }
    let ghost c1 = views(conds@);
    let ghost b1 = views(binds@);
    push_like_filters(&mut conds, &mut binds, "", "tags_json", &filter.tags);
    push_like_filters(&mut conds, &mut binds, "", "categories_json", &filter.categories);
    let ghost c2 = views(conds@);
    let ghost b2 = views(binds@);
    if let Some(t) = &filter.time_from {
        conds.push("created_at >= ?".to_owned());
        binds.push(t.clone());
    }
    let ghost c3 = views(conds@);
    let ghost b3 = views(binds@);
    proof {
        assert(c3 =~= c2 + time_conds("created_at >= ?"@, filter.time_from));
        assert(b3 =~= b2 + time_binds(filter.time_from));
    }
    if let Some(t) = &filter.time_to {
        conds.push("created_at <= ?".to_owned());
        binds.push(t.clone());
    }
    proof {
        assert(views(conds@) =~= c3 + time_conds("created_at <= ?"@, filter.time_to));
        assert(views(binds@) =~= b3 + time_binds(filter.time_to));
        assert(views(conds@) =~= bubble_conds(layers@.len(), *filter));
        assert(views(binds@) =~= bubble_binds(
            store_id,
            tenant_id@,
            child_agent_id@,
            layers@,
            *filter,
        ));
    }
    let where_clause = join(&conds, " AND ");
    let sql = concat3(
        "SELECT * FROM memories WHERE ",
        where_clause.as_str(),
        " ORDER BY created_at DESC LIMIT ?",
    );
    let limit: i64 = match filter.max_entries {
        Some(m) => m as i64,
        None => 100,
    };
    BubbleSourceQuery { sql, binds, limit }
}

/// The source a provenance URI names, when it is a bubble-up URI holding a
/// valid UUID.
pub open spec fn bubbled_source(uri: Seq<char>) -> Option<u128> {
    match strip_prefix_spec(uri, "bubble_up:"@) {
        Some(rest) => match spec_parse_uuid(rest) {
            Ok(v) => Some(v),
            Err(_) => None,
        },
        None => None,
    }
}

/// Reads the source id out of a bubble-up provenance URI.
pub fn bubbled_source_id(uri: &str) -> (r: Option<u128>)
    ensures
        r == bubbled_source(uri@),
{
    match strip_prefix(uri, "bubble_up:") {
        Some(rest) => match parse_uuid_text(rest.as_str()) {
            Ok(v) => Some(v),
            Err(_) => None,
        },
        None => None,
    }
}

/// The provenance URI of a copy of `source_id`; reading it back gives
/// `source_id`.
pub fn bubble_uri(source_id: u128) -> (r: String)
    ensures
        r@ == "bubble_up:"@ + uuid_text(source_id),
        bubbled_source(r@) == Some(source_id),
{
    let id = uuid_to_string(source_id);
    let r = concat2("bubble_up:", id.as_str());
    proof {
        reveal_strlit("bubble_up:");
        assert(r@.take(10) =~= "bubble_up:"@);
        assert(r@.skip(10) =~= id@);
    }
    r
}

/// The sources a parent's memories say were already bubbled up, read from
/// their provenance URIs in order; URIs of any other form are skipped.
pub open spec fn bubbled_sources(uris: Seq<Seq<char>>) -> Seq<u128>
    decreases uris.len(),
{
    if uris.len() == 0 {
        Seq::empty()
    } else {
        let r = bubbled_sources(uris.drop_last());
        match bubbled_source(uris.last()) {
            Some(v) => r.push(v),
            None => r,
        }
    }
}

/// Collects the already bubbled sources from provenance URIs.
pub fn already_bubbled(uris: &Vec<String>) -> (r: Vec<u128>)
    ensures
        r@ == bubbled_sources(views(uris@)),
{
    let mut r: Vec<u128> = Vec::new();
    let mut i: usize = 0;
    while i < uris.len()
        invariant
            0 <= i <= uris.len(),
            r@ == bubbled_sources(views(uris@.take(i as int))),
        decreases uris.len() - i,
    {
        proof {
            assert(views(uris@.take(i + 1)).drop_last() =~= views(uris@.take(i as int)));
            assert(views(uris@.take(i + 1)).last() == uris@[i as int]@);
        }
        match bubbled_source_id(uris[i].as_str()) {
            Some(v) => r.push(v),
            None => {},
        }
        i = i + 1;
    }
    proof {
        assert(uris@.take(uris@.len() as int) == uris@);
    }
    r
}

/// Whether `r` is the request that copies `source` into the parent's scope:
/// everything of the source, owned by the parent, in the source's scope with
/// the agent level set to the parent and the session and run levels
/// cleared, and with provenance naming the source.
pub open spec fn is_bubble_copy(r: CreateMemoryRequest, source: MemoryEntry, parent: Seq<char>) -> bool {
    &&& r.layer == source.layer
    &&& r.content == source.content
    &&& r.embedding == source.embedding
    &&& r.owner_agent_id@ == parent
    &&& r.scope.tenant_id == source.scope.tenant_id
    &&& r.scope.org_id == source.scope.org_id
    &&& r.scope.team_id == source.scope.team_id
    &&& r.scope.project_id == source.scope.project_id
    &&& r.scope.user_id == source.scope.user_id
    &&& opt_view(r.scope.agent_id) == Some(parent)
    &&& r.scope.session_id is None
    &&& r.scope.run_id is None
    &&& r.tags == source.tags
    &&& r.categories == source.categories
    &&& r.source is Some
    &&& r.source->0.conversation_id is None
    &&& r.source->0.document_id is None
    &&& opt_view(r.source->0.uri) == Some("bubble_up:"@ + uuid_text(source.id))
    &&& r.access_control == source.access_control
    &&& r.expires_at == source.expires_at
    &&& r.immutable == source.immutable
    &&& r.valid_from == source.valid_from
    &&& r.valid_until == source.valid_until
    &&& r.confidence == source.confidence
    &&& r.entity_type == source.entity_type
    &&& r.upsert_key == source.upsert_key
}

/// The request that copies one child memory to the parent, or nothing when
/// the memory was already bubbled up to that parent.
pub fn bubble_copy(source: MemoryEntry, already: &Vec<u128>, parent_agent_id: &str) -> (r: Option<
    CreateMemoryRequest,
>)
    ensures
        r is None <==> already@.contains(source.id),
        r is Some ==> is_bubble_copy(r->0, source, parent_agent_id@),
{
    if contains_id(already, source.id) {
        return None;
    }
    let uri = bubble_uri(source.id);
    let scope = MemoryScope {
        tenant_id: source.scope.tenant_id,
        org_id: source.scope.org_id,
        team_id: source.scope.team_id,
        project_id: source.scope.project_id,
        user_id: source.scope.user_id,
        agent_id: Some(parent_agent_id.to_owned()),
        session_id: None,
        run_id: None,
    };
    Some(
        CreateMemoryRequest {
            layer: source.layer,
            content: source.content,
            embedding: source.embedding,
            owner_agent_id: parent_agent_id.to_owned(),
            scope,
            tags: source.tags,
            categories: source.categories,
            source: Some(SourceReference { conversation_id: None, document_id: None, uri: Some(uri) }),
            access_control: source.access_control,
            expires_at: source.expires_at,
            immutable: source.immutable,
            valid_from: source.valid_from,
            valid_until: source.valid_until,
            confidence: source.confidence,
            entity_type: source.entity_type,
            upsert_key: source.upsert_key,
        },
    )
}

/// The request that stores a bubble-up's summary with the parent: in the
/// first copied layer (working when there is none), owned by and scoped to
/// the parent under the tenant, tagged `bubble_up` and `summary`, filed
/// under `summary`, with default access and nothing else set.
pub fn summary_request(
    summary: Json,
    layers: &Vec<MemoryLayer>,
    parent_agent_id: &str,
    tenant_id: &str,
) -> (r: CreateMemoryRequest)
    ensures
        r.layer == (if layers@.len() > 0 {
            layers@[0]
        } else {
            MemoryLayer::Working
        }),
        r.content == summary,
        r.embedding is None,
        r.owner_agent_id@ == parent_agent_id@,
        r.scope.tenant_id@ == tenant_id@,
        r.scope.org_id is None,
        r.scope.team_id is None,
        r.scope.project_id is None,
        r.scope.user_id is None,
        opt_view(r.scope.agent_id) == Some(parent_agent_id@),
        r.scope.session_id is None,
        r.scope.run_id is None,
        views(r.tags@) == seq!["bubble_up"@, "summary"@],
        views(r.categories@) == seq!["summary"@],
        r.source is None,
        r.access_control.policy == crate::model::AccessPolicy::Private,
        r.access_control.allowed_agents is None,
        r.access_control.allowed_scopes is None,
        r.expires_at is None,
        !r.immutable,
        r.valid_from is None,
        r.valid_until is None,
        r.confidence is None,
        r.entity_type is None,
        r.upsert_key is None,
{
    let layer = if layers.len() > 0 {
        layers[0]
    } else {
        MemoryLayer::Working
    };
    let tags = vec!["bubble_up".to_owned(), "summary".to_owned()];
    let categories = vec!["summary".to_owned()];
    proof {
        assert(views(tags@) =~= seq!["bubble_up"@, "summary"@]);
        assert(views(categories@) =~= seq!["summary"@]);
    }
    CreateMemoryRequest {
        layer,
        content: summary,
        embedding: None,
        owner_agent_id: parent_agent_id.to_owned(),
        scope: MemoryScope {
            tenant_id: tenant_id.to_owned(),
            org_id: None,
            team_id: None,
            project_id: None,
            user_id: None,
            agent_id: Some(parent_agent_id.to_owned()),
            session_id: None,
            run_id: None,
        },
        tags,
        categories,
        source: None,
        access_control: AccessControl::default(),
        expires_at: None,
        immutable: false,
        valid_from: None,
        valid_until: None,
        confidence: None,
        entity_type: None,
        upsert_key: None,
    }
}

/// A memory bubbled up once is not bubbled up again: when the parent's
/// provenance URIs include a copy's URI (which reads back as its source, as
/// [`bubble_uri`] ensures), the source is among the already bubbled ones,
/// so [`bubble_copy`] makes no second copy of it.
pub proof fn lemma_bubble_up_not_repeated(uris: Seq<Seq<char>>, source_id: u128, k: int)
    requires
        0 <= k < uris.len(),
        bubbled_source(uris[k]) == Some(source_id),
    ensures
        bubbled_sources(uris).contains(source_id),
    decreases uris.len(),
{
    if k == uris.len() - 1 {
        let r = bubbled_sources(uris.drop_last());
        assert(bubbled_sources(uris) == r.push(source_id));
        assert(bubbled_sources(uris)[r.len() as int] == source_id);
    } else {
        assert(uris.drop_last()[k] == uris[k]);
        lemma_bubble_up_not_repeated(uris.drop_last(), source_id, k);
        let r = bubbled_sources(uris.drop_last());
        let j = choose|j: int| 0 <= j < r.len() && r[j] == source_id;
        match bubbled_source(uris.last()) {
            Some(v) => {
                assert(bubbled_sources(uris) == r.push(v));
                assert(bubbled_sources(uris)[j] == source_id);
            },
            None => {},
        }
    }
}

} // verus!
