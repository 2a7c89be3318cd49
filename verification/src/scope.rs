//! Hierarchical memory scopes, provenance, and access control records.
use crate::model::AccessPolicy;
use crate::text::{copy_opt, copy_strings, opt_view, owned};
use vstd::prelude::*;

verus! {

/// Hierarchical scope controlling memory visibility:
/// tenant > org > team > project > user > agent > session > run.
/// `tenant_id` is the hard isolation boundary.
#[derive(Debug, PartialEq, Eq)]
pub struct MemoryScope {
    pub tenant_id: String,
    pub org_id: Option<String>,
    pub team_id: Option<String>,
    pub project_id: Option<String>,
    pub user_id: Option<String>,
    pub agent_id: Option<String>,
    pub session_id: Option<String>,
    pub run_id: Option<String>,
}

impl Default for MemoryScope {
    fn default() -> (s: Self)
        ensures
            s.tenant_id@ == Seq::<char>::empty(),
            s.org_id is None,
            s.team_id is None,
            s.project_id is None,
            s.user_id is None,
            s.agent_id is None,
            s.session_id is None,
            s.run_id is None,
    {
        MemoryScope {
            tenant_id: String::new(),
            org_id: None,
            team_id: None,
            project_id: None,
            user_id: None,
            agent_id: None,
            session_id: None,
            run_id: None,
        }
    }
}

/// The levels below the tenant, from broadest to narrowest.
pub open spec fn sub_tenant_levels(s: MemoryScope) -> Seq<Option<String>> {
    seq![s.org_id, s.team_id, s.project_id, s.user_id, s.agent_id, s.session_id, s.run_id]
}

/// Whether the scope names any level below the tenant.
pub open spec fn names_sub_tenant_level(s: MemoryScope) -> bool {
    s.org_id is Some || s.team_id is Some || s.project_id is Some || s.user_id is Some
        || s.agent_id is Some || s.session_id is Some || s.run_id is Some
}

/// An optional text as an SQL `COALESCE(x, '')` sees it: absent is empty.
pub open spec fn coalesce(o: Option<String>) -> Seq<char> {
    match o {
        Some(s) => s@,
        None => Seq::empty(),
    }
}

/// Whether two scopes are the same once every absent level is read as the
/// empty text, which is how an upsert matches an existing entry's scope.
pub open spec fn same_upsert_scope(a: MemoryScope, b: MemoryScope) -> bool {
    &&& a.tenant_id@ == b.tenant_id@
    &&& coalesce(a.org_id) == coalesce(b.org_id)
    &&& coalesce(a.team_id) == coalesce(b.team_id)
    &&& coalesce(a.project_id) == coalesce(b.project_id)
    &&& coalesce(a.user_id) == coalesce(b.user_id)
    &&& coalesce(a.agent_id) == coalesce(b.agent_id)
    &&& coalesce(a.session_id) == coalesce(b.session_id)
    &&& coalesce(a.run_id) == coalesce(b.run_id)
}

/// Whether `a` and `b` hold the same text for every level.
pub open spec fn same_scope(a: MemoryScope, b: MemoryScope) -> bool {
    &&& a.tenant_id@ == b.tenant_id@
    &&& opt_view(a.org_id) == opt_view(b.org_id)
    &&& opt_view(a.team_id) == opt_view(b.team_id)
    &&& opt_view(a.project_id) == opt_view(b.project_id)
    &&& opt_view(a.user_id) == opt_view(b.user_id)
    &&& opt_view(a.agent_id) == opt_view(b.agent_id)
    &&& opt_view(a.session_id) == opt_view(b.session_id)
    &&& opt_view(a.run_id) == opt_view(b.run_id)
}


impl MemoryScope {
    /// The same scope with its tenant replaced by the authenticated tenant.
    pub fn normalize(self, tenant_id: &str) -> (r: Self)
        ensures
            r.tenant_id@ == tenant_id@,
            r.org_id == self.org_id,
            r.team_id == self.team_id,
            r.project_id == self.project_id,
            r.user_id == self.user_id,
            r.agent_id == self.agent_id,
            r.session_id == self.session_id,
            r.run_id == self.run_id,
    {
        let mut s = self;
        s.tenant_id = owned(tenant_id);
        s
    }

    /// A copy of this scope.
    pub fn copy(&self) -> (r: Self)
        ensures
            r == *self,
    {
        MemoryScope {
            tenant_id: self.tenant_id.clone(),
            org_id: copy_opt(&self.org_id),
            team_id: copy_opt(&self.team_id),
            project_id: copy_opt(&self.project_id),
            user_id: copy_opt(&self.user_id),
            agent_id: copy_opt(&self.agent_id),
            session_id: copy_opt(&self.session_id),
            run_id: copy_opt(&self.run_id),
        }
    }

    /// Whether the scope names any level below the tenant.
    pub fn has_sub_tenant_level(&self) -> (b: bool)
        ensures
            b == names_sub_tenant_level(*self),
    {
        self.org_id.is_some() || self.team_id.is_some() || self.project_id.is_some()
            || self.user_id.is_some() || self.agent_id.is_some() || self.session_id.is_some()
            || self.run_id.is_some()
    }
}

/// Where a memory came from.
#[derive(Debug, PartialEq, Eq)]
pub struct SourceReference {
    pub conversation_id: Option<String>,
    pub document_id: Option<String>,
    pub uri: Option<String>,
}

impl SourceReference {
    /// A copy of this reference.
    pub fn copy(&self) -> (r: Self)
        ensures
            r == *self,
    {
        SourceReference {
            conversation_id: copy_opt(&self.conversation_id),
            document_id: copy_opt(&self.document_id),
            uri: copy_opt(&self.uri),
        }
    }
}

/// The access control record carried by every memory.
#[derive(Debug, PartialEq, Eq)]
pub struct AccessControl {
    pub policy: AccessPolicy,
    pub allowed_agents: Option<Vec<String>>,
    pub allowed_scopes: Option<Vec<String>>,
}

impl Default for AccessControl {
    fn default() -> (a: Self)
        ensures
            a.policy == AccessPolicy::Private,
            a.allowed_agents is None,
            a.allowed_scopes is None,
    {
        AccessControl { policy: AccessPolicy::Private, allowed_agents: None, allowed_scopes: None }
    }
}

impl AccessControl {
    /// A copy of this record.
    pub fn copy(&self) -> (r: Self)
        ensures
            r.policy == self.policy,
            r.allowed_agents.is_some() == self.allowed_agents.is_some(),
            r.allowed_agents is Some ==> r.allowed_agents->0@ == self.allowed_agents->0@,
            r.allowed_scopes.is_some() == self.allowed_scopes.is_some(),
            r.allowed_scopes is Some ==> r.allowed_scopes->0@ == self.allowed_scopes->0@,
    {
        AccessControl {
            policy: self.policy,
            allowed_agents: match &self.allowed_agents {
                Some(v) => Some(copy_strings(v)),
                None => None,
            },
            allowed_scopes: match &self.allowed_scopes {
                Some(v) => Some(copy_strings(v)),
                None => None,
            },
        }
    }
}

} // verus!
