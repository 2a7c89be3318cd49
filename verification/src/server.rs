//! Request-context decisions of the HTTP service: which tenant and agent a
//! request acts for, which store a path names, and the JSON error bodies.
use crate::error::{error_body_text, error_payload, OmsError};
use crate::ids::{parse_result_view, parse_uuid_text, spec_parse_uuid};
use crate::json::{pair_views, string_members, string_object};
use crate::store::{CreateStoreRequest, StoreConfig};
use crate::text::{is_blank_spec, str_eq, trim, trim_spec};
use vstd::prelude::*;

verus! {

broadcast use vstd::string::group_string_axioms;

/// The tenant a request acts for when it names none and default tenant
/// resolution is on.
pub const DEFAULT_TENANT: &'static str = "_default";

/// The store alias that names a tenant's default store.
pub const DEFAULT_STORE_ALIAS: &'static str = "_default";

/// Switches for optional service features.
#[derive(Debug, Clone, Copy, PartialEq, Eq)]
pub struct ServerConfig {
    /// Enable the `_default` store alias and provisioning of that store on
    /// first use.
    pub auto_provision: bool,
    /// Resolve requests without an `X-Tenant-ID` header to the default
    /// tenant.
    pub default_tenant: bool,
}

impl Default for ServerConfig {
    fn default() -> (c: Self)
        ensures
            c.auto_provision,
            c.default_tenant,
    {
        ServerConfig { auto_provision: true, default_tenant: true }
    }
}

/// The tenant a request acts for.
#[derive(Debug, PartialEq, Eq)]
pub struct TenantId(pub String);

/// Why a request has no tenant.
#[derive(Debug, PartialEq, Eq)]
pub struct TenantIdRejection(pub &'static str);

/// The agent a request acts as.
#[derive(Debug, PartialEq, Eq)]
pub struct AgentId(pub String);

/// Why a request has no agent.
#[derive(Debug, PartialEq, Eq)]
pub struct AgentIdRejection(pub &'static str);

/// A request body read as JSON.
#[derive(Debug, PartialEq, Eq)]
pub struct JsonBody<T>(pub T);

/// A value read from the request path.
#[derive(Debug, PartialEq, Eq)]
pub struct PathId<T>(pub T);

/// A header's value trimmed, when that leaves anything.
pub open spec fn header_text(header: Option<&str>) -> Option<Seq<char>> {
    match header {
        Some(h) => if trim_spec(h@).len() > 0 {
            Some(trim_spec(h@))
        } else {
            None
        },
        None => None,
    }
}

/// A header's value trimmed, when that leaves anything.
fn trimmed_header(header: Option<&str>) -> (r: Option<String>)
    ensures
        match r {
            Some(s) => header_text(header) == Some(s@),
            None => header_text(header) is None,
        },
{
    match header {
        Some(h) => {
            let t = trim(h);
            if !t.as_str().is_empty() {
                Some(t)
            } else {
                None
            }
        },
        None => None,
    }
}

/// The tenant of a request from its `X-Tenant-ID` header (the header's
/// text, `None` when absent or not visible ASCII): the trimmed value when
/// it is not blank; otherwise the default tenant when that is enabled, and
/// a rejection when it is not.
pub fn resolve_tenant(header: Option<&str>, config: &ServerConfig) -> (r: Result<
    TenantId,
    TenantIdRejection,
>)
    ensures
        header_text(header) is Some ==> r is Ok && r->Ok_0.0@ == header_text(header)->0,
        header_text(header) is None && config.default_tenant ==> r is Ok && r->Ok_0.0@
            == DEFAULT_TENANT@,
        header_text(header) is None && !config.default_tenant ==> r is Err && r->Err_0.0@
            == "X-Tenant-ID header is required"@,
{
    match trimmed_header(header) {
        Some(t) => Ok(TenantId(t)),
        None => if config.default_tenant {
            Ok(TenantId(DEFAULT_TENANT.to_owned()))
        } else {
            Err(TenantIdRejection("X-Tenant-ID header is required"))
        },
    }
}

/// The agent of a request from its `X-Agent-ID` header: the trimmed value,
/// which must not be blank.
pub fn resolve_agent(header: Option<&str>) -> (r: Result<AgentId, AgentIdRejection>)
    ensures
        header_text(header) is Some ==> r is Ok && r->Ok_0.0@ == header_text(header)->0,
        header_text(header) is None ==> r is Err && r->Err_0.0@
            == "X-Agent-ID header is required"@,
{
    match trimmed_header(header) {
        Some(t) => Ok(AgentId(t)),
        None => Err(AgentIdRejection("X-Agent-ID header is required")),
    }
}

/// A store named in a path: a concrete id, or the `_default` alias.
#[derive(Debug, Clone, Copy, PartialEq, Eq)]
pub enum StoreRef {
    Id(u128),
    Default,
}

/// Reads a store reference: the alias `_default`, or a UUID; otherwise the
/// UUID parser's error text.
pub fn parse_store_ref(s: &str) -> (r: Result<StoreRef, String>)
    ensures
        s@ == DEFAULT_STORE_ALIAS@ ==> r == Ok::<StoreRef, String>(StoreRef::Default),
        s@ != DEFAULT_STORE_ALIAS@ ==> match spec_parse_uuid(s@) {
            Ok(v) => r == Ok::<StoreRef, String>(StoreRef::Id(v)),
            Err(e) => r is Err && r->Err_0@ == e,
        },
{
    if str_eq(s, DEFAULT_STORE_ALIAS) {
        Ok(StoreRef::Default)
    } else {
        match parse_uuid_text(s) {
            Ok(v) => Ok(StoreRef::Id(v)),
            Err(e) => Err(e),
        }
    }
}

/// How a store reference resolves: to a known id, or to the default store,
/// which is fetched or created from the given request.
pub enum StoreResolution {
    Known(u128),
    Provision(CreateStoreRequest),
}

/// Resolves a store reference. The alias resolves only when provisioning is
/// enabled, to the tenant's store named `_default`, created on demand with
/// no region, the default config and no metadata.
pub fn resolve_store_ref(store_ref: &StoreRef, config: &ServerConfig) -> (r: Result<
    StoreResolution,
    OmsError,
>)
    ensures
        match *store_ref {
            StoreRef::Id(id) => r matches Ok(StoreResolution::Known(k)) && k == id,
            StoreRef::Default => if config.auto_provision {
                r matches Ok(StoreResolution::Provision(req)) && req.name@ == DEFAULT_STORE_ALIAS@
                    && req.region is None && req.config.default_ttl_seconds is None
                    && req.config.default_sharing_policy is None
                    && req.config.embedding_model is None && req.metadata@.len() == 0
            } else {
                r is Err && r->Err_0 is InvalidInput && error_payload(r->Err_0)
                    == "_default store alias is disabled; create a store explicitly"@
            },
        },
{
    match store_ref {
        StoreRef::Id(id) => Ok(StoreResolution::Known(*id)),
        StoreRef::Default => {
            if !config.auto_provision {
                return Err(
                    OmsError::InvalidInput(
                        "_default store alias is disabled; create a store explicitly".to_owned(),
                    ),
                );
            }
            Ok(
                StoreResolution::Provision(
                    CreateStoreRequest {
                        name: DEFAULT_STORE_ALIAS.to_owned(),
                        region: None,
                        config: StoreConfig::default(),
                        metadata: Vec::new(),
                    },
                ),
            )
        },
    }
}

/// The JSON body of an error response: `{"error": message}`.
pub fn error_body(message: &str) -> (b: String)
    ensures
        b@ == seq!['{'] + string_members(seq![("error"@, message@)]) + seq!['}'],
{
    let pairs = vec![("error".to_owned(), message.to_owned())];
    let b = string_object(&pairs);
    proof {
        assert(pair_views(pairs@) =~= seq![("error"@, message@)]);
    }
    b
}

/// Internal errors are never disclosed: whatever two internal errors say,
/// clients are answered with the same text.
pub proof fn lemma_internal_errors_hidden(a: String, b: String)
    ensures
        error_body_text(OmsError::Internal(a)) == error_body_text(OmsError::Internal(b)),
        error_body_text(OmsError::Internal(a)) == "internal server error"@,
{
}

} // verus!
