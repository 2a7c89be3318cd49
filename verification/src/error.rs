//! The service's error vocabulary, its messages, and its HTTP rendering.
use crate::text::{concat2, contains_spec, contains_str, owned, str_eq};
use vstd::prelude::*;

verus! {

/// Every way an operation of the service can fail.
#[derive(Debug)]
pub enum OmsError {
    StoreNotFound(String),
    MemoryNotFound(String),
    InheritanceNotFound(String),
    SpaceNotFound(String),
    NotFound(String),
    TenantRequired,
    Unauthorized(String),
    Forbidden(String),
    Conflict(String),
    ConstraintViolation(String),
    Immutable(String),
    InvalidInput(String),
    NotImplemented(String),
    Internal(String),
}

/// The text an error is displayed as.
pub open spec fn error_text(e: OmsError) -> Seq<char> {
    match e {
        OmsError::StoreNotFound(s) => "store not found: "@ + s@,
        OmsError::MemoryNotFound(s) => "memory not found: "@ + s@,
        OmsError::InheritanceNotFound(s) => "inheritance not found: "@ + s@,
        OmsError::SpaceNotFound(s) => "shared space not found: "@ + s@,
        OmsError::NotFound(s) => "not found: "@ + s@,
        OmsError::TenantRequired => "tenant required"@,
        OmsError::Unauthorized(s) => "unauthorized: "@ + s@,
        OmsError::Forbidden(s) => "forbidden: "@ + s@,
        OmsError::Conflict(s) => "conflict: "@ + s@,
        OmsError::ConstraintViolation(s) => "constraint violation: "@ + s@,
        OmsError::Immutable(s) => "immutable entry cannot be modified: "@ + s@,
        OmsError::InvalidInput(s) => "invalid input: "@ + s@,
        OmsError::NotImplemented(s) => "not implemented: "@ + s@,
        OmsError::Internal(s) => "internal error: "@ + s@,
    }
}

impl OmsError {
    /// The text this error is displayed as.
    pub fn to_string(&self) -> (r: String)
        ensures
            r@ == error_text(*self),
    {
        match self {
            OmsError::StoreNotFound(s) => concat2("store not found: ", s.as_str()),
            OmsError::MemoryNotFound(s) => concat2("memory not found: ", s.as_str()),
            OmsError::InheritanceNotFound(s) => concat2("inheritance not found: ", s.as_str()),
            OmsError::SpaceNotFound(s) => concat2("shared space not found: ", s.as_str()),
            OmsError::NotFound(s) => concat2("not found: ", s.as_str()),
            OmsError::TenantRequired => owned("tenant required"),
            OmsError::Unauthorized(s) => concat2("unauthorized: ", s.as_str()),
            OmsError::Forbidden(s) => concat2("forbidden: ", s.as_str()),
            OmsError::Conflict(s) => concat2("conflict: ", s.as_str()),
            OmsError::ConstraintViolation(s) => concat2("constraint violation: ", s.as_str()),
            OmsError::Immutable(s) => concat2("immutable entry cannot be modified: ", s.as_str()),
            OmsError::InvalidInput(s) => concat2("invalid input: ", s.as_str()),
            OmsError::NotImplemented(s) => concat2("not implemented: ", s.as_str()),
            OmsError::Internal(s) => concat2("internal error: ", s.as_str()),
        }
    }
}

/// An error on its way to becoming an HTTP response.
pub struct ApiError(pub OmsError);

impl From<OmsError> for ApiError {
    fn from(err: OmsError) -> (r: Self) {
        ApiError(err)
    }
}

impl vstd::std_specs::convert::FromSpecImpl<OmsError> for ApiError {
    open spec fn obeys_from_spec() -> bool {
        true
    }

    open spec fn from_spec(v: OmsError) -> Self {
        ApiError(v)
    }
}

/// The HTTP status an error is answered with.
pub open spec fn error_status(e: OmsError) -> u16 {
    match e {
        OmsError::StoreNotFound(_) => 404,
        OmsError::MemoryNotFound(_) => 404,
        OmsError::InheritanceNotFound(_) => 404,
        OmsError::SpaceNotFound(_) => 404,
        OmsError::NotFound(_) => 404,
        OmsError::TenantRequired => 401,
        OmsError::Unauthorized(_) => 401,
        OmsError::Forbidden(_) => 403,
        OmsError::Conflict(_) => 409,
        OmsError::ConstraintViolation(_) => 409,
        OmsError::Immutable(_) => 409,
        OmsError::InvalidInput(_) => 400,
        OmsError::NotImplemented(_) => 501,
        OmsError::Internal(_) => 500,
    }
}

/// The `error` text of the JSON body an error is answered with. Internal
/// errors are not disclosed to the client.
pub open spec fn error_body_text(e: OmsError) -> Seq<char> {
    match e {
        OmsError::NotFound(s) => s@,
        OmsError::Unauthorized(s) => s@,
        OmsError::Forbidden(s) => s@,
        OmsError::Conflict(s) => s@,
        OmsError::InvalidInput(s) => s@,
        OmsError::Internal(_) => "internal server error"@,
        _ => error_text(e),
    }
}

impl ApiError {
    /// The HTTP status and the `error` text of the response for this error.
    pub fn status_and_message(&self) -> (r: (u16, String))
        ensures
            r.0 == error_status(self.0),
            r.1@ == error_body_text(self.0),
    {
        let status = match &self.0 {
            OmsError::StoreNotFound(_) => 404u16,
            OmsError::MemoryNotFound(_) => 404,
            OmsError::InheritanceNotFound(_) => 404,
            OmsError::SpaceNotFound(_) => 404,
            OmsError::NotFound(_) => 404,
            OmsError::TenantRequired => 401,
            OmsError::Unauthorized(_) => 401,
            OmsError::Forbidden(_) => 403,
            OmsError::Conflict(_) => 409,
            OmsError::ConstraintViolation(_) => 409,
            OmsError::Immutable(_) => 409,
            OmsError::InvalidInput(_) => 400,
            OmsError::NotImplemented(_) => 501,
            OmsError::Internal(_) => 500,
        };
        let message = match &self.0 {
            OmsError::NotFound(s) => s.clone(),
            OmsError::Unauthorized(s) => s.clone(),
            OmsError::Forbidden(s) => s.clone(),
            OmsError::Conflict(s) => s.clone(),
            OmsError::InvalidInput(s) => s.clone(),
            OmsError::Internal(_) => owned("internal server error"),
            _ => self.0.to_string(),
        };
        (status, message)
    }
}

/// What a failed database call reports, as plain values.
pub struct DbFailure {
    /// The database's error code, when the failure came from the database.
    pub code: Option<String>,
    /// The database's own message, when the failure came from the database.
    pub message: Option<String>,
    /// How the database error displays, when the failure came from the database.
    pub db_display: Option<String>,
    /// How the whole failure displays.
    pub display: String,
}

/// Whether a database error code marks a uniqueness or constraint failure.
pub open spec fn is_constraint_code(code: Seq<char>) -> bool {
    code == "2067"@ || code == "1555"@ || code == "19"@
}

/// Whether a failed database call counts as a constraint failure: known by
/// its code, or by a `UNIQUE constraint failed` message.
pub open spec fn is_constraint_failure(f: DbFailure) -> bool {
    ||| (f.code is Some && f.db_display is Some && is_constraint_code(f.code->0@))
    ||| (f.message is Some && f.db_display is Some && contains_spec(
        f.message->0@,
        "UNIQUE constraint failed"@,
    ))
}

/// The text the error of a failed database call carries.
pub open spec fn db_error_text(context: Seq<char>, f: DbFailure) -> Seq<char> {
    if f.code is Some && f.db_display is Some && is_constraint_code(f.code->0@) {
        context + ": "@ + f.db_display->0@
    } else if is_constraint_failure(f) {
        context + ": "@ + f.message->0@
    } else {
        context + ": "@ + f.display@
    }
}

/// The variant of an error, as a number.
pub open spec fn error_kind(e: OmsError) -> int {
    match e {
        OmsError::StoreNotFound(_) => 0,
        OmsError::MemoryNotFound(_) => 1,
        OmsError::InheritanceNotFound(_) => 2,
        OmsError::SpaceNotFound(_) => 3,
        OmsError::NotFound(_) => 4,
        OmsError::TenantRequired => 5,
        OmsError::Unauthorized(_) => 6,
        OmsError::Forbidden(_) => 7,
        OmsError::Conflict(_) => 8,
        OmsError::ConstraintViolation(_) => 9,
        OmsError::Immutable(_) => 10,
        OmsError::InvalidInput(_) => 11,
        OmsError::NotImplemented(_) => 12,
        OmsError::Internal(_) => 13,
    }
}

/// The error a failed database call becomes.
pub fn map_db_error(context: &str, failure: &DbFailure) -> (e: OmsError)
    ensures
        is_constraint_failure(*failure) ==> e is ConstraintViolation,
        !is_constraint_failure(*failure) ==> e is Internal,
        error_payload(e) == db_error_text(context@, *failure),
{
    if let (Some(code), Some(db_display)) = (&failure.code, &failure.db_display) {
        if str_eq(code.as_str(), "2067") || str_eq(code.as_str(), "1555") || str_eq(
            code.as_str(),
            "19",
        ) {
            let head = concat2(context, ": ");
            return OmsError::ConstraintViolation(concat2(head.as_str(), db_display.as_str()));
        }
    }
    if let (Some(message), Some(_)) = (&failure.message, &failure.db_display) {
        if contains_str(message.as_str(), "UNIQUE constraint failed") {
            let head = concat2(context, ": ");
            return OmsError::ConstraintViolation(concat2(head.as_str(), message.as_str()));
        }
    }
    let head = concat2(context, ": ");
    OmsError::Internal(concat2(head.as_str(), failure.display.as_str()))
}

/// The text an error carries, if any.
pub open spec fn error_payload(e: OmsError) -> Seq<char> {
    match e {
        OmsError::StoreNotFound(s) => s@,
        OmsError::MemoryNotFound(s) => s@,
        OmsError::InheritanceNotFound(s) => s@,
        OmsError::SpaceNotFound(s) => s@,
        OmsError::NotFound(s) => s@,
        OmsError::TenantRequired => Seq::empty(),
        OmsError::Unauthorized(s) => s@,
        OmsError::Forbidden(s) => s@,
        OmsError::Conflict(s) => s@,
        OmsError::ConstraintViolation(s) => s@,
        OmsError::Immutable(s) => s@,
        OmsError::InvalidInput(s) => s@,
        OmsError::NotImplemented(s) => s@,
        OmsError::Internal(s) => s@,
    }
}

} // verus!
