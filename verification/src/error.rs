//! The error taxonomy of the reconciliation core, and the classification of
//! remote controller response statuses into it.

use vstd::prelude::*;
use crate::text::spec_decimal;
use crate::text::u64_to_string;

verus! {

/// The kind of entity a remote lookup can fail to find.
#[derive(Clone, Copy, Debug, PartialEq, Eq)]
pub enum EntityKind {
    Network,
    Member,
    Peer,
}

/// Everything a reconciliation can fail with.
///
/// A missing sidecar file on read is deliberately absent here: callers
/// recover from it locally by substituting a default record.
#[derive(Debug, PartialEq, Eq)]
pub enum ApiError {
    /// The remote controller rejected the credentials; fatal, never retried.
    Unauthorized,
    /// The remote controller has no entity of this kind under this identifier.
    EntityNotFound(EntityKind, String),
    /// Any other remote failure, with a diagnostic message.
    UpstreamError(String),
    /// A local disk failure other than a missing sidecar file on read.
    LocalIoError(String),
}

/// The HTTP status code the boundary layer answers with for each error.
pub open spec fn spec_http_status(e: ApiError) -> u16 {
    match e {
        ApiError::Unauthorized => 401,
        ApiError::EntityNotFound(_, _) => 404,
        ApiError::UpstreamError(_) => 500,
        ApiError::LocalIoError(_) => 500,
    }
}

impl ApiError {
    /// Maps the error to the HTTP status code of the outward response:
    /// not-found stays not-found, an auth rejection stays an auth rejection,
    /// everything else is an internal error.
    pub fn http_status(&self) -> (s: u16)
        ensures
            s == spec_http_status(*self),
    {
        match self {
            ApiError::Unauthorized => 401,
            ApiError::EntityNotFound(_, _) => 404,
            ApiError::UpstreamError(_) => 500,
            ApiError::LocalIoError(_) => 500,
        }
    }
}

/// The diagnostic message carried by an upstream error for a response status.
pub open spec fn spec_status_message(status: nat) -> Seq<char> {
    "remote controller returned status "@ + spec_decimal(status)
}

/// Builds the diagnostic message for an unexpected response status.
pub fn status_message(status: u16) -> (r: String)
    ensures
        r@ == spec_status_message(status as nat),
{
    let mut m = String::from_str("remote controller returned status ");
    let num = u64_to_string(status as u64);
    m.append(num.as_str());
    m
}

/// Classifies the response status of a remote call that names one entity
/// (get, update or delete of a specific identifier).  A success status is no
/// error; an auth-rejection status is `Unauthorized`; a not-found status
/// names the entity that was asked for, never a generic upstream error; any
/// other status is an upstream error carrying the status in its message.
pub fn classify_entity_status(status: u16, kind: EntityKind, id: &str) -> (r: Option<ApiError>)
    ensures
        (r is None) <==> (200 <= status < 300),
        status == 401 ==> r == Some(ApiError::Unauthorized),
        status == 404 ==> (r matches Some(e) && e matches ApiError::EntityNotFound(k, i) && k
            == kind && i@ == id@),
        (!(200 <= status < 300) && status != 401 && status != 404) ==> (r matches Some(e) && e
            matches ApiError::UpstreamError(m) && m@ == spec_status_message(status as nat)),
{
    if 200 <= status && status < 300 {
        None
    } else if status == 401 {
        Some(ApiError::Unauthorized)
    } else if status == 404 {
        Some(ApiError::EntityNotFound(kind, String::from_str(id)))
    } else {
        Some(ApiError::UpstreamError(status_message(status)))
    }
}

/// Classifies the response status of a remote call that names no single
/// entity (a list, a status probe, a creation).  As above, but a not-found
/// status is just another upstream error here.
pub fn classify_status(status: u16) -> (r: Option<ApiError>)
    ensures
        (r is None) <==> (200 <= status < 300),
        status == 401 ==> r == Some(ApiError::Unauthorized),
        (!(200 <= status < 300) && status != 401) ==> (r matches Some(e) && e matches
            ApiError::UpstreamError(m) && m@ == spec_status_message(status as nat)),
{
    if 200 <= status && status < 300 {
        None
    } else if status == 401 {
        Some(ApiError::Unauthorized)
    } else {
        Some(ApiError::UpstreamError(status_message(status)))
    }
}

} // verus!
