//! The categorical status vocabulary that crosses the trust boundary, and the
//! fixed mapping from internal failure classes onto it.

use vstd::prelude::*;

verus! {

/// The categorical status codes exposed to callers; internal failures are
/// mapped onto these and never cross the boundary themselves.
#[derive(Clone, Copy, Debug, PartialEq, Eq, Structural)]
pub enum StatusCode {
    InvalidArgument,
    Unauthenticated,
    FailedPrecondition,
    Unavailable,
    Aborted,
    Unknown,
}

/// A terminal rejection: a categorical code and a generic message.
#[derive(Debug)]
pub struct Status {
    pub code: StatusCode,
    pub message: String,
}

impl Status {
    /// Builds a status from a code and a message literal.
    pub fn new(code: StatusCode, message: &str) -> (r: Status)
        ensures
            r.code == code,
            r.message@ == message@,
    {
        Status { code, message: message.to_owned() }
    }
}

/// Two statuses are externally indistinguishable when both the code and the
/// message agree.
pub open spec fn same_status(a: Status, b: Status) -> bool {
    a.code == b.code && a.message@ == b.message@
}

/// A status with exactly this code and message.
pub open spec fn status_is(st: Status, code: StatusCode, msg: Seq<char>) -> bool {
    st.code == code && st.message@ == msg
}

/// The failure classes a store operation can report.
#[derive(Clone, Copy, Debug, PartialEq, Eq, Structural)]
pub enum StoreErrorKind {
    /// A table or index the service relies on is absent: misconfiguration.
    MissingResource,
    /// The store rejected the service's own credentials: misconfiguration.
    InvalidCredentials,
    /// A transient failure; the caller may retry.
    Transient,
}

/// Whether a store error kind is a misconfiguration (not retryable).
pub open spec fn is_misconfiguration(k: StoreErrorKind) -> bool {
    k == StoreErrorKind::MissingResource || k == StoreErrorKind::InvalidCredentials
}

/// The status a store failure of kind `k` surfaces: misconfiguration is a
/// failed precondition, a transient failure is the one retryable outcome.
pub open spec fn spec_store_error_status(k: StoreErrorKind, st: Status) -> bool {
    if is_misconfiguration(k) {
        status_is(st, StatusCode::FailedPrecondition, "internal error"@)
    } else {
        status_is(st, StatusCode::Unavailable, "please retry"@)
    }
}

/// Maps a store failure onto the external vocabulary: misconfiguration
/// becomes `FailedPrecondition`, a transient failure becomes `Unavailable`
/// and is the only retryable outcome.
pub fn store_error_status(k: StoreErrorKind) -> (r: Status)
    ensures
        spec_store_error_status(k, r),
{
    match k {
        StoreErrorKind::MissingResource => Status::new(StatusCode::FailedPrecondition, "internal error"),
        StoreErrorKind::InvalidCredentials => Status::new(StatusCode::FailedPrecondition, "internal error"),
        StoreErrorKind::Transient => Status::new(StatusCode::Unavailable, "please retry"),
    }
}

} // verus!
