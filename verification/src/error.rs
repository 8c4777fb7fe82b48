use vstd::prelude::*;

verus! {

/// Failure modes of the revision log and the services around it.
#[derive(Clone, Copy, Debug, PartialEq, Eq, Structural)]
pub enum ServiceError {
    /// The entity or the revision asked for is absent.
    NotFound,
    /// The caller's concurrency token is stale, or the requested lifecycle
    /// transition is not allowed from the current head.
    Conflict,
    /// A field of the proposed snapshot failed validation.
    BadRequest,
    /// The head revision of an entity can never be redacted.
    CannotHideLatestRevision,
    /// A supplied previous revision belongs to a different owner than the
    /// request's target, which indicates a defect in the caller.
    Internal,
    /// A one-time password or recovery code did not match.
    InvalidAuthentication,
    /// A one-time password could not be computed from the stored secret.
    Otp,
}

} // verus!
