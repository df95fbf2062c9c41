//! The request-level failure taxonomy of the ceremony core.

use vstd::prelude::*;

verus! {

/// What went wrong with a single request. Every failure a handler can return
/// carries exactly one of these kinds, so callers can react per kind while the
/// transport layer reports only a generic failure signal.
#[derive(Clone, Copy, Debug, PartialEq, Eq, Structural)]
pub enum ErrorKind {
    /// A finish request arrived while the session held no matching in-flight
    /// ceremony.
    InvalidSessionState,
    /// Registration start for a username that is already registered.
    AlreadyExists,
    /// Authentication start for a username that was never registered.
    NoSuchUser,
    /// Authentication start for an identity without an enrolled passkey.
    NotEnrolled,
    /// Registration finish could not locate the identity bound to the session.
    UnknownIdentity,
    /// Authentication finish on a session that carries no identity.
    MissingUserId,
    /// The external verifier rejected a ceremony step.
    VerificationFailed,
    /// The relying-party origin or verifier configuration could not be built.
    InvalidConfiguration,
    /// The shared directory lock was poisoned; the single request fails.
    LockUnavailable,
}

/// A request-level failure: its kind, and a short human-readable description
/// that is logged but never sent over the wire.
#[derive(Debug)]
pub struct Error {
    pub kind: ErrorKind,
    pub message: &'static str,
}

impl Error {
    pub fn new(kind: ErrorKind, message: &'static str) -> (e: Error)
        ensures
            e.kind == kind,
            e.message@ == message@,
    {
        Error { kind, message }
    }

    /// A poisoned directory lock is surfaced as a transient server error.
    pub fn from_poison() -> (e: Error)
        ensures
            e.kind == ErrorKind::LockUnavailable,
    {
        Error { kind: ErrorKind::LockUnavailable, message: "failed to acquire lock" }
    }
}

} // verus!
