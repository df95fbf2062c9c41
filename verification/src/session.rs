//! Per-session ceremony progress: a sum type with exactly one active variant,
//! consumed on read so that a finish request matches at most once.

use vstd::prelude::*;

use crate::error::{Error, ErrorKind};

verus! {

/// How far a single session has come in a ceremony. The two in-flight
/// variants carry the verifier-issued ceremony context for their flow; a
/// finish handler accepts only the matching variant and rejects every other.
pub enum CeremonyState<R, A> {
    /// Initial state: no ceremony in flight.
    Anonymous,
    /// Terminal success state of a finished ceremony.
    Authenticated,
    /// A login ceremony is in flight; holds the authentication context.
    Authenticating(A),
    /// An enrollment ceremony is in flight; holds the registration context.
    Registering(R),
}

impl<R, A> Default for CeremonyState<R, A> {
    /// A session that was never touched is anonymous.
    fn default() -> (s: Self)
        ensures
            s is Anonymous,
    {
        CeremonyState::Anonymous
    }
}

/// The record persisted per session: ceremony progress plus the identity the
/// in-flight ceremony is bound to.
pub struct SessionRecord<R, A> {
    pub state: CeremonyState<R, A>,
    pub user_id: Option<u128>,
}

impl<R, A> Default for SessionRecord<R, A> {
    /// A missing session record reads as an anonymous, unbound one.
    fn default() -> (s: Self)
        ensures
            s.state is Anonymous,
            s.user_id is None,
    {
        SessionRecord { state: CeremonyState::Anonymous, user_id: None }
    }
}

impl<R, A> SessionRecord<R, A> {
    /// Consume the record for a registration finish: hand out the registration
    /// context and the bound identity exactly when a registration is in
    /// flight, and reject every other state.
    pub fn take_registering(self) -> (r: Result<(R, Option<u128>), Error>)
        ensures
            self.state matches CeremonyState::Registering(ctx) ==> (r matches Ok(p) && p.0
                == ctx && p.1 == self.user_id),
            !(self.state is Registering) ==> (r matches Err(e) && e.kind
                == ErrorKind::InvalidSessionState),
    {
        match self.state {
            CeremonyState::Registering(ctx) => Ok((ctx, self.user_id)),
            _ => Err(Error::new(ErrorKind::InvalidSessionState, "invalid session state")),
        }
    }

    /// Consume the record for an authentication finish: hand out the
    /// authentication context and the bound identity exactly when a login is
    /// in flight, and reject every other state.
    pub fn take_authenticating(self) -> (r: Result<(A, Option<u128>), Error>)
        ensures
            self.state matches CeremonyState::Authenticating(ctx) ==> (r matches Ok(p) && p.0
                == ctx && p.1 == self.user_id),
            !(self.state is Authenticating) ==> (r matches Err(e) && e.kind
                == ErrorKind::InvalidSessionState),
    {
        match self.state {
            CeremonyState::Authenticating(ctx) => Ok((ctx, self.user_id)),
            _ => Err(Error::new(ErrorKind::InvalidSessionState, "invalid session state")),
        }
    }
}

} // verus!
