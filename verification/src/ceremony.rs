//! The four ceremony handlers: registration start/finish and authentication
//! start/finish. Each handler gates on the session's ceremony state, calls
//! the external verifier exactly once, and transitions the session record and
//! the identity directory together. Failure anywhere leaves the directory
//! untouched, and a returned error carries exactly the kind the inputs force.
//!
//! A handler takes the caller's session record by value and returns the
//! successor record only on success, so a failed request never mutates the
//! session either.

use vstd::prelude::*;
use vstd::string::StringExecFns;

use webauthn_rs::prelude::{Passkey, PasskeyAuthentication, PasskeyRegistration};
use webauthn_rs::Webauthn;

use crate::api::{
    FinishAuthenticationRequest, FinishAuthenticationResponse, FinishRegistrationRequest,
    FinishRegistrationResponse, StartAuthenticationRequest, StartAuthenticationResponse,
    StartRegistrationRequest, StartRegistrationResponse,
};
use crate::directory::{passkey_set, Directory, Entry, User};
use crate::error::{Error, ErrorKind};
use crate::session::{CeremonyState, SessionRecord};
use crate::webauthn::{
    begin_authentication, begin_registration, build_webauthn, fresh_id, parse_origin,
    verify_authentication, verify_registration,
};

verus! {

/// The session record of this server: the in-flight variants carry the
/// verifier's registration and authentication contexts.
pub type ServerSession = SessionRecord<PasskeyRegistration, PasskeyAuthentication>;

/// Step of registration finish after the verifier accepted the response:
/// bind the verified credential record to the identity the session carries.
/// Exact for every value the verifier can hand back: it succeeds if and only
/// if the session carries an identity that the directory knows.
pub fn record_verified_passkey<P>(
    directory: &mut Directory<P>,
    user_id: Option<u128>,
    passkey: P,
) -> (r: Result<u128, Error>)
    requires
        old(directory).wf(),
    ensures
        final(directory).wf(),
        r matches Err(e) ==> e.kind == ErrorKind::UnknownIdentity && final(directory).rows() == old(directory).rows(),
        r is Err <==> (user_id is None || (user_id matches Some(id) && !old(directory).has_id(id))),
        r matches Ok(id) ==> user_id == Some(id) && passkey_set(
            *old(directory),
            *final(directory),
            id,
            passkey,
        ),
{
    match user_id {
        None => Err(Error::new(ErrorKind::UnknownIdentity, "user not found")),
        Some(id) => match directory.set_passkey(id, passkey) {
            Ok(_) => Ok(id),
            Err(e) => Err(e),
        },
    }
}

/// Step of authentication finish after the verifier accepted the assertion:
/// the session must carry the identity bound at authentication start. Exact:
/// it returns that identity, and fails only on a session without one.
pub fn conclude_authentication(user_id: Option<u128>) -> (r: Result<u128, Error>)
    ensures
        user_id matches Some(id) ==> (r matches Ok(rid) && rid == id),
        user_id is None ==> (r matches Err(e) && e.kind == ErrorKind::MissingUserId),
{
    match user_id {
        Some(id) => Ok(id),
        None => Err(Error::new(ErrorKind::MissingUserId, "no user id in session")),
    }
}

/// A finished ceremony cannot be repeated: a successful finish hands back a
/// session whose state is terminal, so the gating contract forces any second
/// finish on that session to be rejected — the in-flight state is consumed on
/// read.
pub proof fn lemma_finish_consumed(
    session: ServerSession,
    r: Result<(FinishRegistrationResponse, ServerSession), Error>,
)
    requires
        session.state is Authenticated,
        !(session.state is Registering) ==> (r matches Err(e) && e.kind
            == ErrorKind::InvalidSessionState),
    ensures
        r matches Err(e) && e.kind == ErrorKind::InvalidSessionState,
{
}

/// The ceremony orchestrator: holds the configured external verifier and
/// drives the four handlers against it.
pub struct App {
    webauthn: Webauthn,
}

impl App {
    /// Configure the relying party: the origin is `https://` followed by the
    /// endpoint authority, and its domain must match the relying-party id.
    pub fn new(id: &str, endpoint: &str) -> (r: Result<App, Error>)
        ensures
            r matches Err(e) ==> e.kind == ErrorKind::InvalidConfiguration,
    {
        let mut url = String::from_str("https://");
        url.append(endpoint);
        let origin = match parse_origin(&url) {
            Some(origin) => origin,
            None => {
                return Err(
                    Error::new(
                        ErrorKind::InvalidConfiguration,
                        "failed to construct rp origin url",
                    ),
                );
            },
        };
        let webauthn = match build_webauthn(id, "WebAuthn Demo", &origin) {
            Some(webauthn) => webauthn,
            None => {
                return Err(
                    Error::new(ErrorKind::InvalidConfiguration, "invalid webauthn configuration"),
                );
            },
        };
        Ok(App { webauthn })
    }

    /// Begin a registration ceremony: draw a fresh identity id, ask the
    /// verifier for a challenge and registration context, create the
    /// directory row only if the username is free, and hand back the
    /// challenge together with a session record bound to the new identity.
    /// On any failure the directory is left unchanged and no session record
    /// is produced.
    pub fn start_registration(
        &self,
        directory: &mut Directory<Passkey>,
        req: StartRegistrationRequest,
    ) -> (r: Result<(StartRegistrationResponse, ServerSession), Error>)
        requires
            old(directory).wf(),
        ensures
            final(directory).wf(),
            r matches Err(_) ==> final(directory).rows() == old(directory).rows(),
            r matches Err(e) ==> e.kind == ErrorKind::AlreadyExists || e.kind
                == ErrorKind::VerificationFailed,
            (r matches Err(e) && e.kind == ErrorKind::AlreadyExists) ==> old(directory).contains_name(req.username@),
            old(directory).contains_name(req.username@) ==> r is Err,
            r matches Ok(p) ==> !old(directory).contains_name(req.username@) && final(directory).rows() == old(directory).rows().push(
                Entry {
                    username: req.username,
                    user: User { id: p.0.user_id, passkey: None, keypkg: None },
                },
            ) && p.1.state is Registering && p.1.user_id == Some(p.0.user_id),
    {
        let user_id = fresh_id();
        let (challenge, context) = match begin_registration(&self.webauthn, user_id, &req.username) {
            Some(pair) => pair,
            None => {
                return Err(
                    Error::new(
                        ErrorKind::VerificationFailed,
                        "failed to start passkey registration",
                    ),
                );
            },
        };
        match directory.insert_new(req.username, user_id) {
            Ok(_) => {},
            Err(e) => { return Err(e) },
        }
        let session = SessionRecord {
            state: CeremonyState::Registering(context),
            user_id: Some(user_id),
        };
        Ok((StartRegistrationResponse { challenge, user_id }, session))
    }

    /// Finish a registration ceremony: the session must hold a registration
    /// in flight, the verifier must accept the signed response against the
    /// stored context, and the identity bound at start must still exist; the
    /// verified credential record is then enrolled and the session becomes
    /// authenticated. Failure anywhere leaves the directory untouched.
    pub fn finish_registration(
        &self,
        directory: &mut Directory<Passkey>,
        session: ServerSession,
        req: FinishRegistrationRequest,
    ) -> (r: Result<(FinishRegistrationResponse, ServerSession), Error>)
        requires
            old(directory).wf(),
        ensures
            final(directory).wf(),
            r matches Err(_) ==> final(directory).rows() == old(directory).rows(),
            !(session.state is Registering) ==> (r matches Err(e) && e.kind
                == ErrorKind::InvalidSessionState),
            (r matches Err(e) && e.kind == ErrorKind::InvalidSessionState) ==> !(session.state
                is Registering),
            r matches Err(e) ==> e.kind == ErrorKind::InvalidSessionState || e.kind
                == ErrorKind::VerificationFailed || e.kind == ErrorKind::UnknownIdentity,
            (r matches Err(e) && e.kind == ErrorKind::UnknownIdentity) ==> (session.user_id is None
                || (session.user_id matches Some(id) && !old(directory).has_id(id))),
            r matches Ok(p) ==> session.state is Registering && (session.user_id matches Some(id)
                && old(directory).has_id(id) && (exists|pk: Passkey|
                passkey_set(*old(directory), *final(directory), id, pk)) && p.0.success == true
                && p.1.state is Authenticated && p.1.user_id == Some(id)),
    {
        let (context, user_id) = match session.take_registering() {
            Ok(pair) => pair,
            Err(e) => { return Err(e) },
        };
        let passkey = match verify_registration(&self.webauthn, &req.credential, &context) {
            Some(passkey) => passkey,
            None => {
                return Err(
                    Error::new(
                        ErrorKind::VerificationFailed,
                        "failed to finish passkey registration",
                    ),
                );
            },
        };
        let id = match record_verified_passkey(directory, user_id, passkey) {
            Ok(id) => id,
            Err(e) => { return Err(e) },
        };
        let session = SessionRecord { state: CeremonyState::Authenticated, user_id: Some(id) };
        Ok((FinishRegistrationResponse { success: true }, session))
    }

    /// Begin an authentication ceremony: the username must be registered and
    /// enrolled; the verifier then issues a challenge scoped to exactly that
    /// one passkey, and the session is bound to the enrolled identity. The
    /// directory is never mutated, and no session record is produced on
    /// failure.
    pub fn start_authentication(
        &self,
        directory: &Directory<Passkey>,
        req: StartAuthenticationRequest,
    ) -> (r: Result<(StartAuthenticationResponse, ServerSession), Error>)
        requires
            directory.wf(),
        ensures
            r matches Err(e) ==> e.kind == ErrorKind::NoSuchUser || e.kind == ErrorKind::NotEnrolled
                || e.kind == ErrorKind::VerificationFailed,
            !directory.contains_name(req.username@) ==> (r matches Err(e) && e.kind
                == ErrorKind::NoSuchUser),
            (r matches Err(e) && e.kind == ErrorKind::NoSuchUser) ==> !directory.contains_name(
                req.username@,
            ),
            directory.contains_name(req.username@) && directory.user_of(req.username@).passkey
                is None ==> (r matches Err(e) && e.kind == ErrorKind::NotEnrolled),
            (r matches Err(e) && e.kind == ErrorKind::NotEnrolled) ==> directory.contains_name(
                req.username@,
            ) && directory.user_of(req.username@).passkey is None,
            r matches Ok(p) ==> directory.contains_name(req.username@) && directory.user_of(
                req.username@,
            ).passkey is Some && p.1.state is Authenticating && p.1.user_id == Some(
                directory.user_of(req.username@).id,
            ),
    {
        let (user_id, passkey) = match directory.auth_material(&req.username) {
            Ok(pair) => pair,
            Err(e) => { return Err(e) },
        };
        let (challenge, context) = match begin_authentication(&self.webauthn, passkey) {
            Some(pair) => pair,
            None => {
                return Err(
                    Error::new(
                        ErrorKind::VerificationFailed,
                        "failed to start passkey authentication",
                    ),
                );
            },
        };
        let session = SessionRecord {
            state: CeremonyState::Authenticating(context),
            user_id: Some(user_id),
        };
        Ok((StartAuthenticationResponse { challenge }, session))
    }

    /// Finish an authentication ceremony: the session must hold a login in
    /// flight and carry the identity bound at start, and the verifier must
    /// accept the signed assertion against the stored context; the identity
    /// is then returned and the session becomes authenticated.
    pub fn finish_authentication(
        &self,
        session: ServerSession,
        req: FinishAuthenticationRequest,
    ) -> (r: Result<(FinishAuthenticationResponse, ServerSession), Error>)
        ensures
            !(session.state is Authenticating) ==> (r matches Err(e) && e.kind
                == ErrorKind::InvalidSessionState),
            (r matches Err(e) && e.kind == ErrorKind::InvalidSessionState) ==> !(session.state
                is Authenticating),
            r matches Err(e) ==> e.kind == ErrorKind::InvalidSessionState || e.kind
                == ErrorKind::VerificationFailed || e.kind == ErrorKind::MissingUserId,
            (r matches Err(e) && e.kind == ErrorKind::MissingUserId) ==> session.state
                is Authenticating && session.user_id is None,
            r matches Ok(p) ==> session.state is Authenticating && session.user_id == Some(
                p.0.user_id,
            ) && p.1.state is Authenticated && p.1.user_id == Some(p.0.user_id),
    {
        let (context, user_id) = match session.take_authenticating() {
            Ok(pair) => pair,
            Err(e) => { return Err(e) },
        };
        if !verify_authentication(&self.webauthn, &req.credential, &context) {
            return Err(
                Error::new(ErrorKind::VerificationFailed, "failed to finish passkey authentication"),
            );
        }
        let id = match conclude_authentication(user_id) {
            Ok(id) => id,
            Err(e) => { return Err(e) },
        };
        let session = SessionRecord { state: CeremonyState::Authenticated, user_id: Some(id) };
        Ok((FinishAuthenticationResponse { user_id: id }, session))
    }
}

} // verus!
