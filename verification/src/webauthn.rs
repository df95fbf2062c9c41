//! The boundary to the external passkey verifier (webauthn-rs) and to the
//! relying-party configuration. The verifier issues challenges and ceremony
//! contexts and validates signed responses; all of that is cryptographic work
//! delegated to it, so its types are carried through opaquely and every call
//! crosses this boundary through one trusted wrapper.

use vstd::prelude::*;

use url::Url;
use uuid::Uuid;
use webauthn_rs::prelude::{
    CreationChallengeResponse, Passkey, PasskeyAuthentication, PasskeyRegistration,
    PublicKeyCredential, RegisterPublicKeyCredential, RequestChallengeResponse,
};
use webauthn_rs::{Webauthn, WebauthnBuilder};

verus! {

#[verifier::external_type_specification]
#[verifier::external_body]
pub struct ExUrl(Url);

#[verifier::external_type_specification]
#[verifier::external_body]
pub struct ExWebauthn(Webauthn);

#[verifier::external_type_specification]
#[verifier::external_body]
pub struct ExPasskey(Passkey);

#[verifier::external_type_specification]
#[verifier::external_body]
pub struct ExPasskeyRegistration(PasskeyRegistration);

#[verifier::external_type_specification]
#[verifier::external_body]
pub struct ExPasskeyAuthentication(PasskeyAuthentication);

#[verifier::external_type_specification]
#[verifier::external_body]
pub struct ExCreationChallengeResponse(CreationChallengeResponse);

#[verifier::external_type_specification]
#[verifier::external_body]
pub struct ExRequestChallengeResponse(RequestChallengeResponse);

#[verifier::external_type_specification]
#[verifier::external_body]
pub struct ExRegisterPublicKeyCredential(RegisterPublicKeyCredential);

#[verifier::external_type_specification]
#[verifier::external_body]
pub struct ExPublicKeyCredential(PublicKeyCredential);

/// Relies on `url::Url::parse` to build the relying-party origin URL; the
/// origin is carried through opaquely.
#[verifier::external_body]
pub(crate) fn parse_origin(url: &String) -> (r: Option<Url>) {
    Url::parse(url.as_str()).ok()
}

/// Relies on `WebauthnBuilder::new`, `WebauthnBuilder::rp_name` and
/// `WebauthnBuilder::build`: `new` validates that the origin's domain matches
/// the relying-party id, and `build` assembles the verifier for that relying
/// party.
#[verifier::external_body]
pub(crate) fn build_webauthn(rp_id: &str, rp_name: &str, origin: &Url) -> (r: Option<Webauthn>) {
    match WebauthnBuilder::new(rp_id, origin) {
        Ok(builder) => builder.rp_name(rp_name).build().ok(),
        Err(_) => None,
    }
}

/// Relies on `uuid::Uuid::new_v4` for a fresh random identity identifier;
/// nothing is promised of the drawn value.
#[verifier::external_body]
pub(crate) fn fresh_id() -> (r: u128) {
    Uuid::new_v4().as_u128()
}

/// Relies on `Webauthn::start_passkey_registration`: it draws a random
/// challenge and returns it with the matching registration context, or
/// refuses the request; both are opaque to this library.
#[verifier::external_body]
pub(crate) fn begin_registration(webauthn: &Webauthn, user_id: u128, username: &String) -> (r:
    Option<(CreationChallengeResponse, PasskeyRegistration)>) {
    webauthn
        .start_passkey_registration(
            Uuid::from_u128(user_id),
            username.as_str(),
            username.as_str(),
            None,
        )
        .ok()
}

/// Relies on `Webauthn::finish_passkey_registration`: it validates the signed
/// attestation response against the stored registration context and returns
/// the verified credential record exactly when validation succeeds.
#[verifier::external_body]
pub(crate) fn verify_registration(
    webauthn: &Webauthn,
    credential: &RegisterPublicKeyCredential,
    context: &PasskeyRegistration,
) -> (r: Option<Passkey>) {
    webauthn.finish_passkey_registration(credential, context).ok()
}

/// Relies on `Webauthn::start_passkey_authentication`, scoped to exactly the
/// one enrolled passkey: it draws a random challenge and returns it with the
/// matching authentication context, or refuses the request.
#[verifier::external_body]
pub(crate) fn begin_authentication(webauthn: &Webauthn, passkey: &Passkey) -> (r: Option<
    (RequestChallengeResponse, PasskeyAuthentication),
>) {
    webauthn.start_passkey_authentication(core::slice::from_ref(passkey)).ok()
}

/// Relies on `Webauthn::finish_passkey_authentication`: it validates the
/// signed assertion against the stored authentication context and reports
/// whether the ceremony succeeded.
#[verifier::external_body]
pub(crate) fn verify_authentication(
    webauthn: &Webauthn,
    credential: &PublicKeyCredential,
    context: &PasskeyAuthentication,
) -> (r: bool) {
    webauthn.finish_passkey_authentication(credential, context).is_ok()
}

} // verus!
