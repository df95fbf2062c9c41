//! The request and response bodies of the four ceremony endpoints. Challenges
//! and credentials are the external verifier's types, carried through
//! opaquely; everything else is plain data.

use vstd::prelude::*;

use webauthn_rs::prelude::{
    CreationChallengeResponse, PublicKeyCredential, RegisterPublicKeyCredential,
    RequestChallengeResponse,
};

verus! {

pub struct StartRegistrationRequest {
    pub username: String,
}

pub struct StartRegistrationResponse {
    pub challenge: CreationChallengeResponse,
    pub user_id: u128,
}

pub struct FinishRegistrationRequest {
    pub credential: RegisterPublicKeyCredential,
}

pub struct FinishRegistrationResponse {
    pub success: bool,
}

pub struct StartAuthenticationRequest {
    pub username: String,
}

pub struct StartAuthenticationResponse {
    pub challenge: RequestChallengeResponse,
}

pub struct FinishAuthenticationRequest {
    pub credential: PublicKeyCredential,
}

pub struct FinishAuthenticationResponse {
    pub user_id: u128,
}

} // verus!
