//! Deterministic derivation of a P-256 signing key from a per-device secret
//! released during a credential ceremony. The secret is extracted with
//! HKDF-SHA256 under a fixed application salt, then expanded once per round
//! with the round index and the identity bytes as context; the first candidate
//! that is nonzero and a valid private scalar yields the key. Retries are
//! bounded, and the chosen round is part of the result, so the same secret and
//! identity reproduce the same key material.

use vstd::prelude::*;

use p256::pkcs8::EncodePrivateKey;
use ring::rand::SystemRandom;
use ring::signature::{EcdsaKeyPair, ECDSA_P256_SHA256_FIXED_SIGNING};

verus! {

/// Number of expand-and-validate rounds before derivation gives up.
pub const ROUND_BOUND: u8 = 8;

/// Derivation failed: no round produced a usable key.
#[derive(Clone, Copy, Debug, PartialEq, Eq, Structural)]
pub enum KeygenError {
    /// Every round was exhausted without a valid candidate being accepted.
    Exhausted,
}

#[verifier::external_type_specification]
#[verifier::external_body]
pub struct ExEcdsaKeyPair(EcdsaKeyPair);

/// The candidate scalar bytes that HKDF-SHA256 produces for one round: a pure
/// function of the ceremony secret, the identity bytes and the round index.
pub uninterp spec fn candidate_of(secret: Seq<u8>, did: Seq<u8>, round: u8) -> Seq<u8>;

/// Whether P-256 accepts these bytes as a private scalar (canonical, nonzero,
/// below the curve order) and can encode the resulting key: a pure function
/// of the bytes.
pub uninterp spec fn valid_scalar(bytes: Seq<u8>) -> bool;

/// The all-zero candidate, rejected as a degenerate key.
pub open spec fn zero_bytes() -> Seq<u8> {
    Seq::new(32, |i: int| 0u8)
}

/// Whether the round's candidate passes both deterministic gates: it is not
/// the all-zero string and it is a valid private scalar.
pub open spec fn round_usable(secret: Seq<u8>, did: Seq<u8>, round: u8) -> bool {
    candidate_of(secret, did, round) != zero_bytes() && valid_scalar(
        candidate_of(secret, did, round),
    )
}

/// What a successful derivation guarantees: the key material is exactly the
/// candidate of one usable round below the bound.
pub open spec fn derived_from(secret: Seq<u8>, did: Seq<u8>, key: DerivedKey) -> bool {
    key.round < ROUND_BOUND && round_usable(secret, did, key.round) && key.scalar@ == candidate_of(
        secret,
        did,
        key.round,
    )
}

/// A derived signing key: the validated scalar bytes, the round that produced
/// them, and the ring key pair built from them.
pub struct DerivedKey {
    pub scalar: [u8; 32],
    pub round: u8,
    pub keypair: EcdsaKeyPair,
}

/// Relies on ring's HKDF-SHA256 (`Salt::new`, `Salt::extract`, `Prk::expand`,
/// `Okm::fill`): RFC 5869 extract-then-expand is a deterministic function of
/// the salt, the secret and the info, and expansion to 32 bytes cannot fail
/// (`expand` and `fill` reject only requests beyond 255 hash lengths or a
/// mismatched buffer). The salt is the fixed application domain string and
/// the info is ("round", round, "did", did), so the output is a function of
/// `secret`, `did` and `round` alone.
#[verifier::external_body]
fn expand_candidate(secret: &[u8], did: &[u8], round: u8) -> (r: [u8; 32])
    ensures
        r@ == candidate_of(secret@, did@, round),
{
    let salt = ring::hkdf::Salt::new(ring::hkdf::HKDF_SHA256, b"sebastianvogelsang.com-mpds-demo-v1");
    let prk = salt.extract(secret);
    let info: [&[u8]; 4] = [b"round".as_ref(), core::slice::from_ref(&round), b"did".as_ref(), did];
    let okm = prk.expand(&info, ring::hkdf::HKDF_SHA256).unwrap();
    let mut key = [0u8; 32];
    okm.fill(&mut key).unwrap();
    key
}

/// Relies on `p256::SecretKey::from_bytes` (succeeds exactly on canonical
/// nonzero scalars below the P-256 order) and
/// `p256::pkcs8::EncodePrivateKey::to_pkcs8_der` (a deterministic encoding of
/// the accepted key): both are functions of the scalar bytes alone.
#[verifier::external_body]
fn scalar_to_pkcs8(bytes: &[u8; 32]) -> (r: Option<Vec<u8>>)
    ensures
        r is Some <==> valid_scalar(bytes@),
{
    let field_bytes = p256::FieldBytes::from(*bytes);
    let key = match p256::SecretKey::from_bytes(&field_bytes) {
        Ok(key) => key,
        Err(_) => return None,
    };
    match key.to_pkcs8_der() {
        Ok(der) => Some(der.as_bytes().to_vec()),
        Err(_) => None,
    }
}

/// Relies on ring's `EcdsaKeyPair::from_pkcs8` with the fixed P-256 signing
/// algorithm: parsing and the key consistency check are deterministic in the
/// DER bytes, but the call also draws nonce material from `SystemRandom` and
/// is refused when that draw fails, so nothing is promised of which inputs
/// succeed.
#[verifier::external_body]
fn build_keypair(der: &Vec<u8>) -> (r: Option<EcdsaKeyPair>) {
    let rng = SystemRandom::new();
    EcdsaKeyPair::from_pkcs8(&ECDSA_P256_SHA256_FIXED_SIGNING, der.as_slice(), &rng).ok()
}

/// Whether the candidate is the all-zero string, i.e. a degenerate key that
/// must be rejected before scalar validation.
pub fn is_all_zero(bytes: &[u8; 32]) -> (r: bool)
    ensures
        r <==> bytes@ == zero_bytes(),
{
    let mut i: usize = 0;
    while i < 32
        invariant
            i <= 32,
            forall|j: int| 0 <= j < i ==> bytes@[j] == 0u8,
        decreases 32 - i,
    {
        if bytes[i] != 0 {
            proof {
                assert(bytes@[i as int] != 0u8);
                assert(bytes@ != zero_bytes());
            }
            return false;
        }
        i = i + 1;
    }
    proof {
        assert(bytes@ =~= zero_bytes());
    }
    true
}

/// The key-derivation component. The HKDF salt is fixed to the application
/// domain string, so derivation depends on nothing but its two inputs.
pub struct Keygen {}

impl Keygen {
    pub fn new() -> (k: Keygen) {
        Keygen {}
    }

    /// Derive a signing key from the ceremony secret `prf` and the identity
    /// bytes `did`. Each round expands a candidate and rejects it when it is
    /// all-zero or not a valid scalar; the first accepted candidate wins and
    /// the search never resumes past it, so the result is reproducible. When
    /// every round is rejected, derivation fails for good.
    pub fn generate(&self, prf: &[u8], did: &[u8]) -> (r: Result<DerivedKey, KeygenError>)
        ensures
            r matches Ok(key) ==> derived_from(prf@, did@, key),
            (forall|n: u8| n < ROUND_BOUND ==> !round_usable(prf@, did@, n)) ==> (r matches Err(e)
                && e == KeygenError::Exhausted),
    {
        let mut round: u8 = 0;
        while round < ROUND_BOUND
            invariant
                round <= ROUND_BOUND,
            decreases ROUND_BOUND - round,
        {
            let candidate = expand_candidate(prf, did, round);
            if !is_all_zero(&candidate) {
                if let Some(der) = scalar_to_pkcs8(&candidate) {
                    if let Some(keypair) = build_keypair(&der) {
                        proof {
                            assert(round_usable(prf@, did@, round));
                        }
                        return Ok(DerivedKey { scalar: candidate, round, keypair });
                    }
                }
            }
            round = round + 1;
        }
        Err(KeygenError::Exhausted)
    }
}

/// Determinism: two successful derivations from the same secret and the same
/// identity that settle on the same round carry bit-identical key material.
pub proof fn lemma_generate_deterministic(
    secret: Seq<u8>,
    did: Seq<u8>,
    k1: DerivedKey,
    k2: DerivedKey,
)
    requires
        derived_from(secret, did, k1),
        derived_from(secret, did, k2),
        k1.round == k2.round,
    ensures
        k1.scalar@ == k2.scalar@,
{
}

/// Zero-secret handling: derivation never silently succeeds with a degenerate
/// key; whatever the secret, a returned scalar is never the all-zero string.
pub proof fn lemma_no_degenerate_key(secret: Seq<u8>, did: Seq<u8>, key: DerivedKey)
    requires
        derived_from(secret, did, key),
    ensures
        key.scalar@ != zero_bytes(),
{
}

/// Exhaustion bound: when every round up to the fixed bound expands to the
/// all-zero candidate, any outcome that `generate`'s contract admits is the
/// exhaustion failure — derivation can never claim success.
pub proof fn lemma_exhaustion_bound(
    secret: Seq<u8>,
    did: Seq<u8>,
    r: Result<DerivedKey, KeygenError>,
)
    requires
        forall|n: u8| n < ROUND_BOUND ==> candidate_of(secret, did, n) == zero_bytes(),
        r matches Ok(key) ==> derived_from(secret, did, key),
        (forall|n: u8| n < ROUND_BOUND ==> !round_usable(secret, did, n)) ==> (r matches Err(e) && e
            == KeygenError::Exhausted),
    ensures
        r matches Err(e) && e == KeygenError::Exhausted,
{
    assert(forall|n: u8| n < ROUND_BOUND ==> !round_usable(secret, did, n));
}

} // verus!
