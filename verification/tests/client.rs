use webauthn_demo::capability::has_prf_support;
use webauthn_demo::client::Client;
use webauthn_demo::error::{Error, ErrorKind};

#[test]
fn urls_point_at_the_configured_endpoint() {
    let client = Client::new("localhost:9999");
    assert_eq!(client.url("auth/start"), "https://localhost:9999/auth/start");
    assert_eq!(client.url("auth/finish"), "https://localhost:9999/auth/finish");
    assert_eq!(client.url("register/start"), "https://localhost:9999/register/start");
    assert_eq!(client.url("register/finish"), "https://localhost:9999/register/finish");
}

#[test]
fn prf_support_is_detected_among_capabilities() {
    let probed = vec![String::from("extension:appid"), String::from("extension:prf")];
    assert!(has_prf_support(&probed));
}

#[test]
fn missing_prf_support_is_detected() {
    assert!(!has_prf_support(&vec![]));
    let probed = vec![String::from("extension:appid"), String::from("userVerifyingPlatformAuthenticator")];
    assert!(!has_prf_support(&probed));
}

#[test]
fn errors_carry_their_kind() {
    let error = Error::new(ErrorKind::VerificationFailed, "ceremony failed");
    assert_eq!(error.kind, ErrorKind::VerificationFailed);
    assert_eq!(error.message, "ceremony failed");
    assert_eq!(Error::from_poison().kind, ErrorKind::LockUnavailable);
}
