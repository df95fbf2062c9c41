use webauthn_demo::ceremony::{conclude_authentication, record_verified_passkey};
use webauthn_demo::directory::Directory;
use webauthn_demo::error::ErrorKind;

#[test]
fn duplicate_registration_start_is_rejected() {
    let mut directory: Directory<u32> = Directory::new();
    assert!(directory.insert_new(String::from("alice"), 1).is_ok());
    match directory.insert_new(String::from("alice"), 2) {
        Err(e) => assert_eq!(e.kind, ErrorKind::AlreadyExists),
        Ok(_) => panic!("duplicate insert must fail"),
    }
    assert_eq!(directory.len(), 1);
}

#[test]
fn distinct_usernames_coexist() {
    let mut directory: Directory<u32> = Directory::new();
    assert!(directory.insert_new(String::from("alice"), 1).is_ok());
    assert!(directory.insert_new(String::from("bob"), 2).is_ok());
    assert_eq!(directory.len(), 2);
}

#[test]
fn unknown_user_has_no_auth_material() {
    let directory: Directory<u32> = Directory::new();
    match directory.auth_material(&String::from("bob")) {
        Err(e) => assert_eq!(e.kind, ErrorKind::NoSuchUser),
        Ok(_) => panic!("unknown user must be rejected"),
    }
}

#[test]
fn user_without_passkey_is_not_enrolled() {
    let mut directory: Directory<u32> = Directory::new();
    directory.insert_new(String::from("alice"), 1).unwrap();
    match directory.auth_material(&String::from("alice")) {
        Err(e) => assert_eq!(e.kind, ErrorKind::NotEnrolled),
        Ok(_) => panic!("a user without a passkey cannot authenticate"),
    }
}

#[test]
fn passkey_is_set_exactly_for_the_bound_identity() {
    let mut directory: Directory<u32> = Directory::new();
    directory.insert_new(String::from("alice"), 1).unwrap();
    directory.insert_new(String::from("bob"), 2).unwrap();
    assert!(directory.set_passkey(2, 77).is_ok());
    match directory.auth_material(&String::from("bob")) {
        Ok((id, passkey)) => {
            assert_eq!(id, 2);
            assert_eq!(*passkey, 77);
        },
        Err(_) => panic!("bob is enrolled"),
    }
    match directory.auth_material(&String::from("alice")) {
        Err(e) => assert_eq!(e.kind, ErrorKind::NotEnrolled),
        Ok(_) => panic!("alice never finished registration"),
    }
}

#[test]
fn set_passkey_for_unknown_identity_changes_nothing() {
    let mut directory: Directory<u32> = Directory::new();
    directory.insert_new(String::from("alice"), 1).unwrap();
    match directory.set_passkey(9, 77) {
        Err(e) => assert_eq!(e.kind, ErrorKind::UnknownIdentity),
        Ok(_) => panic!("no identity bears id 9"),
    }
    match directory.auth_material(&String::from("alice")) {
        Err(e) => assert_eq!(e.kind, ErrorKind::NotEnrolled),
        Ok(_) => panic!("alice must be untouched"),
    }
}

#[test]
fn record_verified_passkey_requires_a_bound_known_identity() {
    let mut directory: Directory<u32> = Directory::new();
    directory.insert_new(String::from("alice"), 1).unwrap();

    match record_verified_passkey(&mut directory, None, 50) {
        Err(e) => assert_eq!(e.kind, ErrorKind::UnknownIdentity),
        Ok(_) => panic!("a session without an identity must be rejected"),
    }
    match record_verified_passkey(&mut directory, Some(3), 50) {
        Err(e) => assert_eq!(e.kind, ErrorKind::UnknownIdentity),
        Ok(_) => panic!("an unknown identity must be rejected"),
    }
    match record_verified_passkey(&mut directory, Some(1), 50) {
        Ok(id) => assert_eq!(id, 1),
        Err(_) => panic!("the bound identity exists"),
    }
    match directory.auth_material(&String::from("alice")) {
        Ok((id, passkey)) => {
            assert_eq!(id, 1);
            assert_eq!(*passkey, 50);
        },
        Err(_) => panic!("alice is enrolled now"),
    }
}

#[test]
fn conclude_authentication_requires_an_identity() {
    match conclude_authentication(Some(9)) {
        Ok(id) => assert_eq!(id, 9),
        Err(_) => panic!("a bound identity concludes"),
    }
    match conclude_authentication(None) {
        Err(e) => assert_eq!(e.kind, ErrorKind::MissingUserId),
        Ok(_) => panic!("a session without an identity must be rejected"),
    }
}
