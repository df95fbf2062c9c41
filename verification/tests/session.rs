use webauthn_demo::ceremony::{conclude_authentication, record_verified_passkey};
use webauthn_demo::directory::Directory;
use webauthn_demo::error::ErrorKind;
use webauthn_demo::session::{CeremonyState, SessionRecord};

#[test]
fn default_session_is_anonymous() {
    let record: SessionRecord<u32, u64> = SessionRecord::default();
    assert!(matches!(record.state, CeremonyState::Anonymous));
    assert!(record.user_id.is_none());
}

#[test]
fn registration_finish_is_gated_on_registering_state() {
    let anonymous: SessionRecord<u32, u64> =
        SessionRecord { state: CeremonyState::Anonymous, user_id: None };
    match anonymous.take_registering() {
        Err(e) => assert_eq!(e.kind, ErrorKind::InvalidSessionState),
        Ok(_) => panic!("an anonymous session has no registration in flight"),
    }

    let authenticating: SessionRecord<u32, u64> =
        SessionRecord { state: CeremonyState::Authenticating(5), user_id: Some(1) };
    match authenticating.take_registering() {
        Err(e) => assert_eq!(e.kind, ErrorKind::InvalidSessionState),
        Ok(_) => panic!("a login in flight is not a registration"),
    }

    let registering: SessionRecord<u32, u64> =
        SessionRecord { state: CeremonyState::Registering(3), user_id: Some(7) };
    match registering.take_registering() {
        Ok((context, user_id)) => {
            assert_eq!(context, 3);
            assert_eq!(user_id, Some(7));
        },
        Err(_) => panic!("a registration in flight must be handed out"),
    }
}

#[test]
fn authentication_finish_is_gated_on_authenticating_state() {
    let anonymous: SessionRecord<u32, u64> =
        SessionRecord { state: CeremonyState::Anonymous, user_id: None };
    match anonymous.take_authenticating() {
        Err(e) => assert_eq!(e.kind, ErrorKind::InvalidSessionState),
        Ok(_) => panic!("an anonymous session has no login in flight"),
    }

    let authenticated: SessionRecord<u32, u64> =
        SessionRecord { state: CeremonyState::Authenticated, user_id: Some(1) };
    match authenticated.take_authenticating() {
        Err(e) => assert_eq!(e.kind, ErrorKind::InvalidSessionState),
        Ok(_) => panic!("a finished session has no login in flight"),
    }

    let registering: SessionRecord<u32, u64> =
        SessionRecord { state: CeremonyState::Registering(3), user_id: Some(7) };
    match registering.take_authenticating() {
        Err(e) => assert_eq!(e.kind, ErrorKind::InvalidSessionState),
        Ok(_) => panic!("a registration in flight is not a login"),
    }

    let authenticating: SessionRecord<u32, u64> =
        SessionRecord { state: CeremonyState::Authenticating(5), user_id: Some(9) };
    match authenticating.take_authenticating() {
        Ok((context, user_id)) => {
            assert_eq!(context, 5);
            assert_eq!(user_id, Some(9));
        },
        Err(_) => panic!("a login in flight must be handed out"),
    }
}

#[test]
fn end_to_end_ceremony_over_the_core() {
    // Registration start: a fresh identity is inserted and the session holds
    // the registration context and the identity.
    let mut directory: Directory<u8> = Directory::new();
    let user_id: u128 = 42;
    directory.insert_new(String::from("alice"), user_id).unwrap();
    let session: SessionRecord<u32, u64> =
        SessionRecord { state: CeremonyState::Registering(11), user_id: Some(user_id) };

    // Registration finish: the context comes back out, the verified record is
    // enrolled under the bound identity.
    let (context, bound) = match session.take_registering() {
        Ok(pair) => pair,
        Err(_) => panic!("registration is in flight"),
    };
    assert_eq!(context, 11);
    let finished_id = match record_verified_passkey(&mut directory, bound, 200) {
        Ok(id) => id,
        Err(_) => panic!("the bound identity exists"),
    };
    assert_eq!(finished_id, user_id);

    // Authentication start: the enrollment scopes the ceremony to the one
    // enrolled passkey and binds the same identity.
    let (auth_id, passkey) = match directory.auth_material(&String::from("alice")) {
        Ok(pair) => pair,
        Err(_) => panic!("alice is enrolled"),
    };
    assert_eq!(auth_id, user_id);
    assert_eq!(*passkey, 200);
    let session: SessionRecord<u32, u64> =
        SessionRecord { state: CeremonyState::Authenticating(13), user_id: Some(auth_id) };

    // Authentication finish: the identity returned is the one registration
    // created.
    let (context, bound) = match session.take_authenticating() {
        Ok(pair) => pair,
        Err(_) => panic!("a login is in flight"),
    };
    assert_eq!(context, 13);
    match conclude_authentication(bound) {
        Ok(id) => assert_eq!(id, user_id),
        Err(_) => panic!("the session carries the identity"),
    }
}
