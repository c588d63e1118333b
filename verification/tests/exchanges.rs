use stytch::{Error, Stytch, User, UserAuth, SUCCESS};

fn stub() -> Stytch {
    Stytch::new_url("p", "s", "l", "u", "http://stub")
}

/// An error of the transport that needs no network to come about.
fn failure() -> reqwest::Error {
    reqwest::Client::new().get("not a url").build().unwrap_err()
}

#[test]
fn success_is_status_200() {
    assert_eq!(SUCCESS, 200);
}

#[test]
fn login_or_create_with_200_yields_the_user() {
    let pending = stub().login_or_create("a@b.com");
    let accepted = pending.answered(Ok(200)).unwrap();
    let user = accepted.decoded(Ok("u1".to_string())).unwrap();
    assert_eq!(user.id, "u1");
    assert_eq!(user.token, None);
    assert_eq!(user.auth, UserAuth::Email { email: "a@b.com".to_string() });
}

#[test]
fn login_or_create_with_401_fails_with_that_status() {
    let pending = stub().login_or_create("a@b.com");
    match pending.answered(Ok(401)) {
        Err(Error::LoginOrCreate(status)) => assert_eq!(status, 401),
        other => panic!("unexpected {:?}", other),
    }
}

#[test]
fn authenticate_with_200_yields_the_user_id() {
    let pending = User::auth(&stub(), "tok");
    let accepted = pending.answered(Ok(200)).unwrap();
    assert_eq!(accepted.decoded(Ok("u1".to_string())).unwrap(), "u1");
}

#[test]
fn authenticate_with_404_fails_with_that_status() {
    let pending = User::auth(&stub(), "unrecognized");
    match pending.answered(Ok(404)) {
        Err(Error::Auth(status)) => assert_eq!(status, 404),
        other => panic!("unexpected {:?}", other),
    }
}

#[test]
fn create_with_200_yields_the_user_without_token() {
    let auth = UserAuth::new_both("a@b.com", "+15555550100");
    let pending = User::create(&stub(), auth.clone());
    let accepted = pending.answered(Ok(200)).unwrap();
    let user = accepted.decoded(Ok("user-test-1".to_string())).unwrap();
    assert_eq!(user, User { id: "user-test-1".to_string(), token: None, auth });
}

#[test]
fn create_rejected_fails_as_login_or_create_does() {
    let pending = User::create(&stub(), UserAuth::new_phone("123"));
    match pending.answered(Ok(400)) {
        Err(Error::LoginOrCreate(status)) => assert_eq!(status, 400),
        other => panic!("unexpected {:?}", other),
    }
}

#[test]
fn every_status_but_200_is_a_failure() {
    for status in [0u16, 100, 199, 201, 204, 301, 400, 401, 404, 418, 500, 503, 999, u16::MAX] {
        match stub().login_or_create("a@b.com").answered(Ok(status)) {
            Err(Error::LoginOrCreate(seen)) => assert_eq!(seen, status),
            other => panic!("unexpected {:?} for {}", other, status),
        }
        match User::auth(&stub(), "tok").answered(Ok(status)) {
            Err(Error::Auth(seen)) => assert_eq!(seen, status),
            other => panic!("unexpected {:?} for {}", other, status),
        }
    }
}

#[test]
fn failure_to_send_is_a_request_error() {
    let expected = failure().to_string();
    match stub().login_or_create("a@b.com").answered(Err(failure())) {
        Err(Error::Request(cause)) => assert_eq!(cause.to_string(), expected),
        other => panic!("unexpected {:?}", other),
    }
    match User::create(&stub(), UserAuth::new_email("a@b.com")).answered(Err(failure())) {
        Err(Error::Request(cause)) => assert_eq!(cause.to_string(), expected),
        other => panic!("unexpected {:?}", other),
    }
    match User::auth(&stub(), "tok").answered(Err(failure())) {
        Err(Error::Request(cause)) => assert_eq!(cause.to_string(), expected),
        other => panic!("unexpected {:?}", other),
    }
}

#[test]
fn failure_to_decode_is_a_request_error() {
    let expected = failure().to_string();
    let accepted = stub().login_or_create("a@b.com").answered(Ok(200)).unwrap();
    match accepted.decoded(Err(failure())) {
        Err(Error::Request(cause)) => assert_eq!(cause.to_string(), expected),
        other => panic!("unexpected {:?}", other),
    }
    let accepted = User::auth(&stub(), "tok").answered(Ok(200)).unwrap();
    match accepted.decoded(Err(failure())) {
        Err(Error::Request(cause)) => assert_eq!(cause.to_string(), expected),
        other => panic!("unexpected {:?}", other),
    }
}

#[test]
fn failure_keeps_the_cause_it_was_given() {
    let cause = failure();
    assert!(cause.is_builder());
    match User::auth(&stub(), "tok").answered(Err(cause)) {
        Err(Error::Request(kept)) => {
            assert!(kept.is_builder());
            assert!(!kept.is_decode());
        }
        other => panic!("unexpected {:?}", other),
    }
}

#[test]
fn failure_leaves_the_store_as_it_was() {
    let store = stub();
    let before = store.clone();
    let pending = store.login_or_create("a@b.com");
    assert!(matches!(pending.answered(Err(failure())), Err(Error::Request(_))));
    assert_eq!(store, before);
    let pending = User::auth(&store, "tok");
    assert!(matches!(pending.answered(Ok(500)), Err(Error::Auth(500))));
    assert_eq!(store, before);
}

#[test]
fn identifier_is_returned_as_it_was_decoded() {
    for id in ["", "u1", "user-test-16d9ba61-97a1-4ba4-9720-b03761dc50c6", "\u{00e9}\"\\ "] {
        let accepted = User::auth(&stub(), "tok").answered(Ok(200)).unwrap();
        assert_eq!(accepted.decoded(Ok(id.to_string())).unwrap(), id);
        let accepted = stub().login_or_create("a@b.com").answered(Ok(200)).unwrap();
        assert_eq!(accepted.decoded(Ok(id.to_string())).unwrap().id, id);
    }
}

#[test]
fn user_is_identified_by_the_email_that_was_submitted() {
    for email in ["", "a@b.com", "not an email", "Üser@Example.COM "] {
        let accepted = stub().login_or_create(email).answered(Ok(200)).unwrap();
        let user = accepted.decoded(Ok("u1".to_string())).unwrap();
        assert_eq!(user.auth, UserAuth::Email { email: email.to_string() });
    }
}

#[test]
fn each_call_is_an_exchange_of_its_own() {
    let store = stub();
    let first = store.login_or_create("a@b.com");
    let second = store.login_or_create("a@b.com");
    assert_eq!(first.request(), second.request());
    assert!(matches!(first.answered(Ok(503)), Err(Error::LoginOrCreate(503))));
    let user = second.answered(Ok(200)).unwrap().decoded(Ok("u1".to_string())).unwrap();
    assert_eq!(user.id, "u1");
}
