use rusty_api::auth::TokenClaims;
use rusty_api::auth::TokenCodec;
use rusty_api::errors::AuthError;
use rusty_api::handlers::basic_auth;
use rusty_api::handlers::create_helper_fn;
use rusty_api::handlers::register_then_login;
use rusty_api::handlers::UserStore;
use rusty_api::models::UserPayload;

fn codec() -> TokenCodec {
    TokenCodec::new(String::from("a-signing-secret"))
}

#[test]
fn registration_stores_the_record() {
    let mut store = UserStore::new();
    let user = create_helper_fn(
        &mut store,
        &String::from("alice"),
        &String::from("stored-hash"),
    )
    .unwrap();
    assert_eq!(user.id, 0);
    assert_eq!(user.username, "alice");
    assert_eq!(user.password, "stored-hash");

    let found = store.find_by_username(&String::from("alice")).unwrap();
    assert_eq!(found.id, 0);
    assert_eq!(found.password, "stored-hash");
    assert!(store.find_by_username(&String::from("bob")).is_none());
}

#[test]
fn registration_generates_fresh_ids() {
    let mut store = UserStore::new();
    let a = create_helper_fn(&mut store, &String::from("a"), &String::from("ha")).unwrap();
    let b = create_helper_fn(&mut store, &String::from("b"), &String::from("hb")).unwrap();
    assert_eq!(a.id, 0);
    assert_eq!(b.id, 1);
}

#[test]
fn duplicate_username_is_a_storage_conflict() {
    let mut store = UserStore::new();
    create_helper_fn(&mut store, &String::from("alice"), &String::from("h1")).unwrap();
    let second = create_helper_fn(&mut store, &String::from("alice"), &String::from("h2"));
    assert!(second.is_err());
    let e = second.unwrap_err();
    assert_eq!(e, AuthError::UnexpectedError);
    assert_eq!(e.status_code(), 500);
}

#[test]
fn register_then_login_round_trip() {
    let mut store = UserStore::new();
    let codec = codec();
    let token = register_then_login(
        &mut store,
        &codec,
        &String::from("alice"),
        &String::from("stored-hash"),
        &String::from("password"),
        true,
    )
    .unwrap();
    assert_eq!(codec.verify(token.as_str()), Ok(TokenClaims { id: 0 }));
}

#[test]
fn register_then_login_with_rejected_password_is_unauthorized() {
    let mut store = UserStore::new();
    let codec = codec();
    let r = register_then_login(
        &mut store,
        &codec,
        &String::from("alice"),
        &String::from("stored-hash"),
        &String::from("wrong"),
        false,
    );
    assert_eq!(r, Err(AuthError::InvalidCredentials));
    assert_eq!(r.unwrap_err().status_code(), 401);
}

#[test]
fn login_for_unknown_user_is_an_internal_error() {
    let store = UserStore::new();
    let codec = codec();
    let r = basic_auth(
        &store,
        &codec,
        &String::from("nobody"),
        Some(&String::from("pw")),
        Some(true),
    );
    assert_eq!(r, Err(AuthError::UnexpectedError));
}

#[test]
fn login_without_a_password_is_unauthorized() {
    let mut store = UserStore::new();
    create_helper_fn(&mut store, &String::from("alice"), &String::from("h")).unwrap();
    let codec = codec();
    let r = basic_auth(&store, &codec, &String::from("alice"), None, None);
    assert_eq!(r, Err(AuthError::InvalidCredentials));
}

#[test]
fn login_with_accepted_password_yields_a_token_for_the_user() {
    let mut store = UserStore::new();
    create_helper_fn(&mut store, &String::from("a"), &String::from("ha")).unwrap();
    create_helper_fn(&mut store, &String::from("b"), &String::from("hb")).unwrap();
    let codec = codec();
    let token = basic_auth(
        &store,
        &codec,
        &String::from("b"),
        Some(&String::from("pw")),
        Some(true),
    )
    .unwrap();
    assert_eq!(codec.verify(token.as_str()), Ok(TokenClaims { id: 1 }));
}

#[test]
fn login_with_a_verifier_fault_is_an_internal_error() {
    let mut store = UserStore::new();
    create_helper_fn(&mut store, &String::from("alice"), &String::from("h")).unwrap();
    let codec = codec();
    let r = basic_auth(
        &store,
        &codec,
        &String::from("alice"),
        Some(&String::from("pw")),
        None,
    );
    assert_eq!(r, Err(AuthError::UnexpectedError));
}

#[test]
fn registration_from_a_request_payload() {
    let payload = UserPayload {
        username: String::from("carol"),
        password: String::from("a-password"),
    };
    let mut store = UserStore::new();
    // The edge hashes the payload's password before registering.
    let hash = format!("keyed-hash-of-{}", payload.password);
    let user = create_helper_fn(&mut store, &payload.username, &hash).unwrap();
    assert_eq!(user.username, "carol");
    assert_eq!(user.password, "keyed-hash-of-a-password");
}
