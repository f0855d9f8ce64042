use rusty_api::auth::TokenClaims;
use rusty_api::errors::AuthError;
use rusty_api::handlers::create;
use rusty_api::handlers::create_then_show;
use rusty_api::handlers::show;
use rusty_api::handlers::PostStore;
use rusty_api::models::PostPayload;

fn payload(title: &str, message: &str) -> PostPayload {
    PostPayload {
        title: String::from(title),
        message: String::from(message),
    }
}

#[test]
fn create_without_identity_is_unauthorized_and_stores_nothing() {
    let mut store = PostStore::new();
    let r = create(&mut store, None, &payload("a title", "a body"));
    assert!(r.is_err());
    let e = r.unwrap_err();
    assert_eq!(e, AuthError::InvalidCredentials);
    assert_eq!(e.status_code(), 401);
    assert!(store.get_all_posts().is_empty());
    assert!(store.find_by_id(0).is_none());
}

#[test]
fn create_with_identity_persists_the_post() {
    let mut store = PostStore::new();
    let user = TokenClaims { id: 7 };
    let post = create(&mut store, Some(user), &payload("a title", "a body")).unwrap();
    assert_eq!(post.id, 0);
    assert_eq!(post.title, "a title");
    assert_eq!(post.body, "a body");
    assert!(!post.published);

    let fetched = show(&store, post.id).unwrap();
    assert_eq!(fetched.id, 0);
    assert_eq!(fetched.title, "a title");
    assert_eq!(fetched.body, "a body");
    assert!(!fetched.published);
}

#[test]
fn create_then_show_round_trip() {
    let mut store = PostStore::new();
    let user = TokenClaims { id: 3 };
    let fetched = create_then_show(&mut store, user, &payload("t", "m")).unwrap();
    assert_eq!(fetched.title, "t");
    assert_eq!(fetched.body, "m");
}

#[test]
fn show_for_a_missing_id_is_empty_not_an_error() {
    let store = PostStore::new();
    assert!(show(&store, 5).is_none());

    let mut store = PostStore::new();
    let user = TokenClaims { id: 1 };
    create(&mut store, Some(user), &payload("t", "m")).unwrap();
    assert!(show(&store, 99).is_none());
}

#[test]
fn get_all_posts_lists_in_storage_order() {
    let mut store = PostStore::new();
    let user = TokenClaims { id: 1 };
    create(&mut store, Some(user), &payload("first", "b1")).unwrap();
    create(&mut store, Some(user), &payload("second", "b2")).unwrap();
    let all = store.get_all_posts();
    assert_eq!(all.len(), 2);
    assert_eq!(all[0].id, 0);
    assert_eq!(all[0].title, "first");
    assert_eq!(all[1].id, 1);
    assert_eq!(all[1].title, "second");
}

#[test]
fn post_ids_are_generated_in_insertion_order() {
    let mut store = PostStore::new();
    let a = store
        .create_post(&String::from("a"), &String::from("ba"))
        .unwrap();
    let b = store
        .create_post(&String::from("b"), &String::from("bb"))
        .unwrap();
    assert_eq!(a.id, 0);
    assert_eq!(b.id, 1);
    assert_eq!(store.find_by_id(1).unwrap().title, "b");
}
