//! The resource handlers' logic: the user and post stores and the
//! decisions the registration, login and post endpoints make over them.
//!
//! Real persistence and HTTP transport sit outside this crate; they
//! hand these functions plain values (payloads, the keyed hasher's
//! outcome) and carry the results back to the wire.

use vstd::prelude::*;

use crate::auth::claims_of;
use crate::auth::token_of;
use crate::auth::TokenCodec;
use crate::auth::TokenClaims;
use crate::errors::AuthError;
use crate::models::NewPost;
use crate::models::NewUser;
use crate::models::Post;
use crate::models::PostPayload;
use crate::models::PostView;
use crate::models::UserView;
use crate::models::Users;

verus! {

/// The users table as mathematics: the stored records in insertion
/// order, and the id the next insertion will take.
pub ghost struct UserStoreView {
    pub users: Seq<UserView>,
    pub next_id: int,
}

/// Whether some stored user carries this username.
pub open spec fn username_taken(s: UserStoreView, username: Seq<char>) -> bool {
    exists|i: int| 0 <= i < s.users.len() && (#[trigger] s.users[i]).username == username
}

/// The stored user carrying this username; meaningful only when
/// `username_taken` holds (usernames are unique, so it is then the one
/// such record).
pub open spec fn user_named(s: UserStoreView, username: Seq<char>) -> UserView {
    s.users[choose|i: int|
        0 <= i < s.users.len() && (#[trigger] s.users[i]).username == username]
}

/// In-memory model of the users table. Ids are generated in insertion
/// order and never reused; usernames are unique, as the storage
/// layer's uniqueness constraint enforces.
pub struct UserStore {
    users: Vec<Users>,
    next_id: i32,
}

impl View for UserStore {
    type V = UserStoreView;

    closed spec fn view(&self) -> UserStoreView {
        UserStoreView {
            users: Seq::new(self.users@.len(), |i: int| self.users@[i]@),
            next_id: self.next_id as int,
        }
    }
}

impl UserStore {
    #[verifier::type_invariant]
    closed spec fn wf(&self) -> bool {
        let s = self.view();
        &&& 0 <= s.next_id
        &&& forall|i: int| 0 <= i < s.users.len() ==> 0 <= (#[trigger] s.users[i]).id < s.next_id
        &&& forall|i: int, j: int|
            #![trigger s.users[i].id, s.users[j].id]
            0 <= i < j < s.users.len() ==> s.users[i].id != s.users[j].id
        &&& forall|i: int, j: int|
            #![trigger s.users[i].username, s.users[j].username]
            0 <= i < j < s.users.len() ==> s.users[i].username != s.users[j].username
    }

    /// An empty store, as at process start.
    pub fn new() -> (s: UserStore)
        ensures
            s@.users.len() == 0,
            s@.next_id == 0,
    {
        UserStore { users: Vec::new(), next_id: 0 }
    }

    /// Look a user up by username: the one stored record carrying it,
    /// or `None` when no record does.
    pub fn find_by_username(&self, username: &String) -> (r: Option<Users>)
        ensures
            match r {
                Some(u) => {
                    &&& username_taken(self@, username@)
                    &&& u@ == user_named(self@, username@)
                    &&& u@.username == username@
                    &&& forall|j: int|
                        0 <= j < self@.users.len()
                            && (#[trigger] self@.users[j]).username == username@
                            ==> self@.users[j] == u@
                },
                None => !username_taken(self@, username@),
            },
    {
        proof {
            use_type_invariant(&*self);
        }
        let n = self.users.len();
        let mut i: usize = 0;
        while i < n
            invariant
                n == self.users.len(),
                i <= n,
                forall|j: int|
                    0 <= j < i ==> (#[trigger] self@.users[j]).username != username@,
            decreases n - i,
        {
            if self.users[i].username == *username {
                let u = self.users[i].duplicate();
                proof {
                    use_type_invariant(&*self);
                    let s = self@;
                    assert(s.users[i as int] == self.users@[i as int]@);
                    assert(s.users[i as int].username == username@);
                    let k = choose|j: int|
                        0 <= j < s.users.len() && (#[trigger] s.users[j]).username == username@;
                    if k < i as int {
                        assert(s.users[k].username != s.users[i as int].username);
                    } else if k > i as int {
                        assert(s.users[i as int].username != s.users[k].username);
                    }
                    assert(forall|j: int|
                        0 <= j < s.users.len() && (#[trigger] s.users[j]).username == username@
                            ==> j == i as int);
                }
                return Some(u);
            }
            i = i + 1;
        }
        None
    }

    /// Append a fresh record built from `new_user`, assigning it the
    /// next generated id.
    fn insert(&mut self, new_user: NewUser) -> (u: Users)
        requires
            !username_taken(old(self)@, new_user.username@),
            old(self)@.next_id < i32::MAX,
        ensures
            u@.id == old(self)@.next_id,
            u@.username == new_user.username@,
            u@.password == new_user.password@,
            final(self)@.users == old(self)@.users.push(u@),
            final(self)@.next_id == old(self)@.next_id + 1,
    {
        proof {
            use_type_invariant(&*self);
        }
        let id = self.next_id;
        let stored = Users { id, username: new_user.username, password: new_user.password };
        let result = stored.duplicate();
        let mut users: Vec<Users> = Vec::new();
        std::mem::swap(&mut users, &mut self.users);
        users.push(stored);
        self.next_id = id + 1;
        proof {
            let olds = old(self)@;
            assert(forall|i: int|
                0 <= i < olds.users.len()
                    ==> #[trigger] olds.users[i] == old(self).users@[i]@);
            assert(forall|i: int|
                0 <= i < olds.users.len() ==> #[trigger] users@[i] == old(self).users@[i]);
            assert(forall|i: int|
                0 <= i < olds.users.len() ==> #[trigger] users@[i]@ == olds.users[i]);
            assert(users@[olds.users.len() as int]@ == result@);
        }
        self.users = users;
        proof {
            assert(self@.users =~= old(self)@.users.push(result@));
        }
        result
    }
}

/// Registration: store a new user record `{username, password_hash}`
/// and return it. The keyed one-way hashing itself happens outside this
/// crate, in the process that loaded the hashing secret; the caller
/// hands in the finished hash. A duplicate username is a storage-level
/// conflict and surfaces as the generic internal error, as does an
/// exhausted id space.
pub fn create_helper_fn(store: &mut UserStore, username: &String, password_hash: &String) -> (r:
    Result<Users, AuthError>)
    ensures
        match r {
            Ok(u) => {
                &&& !username_taken(old(store)@, username@)
                &&& old(store)@.next_id < i32::MAX
                &&& u@.id == old(store)@.next_id
                &&& u@.username == username@
                &&& u@.password == password_hash@
                &&& final(store)@.users == old(store)@.users.push(u@)
                &&& final(store)@.next_id == old(store)@.next_id + 1
            },
            Err(e) => {
                &&& e == AuthError::UnexpectedError
                &&& (username_taken(old(store)@, username@) || old(store)@.next_id == i32::MAX)
                &&& final(store)@ == old(store)@
            },
        },
{
    match store.find_by_username(username) {
        Some(_) => Err(AuthError::UnexpectedError),
        None => {
            if store.next_id == i32::MAX {
                Err(AuthError::UnexpectedError)
            } else {
                let new_user = NewUser {
                    username: username.clone(),
                    password: password_hash.clone(),
                };
                let u = store.insert(new_user);
                Ok(u)
            }
        },
    }
}

/// Login: exchange a username and password for a bearer token.
///
/// The caller — the process edge that holds the hashing secret — has
/// already run the keyed password verifier of the stored hash against
/// the supplied password and hands in the outcome: `Some(b)` for a
/// clean comparison, `None` for an internal fault of the verifier.
///
/// Deliberate design decisions, documented here once: an unknown
/// username is classified as the generic internal error, not as an
/// authentication failure; a successful login answers with the token
/// itself rather than a redirect; a verifier fault is the generic
/// internal error rather than a crash. On any failure no token is
/// issued.
pub fn basic_auth(
    store: &UserStore,
    codec: &TokenCodec,
    username: &String,
    password: Option<&String>,
    password_matches: Option<bool>,
) -> (r: Result<String, AuthError>)
    ensures
        !username_taken(store@, username@) ==> r == Err::<String, AuthError>(
            AuthError::UnexpectedError,
        ),
        username_taken(store@, username@) ==> (match password {
            None => r == Err::<String, AuthError>(AuthError::InvalidCredentials),
            Some(_) => match password_matches {
                Some(true) => (r matches Ok(t) && t@ == token_of(
                    codec@,
                    user_named(store@, username@).id as i32,
                ) && claims_of(codec@, t@) == Some(user_named(store@, username@).id as i32)),
                Some(false) => r == Err::<String, AuthError>(AuthError::InvalidCredentials),
                None => r == Err::<String, AuthError>(AuthError::UnexpectedError),
            },
        }),
{
    match store.find_by_username(username) {
        None => Err(AuthError::UnexpectedError),
        Some(user) => match password {
            None => Err(AuthError::InvalidCredentials),
            Some(_) => match password_matches {
                Some(true) => Ok(codec.issue(user.id)),
                Some(false) => Err(AuthError::InvalidCredentials),
                None => Err(AuthError::UnexpectedError),
            },
        },
    }
}

/// Registering a user and then logging in under the same username
/// succeeds whenever the password verifier accepts the supplied
/// password against the stored hash, and the token carries the new
/// user's id; when the verifier rejects it, login fails as an
/// authentication error and no token is issued.
pub fn register_then_login(
    store: &mut UserStore,
    codec: &TokenCodec,
    username: &String,
    password_hash: &String,
    password: &String,
    password_matches: bool,
) -> (r: Result<String, AuthError>)
    requires
        !username_taken(old(store)@, username@),
        old(store)@.next_id < i32::MAX,
    ensures
        password_matches ==> (r matches Ok(t) && claims_of(codec@, t@) == Some(
            old(store)@.next_id as i32,
        )),
        !password_matches ==> r == Err::<String, AuthError>(AuthError::InvalidCredentials),
{
    let created = create_helper_fn(store, username, password_hash);
    match created {
        Ok(u) => {
            proof {
                let olds = old(store)@;
                let news = store@;
                assert(news.users[olds.users.len() as int] == u@);
                assert(news.users[olds.users.len() as int].username == username@);
                assert(username_taken(news, username@));
                assert(forall|i: int|
                    0 <= i < olds.users.len()
                        ==> #[trigger] news.users[i] == olds.users[i]);
                assert(forall|i: int|
                    0 <= i < news.users.len()
                        && (#[trigger] news.users[i]).username == username@
                        ==> i == olds.users.len());
                assert(user_named(news, username@) == u@);
            }
            basic_auth(store, codec, username, Some(password), Some(password_matches))
        },
        Err(e) => {
            // Unreachable: a fresh username with id space left always registers.
            proof {
                assert(false);
            }
            Err(e)
        },
    }
}

/// The posts table as mathematics: the stored records in insertion
/// order, and the id the next insertion will take.
pub ghost struct PostStoreView {
    pub posts: Seq<PostView>,
    pub next_id: int,
}

/// Whether some stored post carries this id.
pub open spec fn post_with_id(s: PostStoreView, id: int) -> bool {
    exists|i: int| 0 <= i < s.posts.len() && (#[trigger] s.posts[i]).id == id
}

/// In-memory model of the posts table. Ids are generated in insertion
/// order and never reused.
pub struct PostStore {
    posts: Vec<Post>,
    next_id: i32,
}

impl View for PostStore {
    type V = PostStoreView;

    closed spec fn view(&self) -> PostStoreView {
        PostStoreView {
            posts: Seq::new(self.posts@.len(), |i: int| self.posts@[i]@),
            next_id: self.next_id as int,
        }
    }
}

impl PostStore {
    #[verifier::type_invariant]
    closed spec fn wf(&self) -> bool {
        let s = self.view();
        &&& 0 <= s.next_id
        &&& forall|i: int| 0 <= i < s.posts.len() ==> 0 <= (#[trigger] s.posts[i]).id < s.next_id
        &&& forall|i: int, j: int|
            #![trigger s.posts[i].id, s.posts[j].id]
            0 <= i < j < s.posts.len() ==> s.posts[i].id != s.posts[j].id
    }

    /// An empty store, as at process start.
    pub fn new() -> (s: PostStore)
        ensures
            s@.posts.len() == 0,
            s@.next_id == 0,
    {
        PostStore { posts: Vec::new(), next_id: 0 }
    }

    /// Append a fresh record built from `new_post`, assigning it the
    /// next generated id; a new post starts unpublished, the storage
    /// default.
    fn insert(&mut self, new_post: NewPost) -> (p: Post)
        requires
            old(self)@.next_id < i32::MAX,
        ensures
            p@.id == old(self)@.next_id,
            p@.title == new_post.title@,
            p@.body == new_post.body@,
            p@.published == false,
            final(self)@.posts == old(self)@.posts.push(p@),
            final(self)@.next_id == old(self)@.next_id + 1,
    {
        proof {
            use_type_invariant(&*self);
        }
        let id = self.next_id;
        let stored = Post {
            id,
            title: new_post.title,
            body: new_post.body,
            published: false,
        };
        let result = stored.duplicate();
        let mut posts: Vec<Post> = Vec::new();
        std::mem::swap(&mut posts, &mut self.posts);
        posts.push(stored);
        self.next_id = id + 1;
        proof {
            let olds = old(self)@;
            assert(forall|i: int|
                0 <= i < olds.posts.len()
                    ==> #[trigger] olds.posts[i] == old(self).posts@[i]@);
            assert(forall|i: int|
                0 <= i < olds.posts.len() ==> #[trigger] posts@[i] == old(self).posts@[i]);
            assert(forall|i: int|
                0 <= i < olds.posts.len() ==> #[trigger] posts@[i]@ == olds.posts[i]);
            assert(posts@[olds.posts.len() as int]@ == result@);
        }
        self.posts = posts;
        proof {
            assert(self@.posts =~= old(self)@.posts.push(result@));
        }
        result
    }

    /// Store a new post with this title and body and return the stored
    /// record. An exhausted id space is a storage fault and surfaces as
    /// the generic internal error.
    pub fn create_post(&mut self, title: &String, body: &String) -> (r: Result<Post, AuthError>)
        ensures
            match r {
                Ok(p) => {
                    &&& old(self)@.next_id < i32::MAX
                    &&& p@.id == old(self)@.next_id
                    &&& p@.title == title@
                    &&& p@.body == body@
                    &&& p@.published == false
                    &&& final(self)@.posts == old(self)@.posts.push(p@)
                    &&& final(self)@.next_id == old(self)@.next_id + 1
                },
                Err(e) => {
                    &&& e == AuthError::UnexpectedError
                    &&& old(self)@.next_id == i32::MAX
                    &&& final(self)@ == old(self)@
                },
            },
    {
        proof {
            use_type_invariant(&*self);
        }
        if self.next_id == i32::MAX {
            return Err(AuthError::UnexpectedError);
        }
        let new_post = NewPost { title: title.clone(), body: body.clone() };
        Ok(self.insert(new_post))
    }

    /// Fetch a post by id: the one stored record carrying it, or
    /// `None` when no record does — absence is an empty result, never
    /// an error.
    pub fn find_by_id(&self, post_id: i32) -> (r: Option<Post>)
        ensures
            match r {
                Some(p) => {
                    &&& post_with_id(self@, post_id as int)
                    &&& p@.id == post_id as int
                    &&& forall|j: int|
                        0 <= j < self@.posts.len()
                            && (#[trigger] self@.posts[j]).id == post_id as int
                            ==> self@.posts[j] == p@
                },
                None => !post_with_id(self@, post_id as int),
            },
    {
        proof {
            use_type_invariant(&*self);
        }
        let n = self.posts.len();
        let mut i: usize = 0;
        while i < n
            invariant
                n == self.posts.len(),
                i <= n,
                forall|j: int|
                    0 <= j < i ==> (#[trigger] self@.posts[j]).id != post_id as int,
            decreases n - i,
        {
            if self.posts[i].id == post_id {
                let p = self.posts[i].duplicate();
                proof {
                    use_type_invariant(&*self);
                    let s = self@;
                    assert(s.posts[i as int] == self.posts@[i as int]@);
                    assert(s.posts[i as int].id == post_id as int);
                    assert(forall|j: int|
                        0 <= j < s.posts.len() && (#[trigger] s.posts[j]).id == post_id as int
                            ==> j == i as int);
                }
                return Some(p);
            }
            i = i + 1;
        }
        None
    }

    /// All stored posts, in storage order.
    pub fn get_all_posts(&self) -> (r: Vec<Post>)
        ensures
            r@.len() == self@.posts.len(),
            forall|i: int| 0 <= i < r@.len() ==> (#[trigger] r@[i])@ == self@.posts[i],
    {
        let n = self.posts.len();
        let mut out: Vec<Post> = Vec::new();
        let mut i: usize = 0;
        while i < n
            invariant
                n == self.posts.len(),
                i <= n,
                out@.len() == i,
                forall|j: int| 0 <= j < i ==> (#[trigger] out@[j])@ == self@.posts[j],
            decreases n - i,
        {
            out.push(self.posts[i].duplicate());
            i = i + 1;
        }
        out
    }
}

/// The protected create endpoint: without a validated identity from
/// the authentication gate the request is rejected with an
/// authentication error and nothing is stored; with one, the post is
/// created exactly as [`PostStore::create_post`] says.
pub fn create(store: &mut PostStore, req_user: Option<TokenClaims>, payload: &PostPayload) -> (r:
    Result<Post, AuthError>)
    ensures
        req_user is None ==> r == Err::<Post, AuthError>(AuthError::InvalidCredentials)
            && final(store)@ == old(store)@,
        req_user is Some ==> (match r {
            Ok(p) => {
                &&& old(store)@.next_id < i32::MAX
                &&& p@.id == old(store)@.next_id
                &&& p@.title == payload.title@
                &&& p@.body == payload.message@
                &&& p@.published == false
                &&& final(store)@.posts == old(store)@.posts.push(p@)
                &&& final(store)@.next_id == old(store)@.next_id + 1
            },
            Err(e) => {
                &&& e == AuthError::UnexpectedError
                &&& old(store)@.next_id == i32::MAX
                &&& final(store)@ == old(store)@
            },
        }),
{
    match req_user {
        None => Err(AuthError::InvalidCredentials),
        Some(_) => store.create_post(&payload.title, &payload.message),
    }
}

/// Fetch one post for the unauthenticated read endpoint: an absent id
/// yields an empty result, not an error.
pub fn show(store: &PostStore, post_id: i32) -> (r: Option<Post>)
    ensures
        match r {
            Some(p) => {
                &&& post_with_id(store@, post_id as int)
                &&& p@.id == post_id as int
                &&& forall|j: int|
                    0 <= j < store@.posts.len()
                        && (#[trigger] store@.posts[j]).id == post_id as int
                        ==> store@.posts[j] == p@
            },
            None => !post_with_id(store@, post_id as int),
        },
{
    store.find_by_id(post_id)
}

/// Creating a post through the protected endpoint with a validated
/// identity persists it: fetching the returned id afterwards yields a
/// post with the same title and body.
pub fn create_then_show(store: &mut PostStore, user: TokenClaims, payload: &PostPayload) -> (r:
    Option<Post>)
    requires
        old(store)@.next_id < i32::MAX,
    ensures
        (r matches Some(p) && p@.title == payload.title@ && p@.body == payload.message@),
{
    let created = create(store, Some(user), payload);
    match created {
        Ok(p) => {
            proof {
                let olds = old(store)@;
                let news = store@;
                assert(news.posts[olds.posts.len() as int] == p@);
                assert(post_with_id(news, p@.id));
                assert(forall|i: int|
                    0 <= i < olds.posts.len()
                        ==> #[trigger] news.posts[i] == olds.posts[i]);
            }
            show(store, p.id)
        },
        Err(_) => {
            // Unreachable: id space was left, so creation cannot fail.
            proof {
                assert(false);
            }
            None
        },
    }
}

} // verus!
