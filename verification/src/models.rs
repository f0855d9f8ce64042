//! The data shapes of the backend: stored records (`Users`, `Post`),
//! the insertable shapes (`NewUser`, `NewPost`) and the request payloads
//! (`UserPayload`, `PostPayload`), each with a mathematical view.

use vstd::prelude::*;

verus! {

/// A stored user record: unique id, unique username, and the one-way
/// password hash (never the password itself).
#[derive(Debug)]
pub struct Users {
    pub id: i32,
    pub username: String,
    pub password: String,
}

/// The mathematical shape of a stored user.
pub ghost struct UserView {
    pub id: int,
    pub username: Seq<char>,
    pub password: Seq<char>,
}

impl View for Users {
    type V = UserView;

    open spec fn view(&self) -> UserView {
        UserView {
            id: self.id as int,
            username: self.username@,
            password: self.password@,
        }
    }
}

impl Users {
    /// An explicit copy, with a contract saying the fields carry over.
    pub fn duplicate(&self) -> (u: Users)
        ensures
            u@ == self@,
    {
        Users {
            id: self.id,
            username: self.username.clone(),
            password: self.password.clone(),
        }
    }
}

/// A stored post record.
#[derive(Debug)]
pub struct Post {
    pub id: i32,
    pub title: String,
    pub body: String,
    pub published: bool,
}

/// The mathematical shape of a stored post.
pub ghost struct PostView {
    pub id: int,
    pub title: Seq<char>,
    pub body: Seq<char>,
    pub published: bool,
}

impl View for Post {
    type V = PostView;

    open spec fn view(&self) -> PostView {
        PostView {
            id: self.id as int,
            title: self.title@,
            body: self.body@,
            published: self.published,
        }
    }
}

impl Post {
    /// An explicit copy, with a contract saying the fields carry over.
    pub fn duplicate(&self) -> (p: Post)
        ensures
            p@ == self@,
    {
        Post {
            id: self.id,
            title: self.title.clone(),
            body: self.body.clone(),
            published: self.published,
        }
    }
}

/// A post as handed to the store for insertion: the id and the
/// published flag are chosen by the store.
#[derive(Debug)]
pub struct NewPost {
    pub title: String,
    pub body: String,
}

/// A user as handed to the store for insertion: the id is chosen by
/// the store, the password field already holds the hash.
#[derive(Debug)]
pub struct NewUser {
    pub username: String,
    pub password: String,
}

/// The request body for creating a post.
#[derive(Debug)]
pub struct PostPayload {
    pub title: String,
    pub message: String,
}

/// The request body for creating a user.
#[derive(Debug)]
pub struct UserPayload {
    pub username: String,
    pub password: String,
}

} // verus!
