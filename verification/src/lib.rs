//! A small CRUD backend library: user registration, password login that
//! issues a signed bearer token, and a `posts` resource.
//!
//! The verified core is the token codec (issue and verify a signed,
//! stateless token carrying a user id), the authentication gate that
//! admits or rejects a request from such a token, and the user and post
//! stores with the handler logic over them. HTTP transport and real
//! persistence sit outside this crate and hand it plain values.

pub mod auth;
pub mod errors;
pub mod handlers;
pub mod models;
