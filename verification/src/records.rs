//! The forum's stored records: posts, comments and users, as the database
//! hands them back (the author's display name joined in).

use vstd::prelude::*;

verus! {

/// One post, with its author's display name.
#[derive(Debug)]
pub struct Post {
    pub id: i64,
    pub author_id: i64,
    pub author_name: String,
    pub title: String,
    pub body: String,
    pub created_at: String,
}

/// One comment on a post, with its author's display name.
#[derive(Debug)]
pub struct Comment {
    pub id: i64,
    pub post_id: i64,
    pub author_id: i64,
    pub author_name: String,
    pub body: String,
    pub created_at: String,
}

/// One user. A user is identified by the fingerprint of their SSH key.
#[derive(Debug)]
pub struct User {
    pub id: i64,
    pub fingerprint: String,
    pub display_name: String,
    pub created_at: String,
}

/// The id of the account that owns the starter content; posts written
/// before a connection has an account of its own are filed under it too.
pub const SEED_USER_ID: i64 = 1;

} // verus!
