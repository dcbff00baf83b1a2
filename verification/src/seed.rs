//! The starter content a new forum is filled with: one account that owns
//! it, five posts and a few comments on them.

use vstd::prelude::*;
use crate::records::SEED_USER_ID;

verus! {

/// The fingerprint under which the starter account is stored; no real key
/// has it.
pub const SEED_FINGERPRINT: &'static str = "seed";

/// The display name of the starter account.
pub const SEED_DISPLAY_NAME: &'static str = "shPlank";

pub const WELCOME_TITLE: &'static str = "Welcome to shPlank";

pub const WELCOME_BODY: &'static str = "Welcome to shPlank — a terminal forum you access over SSH. No browser, no app, no JavaScript. Just connect and read.\n\n            The interface is a TUI (text user interface) rendered straight down your SSH channel using a Rust library called ratatui. Posts live in a SQLite database on the server. Arrow keys navigate, Enter opens a post, b goes back, q quits.";

pub const WHY_RUST_TITLE: &'static str = "Why Rust?";

pub const WHY_RUST_BODY: &'static str = "Rust is a systems programming language focused on safety and performance. Unlike C++, it catches memory errors — use-after-free, null pointer dereferences, data races — at compile time rather than at runtime. The tradeoff is a steeper learning curve, particularly around ownership and borrowing.\n\n            This project uses Rust partly because it's the right tool (single binary, low overhead, great async support via tokio) and partly as a deliberate learning exercise. The SSH layer, TUI rendering, and database access are all handled by mature Rust crates: russh, ratatui, and sqlx.";

pub const HOW_SSH_TITLE: &'static str = "How SSH works (briefly)";

pub const HOW_SSH_BODY: &'static str = "SSH (Secure Shell) is a protocol for encrypted communication between two machines. Most people use it to get a shell on a remote server, but the protocol is more general than that — it supports multiplexed channels, port forwarding, and custom session types.\n\n            shPlank hijacks the shell channel. When you connect, instead of dropping you into bash, the server starts a TUI session. Your keypresses travel over the SSH channel as raw bytes, and the rendered screen travels back the same way. The server never gives you a real shell — it just speaks SSH and draws pixels.";

pub const SQLITE_TITLE: &'static str = "SQLite: the most deployed database in the world";

pub const SQLITE_BODY: &'static str = "SQLite is not a database server — it's a library that reads and writes a single file. There's no separate process to run, no connection string with a host and port, no user management. The database is just a file on disk, and the library is linked directly into your application.\n\n            This makes it an ideal fit for shPlank. The entire forum — every post, every comment, every user — lives in one file: shplank.db. Backing up the forum means copying one file. Migrating to new hardware means copying one file. For a single-process app on a local network, SQLite is not a compromise; it's the right tool.";

pub const OWNERSHIP_TITLE: &'static str = "Ownership in Rust: the core idea";

pub const OWNERSHIP_BODY: &'static str = "Every value in Rust has exactly one owner. When the owner goes out of scope, the value is freed — automatically, with no garbage collector. You can lend a value out as a reference (borrowing), but the compiler enforces that references don't outlive the data they point to, and that you never have a mutable reference coexisting with any other reference.\n\n            This sounds restrictive, but it eliminates an entire class of bugs at compile time. In practice, the borrow checker mostly gets out of the way once you understand it. The times it does push back — like needing to pull field borrows out of method calls — are usually pointing at a real design issue worth thinking about.";

pub const COMMENT_1: &'static str = "Glad to be here. The SSH-only approach is a great idea — no attack surface from a web frontend.";

pub const COMMENT_2: &'static str = "First time I've used a forum over SSH. The latency is surprisingly good on a local network.";

pub const COMMENT_3: &'static str = "The borrow checker felt hostile at first. Once it clicked that it's preventing real bugs rather than being pedantic, it got a lot easier to work with.";

pub const COMMENT_4: &'static str = "The hijacked shell channel is a clever trick. Most SSH tooling assumes you want a real shell, so doing something else with the session is surprisingly straightforward with russh.";

pub const COMMENT_5: &'static str = "The disjoint field borrow rule is the thing that trips everyone up. Once you know to reach for individual fields instead of &self methods inside a mutable block, it becomes second nature.";

/// A post to store: who wrote it, its title and its body.
#[derive(Debug)]
pub struct SeedPost {
    pub author_id: i64,
    pub title: String,
    pub body: String,
}

/// A comment to store: the post it belongs to, who wrote it, its body.
#[derive(Debug)]
pub struct SeedComment {
    pub post_id: i64,
    pub author_id: i64,
    pub body: String,
}

/// The starter content, in the order it is to be stored (the account first,
/// since the posts and comments refer to it; posts get ids 1 to 5 in order).
#[derive(Debug)]
pub struct Seed {
    pub user_id: i64,
    pub fingerprint: String,
    pub display_name: String,
    pub posts: Vec<SeedPost>,
    pub comments: Vec<SeedComment>,
}

/// A forum with `post_count` posts needs its starter content only when it
/// holds no post at all.
pub open spec fn needs_seed_spec(post_count: int) -> bool {
    post_count == 0
}

/// Whether the forum still needs its starter content: only when it holds no
/// post at all, so that restarts do not pile up duplicates.
pub fn needs_seed(post_count: i64) -> (r: bool)
    ensures
        r == needs_seed_spec(post_count as int),
        r <==> post_count == 0,
{
    post_count == 0
}

/// Seeding happens at most once: once the starter posts are stored (the
/// forum holds at least as many posts as they are), every later start finds
/// nothing to seed. (Only a forum whose posts were all deleted asks again.)
pub proof fn law_seed_only_once(post_count: int)
    requires
        post_count >= seed_posts_spec().len(),
    ensures
        !needs_seed_spec(post_count),
        seed_posts_spec().len() > 0,
{
}

/// The starter posts: author, title, body.
pub open spec fn seed_posts_spec() -> Seq<(i64, Seq<char>, Seq<char>)> {
    seq![
        (SEED_USER_ID, WELCOME_TITLE@, WELCOME_BODY@),
        (SEED_USER_ID, WHY_RUST_TITLE@, WHY_RUST_BODY@),
        (SEED_USER_ID, HOW_SSH_TITLE@, HOW_SSH_BODY@),
        (SEED_USER_ID, SQLITE_TITLE@, SQLITE_BODY@),
        (SEED_USER_ID, OWNERSHIP_TITLE@, OWNERSHIP_BODY@),
    ]
}

/// The starter comments: post, author, body.
pub open spec fn seed_comments_spec() -> Seq<(i64, i64, Seq<char>)> {
    seq![
        (1i64, SEED_USER_ID, COMMENT_1@),
        (1i64, SEED_USER_ID, COMMENT_2@),
        (2i64, SEED_USER_ID, COMMENT_3@),
        (3i64, SEED_USER_ID, COMMENT_4@),
        (5i64, SEED_USER_ID, COMMENT_5@),
    ]
}

pub open spec fn seed_post_view(p: SeedPost) -> (i64, Seq<char>, Seq<char>) {
    (p.author_id, p.title@, p.body@)
}

pub open spec fn seed_comment_view(c: SeedComment) -> (i64, i64, Seq<char>) {
    (c.post_id, c.author_id, c.body@)
}

fn post(title: &str, body: &str) -> (p: SeedPost)
    ensures
        seed_post_view(p) == (SEED_USER_ID, title@, body@),
{
    SeedPost { author_id: SEED_USER_ID, title: title.to_owned(), body: body.to_owned() }
}

fn comment(post_id: i64, body: &str) -> (c: SeedComment)
    ensures
        seed_comment_view(c) == (post_id, SEED_USER_ID, body@),
{
    SeedComment { post_id, author_id: SEED_USER_ID, body: body.to_owned() }
}

/// The starter content.
pub fn seed_data() -> (s: Seed)
    ensures
        s.user_id == SEED_USER_ID,
        s.fingerprint@ == SEED_FINGERPRINT@,
        s.display_name@ == SEED_DISPLAY_NAME@,
        s.posts@.map_values(|p: SeedPost| seed_post_view(p)) == seed_posts_spec(),
        s.comments@.map_values(|c: SeedComment| seed_comment_view(c)) == seed_comments_spec(),
{
    let mut posts: Vec<SeedPost> = Vec::new();
    posts.push(post(WELCOME_TITLE, WELCOME_BODY));
    posts.push(post(WHY_RUST_TITLE, WHY_RUST_BODY));
    posts.push(post(HOW_SSH_TITLE, HOW_SSH_BODY));
    posts.push(post(SQLITE_TITLE, SQLITE_BODY));
    posts.push(post(OWNERSHIP_TITLE, OWNERSHIP_BODY));
    let mut comments: Vec<SeedComment> = Vec::new();
    comments.push(comment(1, COMMENT_1));
    comments.push(comment(1, COMMENT_2));
    comments.push(comment(2, COMMENT_3));
    comments.push(comment(3, COMMENT_4));
    comments.push(comment(5, COMMENT_5));
    assert(posts@.map_values(|p: SeedPost| seed_post_view(p)) =~= seed_posts_spec());
    assert(comments@.map_values(|c: SeedComment| seed_comment_view(c)) =~= seed_comments_spec());
    Seed {
        user_id: SEED_USER_ID,
        fingerprint: SEED_FINGERPRINT.to_owned(),
        display_name: SEED_DISPLAY_NAME.to_owned(),
        posts,
        comments,
    }
}

} // verus!
