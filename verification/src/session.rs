//! The per-connection session: which screen the visitor is on, what they
//! have loaded and typed, and how each keystroke and each answer from the
//! database moves the session on.
//!
//! The session never touches the network or the database itself. Each
//! step returns an [`Action`] that names the outside work to do next; the
//! caller performs it and hands the outcome back through one of the
//! `*_loaded` / `user_*` methods.

use vstd::prelude::*;
use crate::records::{Comment, Post, SEED_USER_ID};
use crate::text::{apply_keys, blank, is_blank, keys_of, push_printable, string_push, typed};
pub use crate::text::{CSI, ESC, SS3};
use russh::keys::{HashAlg, PublicKey};

verus! {

/// The SHA-256 fingerprint (`SHA256:` and the unpadded base64 digest) of the
/// SSH public key whose wire encoding is `key`, or `None` when `key` is not
/// such an encoding.
pub uninterp spec fn sha256_fingerprint(key: Seq<u8>) -> Option<Seq<char>>;

/// Parses `key` with `russh::keys::PublicKey::from_bytes` and formats its
/// `fingerprint(HashAlg::Sha256)` with `to_string`.
///
/// Claimed of it: the result is `sha256_fingerprint` of the bytes (the key
/// data decoded from them alone decides the digest), `None` exactly when
/// parsing fails. What the text is, is not stated.
#[verifier::external_body]
fn fingerprint_of(key: &[u8]) -> (r: Option<String>)
    ensures
        opt_chars(r) == sha256_fingerprint(key@),
{
    match PublicKey::from_bytes(key) {
        Ok(k) => Some(k.fingerprint(HashAlg::Sha256).to_string()),
        Err(_) => None,
    }
}

/// Ctrl+C: disconnect, from any screen.
pub const CTRL_C: u8 = 0x03;

/// Ctrl+D: submit what is being composed.
pub const CTRL_D: u8 = 0x04;


/// Enter, as a terminal sends it (carriage return).
pub const ENTER: u8 = 0x0d;

/// `q`: quit, on the list and on a post's page.
pub const KEY_Q: u8 = 0x71;

/// `n`: write a new post, on the list.
pub const KEY_N: u8 = 0x6e;

/// `b`: back to the list, on a post's page.
pub const KEY_B: u8 = 0x62;

/// `c`: comment, on a post's page.
pub const KEY_C: u8 = 0x63;

/// `d`: delete (admin only), and confirm a delete.
pub const KEY_D: u8 = 0x64;

/// The last byte of the up arrow.
pub const ARROW_UP: u8 = 0x41;

/// The last byte of the down arrow.
pub const ARROW_DOWN: u8 = 0x42;

/// Which screen the visitor is looking at. The `usize` payloads index into
/// the session's loaded posts.
#[derive(Clone, Copy, Debug, PartialEq, Eq, Structural)]
pub enum Screen {
    List,
    Detail(usize),
    ComposePost,
    ComposeComment(usize),
    SetName,
    ConfirmDelete { index: usize, from_detail: bool },
}

/// Which field of the post composer has focus.
#[derive(Clone, Copy, Debug, PartialEq, Eq, Structural)]
pub enum ComposeField {
    Title,
    Body,
}

/// The outcome of looking a visitor's key up among the users.
#[derive(Clone, Copy, Debug, PartialEq, Eq, Structural)]
pub enum UserLookup {
    /// A user with this key exists; this is their id.
    Found(i64),
    /// No user has this key yet.
    NotFound,
    /// The lookup itself failed.
    Failed,
}

/// The outside work that a step of the session asks for.
#[derive(Debug)]
pub enum Action {
    /// Nothing to do beyond showing the new state.
    Redraw,
    /// Close the channel.
    Close,
    /// Look the visitor up by key fingerprint, then report through `user_resolved`.
    LookupUser { fingerprint: String },
    /// Load all posts, then report through `posts_loaded`.
    LoadPosts,
    /// Load the comments of a post, then report through `comments_loaded`.
    LoadComments { post_id: i64 },
    /// Store a new post, then reload all posts (`posts_loaded`).
    SubmitPost { author_id: i64, title: String, body: String },
    /// Store a new comment, then reload that post's comments (`comments_loaded`).
    SubmitComment { post_id: i64, author_id: i64, body: String },
    /// Create the visitor's user, then report through `user_created`.
    CreateUser { fingerprint: String, display_name: String },
    /// Delete a post with all its comments, then reload all posts (`posts_loaded`).
    DeletePost { post_id: i64 },
}

/// The mathematical meaning of an [`Action`].
pub enum ActionView {
    Redraw,
    Close,
    LookupUser { fingerprint: Seq<char> },
    LoadPosts,
    LoadComments { post_id: i64 },
    SubmitPost { author_id: i64, title: Seq<char>, body: Seq<char> },
    SubmitComment { post_id: i64, author_id: i64, body: Seq<char> },
    CreateUser { fingerprint: Seq<char>, display_name: Seq<char> },
    DeletePost { post_id: i64 },
}

impl View for Action {
    type V = ActionView;

    open spec fn view(&self) -> ActionView {
        match self {
            Action::Redraw => ActionView::Redraw,
            Action::Close => ActionView::Close,
            Action::LookupUser { fingerprint } => ActionView::LookupUser { fingerprint: fingerprint@ },
            Action::LoadPosts => ActionView::LoadPosts,
            Action::LoadComments { post_id } => ActionView::LoadComments { post_id: *post_id },
            Action::SubmitPost { author_id, title, body } => ActionView::SubmitPost {
                author_id: *author_id,
                title: title@,
                body: body@,
            },
            Action::SubmitComment { post_id, author_id, body } => ActionView::SubmitComment {
                post_id: *post_id,
                author_id: *author_id,
                body: body@,
            },
            Action::CreateUser { fingerprint, display_name } => ActionView::CreateUser {
                fingerprint: fingerprint@,
                display_name: display_name@,
            },
            Action::DeletePost { post_id } => ActionView::DeletePost { post_id: *post_id },
        }
    }
}

/// Everything one connection knows and has typed.
pub struct Session {
    /// The connection's number, for logging.
    pub id: usize,
    /// Fingerprint of the key the visitor authenticated with.
    pub fingerprint: Option<String>,
    /// Fingerprint of the one key that may delete posts.
    pub admin_fingerprint: Option<String>,
    /// The visitor's user id, once known.
    pub user_id: Option<i64>,
    /// The posts loaded from the database.
    pub posts: Vec<Post>,
    /// The comments of the post last opened.
    pub comments: Vec<Comment>,
    /// The highlighted row of the post list.
    pub selected: Option<usize>,
    pub screen: Screen,
    pub compose_title: String,
    /// The body of a post or comment being written, or the name being chosen.
    pub compose_body: String,
    pub compose_field: ComposeField,
}

/// The mathematical meaning of a [`Session`].
#[verifier::ext_equal]
pub struct SessionView {
    pub id: usize,
    pub fingerprint: Option<Seq<char>>,
    pub admin_fingerprint: Option<Seq<char>>,
    pub user_id: Option<i64>,
    pub posts: Seq<Post>,
    pub comments: Seq<Comment>,
    pub selected: Option<usize>,
    pub screen: Screen,
    pub title: Seq<char>,
    pub body: Seq<char>,
    pub field: ComposeField,
}

/// The characters of an optional string.
pub open spec fn opt_chars(o: Option<String>) -> Option<Seq<char>> {
    match o {
        Some(s) => Some(s@),
        None => None,
    }
}

impl View for Session {
    type V = SessionView;

    open spec fn view(&self) -> SessionView {
        SessionView {
            id: self.id,
            fingerprint: opt_chars(self.fingerprint),
            admin_fingerprint: opt_chars(self.admin_fingerprint),
            user_id: self.user_id,
            posts: self.posts@,
            comments: self.comments@,
            selected: self.selected,
            screen: self.screen,
            title: self.compose_title@,
            body: self.compose_body@,
            field: self.compose_field,
        }
    }
}

/// A character that can stand in a composed text: printable ASCII or a newline.
pub open spec fn typeable(c: char) -> bool {
    c == '\n' || (' ' <= c <= '~')
}

/// A text made of typeable characters only.
pub open spec fn all_typeable(s: Seq<char>) -> bool {
    forall|i: int| 0 <= i < s.len() ==> typeable(#[trigger] s[i])
}

impl SessionView {
    /// The visitor holds the admin key.
    pub open spec fn is_admin(self) -> bool {
        &&& self.fingerprint is Some
        &&& self.admin_fingerprint is Some
        &&& self.fingerprint->0 == self.admin_fingerprint->0
    }

    /// Whom new posts and comments are filed under.
    pub open spec fn author(self) -> i64 {
        match self.user_id {
            Some(u) => u,
            None => SEED_USER_ID,
        }
    }

    /// The highlighted row, or the first one when none is.
    pub open spec fn cursor(self) -> usize {
        match self.selected {
            Some(k) => k,
            None => 0,
        }
    }

    /// The post index that the screen refers to, if it refers to one.
    pub open spec fn screen_post(self) -> Option<usize> {
        match self.screen {
            Screen::Detail(i) => Some(i),
            Screen::ComposeComment(i) => Some(i),
            Screen::ConfirmDelete { index, .. } => Some(index),
            _ => None,
        }
    }

    /// The state a session is always in between steps: a row is highlighted
    /// exactly when there are posts, and inside the list; the screen's post
    /// exists; composed text holds typeable characters only.
    pub open spec fn wf(self) -> bool {
        &&& (self.selected is Some <==> self.posts.len() > 0)
        &&& (self.selected matches Some(k) ==> k < self.posts.len())
        &&& (self.screen_post() matches Some(i) ==> i < self.posts.len())
        &&& all_typeable(self.title)
        &&& all_typeable(self.body)
    }
}

/// `data` is exactly the one byte `b`.
pub open spec fn is_key(data: Seq<u8>, b: u8) -> bool {
    data == seq![b]
}

/// `data` is an arrow key, in either of the two encodings terminals use;
/// `last` is `A` for up and `B` for down.
pub open spec fn is_arrow(data: Seq<u8>, last: u8) -> bool {
    data == seq![ESC, CSI, last] || data == seq![ESC, SS3, last]
}

pub open spec fn is_up(data: Seq<u8>) -> bool {
    is_arrow(data, ARROW_UP)
}

pub open spec fn is_down(data: Seq<u8>) -> bool {
    is_arrow(data, ARROW_DOWN)
}

/// Keys on the post list.
pub open spec fn on_list(s: SessionView, d: Seq<u8>) -> (SessionView, ActionView) {
    if is_key(d, KEY_Q) {
        (s, ActionView::Close)
    } else if is_key(d, KEY_N) {
        (
            SessionView {
                screen: Screen::ComposePost,
                title: Seq::empty(),
                body: Seq::empty(),
                field: ComposeField::Title,
                ..s
            },
            ActionView::Redraw,
        )
    } else if s.posts.len() == 0 {
        (s, ActionView::Redraw)
    } else if is_key(d, KEY_D) && s.is_admin() {
        (
            SessionView { screen: Screen::ConfirmDelete { index: s.cursor(), from_detail: false }, ..s },
            ActionView::Redraw,
        )
    } else if is_up(d) {
        let k: usize = if s.cursor() == 0 { 0 } else { (s.cursor() - 1) as usize };
        (SessionView { selected: Some(k), ..s }, ActionView::Redraw)
    } else if is_down(d) {
        let k: usize = if s.cursor() + 1 < s.posts.len() {
            (s.cursor() + 1) as usize
        } else {
            (s.posts.len() - 1) as usize
        };
        (SessionView { selected: Some(k), ..s }, ActionView::Redraw)
    } else if is_key(d, ENTER) {
        (
            SessionView { screen: Screen::Detail(s.cursor()), ..s },
            ActionView::LoadComments { post_id: s.posts[s.cursor() as int].id },
        )
    } else {
        (s, ActionView::Redraw)
    }
}

/// Keys while reading post `i`.
pub open spec fn on_detail(s: SessionView, i: usize, d: Seq<u8>) -> (SessionView, ActionView) {
    if is_key(d, KEY_Q) {
        (s, ActionView::Close)
    } else if is_key(d, KEY_B) || is_key(d, ESC) {
        (SessionView { screen: Screen::List, ..s }, ActionView::Redraw)
    } else if is_key(d, KEY_C) {
        (
            SessionView {
                screen: Screen::ComposeComment(i),
                body: Seq::empty(),
                field: ComposeField::Body,
                ..s
            },
            ActionView::Redraw,
        )
    } else if is_key(d, KEY_D) && s.is_admin() {
        (
            SessionView { screen: Screen::ConfirmDelete { index: i, from_detail: true }, ..s },
            ActionView::Redraw,
        )
    } else {
        (s, ActionView::Redraw)
    }
}

/// Keys while writing a new post.
pub open spec fn on_compose_post(s: SessionView, d: Seq<u8>) -> (SessionView, ActionView) {
    if is_key(d, ESC) {
        (SessionView { screen: Screen::List, ..s }, ActionView::Redraw)
    } else if is_key(d, CTRL_D) {
        (
            SessionView { screen: Screen::List, ..s },
            if !blank(s.title) {
                ActionView::SubmitPost { author_id: s.author(), title: s.title, body: s.body }
            } else {
                ActionView::Redraw
            },
        )
    } else if is_key(d, ENTER) {
        match s.field {
            ComposeField::Title => (SessionView { field: ComposeField::Body, ..s }, ActionView::Redraw),
            ComposeField::Body => (SessionView { body: s.body.push('\n'), ..s }, ActionView::Redraw),
        }
    } else {
        match s.field {
            ComposeField::Title => (SessionView { title: typed(s.title, d), ..s }, ActionView::Redraw),
            ComposeField::Body => (SessionView { body: typed(s.body, d), ..s }, ActionView::Redraw),
        }
    }
}

/// Keys while writing a comment on post `i`.
pub open spec fn on_compose_comment(s: SessionView, i: usize, d: Seq<u8>) -> (SessionView, ActionView) {
    if is_key(d, ESC) {
        (SessionView { screen: Screen::Detail(i), ..s }, ActionView::Redraw)
    } else if is_key(d, CTRL_D) {
        (
            SessionView { screen: Screen::Detail(i), ..s },
            if !blank(s.body) {
                ActionView::SubmitComment { post_id: s.posts[i as int].id, author_id: s.author(), body: s.body }
            } else {
                ActionView::Redraw
            },
        )
    } else if is_key(d, ENTER) {
        (SessionView { body: s.body.push('\n'), ..s }, ActionView::Redraw)
    } else {
        (SessionView { body: typed(s.body, d), ..s }, ActionView::Redraw)
    }
}

/// Keys while a first-time visitor chooses a display name.
pub open spec fn on_set_name(s: SessionView, d: Seq<u8>) -> (SessionView, ActionView) {
    if is_key(d, ENTER) {
        if !blank(s.body) && s.fingerprint is Some {
            (s, ActionView::CreateUser { fingerprint: s.fingerprint->0, display_name: s.body })
        } else {
            (s, ActionView::Redraw)
        }
    } else {
        (SessionView { body: typed(s.body, d), ..s }, ActionView::Redraw)
    }
}

/// Keys while the delete confirmation for post `index` is shown.
pub open spec fn on_confirm_delete(s: SessionView, index: usize, from_detail: bool, d: Seq<u8>) -> (SessionView, ActionView) {
    let back = if from_detail { Screen::Detail(index) } else { Screen::List };
    if is_key(d, ENTER) || is_key(d, KEY_D) {
        if s.is_admin() {
            (SessionView { screen: Screen::List, ..s }, ActionView::DeletePost { post_id: s.posts[index as int].id })
        } else {
            (SessionView { screen: back, ..s }, ActionView::Redraw)
        }
    } else if is_key(d, ESC) {
        (SessionView { screen: back, ..s }, ActionView::Redraw)
    } else {
        (s, ActionView::Redraw)
    }
}

/// What the bytes `d` of one keystroke (or paste) do to the session.
pub open spec fn on_input(s: SessionView, d: Seq<u8>) -> (SessionView, ActionView) {
    if d.contains(CTRL_C) {
        (s, ActionView::Close)
    } else {
        match s.screen {
            Screen::List => on_list(s, d),
            Screen::Detail(i) => on_detail(s, i, d),
            Screen::ComposePost => on_compose_post(s, d),
            Screen::ComposeComment(i) => on_compose_comment(s, i, d),
            Screen::SetName => on_set_name(s, d),
            Screen::ConfirmDelete { index, from_detail } => on_confirm_delete(s, index, from_detail, d),
        }
    }
}

/// A fresh connection: nothing loaded, nobody known yet.
pub open spec fn fresh(id: usize, admin_fingerprint: Option<Seq<char>>) -> SessionView {
    SessionView {
        id,
        fingerprint: None,
        admin_fingerprint,
        user_id: None,
        posts: Seq::empty(),
        comments: Seq::empty(),
        selected: None,
        screen: Screen::List,
        title: Seq::empty(),
        body: Seq::empty(),
        field: ComposeField::Body,
    }
}

/// The visitor opened a shell: find out who they are, or just load the posts
/// when their key is unknown to the session.
pub open spec fn on_shell(s: SessionView) -> ActionView {
    match s.fingerprint {
        Some(fp) => ActionView::LookupUser { fingerprint: fp },
        None => ActionView::LoadPosts,
    }
}

/// The answer to a user lookup. A known key lands on the list; an unknown one
/// is asked for a display name; a failed lookup carries on without a user.
/// The posts are loaded next in every case.
pub open spec fn on_user_resolved(s: SessionView, lookup: UserLookup) -> SessionView {
    match lookup {
        UserLookup::Found(id) => SessionView { user_id: Some(id), screen: Screen::List, ..s },
        UserLookup::NotFound => if s.fingerprint is Some {
            SessionView { screen: Screen::SetName, body: Seq::empty(), field: ComposeField::Body, ..s }
        } else {
            SessionView { screen: Screen::List, ..s }
        },
        UserLookup::Failed => SessionView { screen: Screen::List, ..s },
    }
}

/// Freshly loaded posts replace the old ones; the first row is highlighted;
/// a screen whose post is gone falls back to the list.
pub open spec fn on_posts_loaded(s: SessionView, posts: Seq<Post>) -> SessionView {
    let t = SessionView {
        posts,
        selected: if posts.len() > 0 { Some(0usize) } else { None },
        ..s
    };
    if t.screen_post() matches Some(i) && i >= posts.len() {
        SessionView { screen: Screen::List, ..t }
    } else {
        t
    }
}

/// The answer to creating the visitor's user: with an id, the visitor is that
/// user and lands on the list; without one, nothing changes.
pub open spec fn on_user_created(s: SessionView, created: Option<i64>) -> SessionView {
    match created {
        Some(id) => SessionView { user_id: Some(id), screen: Screen::List, ..s },
        None => s,
    }
}

/// Whether `data` is exactly the one byte `b`.
fn key_is(data: &[u8], b: u8) -> (r: bool)
    ensures
        r == is_key(data@, b),
{
    if data.len() == 1 && data[0] == b {
        assert(data@ =~= seq![b]);
        true
    } else {
        false
    }
}

/// Whether `data` is the arrow key ending in `last`.
fn arrow_is(data: &[u8], last: u8) -> (r: bool)
    ensures
        r == is_arrow(data@, last),
{
    if data.len() == 3 && data[0] == ESC && (data[1] == CSI || data[1] == SS3) && data[2] == last {
        if data[1] == CSI {
            assert(data@ =~= seq![ESC, CSI, last]);
        } else {
            assert(data@ =~= seq![ESC, SS3, last]);
        }
        true
    } else {
        assert(data@ != seq![ESC, CSI, last]) by {
            if data@ == seq![ESC, CSI, last] {
                assert(data@[1] == CSI);
            }
        }
        assert(data@ != seq![ESC, SS3, last]) by {
            if data@ == seq![ESC, SS3, last] {
                assert(data@[1] == SS3);
            }
        }
        false
    }
}

/// Whether `data` holds the byte `b` anywhere.
fn holds_byte(data: &[u8], b: u8) -> (r: bool)
    ensures
        r == data@.contains(b),
{
    let mut i: usize = 0;
    while i < data.len()
        invariant
            i <= data@.len(),
            forall|j: int| 0 <= j < i ==> data@[j] != b,
        decreases data@.len() - i,
    {
        if data[i] == b {
            assert(data@[i as int] == b);
            return true;
        }
        i = i + 1;
    }
    false
}

/// Typing keeps a text typeable.
pub proof fn lemma_typed_typeable(buf: Seq<char>, d: Seq<u8>)
    requires
        all_typeable(buf),
    ensures
        all_typeable(typed(buf, d)),
{
    lemma_apply_typeable(buf, keys_of(d));
}

/// Applying keys keeps a text typeable.
proof fn lemma_apply_typeable(buf: Seq<char>, k: Seq<u8>)
    requires
        all_typeable(buf),
    ensures
        all_typeable(apply_keys(buf, k)),
    decreases k.len(),
{
    if k.len() > 0 {
        lemma_apply_typeable(buf, k.drop_last());
        let b = k.last();
        if crate::text::is_erase(b) {
        } else if crate::text::is_printable(b) {
            assert(typeable(b as char));
        }
    }
}


/// Every keystroke keeps a well-formed session well formed: in particular
/// composed text only ever holds printable ASCII and newlines, and every post
/// index the screen holds stays inside the loaded posts.
pub proof fn law_keystrokes_keep_wf(s: SessionView, d: Seq<u8>)
    requires
        s.wf(),
    ensures
        on_input(s, d).0.wf(),
{
    lemma_typed_typeable(s.title, d);
    lemma_typed_typeable(s.body, d);
    let body_nl = s.body.push('\n');
    assert forall|i: int| 0 <= i < body_nl.len() implies typeable(#[trigger] body_nl[i]) by {
        if i < s.body.len() {
            assert(body_nl[i] == s.body[i]);
        }
    }
}

/// What to load again after the write `write` was carried out, so that the
/// database stays the one source of truth: all posts after a post was stored
/// or deleted, the post's comments after a comment was stored. Anything that
/// is not a write needs nothing loaded.
pub open spec fn reload_after_spec(write: ActionView) -> ActionView {
    match write {
        ActionView::SubmitPost { .. } => ActionView::LoadPosts,
        ActionView::DeletePost { .. } => ActionView::LoadPosts,
        ActionView::SubmitComment { post_id, .. } => ActionView::LoadComments { post_id },
        _ => ActionView::Redraw,
    }
}

/// What to load again once the write `write` has been carried out (whether
/// or not it succeeded).
pub fn reload_after(write: &Action) -> (next: Action)
    ensures
        next@ == reload_after_spec(write@),
{
    match write {
        Action::SubmitPost { .. } => Action::LoadPosts,
        Action::DeletePost { .. } => Action::LoadPosts,
        Action::SubmitComment { post_id, .. } => Action::LoadComments { post_id: *post_id },
        _ => Action::Redraw,
    }
}

impl Session {
    /// A fresh session for connection number `id`; `admin_fingerprint` names the
    /// key that may delete posts.
    pub fn new(id: usize, admin_fingerprint: Option<String>) -> (s: Session)
        ensures
            s@ == fresh(id, opt_chars(admin_fingerprint)),
            s@.wf(),
    {
        Session {
            id,
            fingerprint: None,
            admin_fingerprint,
            user_id: None,
            posts: Vec::new(),
            comments: Vec::new(),
            selected: None,
            screen: Screen::List,
            compose_title: String::new(),
            compose_body: String::new(),
            compose_field: ComposeField::Body,
        }
    }

    /// Whether the visitor holds the admin key.
    pub fn is_admin(&self) -> (r: bool)
        ensures
            r == self@.is_admin(),
    {
        match (&self.fingerprint, &self.admin_fingerprint) {
            (Some(fp), Some(admin)) => fp.eq(admin),
            _ => false,
        }
    }

    /// The visitor authenticated with the key whose fingerprint is given.
    pub fn authenticated(&mut self, fingerprint: String)
        requires
            old(self)@.wf(),
        ensures
            final(self)@ == (SessionView { fingerprint: Some(fingerprint@), ..old(self)@ }),
            final(self)@.wf(),
    {
        self.fingerprint = Some(fingerprint);
    }

    /// The visitor authenticated with the SSH public key whose wire encoding
    /// is `key`; its fingerprint becomes the visitor's identity (none if the
    /// bytes are not a key).
    pub fn authenticate_key(&mut self, key: &[u8])
        requires
            old(self)@.wf(),
        ensures
            final(self)@ == (SessionView { fingerprint: sha256_fingerprint(key@), ..old(self)@ }),
            final(self)@.wf(),
    {
        match fingerprint_of(key) {
            Some(fp) => self.authenticated(fp),
            None => {
                self.fingerprint = None;
            },
        }
    }

    /// The visitor opened a shell.
    pub fn shell_started(&self) -> (action: Action)
        ensures
            action@ == on_shell(self@),
    {
        match &self.fingerprint {
            Some(fp) => Action::LookupUser { fingerprint: fp.clone() },
            None => Action::LoadPosts,
        }
    }

    /// The outcome of looking the visitor up; the posts are to be loaded next.
    pub fn user_resolved(&mut self, lookup: UserLookup) -> (action: Action)
        requires
            old(self)@.wf(),
        ensures
            final(self)@ == on_user_resolved(old(self)@, lookup),
            final(self)@.wf(),
            action@ == ActionView::LoadPosts,
    {
        match lookup {
            UserLookup::Found(id) => {
                self.user_id = Some(id);
                self.screen = Screen::List;
            },
            UserLookup::NotFound => {
                if self.fingerprint.is_some() {
                    self.screen = Screen::SetName;
                    self.compose_body = String::new();
                    self.compose_field = ComposeField::Body;
                } else {
                    self.screen = Screen::List;
                }
            },
            UserLookup::Failed => {
                self.screen = Screen::List;
            },
        }
        Action::LoadPosts
    }

    /// Posts were loaded (`None` when loading failed, which leaves none).
    pub fn posts_loaded(&mut self, loaded: Option<Vec<Post>>)
        requires
            old(self)@.wf(),
        ensures
            final(self)@ == on_posts_loaded(
                old(self)@,
                match loaded {
                    Some(v) => v@,
                    None => Seq::<Post>::empty(),
                },
            ),
            final(self)@.wf(),
    {
        let posts = match loaded {
            Some(v) => v,
            None => Vec::new(),
        };
        let n = posts.len();
        self.posts = posts;
        self.selected = if n > 0 { Some(0) } else { None };
        let stale = match self.screen {
            Screen::Detail(i) => i >= n,
            Screen::ComposeComment(i) => i >= n,
            Screen::ConfirmDelete { index, .. } => index >= n,
            _ => false,
        };
        if stale {
            self.screen = Screen::List;
        }
    }

    /// Comments were loaded (`None` when loading failed, which leaves none).
    pub fn comments_loaded(&mut self, loaded: Option<Vec<Comment>>)
        requires
            old(self)@.wf(),
        ensures
            final(self)@ == (SessionView {
                comments: match loaded {
                    Some(v) => v@,
                    None => Seq::<Comment>::empty(),
                },
                ..old(self)@
            }),
            final(self)@.wf(),
    {
        self.comments = match loaded {
            Some(v) => v,
            None => Vec::new(),
        };
    }

    /// The visitor's user was created (`Some(id)`), or creating it failed (`None`).
    pub fn user_created(&mut self, created: Option<i64>)
        requires
            old(self)@.wf(),
        ensures
            final(self)@ == on_user_created(old(self)@, created),
            final(self)@.wf(),
    {
        if let Some(id) = created {
            self.user_id = Some(id);
            self.screen = Screen::List;
        }
    }

    /// The author id under which this visitor's writing is stored.
    fn author(&self) -> (a: i64)
        ensures
            a == self@.author(),
    {
        match self.user_id {
            Some(u) => u,
            None => SEED_USER_ID,
        }
    }

    /// The visitor typed (or pasted) the bytes `data`.
    pub fn input(&mut self, data: &[u8]) -> (action: Action)
        requires
            old(self)@.wf(),
        ensures
            final(self)@ == on_input(old(self)@, data@).0,
            action@ == on_input(old(self)@, data@).1,
            final(self)@.wf(),
    {
        proof {
            law_keystrokes_keep_wf(self@, data@);
        }
        if holds_byte(data, CTRL_C) {
            return Action::Close;
        }
        match self.screen {
            Screen::List => {
                if key_is(data, KEY_Q) {
                    return Action::Close;
                }
                if key_is(data, KEY_N) {
                    self.compose_title = String::new();
                    self.compose_body = String::new();
                    self.compose_field = ComposeField::Title;
                    self.screen = Screen::ComposePost;
                    return Action::Redraw;
                }
                let len = self.posts.len();
                if len == 0 {
                    return Action::Redraw;
                }
                let cur = match self.selected {
                    Some(k) => k,
                    None => 0,
                };
                if key_is(data, KEY_D) && self.is_admin() {
                    self.screen = Screen::ConfirmDelete { index: cur, from_detail: false };
                    Action::Redraw
                } else if arrow_is(data, ARROW_UP) {
                    self.selected = Some(if cur == 0 { 0 } else { cur - 1 });
                    Action::Redraw
                } else if arrow_is(data, ARROW_DOWN) {
                    self.selected = Some(if cur + 1 < len { cur + 1 } else { len - 1 });
                    Action::Redraw
                } else if key_is(data, ENTER) {
                    self.screen = Screen::Detail(cur);
                    Action::LoadComments { post_id: self.posts[cur].id }
                } else {
                    Action::Redraw
                }
            },
            Screen::Detail(i) => {
                if key_is(data, KEY_Q) {
                    Action::Close
                } else if key_is(data, KEY_B) || key_is(data, ESC) {
                    self.screen = Screen::List;
                    Action::Redraw
                } else if key_is(data, KEY_C) {
                    self.compose_body = String::new();
                    self.compose_field = ComposeField::Body;
                    self.screen = Screen::ComposeComment(i);
                    Action::Redraw
                } else if key_is(data, KEY_D) && self.is_admin() {
                    self.screen = Screen::ConfirmDelete { index: i, from_detail: true };
                    Action::Redraw
                } else {
                    Action::Redraw
                }
            },
            Screen::ComposePost => {
                if key_is(data, ESC) {
                    self.screen = Screen::List;
                    Action::Redraw
                } else if key_is(data, CTRL_D) {
                    self.screen = Screen::List;
                    if !is_blank(self.compose_title.as_str()) {
                        Action::SubmitPost {
                            author_id: self.author(),
                            title: self.compose_title.clone(),
                            body: self.compose_body.clone(),
                        }
                    } else {
                        Action::Redraw
                    }
                } else if key_is(data, ENTER) {
                    match self.compose_field {
                        ComposeField::Title => self.compose_field = ComposeField::Body,
                        ComposeField::Body => string_push(&mut self.compose_body, '\n'),
                    }
                    Action::Redraw
                } else {
                    match self.compose_field {
                        ComposeField::Title => push_printable(&mut self.compose_title, data),
                        ComposeField::Body => push_printable(&mut self.compose_body, data),
                    }
                    Action::Redraw
                }
            },
            Screen::ComposeComment(i) => {
                if key_is(data, ESC) {
                    self.screen = Screen::Detail(i);
                    Action::Redraw
                } else if key_is(data, CTRL_D) {
                    self.screen = Screen::Detail(i);
                    if !is_blank(self.compose_body.as_str()) {
                        Action::SubmitComment {
                            post_id: self.posts[i].id,
                            author_id: self.author(),
                            body: self.compose_body.clone(),
                        }
                    } else {
                        Action::Redraw
                    }
                } else if key_is(data, ENTER) {
                    string_push(&mut self.compose_body, '\n');
                    Action::Redraw
                } else {
                    push_printable(&mut self.compose_body, data);
                    Action::Redraw
                }
            },
            Screen::SetName => {
                if key_is(data, ENTER) {
                    match &self.fingerprint {
                        Some(fp) => {
                            if !is_blank(self.compose_body.as_str()) {
                                Action::CreateUser {
                                    fingerprint: fp.clone(),
                                    display_name: self.compose_body.clone(),
                                }
                            } else {
                                Action::Redraw
                            }
                        },
                        None => Action::Redraw,
                    }
                } else {
                    push_printable(&mut self.compose_body, data);
                    Action::Redraw
                }
            },
            Screen::ConfirmDelete { index, from_detail } => {
                let back = if from_detail { Screen::Detail(index) } else { Screen::List };
                if key_is(data, ENTER) || key_is(data, KEY_D) {
                    if self.is_admin() {
                        self.screen = Screen::List;
                        Action::DeletePost { post_id: self.posts[index].id }
                    } else {
                        self.screen = back;
                        Action::Redraw
                    }
                } else if key_is(data, ESC) {
                    self.screen = back;
                    Action::Redraw
                } else {
                    Action::Redraw
                }
            },
        }
    }
}

} // verus!
