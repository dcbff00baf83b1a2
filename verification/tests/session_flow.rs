use shplank::records::{Comment, Post};
use shplank::session::{reload_after, Action, ComposeField, Screen, Session, UserLookup};

fn post(id: i64, title: &str, body: &str) -> Post {
    Post {
        id,
        author_id: 1,
        author_name: "shPlank".to_string(),
        title: title.to_string(),
        body: body.to_string(),
        created_at: "2024-01-01 00:00:00".to_string(),
    }
}

fn comment(id: i64, post_id: i64, who: &str, body: &str) -> Comment {
    Comment {
        id,
        post_id,
        author_id: 2,
        author_name: who.to_string(),
        body: body.to_string(),
        created_at: "2024-01-01 00:00:00".to_string(),
    }
}

fn three_posts() -> Vec<Post> {
    vec![post(10, "first", "a"), post(20, "second", "b"), post(30, "third", "c")]
}

/// A session on the list with three posts, the visitor known as user 7.
fn browsing(admin: bool) -> Session {
    let mut s = Session::new(1, Some("SHA256:admin".to_string()));
    s.authenticated(if admin { "SHA256:admin".to_string() } else { "SHA256:guest".to_string() });
    let a = s.shell_started();
    assert!(matches!(a, Action::LookupUser { ref fingerprint } if fingerprint.starts_with("SHA256:")));
    let a = s.user_resolved(UserLookup::Found(7));
    assert!(matches!(a, Action::LoadPosts));
    s.posts_loaded(Some(three_posts()));
    s
}

#[test]
fn fresh_session_starts_on_empty_list() {
    let s = Session::new(4, None);
    assert_eq!(s.id, 4);
    assert_eq!(s.screen, Screen::List);
    assert_eq!(s.selected, None);
    assert!(s.posts.is_empty());
    assert_eq!(s.compose_field, ComposeField::Body);
    assert!(!s.is_admin());
}

#[test]
fn loading_posts_highlights_first_row() {
    let s = browsing(false);
    assert_eq!(s.posts.len(), 3);
    assert_eq!(s.selected, Some(0));
    assert_eq!(s.user_id, Some(7));
}

#[test]
fn failed_post_load_leaves_empty_list() {
    let mut s = browsing(false);
    s.posts_loaded(None);
    assert!(s.posts.is_empty());
    assert_eq!(s.selected, None);
}

#[test]
fn ctrl_c_quits_from_every_screen() {
    let mut s = browsing(false);
    assert!(matches!(s.input(&[0x6e]), Action::Redraw));
    assert_eq!(s.screen, Screen::ComposePost);
    assert!(matches!(s.input(b"ab\x03cd"), Action::Close));
    assert_eq!(s.screen, Screen::ComposePost);
    assert_eq!(s.compose_title, "");
}

#[test]
fn q_quits_from_list_and_detail_only() {
    let mut s = browsing(false);
    assert!(matches!(s.input(b"q"), Action::Close));
    s.input(b"\r");
    assert_eq!(s.screen, Screen::Detail(0));
    assert!(matches!(s.input(b"q"), Action::Close));
    s.input(b"c");
    assert_eq!(s.screen, Screen::ComposeComment(0));
    assert!(matches!(s.input(b"q"), Action::Redraw));
    assert_eq!(s.compose_body, "q");
}

#[test]
fn arrows_move_within_the_list() {
    let mut s = browsing(false);
    s.input(b"\x1b[A");
    assert_eq!(s.selected, Some(0));
    s.input(b"\x1b[B");
    assert_eq!(s.selected, Some(1));
    s.input(b"\x1bOB");
    assert_eq!(s.selected, Some(2));
    s.input(b"\x1b[B");
    assert_eq!(s.selected, Some(2));
    s.input(b"\x1bOA");
    assert_eq!(s.selected, Some(1));
}

#[test]
fn enter_opens_post_and_b_goes_back() {
    let mut s = browsing(false);
    s.input(b"\x1b[B");
    let a = s.input(b"\r");
    assert!(matches!(a, Action::LoadComments { post_id: 20 }));
    assert_eq!(s.screen, Screen::Detail(1));
    s.comments_loaded(Some(vec![comment(1, 20, "bob", "hi")]));
    assert_eq!(s.comments.len(), 1);
    assert!(matches!(s.input(b"b"), Action::Redraw));
    assert_eq!(s.screen, Screen::List);
    assert_eq!(s.selected, Some(1));
    s.input(b"\r");
    s.input(&[0x1b]);
    assert_eq!(s.screen, Screen::List);
}

#[test]
fn failed_comment_load_leaves_none() {
    let mut s = browsing(false);
    s.input(b"\r");
    s.comments_loaded(Some(vec![comment(1, 10, "bob", "hi")]));
    s.comments_loaded(None);
    assert!(s.comments.is_empty());
}

#[test]
fn writing_a_post() {
    let mut s = browsing(false);
    s.input(b"n");
    assert_eq!(s.screen, Screen::ComposePost);
    assert_eq!(s.compose_field, ComposeField::Title);
    s.input(b"Hellp");
    s.input(&[0x7f]);
    s.input(b"o");
    s.input(b"\r");
    assert_eq!(s.compose_field, ComposeField::Body);
    s.input(b"line one");
    s.input(b"\r");
    s.input(b"two\x01\x1b[D");
    let a = s.input(&[0x04]);
    assert_eq!(s.screen, Screen::List);
    match a {
        Action::SubmitPost { author_id, title, body } => {
            assert_eq!(author_id, 7);
            assert_eq!(title, "Hello");
            assert_eq!(body, "line one\ntwo");
        }
        other => panic!("unexpected {:?}", other),
    }
}

#[test]
fn blank_title_is_not_submitted() {
    let mut s = browsing(false);
    s.input(b"n");
    s.input(b"   ");
    s.input(b"\r");
    s.input(b"body text");
    assert!(matches!(s.input(&[0x04]), Action::Redraw));
    assert_eq!(s.screen, Screen::List);
}

#[test]
fn escape_cancels_post() {
    let mut s = browsing(false);
    s.input(b"n");
    s.input(b"Title");
    assert!(matches!(s.input(&[0x1b]), Action::Redraw));
    assert_eq!(s.screen, Screen::List);
    assert_eq!(s.compose_title, "Title");
}

#[test]
fn writing_a_comment() {
    let mut s = browsing(false);
    s.input(b"\x1b[B");
    s.input(b"\x1b[B");
    s.input(b"\r");
    s.input(b"c");
    assert_eq!(s.screen, Screen::ComposeComment(2));
    s.input(b"nice");
    s.input(b"\r");
    s.input(b"post");
    let a = s.input(&[0x04]);
    assert_eq!(s.screen, Screen::Detail(2));
    match a {
        Action::SubmitComment { post_id, author_id, body } => {
            assert_eq!(post_id, 30);
            assert_eq!(author_id, 7);
            assert_eq!(body, "nice\npost");
        }
        other => panic!("unexpected {:?}", other),
    }
}

#[test]
fn blank_comment_is_not_submitted_and_escape_cancels() {
    let mut s = browsing(false);
    s.input(b"\r");
    s.input(b"c");
    s.input(b"\r");
    assert!(matches!(s.input(&[0x04]), Action::Redraw));
    assert_eq!(s.screen, Screen::Detail(0));
    s.input(b"c");
    s.input(b"draft");
    s.input(&[0x1b]);
    assert_eq!(s.screen, Screen::Detail(0));
}

#[test]
fn only_admin_can_delete() {
    let mut guest = browsing(false);
    assert!(matches!(guest.input(b"d"), Action::Redraw));
    assert_eq!(guest.screen, Screen::List);

    let mut admin = browsing(true);
    assert!(admin.is_admin());
    admin.input(b"\x1b[B");
    admin.input(b"d");
    assert_eq!(admin.screen, Screen::ConfirmDelete { index: 1, from_detail: false });
    assert!(matches!(admin.input(b"q"), Action::Redraw));
    assert_eq!(admin.screen, Screen::ConfirmDelete { index: 1, from_detail: false });
    admin.input(&[0x1b]);
    assert_eq!(admin.screen, Screen::List);
    admin.input(b"\r");
    admin.input(b"d");
    assert_eq!(admin.screen, Screen::ConfirmDelete { index: 1, from_detail: true });
    admin.input(&[0x1b]);
    assert_eq!(admin.screen, Screen::Detail(1));
    admin.input(b"d");
    let a = admin.input(b"\r");
    assert!(matches!(a, Action::DeletePost { post_id: 20 }));
    assert_eq!(admin.screen, Screen::List);
    admin.posts_loaded(Some(vec![post(10, "first", "a"), post(30, "third", "c")]));
    assert_eq!(admin.selected, Some(0));
    admin.input(b"d");
    assert!(matches!(admin.input(b"d"), Action::DeletePost { post_id: 10 }));
}

#[test]
fn unknown_visitor_chooses_a_name() {
    let mut s = Session::new(2, None);
    s.authenticated("SHA256:new".to_string());
    s.user_resolved(UserLookup::NotFound);
    assert_eq!(s.screen, Screen::SetName);
    s.posts_loaded(Some(three_posts()));
    assert_eq!(s.screen, Screen::SetName);
    assert!(matches!(s.input(b"\r"), Action::Redraw));
    s.input(b"quinn");
    assert_eq!(s.compose_body, "quinn");
    match s.input(b"\r") {
        Action::CreateUser { fingerprint, display_name } => {
            assert_eq!(fingerprint, "SHA256:new");
            assert_eq!(display_name, "quinn");
        }
        other => panic!("unexpected {:?}", other),
    }
    s.user_created(None);
    assert_eq!(s.screen, Screen::SetName);
    s.user_created(Some(9));
    assert_eq!(s.screen, Screen::List);
    assert_eq!(s.user_id, Some(9));
    s.input(b"n");
    s.input(b"mine");
    assert!(matches!(s.input(&[0x04]), Action::SubmitPost { author_id: 9, .. }));
}

#[test]
fn failed_lookup_writes_as_starter_account() {
    let mut s = Session::new(3, None);
    s.authenticated("SHA256:x".to_string());
    s.user_resolved(UserLookup::Failed);
    assert_eq!(s.screen, Screen::List);
    s.posts_loaded(Some(three_posts()));
    s.input(b"n");
    s.input(b"t");
    assert!(matches!(s.input(&[0x04]), Action::SubmitPost { author_id: 1, .. }));
}

#[test]
fn shell_without_key_just_loads_posts() {
    let s = Session::new(5, None);
    assert!(matches!(s.shell_started(), Action::LoadPosts));
}

#[test]
fn reload_with_fewer_posts_leaves_a_missing_post() {
    let mut s = browsing(false);
    s.input(b"\x1b[B");
    s.input(b"\x1b[B");
    s.input(b"\r");
    assert_eq!(s.screen, Screen::Detail(2));
    s.posts_loaded(Some(vec![post(10, "first", "a")]));
    assert_eq!(s.screen, Screen::List);
    assert_eq!(s.selected, Some(0));
}

#[test]
fn empty_list_ignores_navigation_but_allows_new_post() {
    let mut s = Session::new(6, None);
    assert!(matches!(s.input(b"\r"), Action::Redraw));
    assert!(matches!(s.input(b"\x1b[B"), Action::Redraw));
    assert_eq!(s.selected, None);
    s.input(b"n");
    assert_eq!(s.screen, Screen::ComposePost);
}

#[test]
fn writes_are_followed_by_reloads() {
    let p = Action::SubmitPost { author_id: 1, title: "t".to_string(), body: String::new() };
    assert!(matches!(reload_after(&p), Action::LoadPosts));
    let c = Action::SubmitComment { post_id: 42, author_id: 1, body: "b".to_string() };
    assert!(matches!(reload_after(&c), Action::LoadComments { post_id: 42 }));
    assert!(matches!(reload_after(&Action::DeletePost { post_id: 3 }), Action::LoadPosts));
    assert!(matches!(reload_after(&Action::LoadPosts), Action::Redraw));
    assert!(matches!(reload_after(&Action::Close), Action::Redraw));
}

#[test]
fn arrow_keys_while_composing_type_nothing() {
    let mut s = browsing(false);
    s.input(b"n");
    s.input(b"hi");
    s.input(b"\x1b[A");
    s.input(b"\x1b[D");
    s.input(b"\x1bOB");
    assert_eq!(s.compose_title, "hi");
    assert_eq!(s.screen, Screen::ComposePost);
    s.input(b"\r");
    s.input(b"x\x1b[1;5Cy");
    assert_eq!(s.compose_body, "xy");
}
