use shplank::layout::{centered_rect, sidebar_split, Area};
use shplank::records::{Comment, Post};
use shplank::screens::{
    comment_count_label, compose_comment_lines, compose_post_lines, confirm_lines, detail_commands,
    detail_lines, list_commands, page, post_titles, set_name_commands, set_name_lines, Border, Content, Line, Tone,
};
use shplank::seed::{needs_seed, seed_data};
use shplank::server::AppServer;
use shplank::session::{ComposeField, Session, UserLookup};
use shplank::text::{is_blank, padded_left, push_printable, split_lines};

fn post(id: i64, title: &str, body: &str) -> Post {
    Post {
        id,
        author_id: 1,
        author_name: "ann".to_string(),
        title: title.to_string(),
        body: body.to_string(),
        created_at: String::new(),
    }
}

fn comment(who: &str, body: &str) -> Comment {
    Comment { id: 1, post_id: 1, author_id: 2, author_name: who.to_string(), body: body.to_string(), created_at: String::new() }
}

fn texts(lines: &[Line]) -> Vec<(String, Tone)> {
    lines.iter().map(|l| (l.text.clone(), l.tone)).collect()
}

fn t(s: &str, tone: Tone) -> (String, Tone) {
    (s.to_string(), tone)
}

#[test]
fn push_printable_edits_like_a_terminal() {
    let mut b = String::from("ab");
    push_printable(&mut b, b"cd\x7f\x08e\x1b\tf~");
    assert_eq!(b, "abef~");
    let mut e = String::new();
    push_printable(&mut e, &[0x7f, 0x7f]);
    assert_eq!(e, "");
    push_printable(&mut e, &[0xc3, 0xa9, 0x80]);
    assert_eq!(e, "");
}

#[test]
fn backspace_undoes_a_typed_letter() {
    let mut b = String::from("xyz");
    push_printable(&mut b, b"k");
    push_printable(&mut b, &[0x7f]);
    assert_eq!(b, "xyz");
}

#[test]
fn blank_matches_trim() {
    for s in ["", "   ", "\n\t ", "\u{a0}\u{3000}", " a ", "x", "\u{200b}"] {
        assert_eq!(is_blank(s), s.trim().is_empty(), "{:?}", s);
    }
}

#[test]
fn split_lines_matches_str_split() {
    for s in ["", "a", "a\nb", "a\n", "\n\n", "x\n\ny"] {
        let want: Vec<String> = s.split('\n').map(|p| p.to_string()).collect();
        assert_eq!(split_lines(s), want);
    }
}

#[test]
fn padded_left_right_aligns() {
    assert_eq!(padded_left("q", 7), "      q");
    assert_eq!(padded_left("↑/↓", 7), "    ↑/↓");
    assert_eq!(padded_left("Ctrl+D", 7), " Ctrl+D");
    assert_eq!(padded_left("toolongkey", 7), "toolongkey");
    assert_eq!(padded_left("Enter", 7), format!("{:>7}", "Enter"));
}

#[test]
fn comment_count_label_pluralises() {
    assert_eq!(comment_count_label(1), "── 1 comment ──");
    assert_eq!(comment_count_label(2), "── 2 comments ──");
    assert_eq!(comment_count_label(0), "── 0 comments ──");
    assert_eq!(comment_count_label(1203), "── 1203 comments ──");
}

#[test]
fn sidebars() {
    let plain: Vec<(String, String)> = list_commands(false).into_iter().map(|c| (c.key, c.desc)).collect();
    assert_eq!(
        plain,
        vec![
            ("    ↑/↓".to_string(), "navigate".to_string()),
            ("  Enter".to_string(), "open".to_string()),
            ("      n".to_string(), "new post".to_string()),
            ("      q".to_string(), "quit".to_string()),
        ]
    );
    let admin = list_commands(true);
    assert_eq!(admin.len(), 5);
    assert_eq!(admin[4].key, "      d");
    assert_eq!(admin[4].desc, "delete");
    assert_eq!(detail_commands(false).len(), 3);
    assert_eq!(detail_commands(true)[3].desc, "delete");
    let names: Vec<String> = set_name_commands().into_iter().map(|c| c.key).collect();
    assert_eq!(names, vec!["  Enter".to_string(), " Ctrl+C".to_string()]);
}

#[test]
fn detail_without_comments() {
    let p = post(1, "Title", "one\ntwo");
    let lines = detail_lines(&p, &Vec::new());
    assert_eq!(
        texts(&lines),
        vec![
            t("Title", Tone::Bold),
            t("by ann", Tone::Dim),
            t("", Tone::Plain),
            t("one", Tone::Plain),
            t("two", Tone::Plain),
            t("", Tone::Plain),
            t("No comments yet.", Tone::Dim),
        ]
    );
}

#[test]
fn detail_with_comments() {
    let p = post(1, "T", "body");
    let cs = vec![comment("bob", "hi\nthere"), comment("cy", "yo")];
    let lines = detail_lines(&p, &cs);
    assert_eq!(
        texts(&lines),
        vec![
            t("T", Tone::Bold),
            t("by ann", Tone::Dim),
            t("", Tone::Plain),
            t("body", Tone::Plain),
            t("", Tone::Plain),
            t("── 2 comments ──", Tone::Dim),
            t("", Tone::Plain),
            t("bob:", Tone::Accent),
            t("hi", Tone::Plain),
            t("there", Tone::Plain),
            t("", Tone::Plain),
            t("cy:", Tone::Accent),
            t("yo", Tone::Plain),
        ]
    );
}

#[test]
fn composer_lines_mark_the_focused_field() {
    let l = compose_post_lines("Hi", "a\nb", ComposeField::Title);
    assert_eq!(
        texts(&l),
        vec![
            t("Title ▶", Tone::Dim),
            t("Hi", Tone::Plain),
            t("", Tone::Plain),
            t("Body :", Tone::Dim),
            t("a", Tone::Plain),
            t("b", Tone::Plain),
        ]
    );
    let l = compose_post_lines("", "", ComposeField::Body);
    assert_eq!(l[0].text, "Title :");
    assert_eq!(l[3].text, "Body ▶");
    assert_eq!(l.len(), 5);
    assert_eq!(texts(&compose_comment_lines("x\n")), vec![t("x", Tone::Plain), t("", Tone::Plain)]);
}

#[test]
fn name_prompt_and_confirm_box() {
    let l = set_name_lines("zed");
    assert_eq!(l.len(), 5);
    assert_eq!(l[0].text, "Welcome to shPlank!");
    assert_eq!(l[4].text, "▶ zed");
    assert_eq!(l[4].tone, Tone::Accent);
    let c = confirm_lines();
    assert_eq!(c[1].text, "Delete this post?");
    assert_eq!(c[4].text, "[ Enter / d ] confirm    [ Esc ] cancel");
}

#[test]
fn post_titles_in_order() {
    let ps = vec![post(1, "a", ""), post(2, "b", "")];
    assert_eq!(post_titles(&ps), vec!["a".to_string(), "b".to_string()]);
}

#[test]
fn page_follows_the_screen() {
    let mut s = Session::new(1, Some("SHA256:k".to_string()));
    s.authenticated("SHA256:k".to_string());
    s.user_resolved(UserLookup::Found(1));
    s.posts_loaded(Some(vec![post(1, "a", "x"), post(2, "b", "y")]));
    let p = page(&s);
    assert_eq!(p.title, " shPlank ");
    assert_eq!(p.commands.len(), 5);
    assert!(p.popup.is_none());
    assert_eq!(p.border, Border::Accent);
    assert_eq!(p.sidebar_title, " Commands ");
    assert_eq!(p.sidebar_border, Border::Muted);
    assert_eq!(p.key_tone, Tone::Accent);
    match &p.content {
        Content::Posts { titles, selected, marker, highlight } => {
            assert_eq!(titles, &vec!["a".to_string(), "b".to_string()]);
            assert_eq!(*selected, Some(0));
            assert_eq!(marker, "> ");
            assert_eq!(*highlight, Tone::Selected);
        }
        other => panic!("unexpected {:?}", other),
    }
    s.input(b"\r");
    s.input(b"d");
    let p = page(&s);
    let popup = p.popup.as_ref().unwrap();
    assert_eq!(popup.title, " Confirm Delete ");
    assert_eq!(popup.border, Border::Alarm);
    assert_eq!((popup.width_pct, popup.height_pct), (50, 35));
    assert_eq!(popup.lines[1].text, "Delete this post?");
    match &p.content {
        Content::Text { lines } => assert_eq!(lines[0].text, "a"),
        other => panic!("unexpected {:?}", other),
    }
    s.input(&[0x1b]);
    s.input(b"c");
    assert_eq!(page(&s).title, " New Comment ");
    s.input(&[0x1b]);
    s.input(b"b");
    s.input(b"n");
    assert_eq!(page(&s).title, " New Post ");
}

#[test]
fn sidebar_takes_the_right_columns() {
    let (main, side) = sidebar_split(Area { x: 0, y: 0, width: 80, height: 24 });
    assert_eq!(main, Area { x: 0, y: 0, width: 56, height: 24 });
    assert_eq!(side, Area { x: 56, y: 0, width: 24, height: 24 });
}

#[test]
fn centered_rect_sits_in_the_middle() {
    let area = Area { x: 0, y: 0, width: 100, height: 40 };
    let r = centered_rect(50, 50, area);
    assert_eq!(r, Area { x: 25, y: 10, width: 50, height: 20 });
    let whole = centered_rect(100, 100, area);
    assert_eq!(whole, area);
}

#[test]
fn seed_only_an_empty_forum() {
    assert!(needs_seed(0));
    assert!(!needs_seed(5));
    let s = seed_data();
    assert_eq!(s.user_id, 1);
    assert_eq!(s.fingerprint, "seed");
    assert_eq!(s.display_name, "shPlank");
    let titles: Vec<&str> = s.posts.iter().map(|p| p.title.as_str()).collect();
    assert_eq!(
        titles,
        vec![
            "Welcome to shPlank",
            "Why Rust?",
            "How SSH works (briefly)",
            "SQLite: the most deployed database in the world",
            "Ownership in Rust: the core idea",
        ]
    );
    assert!(s.posts.iter().all(|p| p.author_id == 1));
    assert!(s.posts[0].body.starts_with("Welcome to shPlank — a terminal forum"));
    let on: Vec<i64> = s.comments.iter().map(|c| c.post_id).collect();
    assert_eq!(on, vec![1, 1, 2, 3, 5]);
}

#[test]
fn connections_are_numbered_from_one() {
    let mut srv = AppServer::new(Some("SHA256:adm".to_string()));
    let a = srv.new_client();
    let b = srv.new_client();
    assert_eq!(a.id, 1);
    assert_eq!(b.id, 2);
    assert_eq!(srv.next_id, 2);
    assert_eq!(a.admin_fingerprint, Some("SHA256:adm".to_string()));
}

#[test]
fn typing_in_pieces_is_typing_at_once() {
    let mut a = String::from("x");
    push_printable(&mut a, b"ab");
    push_printable(&mut a, b"c\x7fd");
    let mut b = String::from("x");
    push_printable(&mut b, b"abc\x7fd");
    assert_eq!(a, b);
    assert_eq!(a, "xabd");
}

#[test]
fn escape_sequences_are_ignored() {
    let mut b = String::from("hi");
    push_printable(&mut b, &[0x1b, b'[', b'A']);
    assert_eq!(b, "hi");
    push_printable(&mut b, b"\x1bOA\x1b[15~!\x1bx\x1b");
    assert_eq!(b, "hi!");
    push_printable(&mut b, b"a\x1b[12");
    assert_eq!(b, "hi!a");
    push_printable(&mut b, b"\x1b[Z\x7f");
    assert_eq!(b, "hi!");
}
