//! Properties of the session that span keystrokes and screens.

use vstd::prelude::*;
use crate::session::{
    is_down, is_key, is_up, on_input, on_shell, on_user_created, on_user_resolved, on_posts_loaded, ActionView,
    ComposeField, Screen, SessionView, UserLookup, CTRL_C, CTRL_D, ENTER, ESC, KEY_B, KEY_C, KEY_D, KEY_N, KEY_Q, ARROW_UP, ARROW_DOWN, CSI, SS3, reload_after_spec,
};
use crate::screens::{
    cmd, compose_comment_commands_spec, compose_post_commands_spec, detail_commands_spec, list_commands_spec,
    count_label, detail_lines_spec, lv, page_spec, set_name_commands_spec, titles, ContentView, Tone,
};
use crate::records::SEED_USER_ID;
use crate::seed::{
    needs_seed_spec, seed_comments_spec, seed_posts_spec, COMMENT_1, COMMENT_2, COMMENT_3, COMMENT_4, COMMENT_5,
    HOW_SSH_BODY, HOW_SSH_TITLE, OWNERSHIP_BODY, OWNERSHIP_TITLE, SQLITE_BODY, SQLITE_TITLE, WELCOME_BODY,
    WELCOME_TITLE, WHY_RUST_BODY, WHY_RUST_TITLE,
};
use crate::text::{
    apply_keys, blank, decimal, digit, escape_len, keys_of, lemma_apply_composes, lemma_typed_one, lines_of, pad_left,
    typed, DELETE,
};

verus! {

/// A single key other than Ctrl+C does not hold Ctrl+C.
pub proof fn lemma_one_byte_not_ctrl_c(b: u8)
    requires
        b != CTRL_C,
    ensures
        !seq![b].contains(CTRL_C),
{
    if seq![b].contains(CTRL_C) {
        let j = choose|j: int| 0 <= j < 1 && seq![b][j] == CTRL_C;
    }
}

/// Ctrl+C disconnects from every screen, whatever else arrived with it, and
/// changes nothing.
pub proof fn law_ctrl_c_always_quits(s: SessionView, d: Seq<u8>)
    requires
        d.contains(CTRL_C),
    ensures
        on_input(s, d) == (s, ActionView::Close),
{
}

/// `q` disconnects only from the post list and from a post's page; on every
/// other screen it never closes the connection.
pub proof fn law_q_quits_only_when_reading(s: SessionView)
    ensures
        (on_input(s, seq![KEY_Q]).1 is Close) <==> (s.screen is List || s.screen is Detail),
{
    lemma_one_byte_not_ctrl_c(KEY_Q);
}

/// While a post is being written, `q` is typed into the focused field like
/// any other letter.
pub proof fn law_q_is_typed_while_composing(s: SessionView)
    requires
        s.screen is ComposePost,
    ensures
        on_input(s, seq![KEY_Q]).0 == (match s.field {
            ComposeField::Title => SessionView { title: s.title.push('q'), ..s },
            ComposeField::Body => SessionView { body: s.body.push('q'), ..s },
        }),
{
    let d = seq![KEY_Q];
    lemma_one_byte_not_ctrl_c(KEY_Q);
    lemma_typed_one(s.title, KEY_Q);
    lemma_typed_one(s.body, KEY_Q);
}

/// Escape cancels a new post without saving: back to the list, nothing sent,
/// what was typed left as it was.
pub proof fn law_escape_cancels_post(s: SessionView)
    requires
        s.screen is ComposePost,
    ensures
        on_input(s, seq![ESC]) == (SessionView { screen: Screen::List, ..s }, ActionView::Redraw),
{
    lemma_one_byte_not_ctrl_c(ESC);
}

/// Escape cancels a comment without saving: back to the post, nothing sent.
pub proof fn law_escape_cancels_comment(s: SessionView, i: usize)
    requires
        s.screen == Screen::ComposeComment(i),
    ensures
        on_input(s, seq![ESC]) == (SessionView { screen: Screen::Detail(i), ..s }, ActionView::Redraw),
{
    lemma_one_byte_not_ctrl_c(ESC);
}

/// Ctrl+D on a new post goes back to the list, and stores the post exactly
/// when its title is not blank, under the visitor's user, with the typed
/// title and body.
pub proof fn law_submit_post(s: SessionView)
    requires
        s.screen is ComposePost,
    ensures
        on_input(s, seq![CTRL_D]).0 == (SessionView { screen: Screen::List, ..s }),
        (on_input(s, seq![CTRL_D]).1 is SubmitPost) <==> !blank(s.title),
        !blank(s.title) ==> on_input(s, seq![CTRL_D]).1 == (ActionView::SubmitPost {
            author_id: s.author(),
            title: s.title,
            body: s.body,
        }),
{
    lemma_one_byte_not_ctrl_c(CTRL_D);
}

/// Ctrl+D on a comment goes back to the post, and stores the comment, on
/// that post, exactly when its body is not blank.
pub proof fn law_submit_comment(s: SessionView, i: usize)
    requires
        s.screen == Screen::ComposeComment(i),
    ensures
        on_input(s, seq![CTRL_D]).0 == (SessionView { screen: Screen::Detail(i), ..s }),
        (on_input(s, seq![CTRL_D]).1 is SubmitComment) <==> !blank(s.body),
        !blank(s.body) ==> on_input(s, seq![CTRL_D]).1 == (ActionView::SubmitComment {
            post_id: s.posts[i as int].id,
            author_id: s.author(),
            body: s.body,
        }),
{
    lemma_one_byte_not_ctrl_c(CTRL_D);
}

/// Only the admin deletes: no keystroke of anyone else ever asks for a post to
/// be deleted, and the post deleted is the one whose confirmation was shown.
pub proof fn law_only_admin_deletes(s: SessionView, d: Seq<u8>)
    requires
        on_input(s, d).1 is DeletePost,
    ensures
        s.is_admin(),
        s.screen matches Screen::ConfirmDelete { index, .. }
            && on_input(s, d).1 == (ActionView::DeletePost { post_id: s.posts[index as int].id }),
{
}

/// Asking to delete and then pressing Escape leaves the session exactly as it
/// was, from the list and from a post's page alike.
pub proof fn law_delete_then_escape_restores(s: SessionView)
    requires
        s.wf(),
        s.screen is List || s.screen is Detail,
        on_input(s, seq![KEY_D]).0.screen is ConfirmDelete,
    ensures
        on_input(on_input(s, seq![KEY_D]).0, seq![ESC]) == (s, ActionView::Redraw),
{
    lemma_one_byte_not_ctrl_c(KEY_D);
    lemma_one_byte_not_ctrl_c(ESC);
    assert(seq![KEY_D] != seq![ESC]) by {
        assert(seq![KEY_D][0] != seq![ESC][0]);
    }
    assert(seq![KEY_D] != seq![KEY_Q]) by {
        assert(seq![KEY_D][0] != seq![KEY_Q][0]);
    }
    assert(seq![KEY_D] != seq![KEY_N]) by {
        assert(seq![KEY_D][0] != seq![KEY_N][0]);
    }
    assert(seq![KEY_D] != seq![KEY_B]) by {
        assert(seq![KEY_D][0] != seq![KEY_B][0]);
    }
    assert(seq![KEY_D] != seq![KEY_C]) by {
        assert(seq![KEY_D][0] != seq![KEY_C][0]);
    }
    assert(seq![ESC] != seq![ENTER]) by {
        assert(seq![ESC][0] != seq![ENTER][0]);
    }
    assert(seq![ESC] != seq![KEY_D]) by {
        assert(seq![ESC][0] != seq![KEY_D][0]);
    }
}

/// Opening the highlighted post and going back with `b` returns to the list
/// exactly as it was (the comments fetched in between aside).
pub proof fn law_open_then_back(s: SessionView)
    requires
        s.wf(),
        s.screen is List,
        s.posts.len() > 0,
    ensures
        on_input(s, seq![ENTER]).0.screen == Screen::Detail(s.cursor()),
        on_input(s, seq![ENTER]).1 == (ActionView::LoadComments { post_id: s.posts[s.cursor() as int].id }),
        on_input(on_input(s, seq![ENTER]).0, seq![KEY_B]) == (s, ActionView::Redraw),
{
    lemma_one_byte_not_ctrl_c(ENTER);
    lemma_one_byte_not_ctrl_c(KEY_B);
    assert(seq![ENTER] != seq![KEY_Q]) by {
        assert(seq![ENTER][0] != seq![KEY_Q][0]);
    }
    assert(seq![ENTER] != seq![KEY_N]) by {
        assert(seq![ENTER][0] != seq![KEY_N][0]);
    }
    assert(seq![ENTER] != seq![KEY_D]) by {
        assert(seq![ENTER][0] != seq![KEY_D][0]);
    }
    assert(!is_up(seq![ENTER]) && !is_down(seq![ENTER])) by {
        assert(seq![ENTER].len() == 1);
    }
    assert(seq![KEY_B] != seq![KEY_Q]) by {
        assert(seq![KEY_B][0] != seq![KEY_Q][0]);
    }
}

/// The arrow keys keep the highlight on the list: up stops at the first row,
/// down stops at the last.
pub proof fn law_arrows_stay_in_list(s: SessionView, d: Seq<u8>)
    requires
        s.wf(),
        s.screen is List,
        s.posts.len() > 0,
        is_up(d) || is_down(d),
    ensures
        on_input(s, d).0.selected matches Some(k) && k < s.posts.len(),
        is_up(d) ==> on_input(s, d).0.selected == Some(if s.cursor() == 0 { 0usize } else { (s.cursor() - 1) as usize }),
        is_down(d) && s.cursor() + 1 == s.posts.len() ==> on_input(s, d).0.selected == s.selected,
{
    assert(!d.contains(CTRL_C)) by {
        if d.contains(CTRL_C) {
            let j = choose|j: int| 0 <= j < d.len() && d[j] == CTRL_C;
            assert(d[0] == ESC);
            assert(d[1] == CSI || d[1] == SS3);
            assert(d[2] == ARROW_UP || d[2] == ARROW_DOWN);
        }
    }
    assert(d.len() == 3);
    assert(!is_key(d, KEY_Q) && !is_key(d, KEY_N) && !is_key(d, KEY_D) && !is_key(d, ENTER));
    assert(is_up(d) ==> !is_down(d)) by {
        if is_up(d) && is_down(d) {
            assert(d[2] == ARROW_UP && d[2] == ARROW_DOWN);
        }
    }
}

/// `n` on the list opens an empty composer, focused on the title.
pub proof fn law_new_post_starts_empty(s: SessionView)
    requires
        s.screen is List,
    ensures
        on_input(s, seq![KEY_N]).0 == (SessionView {
            screen: Screen::ComposePost,
            title: Seq::empty(),
            body: Seq::empty(),
            field: ComposeField::Title,
            ..s
        }),
{
    lemma_one_byte_not_ctrl_c(KEY_N);
    assert(seq![KEY_N] != seq![KEY_Q]) by {
        assert(seq![KEY_N][0] != seq![KEY_Q][0]);
    }
}

/// Backspace takes back the character just typed.
pub proof fn law_backspace_undoes_typing(buf: Seq<char>, b: u8)
    requires
        0x20 <= b <= 0x7e,
    ensures
        typed(typed(buf, seq![b]), seq![DELETE]) == buf,
{
    lemma_typed_one(buf, b);
    lemma_typed_one(buf.push(b as char), DELETE);
    assert(buf.push(b as char).drop_last() =~= buf);
}

/// Keys applied in two runs are the keys applied all at once.
pub proof fn law_typing_composes(buf: Seq<char>, a: Seq<u8>, b: Seq<u8>)
    ensures
        apply_keys(apply_keys(buf, a), b) == apply_keys(buf, a + b),
{
    lemma_apply_composes(buf, a, b);
}

/// An escape sequence (an arrow key, a function key, Alt and a key) typed
/// into a text adds nothing to it and takes nothing away.
pub proof fn law_escape_sequences_add_nothing(buf: Seq<char>, d: Seq<u8>)
    requires
        d.len() > 0,
        d[0] == ESC,
        escape_len(d) == d.len(),
    ensures
        typed(buf, d) == buf,
{
    assert(d.skip(d.len() as int) =~= Seq::<u8>::empty());
    assert(keys_of(d) == keys_of(Seq::<u8>::empty()));
    assert(keys_of(d) == Seq::<u8>::empty());
}

/// Once a visitor's user exists (found or just created), everything they
/// write is filed under that user, and they are on the post list.
pub proof fn law_known_user_writes_as_self(s: SessionView, id: i64)
    ensures
        on_user_resolved(s, UserLookup::Found(id)).author() == id,
        on_user_resolved(s, UserLookup::Found(id)).screen is List,
        on_user_created(s, Some(id)).author() == id,
        on_user_created(s, Some(id)).screen is List,
{
}

/// A visitor whose key is unknown is asked for a display name, starting from
/// an empty one.
pub proof fn law_unknown_key_asks_for_name(s: SessionView)
    requires
        s.fingerprint is Some,
    ensures
        on_user_resolved(s, UserLookup::NotFound).screen is SetName,
        on_user_resolved(s, UserLookup::NotFound).body == Seq::<char>::empty(),
{
}

/// Every answer from the outside keeps a well-formed session well formed.
pub proof fn law_answers_keep_wf(s: SessionView, lookup: UserLookup, posts: Seq<crate::records::Post>, created: Option<i64>)
    requires
        s.wf(),
    ensures
        on_user_resolved(s, lookup).wf(),
        on_posts_loaded(s, posts).wf(),
        on_user_created(s, created).wf(),
{
}

/// Every write that a keystroke asks for is followed by loading again what it
/// changed: all posts after a post is stored or deleted, that post's comments
/// after a comment is stored on it.
pub proof fn law_writes_are_reloaded(s: SessionView, d: Seq<u8>)
    ensures
        (on_input(s, d).1 is SubmitPost || on_input(s, d).1 is DeletePost)
            ==> reload_after_spec(on_input(s, d).1) == ActionView::LoadPosts,
        on_input(s, d).1 matches ActionView::SubmitComment { post_id, .. }
            ==> reload_after_spec(on_input(s, d).1) == (ActionView::LoadComments { post_id }),
{
}

/// In a well-formed session the screen always has something to show: on the
/// list the highlighted row is one of the listed titles, and a post's page
/// (with or without the delete confirmation on top) shows the post's text.
pub proof fn law_pages_are_never_broken(s: SessionView)
    requires
        s.wf(),
    ensures
        s.screen is List ==> (page_spec(s).content matches ContentView::Posts { titles, selected, .. }
            && titles.len() == s.posts.len()
            && (selected matches Some(k) ==> k < titles.len())),
        (s.screen is Detail || s.screen is ConfirmDelete) ==> !(page_spec(s).content is Nothing),
        page_spec(s).popup is Some <==> s.screen is ConfirmDelete,
{
}

/// Two different single keys are different keystrokes.
proof fn lemma_keys_differ(a: u8, b: u8)
    requires
        a != b,
    ensures
        seq![a] != seq![b],
{
    assert(seq![a][0] != seq![b][0]);
}

/// From a post's page, `c` opens the comment composer on that very post,
/// empty and focused on the body, whatever text was held before: a comment
/// sent or cancelled earlier never carries over into the next one.
pub proof fn law_comment_starts_empty(s: SessionView, i: usize)
    requires
        s.screen == Screen::Detail(i),
    ensures
        on_input(s, seq![KEY_C]).0.screen == Screen::ComposeComment(i),
        on_input(s, seq![KEY_C]).0.body == Seq::<char>::empty(),
        on_input(s, seq![KEY_C]).0.field == ComposeField::Body,
        on_input(s, seq![KEY_C]).0.title == s.title,
        on_input(s, seq![KEY_C]).0.posts == s.posts,
        on_input(s, seq![KEY_C]).1 == ActionView::Redraw,
{
    lemma_one_byte_not_ctrl_c(KEY_C);
    lemma_keys_differ(KEY_C, KEY_Q);
    lemma_keys_differ(KEY_C, KEY_B);
    lemma_keys_differ(KEY_C, ESC);
}

/// On the post list (and under a delete confirmation asked from it) the row
/// the page highlights is exactly the session's selected row: the post that
/// Enter opens and that `d` deletes.
pub proof fn law_list_highlight_is_selection(s: SessionView)
    requires
        s.screen is List || s.screen matches Screen::ConfirmDelete { from_detail: false, .. },
    ensures
        page_spec(s).content matches ContentView::Posts { selected, .. } && selected == s.selected,
{
}

/// Every entry of a post page's sidebar names a key that does what the
/// entry says: `b` goes back to the list, `c` opens the comment composer on
/// the post, `q` quits, and for the admin `d` asks to delete the post.
pub proof fn law_post_page_sidebar_keys_work(s: SessionView, i: usize)
    requires
        s.screen == Screen::Detail(i),
    ensures
        detail_commands_spec(s.is_admin())[0] == cmd(seq![KEY_B as char], "back"@),
        on_input(s, seq![KEY_B]).0.screen == Screen::List,
        detail_commands_spec(s.is_admin())[1] == cmd(seq![KEY_C as char], "comment"@),
        on_input(s, seq![KEY_C]).0.screen == Screen::ComposeComment(i),
        detail_commands_spec(s.is_admin())[2] == cmd(seq![KEY_Q as char], "quit"@),
        on_input(s, seq![KEY_Q]).1 == ActionView::Close,
        detail_commands_spec(s.is_admin()).len() == (if s.is_admin() { 4int } else { 3int }),
        s.is_admin() ==> detail_commands_spec(s.is_admin())[3] == cmd(seq![KEY_D as char], "delete"@),
        s.is_admin() ==> on_input(s, seq![KEY_D]).0.screen == (Screen::ConfirmDelete { index: i, from_detail: true }),
{
    reveal_strlit("b");
    reveal_strlit("c");
    reveal_strlit("q");
    reveal_strlit("d");
    assert("b"@ =~= seq![KEY_B as char]);
    assert("c"@ =~= seq![KEY_C as char]);
    assert("q"@ =~= seq![KEY_Q as char]);
    assert("d"@ =~= seq![KEY_D as char]);
    lemma_one_byte_not_ctrl_c(KEY_B);
    lemma_one_byte_not_ctrl_c(KEY_C);
    lemma_one_byte_not_ctrl_c(KEY_Q);
    lemma_one_byte_not_ctrl_c(KEY_D);
    lemma_keys_differ(KEY_B, KEY_Q);
    lemma_keys_differ(KEY_C, KEY_Q);
    lemma_keys_differ(KEY_C, KEY_B);
    lemma_keys_differ(KEY_C, ESC);
    lemma_keys_differ(KEY_D, KEY_Q);
    lemma_keys_differ(KEY_D, KEY_B);
    lemma_keys_differ(KEY_D, ESC);
    lemma_keys_differ(KEY_D, KEY_C);
}

/// Every entry of the post list's sidebar that names a single key names one
/// that does what the entry says: `n` opens the post composer, `q` quits,
/// and for the admin `d` asks to delete the highlighted post; Enter opens the
/// highlighted post.
pub proof fn law_list_sidebar_keys_work(s: SessionView)
    requires
        s.wf(),
        s.screen is List,
    ensures
        list_commands_spec(s.is_admin())[1] == cmd("Enter"@, "open"@),
        s.posts.len() > 0 ==> on_input(s, seq![ENTER]).0.screen == Screen::Detail(s.cursor()),
        list_commands_spec(s.is_admin())[2] == cmd(seq![KEY_N as char], "new post"@),
        on_input(s, seq![KEY_N]).0.screen == Screen::ComposePost,
        list_commands_spec(s.is_admin())[3] == cmd(seq![KEY_Q as char], "quit"@),
        on_input(s, seq![KEY_Q]).1 == ActionView::Close,
        list_commands_spec(s.is_admin()).len() == (if s.is_admin() { 5int } else { 4int }),
        s.is_admin() ==> list_commands_spec(s.is_admin())[4] == cmd(seq![KEY_D as char], "delete"@),
        s.is_admin() && s.posts.len() > 0 ==> on_input(s, seq![KEY_D]).0.screen
            == (Screen::ConfirmDelete { index: s.cursor(), from_detail: false }),
{
    reveal_strlit("n");
    reveal_strlit("q");
    reveal_strlit("d");
    assert("n"@ =~= seq![KEY_N as char]);
    assert("q"@ =~= seq![KEY_Q as char]);
    assert("d"@ =~= seq![KEY_D as char]);
    lemma_one_byte_not_ctrl_c(KEY_N);
    lemma_one_byte_not_ctrl_c(KEY_Q);
    lemma_one_byte_not_ctrl_c(KEY_D);
    lemma_one_byte_not_ctrl_c(ENTER);
    lemma_keys_differ(KEY_N, KEY_Q);
    lemma_keys_differ(KEY_D, KEY_Q);
    lemma_keys_differ(KEY_D, KEY_N);
    lemma_keys_differ(ENTER, KEY_Q);
    lemma_keys_differ(ENTER, KEY_N);
    lemma_keys_differ(ENTER, KEY_D);
    assert(!is_up(seq![ENTER]) && !is_down(seq![ENTER])) by {
        assert(seq![ENTER].len() == 1);
    }
}

/// A forum is seeded exactly when it holds no post: never once it holds
/// even one.
pub proof fn law_seed_exactly_when_empty(post_count: int)
    ensures
        needs_seed_spec(post_count) <==> post_count == 0,
        post_count >= 1 ==> !needs_seed_spec(post_count),
{
}

/// The starter posts, in the order they are stored (and so numbered 1 to 5),
/// each by the starter account and each with its own body; and the starter
/// comments with the posts they belong to.
pub proof fn law_starter_content_in_order()
    ensures
        seed_posts_spec().len() == 5,
        seed_posts_spec()[0] == (SEED_USER_ID, WELCOME_TITLE@, WELCOME_BODY@),
        seed_posts_spec()[1] == (SEED_USER_ID, WHY_RUST_TITLE@, WHY_RUST_BODY@),
        seed_posts_spec()[2] == (SEED_USER_ID, HOW_SSH_TITLE@, HOW_SSH_BODY@),
        seed_posts_spec()[3] == (SEED_USER_ID, SQLITE_TITLE@, SQLITE_BODY@),
        seed_posts_spec()[4] == (SEED_USER_ID, OWNERSHIP_TITLE@, OWNERSHIP_BODY@),
        seed_comments_spec().len() == 5,
        seed_comments_spec()[0] == (1i64, SEED_USER_ID, COMMENT_1@),
        seed_comments_spec()[1] == (1i64, SEED_USER_ID, COMMENT_2@),
        seed_comments_spec()[2] == (2i64, SEED_USER_ID, COMMENT_3@),
        seed_comments_spec()[3] == (3i64, SEED_USER_ID, COMMENT_4@),
        seed_comments_spec()[4] == (5i64, SEED_USER_ID, COMMENT_5@),
{
}

/// The composers and the name prompt list the keys that work on them:
/// Enter, Ctrl+D and Esc while writing, Enter and Ctrl+C for the name.
pub proof fn law_composer_sidebars()
    ensures
        compose_post_commands_spec() == seq![
            cmd("Enter"@, "next / newline"@),
            cmd("Ctrl+D"@, "submit"@),
            cmd("Esc"@, "cancel"@),
        ],
        compose_comment_commands_spec() == seq![
            cmd("Enter"@, "newline"@),
            cmd("Ctrl+D"@, "submit"@),
            cmd("Esc"@, "cancel"@),
        ],
        set_name_commands_spec() == seq![cmd("Enter"@, "confirm"@), cmd("Ctrl+C"@, "disconnect"@)],
{
}

/// The rows of the post list are the posts' titles, one per post, in the
/// order the posts were loaded.
pub proof fn law_list_rows_are_titles(posts: Seq<crate::records::Post>)
    ensures
        titles(posts).len() == posts.len(),
        forall|k: int| 0 <= k < posts.len() ==> #[trigger] titles(posts)[k] == posts[k].title@,
{
}

/// The lines of a text joined back together with newlines.
pub open spec fn join_lines(ls: Seq<Seq<char>>) -> Seq<char>
    decreases ls.len(),
{
    if ls.len() == 0 {
        Seq::empty()
    } else if ls.len() == 1 {
        ls[0]
    } else {
        join_lines(ls.drop_last()) + seq!['\n'] + ls.last()
    }
}

/// Splitting a text into lines loses nothing and keeps no newline: the
/// lines joined back with newlines are the text, and no line holds one.
pub proof fn law_lines_rejoin(s: Seq<char>)
    ensures
        join_lines(lines_of(s)) == s,
        lines_of(s).len() >= 1,
        forall|i: int| 0 <= i < lines_of(s).len() ==> !(#[trigger] lines_of(s)[i]).contains('\n'),
    decreases s.len(),
{
    if s.len() == 0 {
        assert(lines_of(s) =~= seq![Seq::<char>::empty()]);
        assert forall|i: int| 0 <= i < lines_of(s).len() implies !(#[trigger] lines_of(s)[i]).contains('\n') by {
            assert(lines_of(s)[i].len() == 0);
        }
    } else {
        let t = s.drop_last();
        let c = s.last();
        law_lines_rejoin(t);
        let prev = lines_of(t);
        if c == '\n' {
            let now = prev.push(Seq::<char>::empty());
            assert(lines_of(s) == now);
            assert(now.drop_last() =~= prev);
            assert(join_lines(now) == join_lines(prev) + seq!['\n'] + Seq::<char>::empty());
            assert(t + seq!['\n'] + Seq::<char>::empty() =~= s);
            assert forall|i: int| 0 <= i < now.len() implies !(#[trigger] now[i]).contains('\n') by {
                if i < prev.len() {
                    assert(now[i] == prev[i]);
                } else {
                    assert(now[i].len() == 0);
                }
            }
        } else {
            let n = prev.len();
            let last = prev.last().push(c);
            let now = prev.update(n - 1, last);
            assert(lines_of(s) == now);
            if n == 1 {
                assert(join_lines(prev) == prev[0]);
                assert(join_lines(now) == now[0]);
                assert(last =~= s);
            } else {
                assert(now.drop_last() =~= prev.drop_last());
                assert(join_lines(now) == join_lines(prev.drop_last()) + seq!['\n'] + last);
                assert(join_lines(prev) == join_lines(prev.drop_last()) + seq!['\n'] + prev.last());
                assert(join_lines(prev.drop_last()) + seq!['\n'] + last
                    =~= (join_lines(prev.drop_last()) + seq!['\n'] + prev.last()).push(c));
                assert(t.push(c) =~= s);
            }
            assert forall|i: int| 0 <= i < now.len() implies !(#[trigger] now[i]).contains('\n') by {
                if i < n - 1 {
                    assert(now[i] == prev[i]);
                } else {
                    assert(!prev[n - 1].contains('\n'));
                    if last.contains('\n') {
                        let j = choose|j: int| 0 <= j < last.len() && last[j] == '\n';
                        if j < prev[n - 1].len() {
                            assert(prev[n - 1][j] == '\n');
                        }
                    }
                }
            }
        }
    }
}

/// A sidebar key is right-aligned: it keeps all its characters at the end,
/// spaces fill in front of it, and the result is exactly as wide as the
/// column (or the key itself, when the key is wider).
pub proof fn law_pad_left_right_aligns(s: Seq<char>, w: nat)
    ensures
        pad_left(s, w).len() == if s.len() < w { w } else { s.len() },
        pad_left(s, w).subrange(pad_left(s, w).len() - s.len(), pad_left(s, w).len() as int) == s,
        forall|i: int| 0 <= i < pad_left(s, w).len() - s.len() ==> #[trigger] pad_left(s, w)[i] == ' ',
{
    let p = pad_left(s, w);
    assert(p.subrange(p.len() - s.len(), p.len() as int) =~= s);
}

/// The number that a string of decimal digits stands for.
pub open spec fn digits_value(s: Seq<char>) -> int
    decreases s.len(),
{
    if s.len() == 0 {
        0
    } else {
        digits_value(s.drop_last()) * 10 + (s.last() as int - '0' as int)
    }
}

/// A digit character stands for its digit.
proof fn lemma_digit_value(d: nat)
    requires
        d < 10,
    ensures
        digit(d) as int - '0' as int == d,
        '0' <= digit(d) <= '9',
{
}

/// Numbers are written in decimal: the digits read back give the number,
/// every character is a digit, and there is no leading zero.
pub proof fn law_decimal_reads_back(n: nat)
    ensures
        digits_value(decimal(n)) == n,
        forall|i: int| 0 <= i < decimal(n).len() ==> '0' <= #[trigger] decimal(n)[i] <= '9',
        decimal(n).len() >= 1,
        decimal(n).len() > 1 ==> decimal(n)[0] != '0',
        n >= 10 ==> decimal(n).len() > 1,
    decreases n,
{
    if n < 10 {
        lemma_digit_value(n);
        let one = seq![digit(n)];
        assert(decimal(n) == one);
        assert(one.drop_last() =~= Seq::<char>::empty());
        assert(one.last() == digit(n));
        assert(digits_value(one) == digits_value(Seq::<char>::empty()) * 10 + (digit(n) as int - '0' as int));
    } else {
        law_decimal_reads_back(n / 10);
        lemma_digit_value(n % 10);
        let d = decimal(n / 10);
        let whole = d.push(digit(n % 10));
        assert(decimal(n) == whole);
        assert(whole.drop_last() =~= d);
        assert(whole.last() == digit(n % 10));
        assert(digits_value(whole) == digits_value(d) * 10 + (digit(n % 10) as int - '0' as int));
        assert((n / 10) * 10 + n % 10 == n);
        assert(whole[0] == d[0]);
        if n / 10 < 10 {
            lemma_digit_value(n / 10);
            assert(d == seq![digit(n / 10)]);
        }
        assert forall|i: int| 0 <= i < whole.len() implies '0' <= #[trigger] whole[i] <= '9' by {
            if i < d.len() {
                assert(whole[i] == d[i]);
            }
        }
    }
}

/// A post's page: the title in bold, a dim byline, an empty line, then the
/// body line by line; after an empty line, a dim note that there are no
/// comments, or a dim rule that counts them, followed by the comments.
pub proof fn law_post_page_layout(p: crate::records::Post, cs: Seq<crate::records::Comment>)
    ensures
        detail_lines_spec(p, cs)[0] == lv(p.title@, Tone::Bold),
        detail_lines_spec(p, cs)[1] == lv("by "@ + p.author_name@, Tone::Dim),
        detail_lines_spec(p, cs)[2] == lv(Seq::empty(), Tone::Plain),
        forall|k: int| 0 <= k < lines_of(p.body@).len() ==>
            #[trigger] detail_lines_spec(p, cs)[3 + k] == lv(lines_of(p.body@)[k], Tone::Plain),
        detail_lines_spec(p, cs)[3 + lines_of(p.body@).len() as int] == lv(Seq::empty(), Tone::Plain),
        detail_lines_spec(p, cs)[4 + lines_of(p.body@).len() as int] == (if cs.len() == 0 {
            lv("No comments yet."@, Tone::Dim)
        } else {
            lv(count_label(cs.len()), Tone::Dim)
        }),
        cs.len() == 0 ==> detail_lines_spec(p, cs).len() == 5 + lines_of(p.body@).len(),
{
    let head = seq![
        lv(p.title@, Tone::Bold),
        lv("by "@ + p.author_name@, Tone::Dim),
        lv(Seq::empty(), Tone::Plain),
    ];
    let body = crate::screens::plain_lines(lines_of(p.body@));
    assert forall|k: int| 0 <= k < lines_of(p.body@).len() implies
        #[trigger] detail_lines_spec(p, cs)[3 + k] == lv(lines_of(p.body@)[k], Tone::Plain) by {
        assert((head + body)[3 + k] == body[k]);
    }
}

/// Freshly loaded posts replace the old ones, in the order given; the first
/// one is highlighted (none when there are none); a screen whose post still
/// exists stays, and one whose post is gone falls back to the list.
pub proof fn law_posts_reload(s: SessionView, posts: Seq<crate::records::Post>)
    ensures
        on_posts_loaded(s, posts).posts == posts,
        posts.len() > 0 ==> on_posts_loaded(s, posts).selected == Some(0usize),
        posts.len() == 0 ==> on_posts_loaded(s, posts).selected is None,
        (s.screen_post() matches Some(i) && i < posts.len()) || s.screen_post() is None
            ==> on_posts_loaded(s, posts).screen == s.screen,
        s.screen_post() matches Some(i) && i >= posts.len() ==> on_posts_loaded(s, posts).screen == Screen::List,
        on_posts_loaded(s, posts).title == s.title && on_posts_loaded(s, posts).body == s.body,
        on_posts_loaded(s, posts).user_id == s.user_id && on_posts_loaded(s, posts).comments == s.comments,
{
}

/// Opening a shell asks who holds the visitor's key, that key exactly; a
/// visitor without a key just gets the posts.
pub proof fn law_shell_asks_for_the_key(s: SessionView)
    ensures
        s.fingerprint matches Some(fp) ==> on_shell(s) == (ActionView::LookupUser { fingerprint: fp }),
        s.fingerprint is None ==> on_shell(s) == ActionView::LoadPosts,
{
}

/// When the lookup fails the visitor carries on browsing without an account:
/// on the list, nobody's user, and what they write is filed under the
/// starter account.
pub proof fn law_failed_lookup_carries_on(s: SessionView)
    requires
        s.user_id is None,
    ensures
        on_user_resolved(s, UserLookup::Failed).screen == Screen::List,
        on_user_resolved(s, UserLookup::Failed).user_id is None,
        on_user_resolved(s, UserLookup::Failed).author() == SEED_USER_ID,
        on_user_created(s, None) == s,
{
}

/// On the name prompt, Enter asks to create the visitor's user under their
/// key with the name typed, exactly when the name is not blank; it does not
/// leave the prompt by itself. Other bytes edit the name.
pub proof fn law_name_prompt(s: SessionView, d: Seq<u8>)
    requires
        s.screen is SetName,
        s.fingerprint is Some,
        !d.contains(CTRL_C),
    ensures
        (on_input(s, seq![ENTER]).1 is CreateUser) <==> !blank(s.body),
        !blank(s.body) ==> on_input(s, seq![ENTER]).1 == (ActionView::CreateUser {
            fingerprint: s.fingerprint->0,
            display_name: s.body,
        }),
        on_input(s, seq![ENTER]).0 == s,
        d != seq![ENTER] ==> on_input(s, d).0 == (SessionView { body: typed(s.body, d), ..s }),
        d != seq![ENTER] ==> on_input(s, d).1 == ActionView::Redraw,
{
    lemma_one_byte_not_ctrl_c(ENTER);
}

/// Escape on a post's page goes back to the list, leaving everything else.
pub proof fn law_escape_leaves_post(s: SessionView, i: usize)
    requires
        s.screen == Screen::Detail(i),
    ensures
        on_input(s, seq![ESC]) == (SessionView { screen: Screen::List, ..s }, ActionView::Redraw),
{
    lemma_one_byte_not_ctrl_c(ESC);
    lemma_keys_differ(ESC, KEY_Q);
}

/// Enter in the post composer moves from the title to the body; in the body
/// (and in a comment) it starts a new line.
pub proof fn law_enter_in_composers(s: SessionView, i: usize)
    ensures
        s.screen is ComposePost && s.field == ComposeField::Title
            ==> on_input(s, seq![ENTER]).0 == (SessionView { field: ComposeField::Body, ..s }),
        s.screen is ComposePost && s.field == ComposeField::Body
            ==> on_input(s, seq![ENTER]).0 == (SessionView { body: s.body.push('\n'), ..s }),
        s.screen == Screen::ComposeComment(i)
            ==> on_input(s, seq![ENTER]).0 == (SessionView { body: s.body.push('\n'), ..s }),
{
    lemma_one_byte_not_ctrl_c(ENTER);
    lemma_keys_differ(ENTER, ESC);
    lemma_keys_differ(ENTER, CTRL_D);
}

/// While the delete confirmation is shown, every key other than Enter, `d`,
/// Escape and Ctrl+C is ignored.
pub proof fn law_confirm_ignores_other_keys(s: SessionView, d: Seq<u8>)
    requires
        s.screen is ConfirmDelete,
        !d.contains(CTRL_C),
        d != seq![ENTER],
        d != seq![KEY_D],
        d != seq![ESC],
    ensures
        on_input(s, d) == (s, ActionView::Redraw),
{
}

/// The composers and the name prompt show what was typed: the post
/// composer's title on its second line and the body line by line from its
/// fifth, the comment composer the body line by line, the name prompt the
/// name after an arrow on its last line.
pub proof fn law_composers_show_the_text(s: SessionView)
    ensures
        s.screen is ComposePost ==> (page_spec(s).content matches ContentView::Text { lines } && lines[1]
            == lv(s.title, Tone::Plain) && lines.len() == 4 + lines_of(s.body).len() && (forall|k: int|
            0 <= k < lines_of(s.body).len() ==> #[trigger] lines[4 + k] == lv(lines_of(s.body)[k], Tone::Plain))),
        s.screen is ComposeComment ==> (page_spec(s).content matches ContentView::Text { lines } && lines.len()
            == lines_of(s.body).len() && (forall|k: int|
            0 <= k < lines_of(s.body).len() ==> #[trigger] lines[k] == lv(lines_of(s.body)[k], Tone::Plain))),
        s.screen is SetName ==> (page_spec(s).content matches ContentView::Text { lines } && lines.len() == 5
            && lines[4] == lv("▶ "@ + s.body, Tone::Accent)),
{
    let body = crate::screens::plain_lines(lines_of(s.body));
    if s.screen is ComposePost {
        let head = seq![
            lv(if s.field == ComposeField::Title { "Title ▶"@ } else { "Title :"@ }, Tone::Dim),
            lv(s.title, Tone::Plain),
            lv(Seq::empty(), Tone::Plain),
            lv(if s.field == ComposeField::Body { "Body ▶"@ } else { "Body :"@ }, Tone::Dim),
        ];
        assert forall|k: int| 0 <= k < lines_of(s.body).len() implies
            #[trigger] (head + body)[4 + k] == lv(lines_of(s.body)[k], Tone::Plain) by {
            assert((head + body)[4 + k] == body[k]);
        }
    }
}

/// A text is blank exactly when both its halves are.
pub proof fn law_blank_splits(a: Seq<char>, b: Seq<char>)
    ensures
        blank(a + b) <==> blank(a) && blank(b),
{
    if blank(a + b) {
        assert forall|i: int| 0 <= i < a.len() implies crate::text::is_space(#[trigger] a[i]) by {
            assert((a + b)[i] == a[i]);
        }
        assert forall|i: int| 0 <= i < b.len() implies crate::text::is_space(#[trigger] b[i]) by {
            assert((a + b)[a.len() + i] == b[i]);
        }
    }
    if blank(a) && blank(b) {
        assert forall|i: int| 0 <= i < (a + b).len() implies crate::text::is_space(#[trigger] (a + b)[i]) by {
            if i < a.len() {
                assert((a + b)[i] == a[i]);
            } else {
                assert((a + b)[i] == b[i - a.len()]);
            }
        }
    }
}

} // verus!
