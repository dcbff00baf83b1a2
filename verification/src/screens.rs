//! What each screen shows: the command sidebar, the lines of text and their
//! emphasis, the list rows. Turning these into terminal cells is left to the
//! renderer.

use vstd::prelude::*;
use crate::records::{Comment, Post};
use crate::session::{ComposeField, Screen, Session, SessionView};
use crate::text::{lines_of, pad_left, padded_left, push_decimal, split_lines, strings_view, decimal};

verus! {

/// How a line of text is emphasised.
#[derive(Clone, Copy, Debug, PartialEq, Eq, Structural)]
pub enum Tone {
    /// Ordinary text.
    Plain,
    /// Bold text.
    Bold,
    /// Dimmed (dark grey) text.
    Dim,
    /// Highlighted (cyan) text.
    Accent,
    /// A selected row: black on cyan.
    Selected,
}

/// The colour of a box's border.
#[derive(Clone, Copy, Debug, PartialEq, Eq, Structural)]
pub enum Border {
    /// Cyan: the main area.
    Accent,
    /// Dark grey: the command sidebar.
    Muted,
    /// Red: a warning.
    Alarm,
}

/// One line of a text screen.
#[derive(Debug)]
pub struct Line {
    pub text: String,
    pub tone: Tone,
}

pub struct LineView {
    pub text: Seq<char>,
    pub tone: Tone,
}

impl View for Line {
    type V = LineView;

    open spec fn view(&self) -> LineView {
        LineView { text: self.text@, tone: self.tone }
    }
}

/// The width, in characters, of the key column of the command sidebar.
pub const KEY_WIDTH: usize = 7;

/// One entry of the command sidebar: the key, right-aligned to the key
/// column, and what it does.
#[derive(Debug)]
pub struct Command {
    pub key: String,
    pub desc: String,
}

pub struct CommandView {
    pub key: Seq<char>,
    pub desc: Seq<char>,
}

impl View for Command {
    type V = CommandView;

    open spec fn view(&self) -> CommandView {
        CommandView { key: self.key@, desc: self.desc@ }
    }
}

pub open spec fn lv(text: Seq<char>, tone: Tone) -> LineView {
    LineView { text, tone }
}

pub open spec fn cmd(key: Seq<char>, desc: Seq<char>) -> CommandView {
    CommandView { key: pad_left(key, KEY_WIDTH as nat), desc }
}

pub open spec fn lines_view(v: Seq<Line>) -> Seq<LineView> {
    v.map_values(|l: Line| l@)
}

pub open spec fn commands_view(v: Seq<Command>) -> Seq<CommandView> {
    v.map_values(|c: Command| c@)
}

/// Each text as an ordinary line.
pub open spec fn plain_lines(ts: Seq<Seq<char>>) -> Seq<LineView> {
    ts.map_values(|t: Seq<char>| lv(t, Tone::Plain))
}

/// The sidebar of the post list; the admin also sees `d delete`.
pub open spec fn list_commands_spec(admin: bool) -> Seq<CommandView> {
    let base = seq![
        cmd("↑/↓"@, "navigate"@),
        cmd("Enter"@, "open"@),
        cmd("n"@, "new post"@),
        cmd("q"@, "quit"@),
    ];
    if admin { base.push(cmd("d"@, "delete"@)) } else { base }
}

/// The sidebar of a post's page; the admin also sees `d delete`.
pub open spec fn detail_commands_spec(admin: bool) -> Seq<CommandView> {
    let base = seq![cmd("b"@, "back"@), cmd("c"@, "comment"@), cmd("q"@, "quit"@)];
    if admin { base.push(cmd("d"@, "delete"@)) } else { base }
}

/// The sidebar of the post composer.
pub open spec fn compose_post_commands_spec() -> Seq<CommandView> {
    seq![cmd("Enter"@, "next / newline"@), cmd("Ctrl+D"@, "submit"@), cmd("Esc"@, "cancel"@)]
}

/// The sidebar of the comment composer.
pub open spec fn compose_comment_commands_spec() -> Seq<CommandView> {
    seq![cmd("Enter"@, "newline"@), cmd("Ctrl+D"@, "submit"@), cmd("Esc"@, "cancel"@)]
}

/// The sidebar of the name prompt.
pub open spec fn set_name_commands_spec() -> Seq<CommandView> {
    seq![cmd("Enter"@, "confirm"@), cmd("Ctrl+C"@, "disconnect"@)]
}

/// The rule between a post and its comments, e.g. `── 2 comments ──`.
pub open spec fn count_label(n: nat) -> Seq<char> {
    "── "@ + decimal(n) + " comment"@ + (if n == 1 { Seq::<char>::empty() } else { seq!['s'] }) + " ──"@
}

/// The lines of the given comments: each after an empty line, its author
/// (highlighted, followed by a colon), then its body line by line.
pub open spec fn comment_lines(cs: Seq<Comment>) -> Seq<LineView>
    decreases cs.len(),
{
    if cs.len() == 0 {
        Seq::empty()
    } else {
        comment_lines(cs.drop_last())
            + seq![lv(Seq::empty(), Tone::Plain), lv(cs.last().author_name@ + ":"@, Tone::Accent)]
            + plain_lines(lines_of(cs.last().body@))
    }
}

/// A post's page: bold title, dim byline, an empty line, the body line by
/// line, then either a dim `No comments yet.` or the comment count and the
/// comments.
pub open spec fn detail_lines_spec(p: Post, cs: Seq<Comment>) -> Seq<LineView> {
    seq![
        lv(p.title@, Tone::Bold),
        lv("by "@ + p.author_name@, Tone::Dim),
        lv(Seq::empty(), Tone::Plain),
    ] + plain_lines(lines_of(p.body@)) + if cs.len() == 0 {
        seq![lv(Seq::empty(), Tone::Plain), lv("No comments yet."@, Tone::Dim)]
    } else {
        seq![lv(Seq::empty(), Tone::Plain), lv(count_label(cs.len()), Tone::Dim)] + comment_lines(cs)
    }
}

/// The post composer: each field's label (with an arrow on the focused one)
/// above its text.
pub open spec fn compose_post_lines_spec(title: Seq<char>, body: Seq<char>, field: ComposeField) -> Seq<LineView> {
    seq![
        lv(if field == ComposeField::Title { "Title ▶"@ } else { "Title :"@ }, Tone::Dim),
        lv(title, Tone::Plain),
        lv(Seq::empty(), Tone::Plain),
        lv(if field == ComposeField::Body { "Body ▶"@ } else { "Body :"@ }, Tone::Dim),
    ] + plain_lines(lines_of(body))
}

/// The name prompt of a first-time visitor.
pub open spec fn set_name_lines_spec(name: Seq<char>) -> Seq<LineView> {
    seq![
        lv("Welcome to shPlank!"@, Tone::Bold),
        lv(Seq::empty(), Tone::Plain),
        lv("Choose a display name (shown on your posts and comments):"@, Tone::Plain),
        lv(Seq::empty(), Tone::Plain),
        lv("▶ "@ + name, Tone::Accent),
    ]
}

/// The delete confirmation box.
pub open spec fn confirm_lines_spec() -> Seq<LineView> {
    seq![
        lv(Seq::empty(), Tone::Plain),
        lv("Delete this post?"@, Tone::Bold),
        lv("(its comments go too)"@, Tone::Dim),
        lv(Seq::empty(), Tone::Plain),
        lv("[ Enter / d ] confirm    [ Esc ] cancel"@, Tone::Dim),
    ]
}

/// The titles of the posts, in order.
pub open spec fn titles(posts: Seq<Post>) -> Seq<Seq<char>> {
    posts.map_values(|p: Post| p.title@)
}

fn command(key: &str, desc: &str) -> (c: Command)
    ensures
        c@ == cmd(key@, desc@),
{
    Command { key: padded_left(key, KEY_WIDTH), desc: desc.to_owned() }
}

fn line(text: String, tone: Tone) -> (l: Line)
    ensures
        l@ == lv(text@, tone),
{
    Line { text, tone }
}

fn line_str(text: &str, tone: Tone) -> (l: Line)
    ensures
        l@ == lv(text@, tone),
{
    Line { text: text.to_owned(), tone }
}

fn push_command(v: &mut Vec<Command>, key: &str, desc: &str)
    ensures
        commands_view(final(v)@) == commands_view(old(v)@).push(cmd(key@, desc@)),
{
    v.push(command(key, desc));
    assert(commands_view(v@) =~= commands_view(old(v)@).push(cmd(key@, desc@)));
}

fn push_line(v: &mut Vec<Line>, l: Line)
    ensures
        lines_view(final(v)@) == lines_view(old(v)@).push(l@),
{
    let ghost lview = l@;
    v.push(l);
    assert(lines_view(v@) =~= lines_view(old(v)@).push(lview));
}

/// Appends the lines of `text` as ordinary lines.
fn push_plain_lines(v: &mut Vec<Line>, text: &str)
    ensures
        lines_view(final(v)@) == lines_view(old(v)@) + plain_lines(lines_of(text@)),
{
    let pieces = split_lines(text);
    let ghost ts = strings_view(pieces@);
    let n = pieces.len();
    let mut i: usize = 0;
    while i < n
        invariant
            n == pieces@.len(),
            ts == strings_view(pieces@),
            i <= n,
            lines_view(v@) == lines_view(old(v)@) + plain_lines(ts.take(i as int)),
        decreases n - i,
    {
        let piece = pieces[i].clone();
        push_line(v, line(piece, Tone::Plain));
        proof {
            assert(plain_lines(ts.take(i as int + 1)) =~= plain_lines(ts.take(i as int)).push(lv(ts[i as int], Tone::Plain)));
        }
        i = i + 1;
    }
    proof {
        assert(ts.take(n as int) =~= ts);
    }
}

/// The sidebar of the post list.
pub fn list_commands(admin: bool) -> (v: Vec<Command>)
    ensures
        commands_view(v@) == list_commands_spec(admin),
{
    let mut v: Vec<Command> = Vec::new();
    push_command(&mut v, "↑/↓", "navigate");
    push_command(&mut v, "Enter", "open");
    push_command(&mut v, "n", "new post");
    push_command(&mut v, "q", "quit");
    if admin {
        push_command(&mut v, "d", "delete");
    }
    assert(commands_view(v@) =~= list_commands_spec(admin));
    v
}

/// The sidebar of a post's page.
pub fn detail_commands(admin: bool) -> (v: Vec<Command>)
    ensures
        commands_view(v@) == detail_commands_spec(admin),
{
    let mut v: Vec<Command> = Vec::new();
    push_command(&mut v, "b", "back");
    push_command(&mut v, "c", "comment");
    push_command(&mut v, "q", "quit");
    if admin {
        push_command(&mut v, "d", "delete");
    }
    assert(commands_view(v@) =~= detail_commands_spec(admin));
    v
}

/// The sidebar of the post composer.
pub fn compose_post_commands() -> (v: Vec<Command>)
    ensures
        commands_view(v@) == compose_post_commands_spec(),
{
    let mut v: Vec<Command> = Vec::new();
    push_command(&mut v, "Enter", "next / newline");
    push_command(&mut v, "Ctrl+D", "submit");
    push_command(&mut v, "Esc", "cancel");
    assert(commands_view(v@) =~= compose_post_commands_spec());
    v
}

/// The sidebar of the comment composer.
pub fn compose_comment_commands() -> (v: Vec<Command>)
    ensures
        commands_view(v@) == compose_comment_commands_spec(),
{
    let mut v: Vec<Command> = Vec::new();
    push_command(&mut v, "Enter", "newline");
    push_command(&mut v, "Ctrl+D", "submit");
    push_command(&mut v, "Esc", "cancel");
    assert(commands_view(v@) =~= compose_comment_commands_spec());
    v
}

/// The sidebar of the name prompt.
pub fn set_name_commands() -> (v: Vec<Command>)
    ensures
        commands_view(v@) == set_name_commands_spec(),
{
    let mut v: Vec<Command> = Vec::new();
    push_command(&mut v, "Enter", "confirm");
    push_command(&mut v, "Ctrl+C", "disconnect");
    assert(commands_view(v@) =~= set_name_commands_spec());
    v
}

/// The rule between a post and its comments.
pub fn comment_count_label(n: usize) -> (s: String)
    ensures
        s@ == count_label(n as nat),
{
    let mut s = "── ".to_owned();
    push_decimal(&mut s, n);
    s.append(" comment");
    if n != 1 {
        s.append("s");
        assert("s"@ == seq!['s']) by {
            reveal_strlit("s");
        }
    }
    s.append(" ──");
    s
}

/// The lines of a post's page.
pub fn detail_lines(post: &Post, comments: &Vec<Comment>) -> (v: Vec<Line>)
    ensures
        lines_view(v@) == detail_lines_spec(*post, comments@),
{
    let mut v: Vec<Line> = Vec::new();
    push_line(&mut v, line(post.title.clone(), Tone::Bold));
    let mut by = "by ".to_owned();
    by.append(post.author_name.as_str());
    push_line(&mut v, line(by, Tone::Dim));
    push_line(&mut v, line(String::new(), Tone::Plain));
    push_plain_lines(&mut v, post.body.as_str());
    let ghost head = lines_view(v@);
    assert(head =~= seq![
        lv(post.title@, Tone::Bold),
        lv("by "@ + post.author_name@, Tone::Dim),
        lv(Seq::empty(), Tone::Plain),
    ] + plain_lines(lines_of(post.body@)));
    push_line(&mut v, line(String::new(), Tone::Plain));
    if comments.len() == 0 {
        push_line(&mut v, line_str("No comments yet.", Tone::Dim));
        assert(lines_view(v@) =~= detail_lines_spec(*post, comments@));
    } else {
        push_line(&mut v, line(comment_count_label(comments.len()), Tone::Dim));
        let ghost mid = lines_view(v@);
        let mut i: usize = 0;
        while i < comments.len()
            invariant
                i <= comments@.len(),
                lines_view(v@) == mid + comment_lines(comments@.take(i as int)),
            decreases comments@.len() - i,
        {
            let c = &comments[i];
            push_line(&mut v, line(String::new(), Tone::Plain));
            let mut who = c.author_name.clone();
            who.append(":");
            push_line(&mut v, line(who, Tone::Accent));
            push_plain_lines(&mut v, c.body.as_str());
            proof {
                let t = comments@.take(i as int + 1);
                assert(t.drop_last() =~= comments@.take(i as int));
                assert(t.last() == *c);
                assert(lines_view(v@) =~= mid + comment_lines(t));
            }
            i = i + 1;
        }
        proof {
            assert(comments@.take(comments@.len() as int) =~= comments@);
            assert(lines_view(v@) =~= detail_lines_spec(*post, comments@));
        }
    }
    v
}

/// The lines of the post composer.
pub fn compose_post_lines(title: &str, body: &str, field: ComposeField) -> (v: Vec<Line>)
    ensures
        lines_view(v@) == compose_post_lines_spec(title@, body@, field),
{
    let mut v: Vec<Line> = Vec::new();
    let title_label = if field == ComposeField::Title { "Title ▶" } else { "Title :" };
    push_line(&mut v, line_str(title_label, Tone::Dim));
    push_line(&mut v, line_str(title, Tone::Plain));
    push_line(&mut v, line(String::new(), Tone::Plain));
    let body_label = if field == ComposeField::Body { "Body ▶" } else { "Body :" };
    push_line(&mut v, line_str(body_label, Tone::Dim));
    push_plain_lines(&mut v, body);
    assert(lines_view(v@) =~= compose_post_lines_spec(title@, body@, field));
    v
}

/// The lines of the comment composer: the body, line by line.
pub fn compose_comment_lines(body: &str) -> (v: Vec<Line>)
    ensures
        lines_view(v@) == plain_lines(lines_of(body@)),
{
    let mut v: Vec<Line> = Vec::new();
    push_plain_lines(&mut v, body);
    assert(lines_view(v@) =~= plain_lines(lines_of(body@)));
    v
}

/// The lines of the name prompt.
pub fn set_name_lines(name: &str) -> (v: Vec<Line>)
    ensures
        lines_view(v@) == set_name_lines_spec(name@),
{
    let mut v: Vec<Line> = Vec::new();
    push_line(&mut v, line_str("Welcome to shPlank!", Tone::Bold));
    push_line(&mut v, line(String::new(), Tone::Plain));
    push_line(&mut v, line_str("Choose a display name (shown on your posts and comments):", Tone::Plain));
    push_line(&mut v, line(String::new(), Tone::Plain));
    let mut prompt = "▶ ".to_owned();
    prompt.append(name);
    push_line(&mut v, line(prompt, Tone::Accent));
    assert(lines_view(v@) =~= set_name_lines_spec(name@));
    v
}

/// The lines of the delete confirmation box.
pub fn confirm_lines() -> (v: Vec<Line>)
    ensures
        lines_view(v@) == confirm_lines_spec(),
{
    let mut v: Vec<Line> = Vec::new();
    push_line(&mut v, line(String::new(), Tone::Plain));
    push_line(&mut v, line_str("Delete this post?", Tone::Bold));
    push_line(&mut v, line_str("(its comments go too)", Tone::Dim));
    push_line(&mut v, line(String::new(), Tone::Plain));
    push_line(&mut v, line_str("[ Enter / d ] confirm    [ Esc ] cancel", Tone::Dim));
    assert(lines_view(v@) =~= confirm_lines_spec());
    v
}

/// The rows of the post list: each post's title, in order.
pub fn post_titles(posts: &Vec<Post>) -> (v: Vec<String>)
    ensures
        strings_view(v@) == titles(posts@),
{
    let mut v: Vec<String> = Vec::new();
    let mut i: usize = 0;
    while i < posts.len()
        invariant
            i <= posts@.len(),
            strings_view(v@) == titles(posts@.take(i as int)),
        decreases posts@.len() - i,
    {
        v.push(posts[i].title.clone());
        proof {
            assert(titles(posts@.take(i as int + 1)) =~= titles(posts@.take(i as int)).push(posts@[i as int].title@));
            assert(strings_view(v@) =~= titles(posts@.take(i as int + 1)));
        }
        i = i + 1;
    }
    assert(posts@.take(posts@.len() as int) =~= posts@);
    v
}

/// The main area of a screen.
#[derive(Debug)]
pub enum Content {
    /// A list of post titles with one row highlighted: the highlighted row is
    /// drawn in `highlight` and preceded by `marker`.
    Posts { titles: Vec<String>, selected: Option<usize>, marker: String, highlight: Tone },
    /// Wrapped lines of text.
    Text { lines: Vec<Line> },
    /// Nothing at all is drawn.
    Nothing,
}

pub enum ContentView {
    Posts { titles: Seq<Seq<char>>, selected: Option<usize>, marker: Seq<char>, highlight: Tone },
    Text { lines: Seq<LineView> },
    Nothing,
}

/// A box drawn on top of the page, centred, `width_pct` × `height_pct`
/// percent of the screen, its lines centred in it.
#[derive(Debug)]
pub struct Popup {
    pub title: String,
    pub border: Border,
    pub lines: Vec<Line>,
    pub width_pct: u16,
    pub height_pct: u16,
}

pub struct PopupView {
    pub title: Seq<char>,
    pub border: Border,
    pub lines: Seq<LineView>,
    pub width_pct: u16,
    pub height_pct: u16,
}

/// Everything one frame shows: the boxed main area with its title and
/// border, the command sidebar (its title, border and key colour), and the
/// box on top, if any.
#[derive(Debug)]
pub struct Page {
    pub title: String,
    pub border: Border,
    pub commands: Vec<Command>,
    pub sidebar_title: String,
    pub sidebar_border: Border,
    pub key_tone: Tone,
    pub content: Content,
    pub popup: Option<Popup>,
}

pub struct PageView {
    pub title: Seq<char>,
    pub border: Border,
    pub commands: Seq<CommandView>,
    pub sidebar_title: Seq<char>,
    pub sidebar_border: Border,
    pub key_tone: Tone,
    pub content: ContentView,
    pub popup: Option<PopupView>,
}

impl View for Content {
    type V = ContentView;

    open spec fn view(&self) -> ContentView {
        match self {
            Content::Posts { titles, selected, marker, highlight } => ContentView::Posts {
                titles: strings_view(titles@),
                selected: *selected,
                marker: marker@,
                highlight: *highlight,
            },
            Content::Text { lines } => ContentView::Text { lines: lines_view(lines@) },
            Content::Nothing => ContentView::Nothing,
        }
    }
}

impl View for Popup {
    type V = PopupView;

    open spec fn view(&self) -> PopupView {
        PopupView {
            title: self.title@,
            border: self.border,
            lines: lines_view(self.lines@),
            width_pct: self.width_pct,
            height_pct: self.height_pct,
        }
    }
}

impl View for Page {
    type V = PageView;

    open spec fn view(&self) -> PageView {
        PageView {
            title: self.title@,
            border: self.border,
            commands: commands_view(self.commands@),
            sidebar_title: self.sidebar_title@,
            sidebar_border: self.sidebar_border,
            key_tone: self.key_tone,
            content: self.content@,
            popup: match self.popup {
                Some(p) => Some(p@),
                None => None,
            },
        }
    }
}

/// A page with the title, sidebar commands and content given, in the
/// forum's usual frame: a cyan main box, a dark grey ` Commands ` sidebar with
/// cyan keys, and nothing on top.
pub open spec fn framed(title: Seq<char>, commands: Seq<CommandView>, content: ContentView) -> PageView {
    PageView {
        title,
        border: Border::Accent,
        commands,
        sidebar_title: " Commands "@,
        sidebar_border: Border::Muted,
        key_tone: Tone::Accent,
        content,
        popup: None,
    }
}

/// The delete confirmation: a red ` Confirm Delete ` box, half the width and
/// about a third of the height of the screen.
pub open spec fn confirm_popup_spec() -> PopupView {
    PopupView {
        title: " Confirm Delete "@,
        border: Border::Alarm,
        lines: confirm_lines_spec(),
        width_pct: 50,
        height_pct: 35,
    }
}

/// What the screen `screen` shows for session `s`, the delete confirmation
/// aside. A post's page whose post is missing shows nothing.
pub open spec fn base_page_spec(s: SessionView, screen: Screen) -> PageView {
    match screen {
        Screen::Detail(i) => if i < s.posts.len() {
            framed(
                " shPlank "@,
                detail_commands_spec(s.is_admin()),
                ContentView::Text { lines: detail_lines_spec(s.posts[i as int], s.comments) },
            )
        } else {
            framed(""@, Seq::empty(), ContentView::Nothing)
        },
        Screen::ComposePost => framed(
            " New Post "@,
            compose_post_commands_spec(),
            ContentView::Text { lines: compose_post_lines_spec(s.title, s.body, s.field) },
        ),
        Screen::ComposeComment(_) => framed(
            " New Comment "@,
            compose_comment_commands_spec(),
            ContentView::Text { lines: plain_lines(lines_of(s.body)) },
        ),
        Screen::SetName => framed(
            " New User "@,
            set_name_commands_spec(),
            ContentView::Text { lines: set_name_lines_spec(s.body) },
        ),
        _ => framed(
            " shPlank "@,
            list_commands_spec(s.is_admin()),
            ContentView::Posts {
                titles: titles(s.posts),
                selected: s.selected,
                marker: "> "@,
                highlight: Tone::Selected,
            },
        ),
    }
}

/// What session `s` shows: its screen, and for a pending delete the screen it
/// was asked from with the confirmation on top.
pub open spec fn page_spec(s: SessionView) -> PageView {
    match s.screen {
        Screen::ConfirmDelete { index, from_detail } => {
            let under = if from_detail { Screen::Detail(index) } else { Screen::List };
            PageView { popup: Some(confirm_popup_spec()), ..base_page_spec(s, under) }
        },
        _ => base_page_spec(s, s.screen),
    }
}

fn framed_page(title: &str, commands: Vec<Command>, content: Content) -> (p: Page)
    ensures
        p@ == framed(title@, commands_view(commands@), content@),
{
    Page {
        title: title.to_owned(),
        border: Border::Accent,
        commands,
        sidebar_title: " Commands ".to_owned(),
        sidebar_border: Border::Muted,
        key_tone: Tone::Accent,
        content,
        popup: None,
    }
}

/// The delete confirmation box.
pub fn confirm_popup() -> (p: Popup)
    ensures
        p@ == confirm_popup_spec(),
{
    Popup {
        title: " Confirm Delete ".to_owned(),
        border: Border::Alarm,
        lines: confirm_lines(),
        width_pct: 50,
        height_pct: 35,
    }
}

fn base_page(s: &Session, screen: Screen) -> (p: Page)
    requires
        !(screen is ConfirmDelete),
    ensures
        p@ == base_page_spec(s@, screen),
{
    match screen {
        Screen::Detail(i) => {
            if i < s.posts.len() {
                framed_page(
                    " shPlank ",
                    detail_commands(s.is_admin()),
                    Content::Text { lines: detail_lines(&s.posts[i], &s.comments) },
                )
            } else {
                let none: Vec<Command> = Vec::new();
                assert(commands_view(none@) =~= Seq::<CommandView>::empty());
                framed_page("", none, Content::Nothing)
            }
        },
        Screen::ComposePost => framed_page(
            " New Post ",
            compose_post_commands(),
            Content::Text {
                lines: compose_post_lines(s.compose_title.as_str(), s.compose_body.as_str(), s.compose_field),
            },
        ),
        Screen::ComposeComment(_) => framed_page(
            " New Comment ",
            compose_comment_commands(),
            Content::Text { lines: compose_comment_lines(s.compose_body.as_str()) },
        ),
        Screen::SetName => framed_page(
            " New User ",
            set_name_commands(),
            Content::Text { lines: set_name_lines(s.compose_body.as_str()) },
        ),
        _ => framed_page(
            " shPlank ",
            list_commands(s.is_admin()),
            Content::Posts {
                titles: post_titles(&s.posts),
                selected: s.selected,
                marker: "> ".to_owned(),
                highlight: Tone::Selected,
            },
        ),
    }
}

/// What the session shows right now.
pub fn page(s: &Session) -> (p: Page)
    ensures
        p@ == page_spec(s@),
{
    match s.screen {
        Screen::ConfirmDelete { index, from_detail } => {
            let under = if from_detail { Screen::Detail(index) } else { Screen::List };
            let mut p = base_page(s, under);
            p.popup = Some(confirm_popup());
            p
        },
        _ => base_page(s, s.screen),
    }
}

} // verus!
