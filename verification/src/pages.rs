//! The pages of the site: the front page, the pages of a board, the page of
//! a post, and the redirections that send a browser on to a board or post.
use vstd::prelude::*;
use crate::config::Config;
use crate::fragments::{
    image_markup, post, post_box, post_box_markup, post_markup, pageroot, pageroot_markup, reply,
    reply_action, reply_markup, text, user_markup,
};
use crate::markup::{escape, int_text, push_escaped, push_int};
use crate::queries::{Board, Identifier, PageWindow, Post, Reply};

verus! {

/// A board page offers a link to the next page when it shows exactly this
/// many posts.
pub const BOARD_PAGE_SIZE: i64 = 20;

/// How many replies a board page shows under each post: the first page of
/// replies of this size.
pub const SHOWN_REPLIES: i64 = 3;

/// What can go wrong while answering a request.
#[derive(Debug, Clone, Copy, PartialEq, Eq)]
pub enum RenderError {
    MutexingFailure,
    FilesystemError,
    BadImage,
}

impl RenderError {
    /// The message of the error: the name of its variant.
    pub fn message(&self) -> (r: String)
        ensures
            r@ == match self {
                RenderError::MutexingFailure => "MutexingFailure"@,
                RenderError::FilesystemError => "FilesystemError"@,
                RenderError::BadImage => "BadImage"@,
            },
    {
        match self {
            RenderError::MutexingFailure => text("MutexingFailure"),
            RenderError::FilesystemError => text("FilesystemError"),
            RenderError::BadImage => text("BadImage"),
        }
    }
}

/// The current time, in seconds since the Unix epoch.
///
/// Calls `chrono::Utc::now().timestamp()`. It reads the clock, so the value
/// itself is not claimed; `Utc::now` measures the time since the Unix epoch
/// as an unsigned duration (and panics on a clock set before it), so the
/// result is not negative.
#[verifier::external_body]
pub fn get_utc() -> (t: i64)
    ensures
        0 <= t,
{
    chrono::Utc::now().timestamp()
}

/// A number drawn at random from `low` (included) to `high` (excluded).
///
/// Calls `rand::Rng::gen_range` on `rand::thread_rng()`, whose documentation
/// promises a value in the range and a panic on an empty one; the contract
/// claims the range and leaves the empty one out.
#[verifier::external_body]
fn random_in_range(low: i64, high: i64) -> (r: i64)
    requires
        low < high,
    ensures
        low <= r < high,
{
    rand::Rng::gen_range(&mut rand::thread_rng(), low..high)
}

// ---------------------------------------------------------------------------
// What each page is
// ---------------------------------------------------------------------------

/// Replies one after the other.
pub open spec fn replies_markup(replies: Seq<Reply>) -> Seq<char>
    decreases replies.len(),
{
    if replies.len() == 0 {
        Seq::empty()
    } else {
        replies_markup(replies.drop_last()) + reply_markup(replies.last())
    }
}

/// Replies, each after a line break.
pub open spec fn broken_replies_markup(replies: Seq<Reply>) -> Seq<char>
    decreases replies.len(),
{
    if replies.len() == 0 {
        Seq::empty()
    } else {
        broken_replies_markup(replies.drop_last()) + "<br>"@ + reply_markup(replies.last())
    }
}

/// The replies that a board shows under a post: the first `SHOWN_REPLIES`
/// of them, or all when there are fewer.
pub open spec fn shown_replies(replies: Seq<Reply>) -> Seq<Reply> {
    if replies.len() <= SHOWN_REPLIES {
        replies
    } else {
        replies.subrange(0, SHOWN_REPLIES as int)
    }
}

/// A post as a board shows it: its first `SHOWN_REPLIES` replies, each
/// after a line break, then a link to the page with all of them.
pub open spec fn gen_post_markup(p: Post, replies: Seq<Reply>, board: i64) -> Seq<char> {
    post_markup(
        p,
        broken_replies_markup(shown_replies(replies)) + "<i><a href=\"/post/"@ + int_text(p.id as int)
            + "\">see all replies</a></i>"@,
        Identifier::Board(board),
    )
}

/// The content of the front page.
pub open spec fn index_content(title: Seq<char>) -> Seq<char> {
    "<h1>Welcome to "@ + escape(title)
        + "!</h1><p>This is an instance of <a href=\"https://github.com/LinuxRocks2000/n-chan\">n-chan</a>. Check out some boards!</p><p><a href=\"/rand/\">random board</a></p><p><a href=\"https://landgreen.github.io/n-gon\">play n-gon</a></p><p><b>rules</b><br>don't post in /yuri/. don't impersonate weirdpusheen. don't malign the holy word of yotsuba.</p>"@
}

/// The content of the page of a post: a heading, a link back to its board,
/// and the post with all its replies.
pub open spec fn view_post_content(post_id: i64, p: Post, replies: Seq<Reply>) -> Seq<char> {
    "<h1>/post/"@ + int_text(post_id as int)
        + "/</h1><p style=\"text-align: center\"><a href=\"/b/"@ + int_text(p.board as int)
        + "\">back</a></p>"@ + post_markup(p, replies_markup(replies), Identifier::Post(post_id))
}

/// The heading of a board page: `/name/`, and the page number after the first.
pub open spec fn board_heading(name: Seq<char>, page: i64) -> Seq<char> {
    "<h1>/"@ + escape(name) + "/"@ + (if page != 0 {
        int_text(page as int) + "/"@
    } else {
        Seq::empty()
    }) + "</h1>"@
}

/// The link to the previous page, from the second page on.
pub open spec fn previous_link(board_id: i64, page: i64) -> Seq<char> {
    if page > 0 {
        "<a href=\"/b/"@ + int_text(board_id as int) + "/"@ + int_text(page - 1) + "\">previous</a>"@
    } else {
        Seq::empty()
    }
}

/// The link to the next page, on a page that shows exactly
/// `BOARD_PAGE_SIZE` posts.
pub open spec fn next_link(board_id: i64, page: i64, shown: int) -> Seq<char> {
    if shown == BOARD_PAGE_SIZE {
        "<a href=\"/b/"@ + int_text(board_id as int) + "/"@ + int_text(page + 1) + "\">next</a>"@
    } else {
        Seq::empty()
    }
}

/// The navigation between the pages of a board.
pub open spec fn board_navigation(board_id: i64, page: i64, shown: int) -> Seq<char> {
    "<p style=\"text-align: center;\">"@ + previous_link(board_id, page) + " page "@ + int_text(
        page + 1,
    ) + " "@ + next_link(board_id, page, shown) + "</p>"@
}

/// On the first page, the form for a new post; on the others, a link back
/// to the first page.
pub open spec fn board_form(name: Seq<char>, board_id: i64, page: i64) -> Seq<char> {
    if page == 0 {
        post_box_markup("/post/"@ + int_text(board_id as int), "postform"@)
    } else {
        "<p style=\"text-align: center;\"><a href=\"/b/"@ + int_text(board_id as int)
            + "\">back to /"@ + escape(name) + "/ front page</a></p>"@
    }
}

/// The first `n` posts of a board page, each with its first replies.
pub open spec fn board_posts_markup(posts: Seq<(Post, Vec<Reply>)>, board_id: i64, n: nat) -> Seq<
    char,
>
    decreases n,
{
    if n == 0 {
        Seq::empty()
    } else {
        board_posts_markup(posts, board_id, (n - 1) as nat) + gen_post_markup(
            posts[n - 1].0,
            posts[n - 1].1@,
            board_id,
        )
    }
}

/// The posts of a board page, or a hint when there are none.
pub open spec fn board_body(posts: Seq<(Post, Vec<Reply>)>, board_id: i64) -> Seq<char> {
    if posts.len() > 0 {
        board_posts_markup(posts, board_id, posts.len())
    } else {
        "<p style=\"text-align: center\"><i>no posts here. try <a href=\"/rand/\">/rand/</a>?</i></p>"@
    }
}

/// The content of a page of a board.
pub open spec fn board_content(
    b: Board,
    board_id: i64,
    page: i64,
    posts: Seq<(Post, Vec<Reply>)>,
) -> Seq<char> {
    board_heading(b.name@, page) + "<p id=\"desc\"><i>"@ + escape(b.desc@) + "</i></p>"@
        + board_navigation(board_id, page, posts.len() as int) + board_form(b.name@, board_id, page)
        + board_body(posts, board_id)
}

/// A page that sends the browser on to the page of a board.
pub open spec fn board_redirect_markup(id: i64) -> Seq<char> {
    "<meta http-equiv=\"refresh\" content=\"0; url=/b/"@ + int_text(id as int) + "\">"@
}

/// A page that sends the browser on to the page of a post.
pub open spec fn post_redirect_markup(id: i64) -> Seq<char> {
    "<meta http-equiv=\"refresh\" content=\"0; url=/post/"@ + int_text(id as int) + "\">"@
}

// ---------------------------------------------------------------------------
// The pages
// ---------------------------------------------------------------------------

/// A copy of a post.
pub fn copy_post(p: &Post) -> (r: Post)
    ensures
        r == *p,
{
    Post {
        username: p.username.clone(),
        content: p.content.clone(),
        image: p.image.clone(),
        id: p.id,
        board: p.board,
        time: p.time,
    }
}

/// A copy of a reply.
pub fn copy_reply(r: &Reply) -> (c: Reply)
    ensures
        c == *r,
{
    let image = match &r.image {
        Some(i) => Some(i.clone()),
        None => None,
    };
    Reply {
        username: r.username.clone(),
        content: r.content.clone(),
        image,
        id: r.id,
        post: r.post,
        time: r.time,
    }
}

/// A post as a board shows it: the first `SHOWN_REPLIES` of `replies`,
/// each after a line break, then a link to the page with all of them. The
/// reply form returns to the board of the post.
pub fn gen_post(p: Post, replies: Vec<Reply>, board: i64) -> (m: String)
    ensures
        m@ == gen_post_markup(p, replies@, board),
{
    let mut inner = String::new();
    let shown: usize = if replies.len() <= SHOWN_REPLIES as usize {
        replies.len()
    } else {
        SHOWN_REPLIES as usize
    };
    let mut i: usize = 0;
    while i < shown
        invariant
            shown <= replies@.len(),
            i <= shown,
            inner@ == broken_replies_markup(replies@.subrange(0, i as int)),
        decreases shown - i,
    {
        let r = reply(copy_reply(&replies[i]));
        inner.append("<br>");
        inner.append(r.as_str());
        proof {
            let next = replies@.subrange(0, i + 1);
            assert(next.drop_last() =~= replies@.subrange(0, i as int));
        }
        i = i + 1;
    }
    assert(replies@.subrange(0, shown as int) =~= shown_replies(replies@));
    inner.append("<i><a href=\"/post/");
    push_int(&mut inner, p.id);
    inner.append("\">see all replies</a></i>");
    post(p, inner, Identifier::Board(board))
}

/// Replies one after the other.
fn replies_text(replies: &Vec<Reply>) -> (m: String)
    ensures
        m@ == replies_markup(replies@),
{
    let mut s = String::new();
    let mut i: usize = 0;
    while i < replies.len()
        invariant
            i <= replies@.len(),
            s@ == replies_markup(replies@.subrange(0, i as int)),
        decreases replies@.len() - i,
    {
        let r = reply(copy_reply(&replies[i]));
        s.append(r.as_str());
        proof {
            let next = replies@.subrange(0, i + 1);
            assert(next.drop_last() =~= replies@.subrange(0, i as int));
        }
        i = i + 1;
    }
    assert(replies@.subrange(0, replies@.len() as int) =~= replies@);
    s
}

/// The front page, welcoming to the site by its title.
pub fn index(config: &Config, boards: Vec<Board>) -> (m: String)
    ensures
        m@ == pageroot_markup(config.icon@, config.banner@, boards@, index_content(config.title@)),
{
    let mut s = text("<h1>Welcome to ");
    push_escaped(&mut s, config.title.as_str());
    s.append(
        "!</h1><p>This is an instance of <a href=\"https://github.com/LinuxRocks2000/n-chan\">n-chan</a>. Check out some boards!</p><p><a href=\"/rand/\">random board</a></p><p><a href=\"https://landgreen.github.io/n-gon\">play n-gon</a></p><p><b>rules</b><br>don't post in /yuri/. don't impersonate weirdpusheen. don't malign the holy word of yotsuba.</p>",
    );
    pageroot(config, boards, s)
}

/// The page of post `post_id`: a heading, a link back to the board of the
/// post, and the post with all its replies; the reply form returns here.
pub fn view_post(
    config: &Config,
    boards: Vec<Board>,
    post_id: i64,
    p: Post,
    replies: Vec<Reply>,
) -> (m: String)
    ensures
        m@ == pageroot_markup(
            config.icon@,
            config.banner@,
            boards@,
            view_post_content(post_id, p, replies@),
        ),
{
    let mut s = text("<h1>/post/");
    push_int(&mut s, post_id);
    s.append("/</h1><p style=\"text-align: center\"><a href=\"/b/");
    push_int(&mut s, p.board);
    s.append("\">back</a></p>");
    let inner = replies_text(&replies);
    let m = post(p, inner, Identifier::Post(post_id));
    s.append(m.as_str());
    pageroot(config, boards, s)
}

/// Appends the heading of a board page.
fn push_board_heading(s: &mut String, name: &str, page: i64)
    ensures
        final(s)@ == old(s)@ + board_heading(name@, page),
{
    s.append("<h1>/");
    push_escaped(s, name);
    s.append("/");
    if page != 0 {
        push_int(s, page);
        s.append("/");
    }
    s.append("</h1>");
    assert(final(s)@ =~= old(s)@ + board_heading(name@, page));
}

/// Appends the link to the previous page, from the second page on.
fn push_previous_link(s: &mut String, board_id: i64, page: i64)
    ensures
        final(s)@ == old(s)@ + previous_link(board_id, page),
{
    if page > 0 {
        s.append("<a href=\"/b/");
        push_int(s, board_id);
        s.append("/");
        push_int(s, page - 1);
        s.append("\">previous</a>");
        assert(final(s)@ =~= old(s)@ + previous_link(board_id, page));
    } else {
        assert(final(s)@ =~= old(s)@ + previous_link(board_id, page));
    }
}

/// Appends the link to the next page, on a page that shows exactly
/// `BOARD_PAGE_SIZE` posts.
fn push_next_link(s: &mut String, board_id: i64, page: i64, shown: usize)
    requires
        page < i64::MAX,
    ensures
        final(s)@ == old(s)@ + next_link(board_id, page, shown as int),
{
    if shown as u64 == BOARD_PAGE_SIZE as u64 {
        s.append("<a href=\"/b/");
        push_int(s, board_id);
        s.append("/");
        push_int(s, page + 1);
        s.append("\">next</a>");
        assert(final(s)@ =~= old(s)@ + next_link(board_id, page, shown as int));
    } else {
        assert(final(s)@ =~= old(s)@ + next_link(board_id, page, shown as int));
    }
}

/// Appends the navigation between the pages of a board.
fn push_board_navigation(s: &mut String, board_id: i64, page: i64, shown: usize)
    requires
        page < i64::MAX,
    ensures
        final(s)@ == old(s)@ + board_navigation(board_id, page, shown as int),
{
    s.append("<p style=\"text-align: center;\">");
    push_previous_link(s, board_id, page);
    s.append(" page ");
    push_int(s, page + 1);
    s.append(" ");
    push_next_link(s, board_id, page, shown);
    s.append("</p>");
    assert(final(s)@ =~= old(s)@ + board_navigation(board_id, page, shown as int));
}

/// The page `page` (counted from 0) of board `board_id`, which is `b`: a
/// heading, the description, links to the previous and next page, the form
/// for a new post on the first page, and the posts, each with the first
/// `SHOWN_REPLIES` of the replies it comes with.
pub fn board(
    config: &Config,
    boards: Vec<Board>,
    b: Board,
    board_id: i64,
    page: i64,
    posts: Vec<(Post, Vec<Reply>)>,
) -> (m: String)
    requires
        page < i64::MAX,
    ensures
        m@ == pageroot_markup(
            config.icon@,
            config.banner@,
            boards@,
            board_content(b, board_id, page, posts@),
        ),
{
    let mut s = String::new();
    push_board_heading(&mut s, b.name.as_str(), page);
    s.append("<p id=\"desc\"><i>");
    push_escaped(&mut s, b.desc.as_str());
    s.append("</i></p>");
    push_board_navigation(&mut s, board_id, page, posts.len());
    let ghost before_form = s@;
    if page == 0 {
        let mut action = text("/post/");
        push_int(&mut action, board_id);
        let form = post_box(action.as_str(), "postform");
        s.append(form.as_str());
    } else {
        s.append("<p style=\"text-align: center;\"><a href=\"/b/");
        push_int(&mut s, board_id);
        s.append("\">back to /");
        push_escaped(&mut s, b.name.as_str());
        s.append("/ front page</a></p>");
    }
    assert(s@ =~= before_form + board_form(b.name@, board_id, page));
    let ghost before_posts = s@;
    if posts.len() > 0 {
        let mut i: usize = 0;
        while i < posts.len()
            invariant
                i <= posts@.len(),
                s@ == before_posts + board_posts_markup(posts@, board_id, i as nat),
            decreases posts@.len() - i,
        {
            let g = gen_post(copy_post(&posts[i].0), copy_replies(&posts[i].1), board_id);
            s.append(g.as_str());
            i = i + 1;
        }
    } else {
        s.append(
            "<p style=\"text-align: center\"><i>no posts here. try <a href=\"/rand/\">/rand/</a>?</i></p>",
        );
    }
    assert(s@ =~= board_content(b, board_id, page, posts@));
    pageroot(config, boards, s)
}

/// The replies a board page reads for each post: the first page of
/// `SHOWN_REPLIES` replies.
pub fn board_reply_window() -> (w: PageWindow)
    ensures
        w.limit == SHOWN_REPLIES,
        w.offset == 0,
{
    PageWindow { limit: SHOWN_REPLIES, offset: 0 }
}

/// A copy of a list of replies.
pub fn copy_replies(replies: &Vec<Reply>) -> (c: Vec<Reply>)
    ensures
        c@ == replies@,
{
    let mut c: Vec<Reply> = Vec::new();
    let mut i: usize = 0;
    while i < replies.len()
        invariant
            i <= replies@.len(),
            c@ == replies@.subrange(0, i as int),
        decreases replies@.len() - i,
    {
        c.push(copy_reply(&replies[i]));
        i = i + 1;
    }
    c
}

/// Which board a name asks for.
#[derive(Debug, Clone, PartialEq, Eq)]
pub enum BoardTarget {
    /// A board picked at random.
    Random,
    /// The board of that name.
    Named(String),
}

/// Which board a name asks for: the name `rand` asks for a random board,
/// any other name for the board of that name.
pub fn board_target(name: String) -> (t: BoardTarget)
    ensures
        name@ == "rand"@ ==> t == BoardTarget::Random,
        name@ != "rand"@ ==> t == BoardTarget::Named(name),
{
    let rand = text("rand");
    if name == rand {
        BoardTarget::Random
    } else {
        BoardTarget::Named(name)
    }
}

/// A board picked at random among the ids from 1 up to, but not including,
/// `count`, the number of boards.
pub fn random_board(count: i64) -> (id: i64)
    requires
        count > 1,
    ensures
        1 <= id < count,
{
    random_in_range(1, count)
}

/// A page that sends the browser on to the page of board `id`.
pub fn board_redirect(id: i64) -> (m: String)
    ensures
        m@ == board_redirect_markup(id),
{
    let mut s = text("<meta http-equiv=\"refresh\" content=\"0; url=/b/");
    push_int(&mut s, id);
    s.append("\">");
    s
}

/// A page that sends the browser on to the page of post `id`.
pub fn post_redirect(id: i64) -> (m: String)
    ensures
        m@ == post_redirect_markup(id),
{
    let mut s = text("<meta http-equiv=\"refresh\" content=\"0; url=/post/");
    push_int(&mut s, id);
    s.append("\">");
    s
}

// ---------------------------------------------------------------------------
// Laws
// ---------------------------------------------------------------------------

/// What ends a post as a board shows it: the link to all its replies and
/// the end of the post.
pub open spec fn see_all_tail(id: i64) -> Seq<char> {
    "<i><a href=\"/post/"@ + int_text(id as int) + "\">see all replies</a></i>"@ + "</div>"@
}

/// The markup of a post with `inner` under it, split where `inner` begins.
#[verifier::spinoff_prover]
#[verifier::rlimit(40)]
proof fn lemma_post_markup_split(p: Post, inner: Seq<char>, w: Identifier)
    ensures
        post_markup(p, inner, w) == post_markup(p, Seq::empty(), w).subrange(
            0,
            post_markup(p, Seq::empty(), w).len() - 6,
        ) + inner + "</div>"@,
        post_markup(p, Seq::empty(), w).len() >= 6,
{
    reveal_strlit("</div>");
    let pre = "<div class=\"post\">"@ + image_markup(p.image@) + user_markup(p.username@) + "<br>"@
        + escape(p.content@) + "<br><br>"@ + post_box_markup(reply_action(p, w), "replyform"@);
    assert(post_markup(p, inner, w) =~= pre + inner + "</div>"@);
    assert(post_markup(p, Seq::empty(), w) =~= pre + "</div>"@);
    assert(post_markup(p, Seq::empty(), w).subrange(0, post_markup(p, Seq::empty(), w).len() - 6)
        =~= pre);
}

/// Regrouping four pieces of text.
proof fn lemma_regroup(a: Seq<char>, b: Seq<char>, c: Seq<char>, d: Seq<char>)
    ensures
        a + (b + c) + d == (a + b) + (c + d),
{
    assert(a + (b + c) + d =~= (a + b) + (c + d));
}

/// A post on a board, split where the link to all its replies begins.
#[verifier::spinoff_prover]
#[verifier::rlimit(40)]
proof fn lemma_board_post_split(p: Post, replies: Seq<Reply>, board: i64)
    ensures
        ({
            let base = post_markup(p, Seq::empty(), Identifier::Board(board));
            gen_post_markup(p, replies, board) == (base.subrange(0, base.len() - 6)
                + broken_replies_markup(shown_replies(replies))) + see_all_tail(p.id)
        }),
{
    let w = Identifier::Board(board);
    let link = "<i><a href=\"/post/"@ + int_text(p.id as int) + "\">see all replies</a></i>"@;
    let base = post_markup(p, Seq::empty(), w);
    let pre = base.subrange(0, base.len() - 6);
    let before = broken_replies_markup(shown_replies(replies));
    lemma_post_markup_split(p, before + link, w);
    lemma_regroup(pre, before, link, "</div>"@);
}

/// A post on a board shows its replies up to `SHOWN_REPLIES` of them: it
/// ends with the link to all its replies; one more reply, while fewer than
/// `SHOWN_REPLIES` are given, is shown after the others, right before that
/// link; once `SHOWN_REPLIES` are given, more change nothing.
#[verifier::spinoff_prover]
#[verifier::rlimit(40)]
pub proof fn lemma_board_post_shows_first_replies(p: Post, replies: Seq<Reply>, r: Reply, board: i64)
    ensures
        ({
            let shown = gen_post_markup(p, replies, board);
            let tail = see_all_tail(p.id);
            &&& shown.len() >= tail.len()
            &&& shown.subrange(shown.len() - tail.len(), shown.len() as int) == tail
            &&& replies.len() < SHOWN_REPLIES ==> gen_post_markup(p, replies.push(r), board)
                == shown.subrange(0, shown.len() - tail.len()) + "<br>"@ + reply_markup(r) + tail
            &&& replies.len() >= SHOWN_REPLIES ==> gen_post_markup(p, replies.push(r), board)
                == shown
        }),
{
    let w = Identifier::Board(board);
    let tail = see_all_tail(p.id);
    let shown = gen_post_markup(p, replies, board);
    let base = post_markup(p, Seq::empty(), w);
    let pre = base.subrange(0, base.len() - 6);
    let before = broken_replies_markup(shown_replies(replies));
    lemma_board_post_split(p, replies, board);
    assert(shown.subrange(0, shown.len() - tail.len()) =~= pre + before);
    assert(shown.subrange(shown.len() - tail.len(), shown.len() as int) =~= tail);
    if replies.len() < SHOWN_REPLIES {
        assert(shown_replies(replies) == replies);
        assert(shown_replies(replies.push(r)) == replies.push(r));
        assert(replies.push(r).drop_last() =~= replies);
        assert(broken_replies_markup(replies.push(r)) == before + "<br>"@ + reply_markup(r));
        lemma_board_post_split(p, replies.push(r), board);
        assert(gen_post_markup(p, replies.push(r), board) =~= (pre + before) + "<br>"@
            + reply_markup(r) + tail);
    } else {
        assert(shown_replies(replies.push(r)) =~= shown_replies(replies));
    }
}

/// The content of the page of a post, split where its replies begin.
#[verifier::spinoff_prover]
#[verifier::rlimit(40)]
proof fn lemma_post_page_split(post_id: i64, p: Post, replies: Seq<Reply>)
    ensures
        ({
            let w = Identifier::Post(post_id);
            let base = post_markup(p, Seq::empty(), w);
            let head = "<h1>/post/"@ + int_text(post_id as int)
                + "/</h1><p style=\"text-align: center\"><a href=\"/b/"@ + int_text(p.board as int)
                + "\">back</a></p>"@;
            view_post_content(post_id, p, replies) == (head + base.subrange(0, base.len() - 6)
                + replies_markup(replies)) + "</div>"@
        }),
{
    let w = Identifier::Post(post_id);
    let base = post_markup(p, Seq::empty(), w);
    let head = "<h1>/post/"@ + int_text(post_id as int)
        + "/</h1><p style=\"text-align: center\"><a href=\"/b/"@ + int_text(p.board as int)
        + "\">back</a></p>"@;
    let pre = base.subrange(0, base.len() - 6);
    lemma_post_markup_split(p, replies_markup(replies), w);
    assert(view_post_content(post_id, p, replies) =~= (head + pre + replies_markup(replies))
        + "</div>"@);
}

/// The page of a post shows every reply it is given, in order: it ends with
/// the end of the post, and one more reply is shown after all the others,
/// right before that end.
#[verifier::spinoff_prover]
#[verifier::rlimit(40)]
pub proof fn lemma_post_page_shows_every_reply(post_id: i64, p: Post, replies: Seq<Reply>, r: Reply)
    ensures
        ({
            let page = view_post_content(post_id, p, replies);
            &&& page.len() >= 6
            &&& page.subrange(page.len() - 6, page.len() as int) == "</div>"@
            &&& view_post_content(post_id, p, replies.push(r)) == page.subrange(0, page.len() - 6)
                + reply_markup(r) + "</div>"@
        }),
{
    reveal_strlit("</div>");
    let w = Identifier::Post(post_id);
    let base = post_markup(p, Seq::empty(), w);
    let head = "<h1>/post/"@ + int_text(post_id as int)
        + "/</h1><p style=\"text-align: center\"><a href=\"/b/"@ + int_text(p.board as int)
        + "\">back</a></p>"@;
    let front = head + base.subrange(0, base.len() - 6) + replies_markup(replies);
    let page = view_post_content(post_id, p, replies);
    lemma_post_page_split(post_id, p, replies);
    assert(page.subrange(0, page.len() - 6) =~= front);
    assert(page.subrange(page.len() - 6, page.len() as int) =~= "</div>"@);
    assert(replies.push(r).drop_last() =~= replies);
    assert(replies_markup(replies.push(r)) == replies_markup(replies) + reply_markup(r));
    lemma_post_page_split(post_id, p, replies.push(r));
    assert(view_post_content(post_id, p, replies.push(r)) =~= front + reply_markup(r)
        + "</div>"@);
}

/// The first `n` posts of a board page do not depend on posts after them.
#[verifier::spinoff_prover]
#[verifier::rlimit(40)]
proof fn lemma_board_posts_prefix(
    posts: Seq<(Post, Vec<Reply>)>,
    q: (Post, Vec<Reply>),
    board_id: i64,
    n: nat,
)
    requires
        n <= posts.len(),
    ensures
        board_posts_markup(posts.push(q), board_id, n) == board_posts_markup(posts, board_id, n),
    decreases n,
{
    if n > 0 {
        lemma_board_posts_prefix(posts, q, board_id, (n - 1) as nat);
        assert(posts.push(q)[n - 1] == posts[n - 1]);
    }
}

/// Each post on a board page is shown with its own replies: a page with a
/// single post ends with that post and its replies, and one more post,
/// with its replies, is shown after all the others (away from the size at
/// which the page links to the next one).
#[verifier::spinoff_prover]
#[verifier::rlimit(40)]
pub proof fn lemma_board_shows_each_post_with_its_replies(
    b: Board,
    board_id: i64,
    page: i64,
    posts: Seq<(Post, Vec<Reply>)>,
    q: (Post, Vec<Reply>),
)
    ensures
        ({
            let single = board_content(b, board_id, page, seq![q]);
            let own = gen_post_markup(q.0, q.1@, board_id);
            &&& single.len() >= own.len()
            &&& single.subrange(single.len() - own.len(), single.len() as int) == own
        }),
        posts.len() > 0 && posts.len() != BOARD_PAGE_SIZE && posts.len() + 1 != BOARD_PAGE_SIZE
            ==> board_content(b, board_id, page, posts.push(q)) == board_content(
            b,
            board_id,
            page,
            posts,
        ) + gen_post_markup(q.0, q.1@, board_id),
{
    let own = gen_post_markup(q.0, q.1@, board_id);
    let single = board_content(b, board_id, page, seq![q]);
    let head1 = board_heading(b.name@, page) + "<p id=\"desc\"><i>"@ + escape(b.desc@)
        + "</i></p>"@ + board_navigation(board_id, page, 1) + board_form(b.name@, board_id, page);
    assert(board_posts_markup(seq![q], board_id, 0) == Seq::<char>::empty());
    assert(board_body(seq![q], board_id) =~= own);
    assert(single =~= head1 + own);
    assert(single.subrange(single.len() - own.len(), single.len() as int) =~= own);
    if posts.len() > 0 && posts.len() != BOARD_PAGE_SIZE && posts.len() + 1 != BOARD_PAGE_SIZE {
        let n = posts.len();
        lemma_board_posts_prefix(posts, q, board_id, n);
        assert(posts.push(q)[n as int] == q);
        assert(board_posts_markup(posts.push(q), board_id, n + 1) == board_posts_markup(
            posts,
            board_id,
            n,
        ) + own);
        assert(next_link(board_id, page, n as int) == next_link(board_id, page, (n + 1) as int));
        assert(board_content(b, board_id, page, posts.push(q)) =~= board_content(
            b,
            board_id,
            page,
            posts,
        ) + own);
    }
}

} // verus!
