//! The pieces that pages are made of: user names, post forms, posts,
//! replies, the navigation bar and the page frame.
//!
//! Each function returns markup; user text in it is always escaped.
use vstd::prelude::*;
use crate::config::Config;
use crate::markup::{escape, int_text, escape_text, push_escaped, push_int, doctype};
use crate::queries::{Board, Identifier, Post, Reply};

verus! {

// ---------------------------------------------------------------------------
// What each piece is
// ---------------------------------------------------------------------------

/// A user name.
pub open spec fn user_markup(name: Seq<char>) -> Seq<char> {
    "<span class=\"user\">"@ + escape(name) + "</span>"@
}

/// A form that posts a user name, a text and an image to `action`.
pub open spec fn post_box_markup(action: Seq<char>, class: Seq<char>) -> Seq<char> {
    "<form action=\""@ + escape(action)
        + "\" method=\"post\" enctype=\"multipart/form-data\" onsubmit=\"before_submit()\" class=\"postbox "@
        + escape(class)
        + "\"><span>username: <input type=\"text\" name=\"username\" class=\"username\"></span><span><textarea name=\"content\"></textarea></span><span>image: <input type=\"file\" name=\"image\"></span><span><input type=\"submit\" value=\"Post\"></span></form>"@
}

/// A link to a stored image, shown as its background.
pub open spec fn image_markup(image: Seq<char>) -> Seq<char> {
    "<a href=\"/img/"@ + escape(image) + "\" style=\"background-image: url(&quot;/img/"@
        + escape(image) + "&quot;)\"></a>"@
}

/// The image of a reply, if it has one.
pub open spec fn reply_image_markup(image: Option<String>) -> Seq<char> {
    match image {
        Some(i) => image_markup(i@),
        None => Seq::empty(),
    }
}

/// A reply.
pub open spec fn reply_markup(r: Reply) -> Seq<char> {
    "<div class=\"reply\">"@ + reply_image_markup(r.image) + user_markup(r.username@) + "<br>"@
        + escape(r.content@) + "</div>"@
}

/// The kind of page a post is shown on, as the reply route names it.
pub open spec fn reply_kind(where_am_i: Identifier) -> Seq<char> {
    match where_am_i {
        Identifier::Board(_) => "board"@,
        Identifier::Post(_) => "post"@,
    }
}

/// The page to return to after a reply: the board of the post, or the post.
pub open spec fn reply_return_id(p: Post, where_am_i: Identifier) -> i64 {
    match where_am_i {
        Identifier::Board(_) => p.board,
        Identifier::Post(_) => p.id,
    }
}

/// Where the reply form of a post sends its reply:
/// `/reply/{post}/{board|post}/{page to return to}`.
pub open spec fn reply_action(p: Post, where_am_i: Identifier) -> Seq<char> {
    "/reply/"@ + int_text(p.id as int) + "/"@ + reply_kind(where_am_i) + "/"@ + int_text(
        reply_return_id(p, where_am_i) as int,
    )
}

/// A post with its image, author, text and reply form, followed by `inner`.
pub open spec fn post_markup(p: Post, inner: Seq<char>, where_am_i: Identifier) -> Seq<char> {
    "<div class=\"post\">"@ + image_markup(p.image@) + user_markup(p.username@) + "<br>"@ + escape(
        p.content@,
    ) + "<br><br>"@ + post_box_markup(reply_action(p, where_am_i), "replyform"@) + inner
        + "</div>"@
}

/// The link to one board in the navigation bar: `/name/`.
pub open spec fn board_link_markup(b: Board) -> Seq<char> {
    "<a href=\"/b/"@ + int_text(b.id as int) + "\">/"@ + escape(b.name@) + "/</a>"@
}

/// The links to all boards, in order.
pub open spec fn board_links_markup(boards: Seq<Board>) -> Seq<char>
    decreases boards.len(),
{
    if boards.len() == 0 {
        Seq::empty()
    } else {
        board_links_markup(boards.drop_last()) + board_link_markup(boards.last())
    }
}

/// The navigation bar: the banner, linking home, and the links to the boards.
pub open spec fn top_markup(boards: Seq<Board>, banner: Seq<char>) -> Seq<char> {
    "<div id=\"top\"><a href=\"/\"><img src=\"/res/"@ + escape(banner) + "\"></a><p>"@
        + board_links_markup(boards) + "</p></div>"@
}

/// A whole page: the frame, the navigation bar and `content`.
pub open spec fn pageroot_markup(
    icon: Seq<char>,
    banner: Seq<char>,
    boards: Seq<Board>,
    content: Seq<char>,
) -> Seq<char> {
    "<!DOCTYPE html>"@
        + "<html><head><title>N-CHAN: THE BEST IMAGEBOARD</title><link rel=\"stylesheet\" href=\"/res/main.css\"><link rel=\"icon\" href=\"/res/"@
        + escape(icon) + "\"></head><body>"@ + top_markup(boards, banner) + content
        + "<script src=\"/res/main.js\"></script></body></html>"@
}

// ---------------------------------------------------------------------------
// The pieces
// ---------------------------------------------------------------------------

/// The markup of a literal text.
pub fn text(s: &str) -> (r: String)
    ensures
        r@ == s@,
{
    s.to_string()
}

/// A user name.
pub fn user(name: String) -> (r: String)
    ensures
        r@ == user_markup(name@),
{
    let mut s = text("<span class=\"user\">");
    push_escaped(&mut s, name.as_str());
    s.append("</span>");
    s
}

/// A form that posts a user name, a text and an image to `action`.
pub fn post_box(action: &str, class: &str) -> (r: String)
    ensures
        r@ == post_box_markup(action@, class@),
{
    let mut s = text("<form action=\"");
    push_escaped(&mut s, action);
    s.append(
        "\" method=\"post\" enctype=\"multipart/form-data\" onsubmit=\"before_submit()\" class=\"postbox ",
    );
    push_escaped(&mut s, class);
    s.append(
        "\"><span>username: <input type=\"text\" name=\"username\" class=\"username\"></span><span><textarea name=\"content\"></textarea></span><span>image: <input type=\"file\" name=\"image\"></span><span><input type=\"submit\" value=\"Post\"></span></form>",
    );
    s
}

/// Appends the link to a stored image.
fn push_image(s: &mut String, image: &str)
    ensures
        final(s)@ == old(s)@ + image_markup(image@),
{
    let e = escape_text(image);
    s.append("<a href=\"/img/");
    s.append(e.as_str());
    s.append("\" style=\"background-image: url(&quot;/img/");
    s.append(e.as_str());
    s.append("&quot;)\"></a>");
    assert(final(s)@ =~= old(s)@ + image_markup(image@));
}

/// A reply.
pub fn reply(r: Reply) -> (m: String)
    ensures
        m@ == reply_markup(r),
{
    let mut s = text("<div class=\"reply\">");
    match &r.image {
        Some(image) => push_image(&mut s, image.as_str()),
        None => {},
    }
    let u = user(r.username.clone());
    s.append(u.as_str());
    s.append("<br>");
    push_escaped(&mut s, r.content.as_str());
    s.append("</div>");
    assert(s@ =~= reply_markup(r));
    s
}

/// Where the reply form of a post sends its reply.
pub fn reply_action_text(p: &Post, where_am_i: Identifier) -> (r: String)
    ensures
        r@ == reply_action(*p, where_am_i),
{
    let mut s = text("/reply/");
    push_int(&mut s, p.id);
    s.append("/");
    match where_am_i {
        Identifier::Board(_) => {
            s.append("board");
            s.append("/");
            push_int(&mut s, p.board);
        },
        Identifier::Post(_) => {
            s.append("post");
            s.append("/");
            push_int(&mut s, p.id);
        },
    }
    s
}

/// A post with its image, author, text and reply form, followed by `inner`,
/// markup that is shown as it is. On a board the reply form returns to the
/// board of the post, on the page of a post to the post.
pub fn post(p: Post, inner: String, where_am_i: Identifier) -> (m: String)
    ensures
        m@ == post_markup(p, inner@, where_am_i),
{
    let mut s = text("<div class=\"post\">");
    push_image(&mut s, p.image.as_str());
    let u = user(p.username.clone());
    s.append(u.as_str());
    s.append("<br>");
    push_escaped(&mut s, p.content.as_str());
    s.append("<br><br>");
    let action = reply_action_text(&p, where_am_i);
    let form = post_box(action.as_str(), "replyform");
    s.append(form.as_str());
    s.append(inner.as_str());
    s.append("</div>");
    s
}

/// The navigation bar: the banner, linking home, and a link to each board.
pub fn top(boards: Vec<Board>, banner: String) -> (m: String)
    ensures
        m@ == top_markup(boards@, banner@),
{
    let mut s = text("<div id=\"top\"><a href=\"/\"><img src=\"/res/");
    push_escaped(&mut s, banner.as_str());
    s.append("\"></a><p>");
    let ghost head = s@;
    let mut i: usize = 0;
    while i < boards.len()
        invariant
            i <= boards@.len(),
            s@ == head + board_links_markup(boards@.subrange(0, i as int)),
        decreases boards@.len() - i,
    {
        let b = &boards[i];
        s.append("<a href=\"/b/");
        push_int(&mut s, b.id);
        s.append("\">/");
        push_escaped(&mut s, b.name.as_str());
        s.append("/</a>");
        proof {
            let next = boards@.subrange(0, i + 1);
            assert(next.drop_last() =~= boards@.subrange(0, i as int));
            assert(next.last() == boards@[i as int]);
        }
        i = i + 1;
    }
    assert(boards@.subrange(0, boards@.len() as int) =~= boards@);
    s.append("</p></div>");
    s
}

/// A whole page: the frame with the site's icon, the navigation bar over
/// `boards` with the site's banner, and `content`.
pub fn pageroot(config: &Config, boards: Vec<Board>, content: String) -> (m: String)
    ensures
        m@ == pageroot_markup(config.icon@, config.banner@, boards@, content@),
{
    let mut s = doctype();
    s.append(
        "<html><head><title>N-CHAN: THE BEST IMAGEBOARD</title><link rel=\"stylesheet\" href=\"/res/main.css\"><link rel=\"icon\" href=\"/res/",
    );
    push_escaped(&mut s, config.icon.as_str());
    s.append("\"></head><body>");
    let t = top(boards, config.banner.clone());
    s.append(t.as_str());
    s.append(content.as_str());
    s.append("<script src=\"/res/main.js\"></script></body></html>");
    s
}

// ---------------------------------------------------------------------------
// Laws
// ---------------------------------------------------------------------------

/// What follows the board links on every page: the end of the navigation
/// bar, the content, and the end of the document.
pub open spec fn page_tail(content: Seq<char>) -> Seq<char> {
    "</p></div>"@ + content + "<script src=\"/res/main.js\"></script></body></html>"@
}

/// Every page ends with the end of the navigation bar, its content and the
/// end of the document; and one more board adds exactly its link `/name/`
/// to `/b/{id}` to the navigation bar, after the links of the boards before
/// it. So the navigation bar of every page lists every board it is given,
/// in order.
#[verifier::spinoff_prover]
#[verifier::rlimit(40)]
pub proof fn lemma_navigation_lists_every_board(
    icon: Seq<char>,
    banner: Seq<char>,
    boards: Seq<Board>,
    b: Board,
    content: Seq<char>,
)
    ensures
        ({
            let page = pageroot_markup(icon, banner, boards, content);
            let tail = page_tail(content);
            &&& page.len() >= tail.len()
            &&& page.subrange(page.len() - tail.len(), page.len() as int) == tail
            &&& pageroot_markup(icon, banner, boards.push(b), content) == page.subrange(
                0,
                page.len() - tail.len(),
            ) + ("<a href=\"/b/"@ + int_text(b.id as int) + "\">/"@ + escape(b.name@) + "/</a>"@)
                + tail
        }),
{
    let links = board_links_markup(boards);
    let link = "<a href=\"/b/"@ + int_text(b.id as int) + "\">/"@ + escape(b.name@) + "/</a>"@;
    assert(boards.push(b).drop_last() =~= boards);
    assert(board_links_markup(boards.push(b)) == links + link);
    let head = "<!DOCTYPE html>"@
        + "<html><head><title>N-CHAN: THE BEST IMAGEBOARD</title><link rel=\"stylesheet\" href=\"/res/main.css\"><link rel=\"icon\" href=\"/res/"@
        + escape(icon) + "\"></head><body>"@
        + ("<div id=\"top\"><a href=\"/\"><img src=\"/res/"@ + escape(banner) + "\"></a><p>"@);
    let tail = page_tail(content);
    let page = pageroot_markup(icon, banner, boards, content);
    assert(page =~= (head + links) + tail);
    assert(pageroot_markup(icon, banner, boards.push(b), content) =~= (head + links) + link + tail);
    assert(page.subrange(0, page.len() - tail.len()) =~= head + links);
    assert(page.subrange(page.len() - tail.len(), page.len() as int) =~= tail);
}

} // verus!
