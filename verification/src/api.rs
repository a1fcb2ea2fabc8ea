//! What the site does with a new post or reply sent from its forms: where
//! the image is stored, which record is written, and where the browser is
//! sent on to.
use vstd::prelude::*;
use crate::fragments::{reply_kind, reply_return_id, text};
use crate::markup::{int_text, push_int};
use crate::pages::{
    board_redirect, board_redirect_markup, get_utc, post_redirect, post_redirect_markup,
    RenderError,
};
use crate::queries::{Identifier, Post, Reply};

verus! {

/// An uploaded image to keep: the name it is stored under, and the path of
/// the file to copy it to.
#[derive(Debug, PartialEq, Eq)]
pub struct Upload {
    pub stored_name: String,
    pub destination: String,
}

/// A post to store, with its image.
#[derive(Debug, PartialEq, Eq)]
pub struct PostPlan {
    pub upload: Upload,
    pub post: Post,
}

/// The answer to a new post: the post to store, if any, and the page that
/// sends the browser back to the board.
#[derive(Debug, PartialEq, Eq)]
pub struct NewPostOutcome {
    pub plan: Option<PostPlan>,
    pub redirect: String,
}

/// The answer to a reply: the image to keep, if any, the reply to store,
/// and the page that sends the browser back where the reply came from.
#[derive(Debug, PartialEq, Eq)]
pub struct ReplyOutcome {
    pub upload: Option<Upload>,
    pub reply: Reply,
    pub redirect: String,
}

/// The name an image is stored under: the time of the upload, a dash, and
/// the name it was sent with.
pub open spec fn stored_image_name(time: i64, name: Seq<char>) -> Seq<char> {
    int_text(time as int) + "-"@ + name
}

/// The path of a stored image inside the image directory.
pub open spec fn image_destination(images: Seq<char>, stored: Seq<char>) -> Seq<char> {
    images + "/"@ + stored
}

/// An upload of image `name`, at `time`, into directory `images`.
pub open spec fn upload_of(u: Upload, images: Seq<char>, time: i64, name: Seq<char>) -> bool {
    &&& u.stored_name@ == stored_image_name(time, name)
    &&& u.destination@ == image_destination(images, stored_image_name(time, name))
}

/// What the answer to a new post is, at `time`: without a file nothing is
/// posted; a file with an empty name is refused as `BadImage`; otherwise
/// the image is stored and a post with it is created on the board.
pub open spec fn new_post_meets(
    r: Result<NewPostOutcome, RenderError>,
    board_id: i64,
    file_name: Option<String>,
    username: String,
    content: String,
    images: Seq<char>,
    time: i64,
) -> bool {
    match file_name {
        None => r matches Ok(o) && o.plan is None && o.redirect@ == board_redirect_markup(board_id),
        Some(name) => if name@.len() == 0 {
            r == Err::<NewPostOutcome, RenderError>(RenderError::BadImage)
        } else {
            &&& r matches Ok(o)
            &&& o.redirect@ == board_redirect_markup(board_id)
            &&& o.plan matches Some(plan)
            &&& upload_of(plan.upload, images, time, name@)
            &&& plan.post.username == username
            &&& plan.post.content == content
            &&& plan.post.image@ == stored_image_name(time, name@)
            &&& plan.post.board == board_id
            &&& plan.post.id == 0
            &&& plan.post.time == 0
        },
    }
}

/// The page to return to after a reply: the board `tid` when the reply
/// came from a board, the post `tid` otherwise.
pub open spec fn reply_redirect_markup(target: Seq<char>, tid: i64) -> Seq<char> {
    if target == "board"@ {
        board_redirect_markup(tid)
    } else {
        post_redirect_markup(tid)
    }
}

/// What the answer to a reply is, at `time`: the image is kept when a file
/// with a non-empty name was sent; the reply, with that image or without,
/// goes to post `post_id`.
pub open spec fn reply_meets(
    o: ReplyOutcome,
    post_id: i64,
    target: Seq<char>,
    tid: i64,
    file_name: Option<String>,
    username: String,
    content: String,
    images: Seq<char>,
    time: i64,
) -> bool {
    &&& o.reply.username == username
    &&& o.reply.content == content
    &&& o.reply.post == post_id
    &&& o.reply.id == 0
    &&& o.reply.time == 0
    &&& o.redirect@ == reply_redirect_markup(target, tid)
    &&& match file_name {
        Some(name) => if name@.len() > 0 {
            &&& o.upload matches Some(u)
            &&& upload_of(u, images, time, name@)
            &&& o.reply.image matches Some(i)
            &&& i@ == stored_image_name(time, name@)
        } else {
            o.upload is None && o.reply.image is None
        },
        None => o.upload is None && o.reply.image is None,
    }
}

/// Where an image sent as `name` at `time` is stored in directory `images`.
pub fn upload(images: &str, time: i64, name: &str) -> (u: Upload)
    ensures
        upload_of(u, images@, time, name@),
{
    let mut stored = String::new();
    push_int(&mut stored, time);
    stored.append("-");
    stored.append(name);
    assert(stored@ =~= stored_image_name(time, name@));
    let mut destination = text(images);
    destination.append("/");
    destination.append(stored.as_str());
    Upload { stored_name: stored, destination }
}

/// The answer to a new post on board `board_id`, sent at `time` with an
/// image file named `file_name` (if a file was sent at all), to be stored in
/// directory `images`.
pub fn new_post_at(
    board_id: i64,
    file_name: Option<String>,
    username: String,
    content: String,
    images: &str,
    time: i64,
) -> (r: Result<NewPostOutcome, RenderError>)
    ensures
        new_post_meets(r, board_id, file_name, username, content, images@, time),
{
    match &file_name {
        None => Ok(NewPostOutcome { plan: None, redirect: board_redirect(board_id) }),
        Some(name) => {
            if name.unicode_len() == 0 {
                return Err(RenderError::BadImage);
            }
            let u = upload(images, time, name.as_str());
            let stored = u.stored_name.clone();
            let p = Post::new_post(username, content, stored, board_id);
            Ok(
                NewPostOutcome {
                    plan: Some(PostPlan { upload: u, post: p }),
                    redirect: board_redirect(board_id),
                },
            )
        },
    }
}

/// The answer to a new post on board `board_id`, sent now with an image
/// file named `file_name` (if a file was sent at all), to be stored in
/// directory `images`: what `new_post_at` answers for the current time,
/// which is not before the Unix epoch.
pub fn new_post(
    board_id: i64,
    file_name: Option<String>,
    username: String,
    content: String,
    images: &str,
) -> (r: Result<NewPostOutcome, RenderError>)
    ensures
        exists|time: i64|
            0 <= time && new_post_meets(r, board_id, file_name, username, content, images@, time),
{
    let time = get_utc();
    new_post_at(board_id, file_name, username, content, images, time)
}

/// The answer to a reply to post `post_id`, sent at `time` from a page of
/// kind `target` (`board` or `post`) with id `tid`, with an image file named
/// `file_name` (if a file was sent at all), to be stored in `images`.
pub fn reply_to_post_at(
    post_id: i64,
    target: String,
    tid: i64,
    file_name: Option<String>,
    username: String,
    content: String,
    images: &str,
    time: i64,
) -> (o: ReplyOutcome)
    ensures
        reply_meets(o, post_id, target@, tid, file_name, username, content, images@, time),
{
    let (u, image) = match &file_name {
        Some(name) => {
            if name.unicode_len() != 0 {
                let u = upload(images, time, name.as_str());
                let stored = u.stored_name.clone();
                (Some(u), Some(stored))
            } else {
                (None, None)
            }
        },
        None => (None, None),
    };
    let r = Reply::new_reply(username, content, image, post_id);
    let board = text("board");
    let redirect = if target == board {
        board_redirect(tid)
    } else {
        post_redirect(tid)
    };
    ReplyOutcome { upload: u, reply: r, redirect }
}

/// The answer to a reply to post `post_id`, sent now from a page of kind
/// `target` (`board` or `post`) with id `tid`, with an image file named
/// `file_name` (if a file was sent at all), to be stored in `images`: what
/// `reply_to_post_at` answers for the current time, which is not before
/// the Unix epoch.
pub fn reply_to_post(
    post_id: i64,
    target: String,
    tid: i64,
    file_name: Option<String>,
    username: String,
    content: String,
    images: &str,
) -> (o: ReplyOutcome)
    ensures
        exists|time: i64|
            0 <= time && reply_meets(
                o,
                post_id,
                target@,
                tid,
                file_name,
                username,
                content,
                images@,
                time,
            ),
{
    let time = get_utc();
    reply_to_post_at(post_id, target, tid, file_name, username, content, images, time)
}

/// A reply sent from the form under a post returns the browser to the page
/// the post was shown on: the board for a post shown on its board, the
/// post's own page for a post shown there. The form names the route
/// `/reply/{post}/{kind}/{id}` (`reply_action`), and the reply is answered
/// from that kind and id.
pub proof fn lemma_reply_returns_to_page(p: Post, where_am_i: Identifier)
    requires
        where_am_i matches Identifier::Board(b) ==> p.board == b,
        where_am_i matches Identifier::Post(q) ==> p.id == q,
    ensures
        reply_redirect_markup(reply_kind(where_am_i), reply_return_id(p, where_am_i))
            == match where_am_i {
            Identifier::Board(b) => board_redirect_markup(b),
            Identifier::Post(q) => post_redirect_markup(q),
        },
{
    reveal_strlit("board");
    reveal_strlit("post");
    assert("post"@.len() != "board"@.len());
}

/// Images sent at the same moment under different names are stored under
/// different names.
pub proof fn lemma_stored_names_distinct(time: i64, a: Seq<char>, b: Seq<char>)
    requires
        a != b,
    ensures
        stored_image_name(time, a) != stored_image_name(time, b),
{
    let prefix = int_text(time as int) + "-"@;
    if stored_image_name(time, a) == stored_image_name(time, b) {
        assert(stored_image_name(time, a).subrange(prefix.len() as int, stored_image_name(time, a).len() as int) =~= a);
        assert(stored_image_name(time, b).subrange(prefix.len() as int, stored_image_name(time, b).len() as int) =~= b);
    }
}

} // verus!
