//! The records the board keeps, and the computing part of the queries on
//! them: which window of rows a page reads, and what a lookup gives back.
use vstd::prelude::*;

verus! {

/// How many posts one page of a board reads from the database.
pub const BOARD_PAGE_SIZE: i64 = 50;

/// A post: the first message of a thread, always with an image.
#[derive(Debug, Clone, PartialEq, Eq)]
pub struct Post {
    pub username: String,
    pub content: String,
    /// The name of the stored image file.
    pub image: String,
    pub id: i64,
    pub board: i64,
    pub time: i64,
}

/// A reply to a post, with an image or without.
#[derive(Debug, Clone, PartialEq, Eq)]
pub struct Reply {
    pub username: String,
    pub content: String,
    /// The name of the stored image file, if one was sent.
    pub image: Option<String>,
    pub id: i64,
    pub post: i64,
    pub time: i64,
}

/// A board: a few letters or digits without spaces, shown between slashes
/// (such as `/pol/`), and a description.
#[derive(Debug, Clone, PartialEq, Eq)]
pub struct Board {
    pub name: String,
    pub desc: String,
    pub id: i64,
    pub minacc: i32,
}

/// An account. `rights` is a permission level: 0 is no access, the level of
/// anonymous users; logged-in users have 1; higher levels may manage users
/// (above 1), delete posts (above 10), manage boards (above 20) and the
/// website (above 30). The password is kept hashed.
#[derive(Debug, Clone, PartialEq, Eq)]
pub struct User {
    pub id: i64,
    pub username: String,
    pub password: String,
    pub rights: i32,
}

/// Where a post is being shown: on the page of a board, or on its own page.
#[derive(Debug, Clone, Copy, PartialEq, Eq)]
pub enum Identifier {
    Board(i64),
    Post(i64),
}

/// The rows a query reads: at most `limit` of them, after skipping `offset`.
#[derive(Debug, Clone, Copy, PartialEq, Eq)]
pub struct PageWindow {
    pub limit: i64,
    pub offset: i64,
}

/// A lookup that found no row.
#[derive(Debug, Clone, Copy, PartialEq, Eq)]
pub enum QueryError {
    NoSuchBoard,
    NoSuchPost,
}

impl QueryError {
    /// The message of the error.
    pub fn message(&self) -> (r: String)
        ensures
            r@ == match self {
                QueryError::NoSuchBoard => "no such board"@,
                QueryError::NoSuchPost => "no such post"@,
            },
    {
        match self {
            QueryError::NoSuchBoard => "no such board".to_string(),
            QueryError::NoSuchPost => "no such post".to_string(),
        }
    }
}

/// The first row that page `page` of a board reads.
pub open spec fn board_page_offset(page: int) -> int {
    BOARD_PAGE_SIZE * page
}

/// The page of a board fits the range of row numbers.
pub open spec fn board_page_fits(page: int) -> bool {
    i64::MIN <= board_page_offset(page) <= i64::MAX
}

impl Board {
    /// The board that a lookup found: the first row, or `NoSuchBoard` when
    /// there is none.
    pub fn first_found(rows: Vec<Board>) -> (r: Result<Board, QueryError>)
        ensures
            rows@.len() == 0 ==> r == Err::<Board, QueryError>(QueryError::NoSuchBoard),
            rows@.len() > 0 ==> r == Ok::<Board, QueryError>(rows@[0]),
    {
        let mut rows = rows;
        if rows.len() == 0 {
            Err(QueryError::NoSuchBoard)
        } else {
            Ok(rows.remove(0))
        }
    }
}

impl Post {
    /// A new post, not yet stored: the given fields, with `id` and `time` 0.
    pub fn new_post(username: String, content: String, image: String, board: i64) -> (p: Post)
        ensures
            p.username == username,
            p.content == content,
            p.image == image,
            p.board == board,
            p.id == 0,
            p.time == 0,
    {
        Post { username, content, image, id: 0, board, time: 0 }
    }

    /// The post that a lookup found: the first row, or `NoSuchPost` when
    /// there is none.
    pub fn first_found(rows: Vec<Post>) -> (r: Result<Post, QueryError>)
        ensures
            rows@.len() == 0 ==> r == Err::<Post, QueryError>(QueryError::NoSuchPost),
            rows@.len() > 0 ==> r == Ok::<Post, QueryError>(rows@[0]),
    {
        let mut rows = rows;
        if rows.len() == 0 {
            Err(QueryError::NoSuchPost)
        } else {
            Ok(rows.remove(0))
        }
    }

    /// The rows that page `page` of a board reads: `BOARD_PAGE_SIZE` posts
    /// from row `BOARD_PAGE_SIZE * page` on.
    pub fn board_page(page: i64) -> (w: PageWindow)
        requires
            board_page_fits(page as int),
        ensures
            w.limit == BOARD_PAGE_SIZE,
            w.offset == board_page_offset(page as int),
    {
        PageWindow { limit: BOARD_PAGE_SIZE, offset: BOARD_PAGE_SIZE * page }
    }

    /// The rows that a reading of replies takes: all of them without
    /// paging; with `(page_size, page)`, `page_size` replies from row
    /// `page_size * page` on.
    pub fn reply_window(paginate: Option<(i64, i64)>) -> (w: Option<PageWindow>)
        requires
            paginate matches Some((size, page)) ==> i64::MIN <= size * page <= i64::MAX,
        ensures
            match paginate {
                None => w is None,
                Some((size, page)) => w matches Some(win) && win.limit == size && win.offset == size
                    * page,
            },
    {
        match paginate {
            None => None,
            Some((size, page)) => Some(PageWindow { limit: size, offset: size * page }),
        }
    }
}

impl Reply {
    /// A new reply, not yet stored: the given fields, with `id` and `time` 0.
    pub fn new_reply(username: String, content: String, image: Option<String>, post: i64) -> (r:
        Reply)
        ensures
            r.username == username,
            r.content == content,
            r.image == image,
            r.post == post,
            r.id == 0,
            r.time == 0,
    {
        Reply { username, content, image, id: 0, post, time: 0 }
    }
}

/// Consecutive pages of a board follow each other: the next page starts
/// right where this one ends.
pub proof fn lemma_board_pages_adjoin(page: int)
    ensures
        board_page_offset(page + 1) == board_page_offset(page) + BOARD_PAGE_SIZE,
{
}

/// Distinct pages of a board read distinct posts: an earlier page ends
/// before a later one starts.
pub proof fn lemma_board_pages_disjoint(p: int, q: int)
    requires
        p < q,
    ensures
        board_page_offset(p) + BOARD_PAGE_SIZE <= board_page_offset(q),
{
}

} // verus!
