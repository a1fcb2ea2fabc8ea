use nchan::queries::{Board, PageWindow, Post, QueryError, Reply, BOARD_PAGE_SIZE};

fn board(name: &str, id: i64) -> Board {
    Board { name: name.to_string(), desc: String::new(), id, minacc: 0 }
}

#[test]
fn new_post_sets_fields() {
    let p = Post::new_post("op".to_string(), "hello".to_string(), "1-a.png".to_string(), 4);
    assert_eq!(p.username, "op");
    assert_eq!(p.content, "hello");
    assert_eq!(p.image, "1-a.png");
    assert_eq!(p.board, 4);
    assert_eq!(p.id, 0);
    assert_eq!(p.time, 0);
}

#[test]
fn new_reply_sets_fields() {
    let r = Reply::new_reply("ann".to_string(), "hi".to_string(), None, 9);
    assert_eq!(r.username, "ann");
    assert_eq!(r.content, "hi");
    assert_eq!(r.image, None);
    assert_eq!(r.post, 9);
    assert_eq!(r.id, 0);
    assert_eq!(r.time, 0);
    let r = Reply::new_reply("ann".to_string(), "hi".to_string(), Some("2-b.gif".to_string()), 9);
    assert_eq!(r.image, Some("2-b.gif".to_string()));
}

#[test]
fn board_pages_read_fifty_posts_each() {
    assert_eq!(BOARD_PAGE_SIZE, 50);
    assert_eq!(Post::board_page(0), PageWindow { limit: 50, offset: 0 });
    assert_eq!(Post::board_page(2), PageWindow { limit: 50, offset: 100 });
    assert_eq!(Post::board_page(-1), PageWindow { limit: 50, offset: -50 });
}

#[test]
fn board_pages_adjoin() {
    for page in 0..10 {
        let this = Post::board_page(page);
        let next = Post::board_page(page + 1);
        assert_eq!(next.offset, this.offset + this.limit);
    }
}

#[test]
fn reply_windows() {
    assert_eq!(Post::reply_window(None), None);
    assert_eq!(Post::reply_window(Some((3, 0))), Some(PageWindow { limit: 3, offset: 0 }));
    assert_eq!(Post::reply_window(Some((3, 2))), Some(PageWindow { limit: 3, offset: 6 }));
}

#[test]
fn lookups_of_boards() {
    assert_eq!(Board::first_found(vec![]), Err(QueryError::NoSuchBoard));
    assert_eq!(
        Board::first_found(vec![board("pol", 1), board("a", 2)]),
        Ok(board("pol", 1))
    );
    assert_eq!(QueryError::NoSuchBoard.message(), "no such board");
}

#[test]
fn lookups_of_posts() {
    assert_eq!(Post::first_found(vec![]), Err(QueryError::NoSuchPost));
    let p = Post::new_post("op".to_string(), "x".to_string(), "i".to_string(), 1);
    assert_eq!(Post::first_found(vec![p.clone()]), Ok(p));
    assert_eq!(QueryError::NoSuchPost.message(), "no such post");
}
