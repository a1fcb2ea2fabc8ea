use nchan::config::Config;
use nchan::fragments::{pageroot, post, post_box, reply, reply_action_text, top, user};
use nchan::queries::{Board, Identifier, Post, Reply};

const FORM_TAIL: &str = "\"><span>username: <input type=\"text\" name=\"username\" class=\"username\"></span><span><textarea name=\"content\"></textarea></span><span>image: <input type=\"file\" name=\"image\"></span><span><input type=\"submit\" value=\"Post\"></span></form>";

fn form(action: &str, class: &str) -> String {
    format!(
        "<form action=\"{}\" method=\"post\" enctype=\"multipart/form-data\" onsubmit=\"before_submit()\" class=\"postbox {}{}",
        action, class, FORM_TAIL
    )
}

fn config() -> Config {
    Config {
        title: "Test & Co".to_string(),
        banner: "b.png".to_string(),
        icon: "i.ico".to_string(),
        database: "sqlite::memory:".to_string(),
        default_boards: vec![],
        images: "imgs".to_string(),
        admin_token: "letmein".to_string(),
    }
}

fn sample_post() -> Post {
    Post {
        username: "op".to_string(),
        content: "first".to_string(),
        image: "9-x.jpg".to_string(),
        id: 5,
        board: 2,
        time: 0,
    }
}

#[test]
fn user_name() {
    assert_eq!(user("bob".to_string()), "<span class=\"user\">bob</span>");
    assert_eq!(user("<b>".to_string()), "<span class=\"user\">&lt;b&gt;</span>");
}

#[test]
fn post_form() {
    assert_eq!(post_box("/post/3", "postform"), form("/post/3", "postform"));
    assert_eq!(post_box("/a\"b", "x"), form("/a&quot;b", "x"));
}

#[test]
fn reply_with_image() {
    let r = Reply {
        username: "ann".to_string(),
        content: "hi <3".to_string(),
        image: Some("1-a.png".to_string()),
        id: 1,
        post: 5,
        time: 0,
    };
    assert_eq!(
        reply(r),
        "<div class=\"reply\"><a href=\"/img/1-a.png\" style=\"background-image: url(&quot;/img/1-a.png&quot;)\"></a><span class=\"user\">ann</span><br>hi &lt;3</div>"
    );
}

#[test]
fn reply_without_image() {
    let r = Reply {
        username: "ann".to_string(),
        content: "plain".to_string(),
        image: None,
        id: 1,
        post: 5,
        time: 0,
    };
    assert_eq!(
        reply(r),
        "<div class=\"reply\"><span class=\"user\">ann</span><br>plain</div>"
    );
}

#[test]
fn reply_actions() {
    assert_eq!(reply_action_text(&sample_post(), Identifier::Board(2)), "/reply/5/board/2");
    assert_eq!(reply_action_text(&sample_post(), Identifier::Post(5)), "/reply/5/post/5");
}

#[test]
fn post_on_a_board() {
    let expected = format!(
        "<div class=\"post\"><a href=\"/img/9-x.jpg\" style=\"background-image: url(&quot;/img/9-x.jpg&quot;)\"></a><span class=\"user\">op</span><br>first<br><br>{}<i>in</i></div>",
        form("/reply/5/board/2", "replyform")
    );
    assert_eq!(post(sample_post(), "<i>in</i>".to_string(), Identifier::Board(2)), expected);
}

#[test]
fn post_on_its_page() {
    let expected = format!(
        "<div class=\"post\"><a href=\"/img/9-x.jpg\" style=\"background-image: url(&quot;/img/9-x.jpg&quot;)\"></a><span class=\"user\">op</span><br>first<br><br>{}</div>",
        form("/reply/5/post/5", "replyform")
    );
    assert_eq!(post(sample_post(), String::new(), Identifier::Post(5)), expected);
}

#[test]
fn navigation_bar() {
    let boards = vec![
        Board { name: "pol".to_string(), desc: String::new(), id: 1, minacc: 0 },
        Board { name: "a&b".to_string(), desc: String::new(), id: 2, minacc: 0 },
    ];
    assert_eq!(
        top(boards, "banner.png".to_string()),
        "<div id=\"top\"><a href=\"/\"><img src=\"/res/banner.png\"></a><p><a href=\"/b/1\">/pol/</a><a href=\"/b/2\">/a&amp;b/</a></p></div>"
    );
    assert_eq!(
        top(vec![], "b.png".to_string()),
        "<div id=\"top\"><a href=\"/\"><img src=\"/res/b.png\"></a><p></p></div>"
    );
}

#[test]
fn page_frame() {
    assert_eq!(
        pageroot(&config(), vec![], "<p>x</p>".to_string()),
        "<!DOCTYPE html><html><head><title>N-CHAN: THE BEST IMAGEBOARD</title><link rel=\"stylesheet\" href=\"/res/main.css\"><link rel=\"icon\" href=\"/res/i.ico\"></head><body><div id=\"top\"><a href=\"/\"><img src=\"/res/b.png\"></a><p></p></div><p>x</p><script src=\"/res/main.js\"></script></body></html>"
    );
}
