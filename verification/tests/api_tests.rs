use nchan::api::{new_post, new_post_at, reply_to_post, reply_to_post_at, upload};
use nchan::fragments::reply_action_text;
use nchan::pages::{board_redirect, post_redirect};
use nchan::queries::{Identifier, Post};
use nchan::RenderError;

#[test]
fn stored_image_names() {
    let u = upload("imgs", 1700000000, "cat.png");
    assert_eq!(u.stored_name, "1700000000-cat.png");
    assert_eq!(u.destination, "imgs/1700000000-cat.png");
    let v = upload("imgs", 1700000000, "dog.png");
    assert_ne!(u.stored_name, v.stored_name);
}

#[test]
fn post_without_file_posts_nothing() {
    let o = new_post_at(4, None, "op".to_string(), "hi".to_string(), "imgs", 10).unwrap();
    assert!(o.plan.is_none());
    assert_eq!(o.redirect, board_redirect(4));
}

#[test]
fn post_with_unnamed_file_is_refused() {
    let r = new_post_at(4, Some(String::new()), "op".to_string(), "hi".to_string(), "imgs", 10);
    assert_eq!(r, Err(RenderError::BadImage));
}

#[test]
fn post_with_image() {
    let o = new_post_at(4, Some("cat.png".to_string()), "op".to_string(), "hi".to_string(), "imgs", 1700000000)
        .unwrap();
    assert_eq!(o.redirect, "<meta http-equiv=\"refresh\" content=\"0; url=/b/4\">");
    let plan = o.plan.unwrap();
    assert_eq!(plan.upload.stored_name, "1700000000-cat.png");
    assert_eq!(plan.upload.destination, "imgs/1700000000-cat.png");
    assert_eq!(
        plan.post,
        Post::new_post("op".to_string(), "hi".to_string(), "1700000000-cat.png".to_string(), 4)
    );
}

#[test]
fn post_now_is_stamped_with_the_clock() {
    let o = new_post(4, Some("cat.png".to_string()), "op".to_string(), "hi".to_string(), "imgs").unwrap();
    let plan = o.plan.unwrap();
    assert!(plan.upload.stored_name.ends_with("-cat.png"));
    let stamp: i64 = plan.upload.stored_name.strip_suffix("-cat.png").unwrap().parse().unwrap();
    assert!(stamp > 1_577_836_800);
    assert_eq!(plan.post.image, plan.upload.stored_name);
}

#[test]
fn reply_with_image_from_board() {
    let o = reply_to_post_at(
        8,
        "board".to_string(),
        3,
        Some("a.gif".to_string()),
        "re".to_string(),
        "yes".to_string(),
        "imgs",
        5,
    );
    let u = o.upload.unwrap();
    assert_eq!(u.stored_name, "5-a.gif");
    assert_eq!(u.destination, "imgs/5-a.gif");
    assert_eq!(o.reply.image, Some("5-a.gif".to_string()));
    assert_eq!(o.reply.post, 8);
    assert_eq!(o.reply.username, "re");
    assert_eq!(o.reply.content, "yes");
    assert_eq!(o.redirect, board_redirect(3));
}

#[test]
fn reply_with_no_image_kept() {
    for file in [None, Some(String::new())] {
        let o = reply_to_post_at(8, "post".to_string(), 8, file, "re".to_string(), "no".to_string(), "imgs", 5);
        assert!(o.upload.is_none());
        assert_eq!(o.reply.image, None);
        assert_eq!(o.redirect, post_redirect(8));
    }
}

#[test]
fn reply_from_unknown_kind_returns_to_post() {
    let o = reply_to_post_at(8, "thread".to_string(), 9, None, "re".to_string(), "x".to_string(), "imgs", 5);
    assert_eq!(o.redirect, post_redirect(9));
}

#[test]
fn reply_now() {
    let o = reply_to_post(8, "board".to_string(), 3, Some("a.gif".to_string()), "re".to_string(), "x".to_string(), "imgs");
    assert!(o.upload.unwrap().stored_name.ends_with("-a.gif"));
    assert_eq!(o.redirect, board_redirect(3));
}

fn route(action: &str) -> (i64, String, i64) {
    let parts: Vec<&str> = action.trim_start_matches("/reply/").split('/').collect();
    (parts[0].parse().unwrap(), parts[1].to_string(), parts[2].parse().unwrap())
}

#[test]
fn reply_returns_to_the_page_it_came_from() {
    let p = Post { username: "op".to_string(), content: "c".to_string(), image: "i".to_string(), id: 8, board: 3, time: 0 };
    for (where_am_i, page) in [(Identifier::Board(3), board_redirect(3)), (Identifier::Post(8), post_redirect(8))] {
        let (post_id, target, tid) = route(&reply_action_text(&p, where_am_i));
        assert_eq!(post_id, 8);
        let o = reply_to_post_at(post_id, target, tid, None, "re".to_string(), "x".to_string(), "imgs", 1);
        assert_eq!(o.redirect, page);
    }
}
