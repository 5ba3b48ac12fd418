use forum_post::post::{
    classify, description, CommentReadable, Fragment, Paragraph, Post, PostContent, PostError,
    ReplyBlock, RichChild, ThreadDocument, User,
};

fn s(x: &str) -> String {
    x.to_string()
}

fn text_child(t: &str) -> RichChild {
    RichChild { video: None, images: vec![], text: s(t) }
}

fn plain(t: &str) -> Paragraph {
    Paragraph { text: s(t), children: vec![] }
}

fn user(name: &str) -> User {
    User { id: s(name), name: s(name) }
}

fn block(title: Option<&str>, body: &str, author: Option<&str>, floor: Option<&str>, date: Option<&str>) -> ReplyBlock {
    ReplyBlock {
        title: title.map(s),
        paragraphs: vec![plain(body)],
        author: author.map(user),
        floor_marker: floor.map(s),
        date: date.map(s),
    }
}

fn document(blocks: Vec<ReplyBlock>) -> ThreadDocument {
    ThreadDocument { page_links: vec![], blocks }
}

const URL: &str = "https://forum.gamer.com.tw/C.php?bsn=100&snA=200&page=1&tnum=5";

#[test]
fn text_only_wrapper_is_one_token() {
    let d = description(&vec![plain("hello world")]);
    assert_eq!(d, vec![s("hello world")]);
}

#[test]
fn two_linked_images_are_two_tokens() {
    let child = RichChild { video: None, images: vec![s("a.png"), s("b.png")], text: s("ignored") };
    let d = description(&vec![Paragraph { text: s("ignored"), children: vec![child] }]);
    assert_eq!(d, vec![s("a.png"), s("b.png")]);
}

#[test]
fn video_wins_over_images() {
    let child = RichChild { video: Some(Some(s("yt"))), images: vec![s("a.png")], text: s("t") };
    assert!(matches!(classify(&child), Fragment::Video(Some(_))));
    let d = description(&vec![Paragraph { text: s("t"), children: vec![child] }]);
    assert_eq!(d, vec![s("yt")]);
}

#[test]
fn video_without_source_gives_nothing() {
    let child = RichChild { video: Some(None), images: vec![], text: s("t") };
    let d = description(&vec![Paragraph { text: s("t"), children: vec![child, text_child("after")] }]);
    assert_eq!(d, vec![s("after")]);
}

#[test]
fn tokens_keep_document_order() {
    let p1 = Paragraph {
        text: s("x"),
        children: vec![text_child("one"), RichChild { video: None, images: vec![s("i.png")], text: s("") }],
    };
    let d = description(&vec![plain("zero"), p1, plain("two")]);
    assert_eq!(d, vec![s("zero"), s("one"), s("i.png"), s("two")]);
}

#[test]
fn block_without_author_is_dropped() {
    let doc = document(vec![
        block(Some("Title"), "first", Some("ann"), Some("1"), Some("2020-01-01")),
        block(None, "second", None, Some("2"), Some("2020-01-02")),
        block(None, "third", Some("bob"), Some("3"), Some("2020-01-03")),
    ]);
    let posts = Post::posts(&doc);
    assert_eq!(posts.len(), 2);
    assert_eq!(posts[0].desc, vec![s("first")]);
    assert_eq!(posts[0].user.name, "ann");
    assert_eq!(posts[1].desc, vec![s("third")]);
    assert_eq!(posts[1].floor, 3);
    assert_eq!(posts[1].date, "2020-01-03");
}

#[test]
fn block_without_date_is_dropped() {
    let doc = document(vec![
        block(Some("T"), "a", Some("ann"), Some("1"), None),
        block(None, "b", Some("bob"), Some("2"), Some("d")),
    ]);
    let posts = Post::posts(&doc);
    assert_eq!(posts.len(), 1);
    assert_eq!(posts[0].user.id, "bob");
}

#[test]
fn unreadable_floor_is_zero() {
    let doc = document(vec![
        block(Some("T"), "a", Some("ann"), Some("x"), Some("d")),
        block(None, "b", Some("bob"), None, Some("d")),
        block(None, "c", Some("cat"), Some("12"), Some("d")),
    ]);
    let posts = Post::posts(&doc);
    assert_eq!(posts[0].floor, 0);
    assert_eq!(posts[1].floor, 0);
    assert_eq!(posts[2].floor, 12);
}

#[test]
fn post_is_extracted_from_page() {
    let doc = document(vec![
        block(Some("Title"), "first", Some("ann"), Some("1"), Some("d1")),
        block(None, "second", Some("bob"), Some("2"), Some("d2")),
    ]);
    let post = Post::from_page(URL, &doc).ok().unwrap();
    assert_eq!(post.id, "200");
    assert_eq!(post.floor, 5);
    assert_eq!(post.title, "Title");
    assert_eq!(post.posts.len(), 2);
    assert_eq!(post.posts[1].desc, vec![s("second")]);
}

#[test]
fn post_errors_are_distinct() {
    let good = || document(vec![block(Some("T"), "a", Some("ann"), Some("1"), Some("d"))]);
    let e = Post::from_page("https://x.test/C.php?bsn=1&tnum=5", &good()).err().unwrap();
    assert!(matches!(e, PostError::MissingId));
    assert_eq!(e.message(), "can't get id");
    let e = Post::from_page("https://x.test/C.php?snA=1", &good()).err().unwrap();
    assert!(matches!(e, PostError::MissingLastFloor));
    let e = Post::from_page("https://x.test/C.php?snA=1&tnum=abc", &good()).err().unwrap();
    assert!(matches!(e, PostError::MissingLastFloor));
    let e = Post::from_page("https://x.test/C.php?snA=1&tnum=2", &document(vec![])).err().unwrap();
    assert!(matches!(e, PostError::MissingTitle));
    let untitled = document(vec![block(None, "a", Some("ann"), Some("1"), Some("d"))]);
    let e = Post::from_page("https://x.test/C.php?snA=1&tnum=2", &untitled).err().unwrap();
    assert!(matches!(e, PostError::MissingTitle));
    let e = Post::from_page("::", &good()).err().unwrap();
    assert!(matches!(e, PostError::InvalidUrl));
}

#[test]
fn first_query_value_is_used_for_post() {
    let doc = document(vec![block(Some("T"), "a", Some("ann"), Some("1"), Some("d"))]);
    let pairs = vec![(s("snA"), s("1")), (s("tnum"), s("8")), (s("snA"), s("2")), (s("tnum"), s("9"))];
    let post = Post::from_query(&pairs, &doc).ok().unwrap();
    assert_eq!(post.id, "1");
    assert_eq!(post.floor, 8);
}

#[test]
fn comments_are_always_empty() {
    let c = PostContent { desc: vec![s("x")], user: user("ann"), floor: 3, date: s("d") };
    assert!(c.comment().is_empty());
}
