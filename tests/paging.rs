use forum_post::decimal::parse_u16;
use forum_post::page::{PostPage, PostPageRef};
use forum_post::post::{Post, ThreadDocument};
use forum_post::query::{PostPageUrlParameter, UrlError};

fn doc_with_links(links: Vec<Option<String>>) -> ThreadDocument {
    ThreadDocument { page_links: links, blocks: vec![] }
}

fn empty_post(id: &str) -> Post {
    Post { id: id.to_string(), title: "t".to_string(), posts: vec![], floor: 0 }
}

#[test]
fn url_parameters_are_read() {
    let p = PostPageUrlParameter::from_url("https://forum.gamer.com.tw/C.php?bsn=100&snA=200&tnum=5")
        .ok()
        .unwrap();
    assert_eq!(p.board_id(), "100");
    assert_eq!(p.id(), "200");
    assert_eq!(p.floor(), 5);
}

#[test]
fn missing_floor_defaults_to_zero() {
    let p = PostPageUrlParameter::from_url("https://forum.gamer.com.tw/C.php?bsn=100&snA=200")
        .ok()
        .unwrap();
    assert_eq!(p.board_id(), "100");
    assert_eq!(p.id(), "200");
    assert_eq!(p.floor(), 0);
}

#[test]
fn malformed_floor_and_missing_ids_default() {
    let p = PostPageUrlParameter::from_url("https://forum.gamer.com.tw/C.php?tnum=abc").ok().unwrap();
    assert_eq!(p.board_id(), "");
    assert_eq!(p.id(), "");
    assert_eq!(p.floor(), 0);
    let q = PostPageUrlParameter::from_url("https://forum.gamer.com.tw/C.php?tnum=70000").ok().unwrap();
    assert_eq!(q.floor(), 0);
}

#[test]
fn last_repeated_parameter_wins() {
    let p = PostPageUrlParameter::from_url("https://x.test/C.php?snA=1&snA=2&tnum=3&tnum=4").ok().unwrap();
    assert_eq!(p.id(), "2");
    assert_eq!(p.floor(), 4);
}

#[test]
fn invalid_url_is_rejected() {
    let r = PostPageUrlParameter::from_url("not a url");
    assert!(matches!(r, Err(UrlError::InvalidUrl)));
    assert_eq!(UrlError::InvalidUrl.message(), "invalid url string");
}

#[test]
fn numbers_read_like_std() {
    for s in ["0", "5", "+5", "65535", "007", "", "+", "-1", "65536", "1a", " 1"] {
        assert_eq!(parse_u16(s), s.parse::<u16>().ok(), "{}", s);
    }
}

#[test]
fn new_page_starts_fresh() {
    let p = PostPage::new("60076", "123");
    assert_eq!(p.board_id, "60076");
    assert_eq!(p.id, "123");
    assert_eq!(p.page(), 1);
    assert_eq!(p.max(), 0);
    assert_eq!(p.floor, 0);
    assert!(p.cache().is_empty());
}

#[test]
fn init_reads_last_pagination_link() {
    let mut p = PostPage::new("1", "2");
    let links = (1..=7).map(|i| Some(i.to_string())).collect();
    p.init(&doc_with_links(links));
    assert_eq!(p.max(), 7);
}

#[test]
fn init_without_pagination_is_zero() {
    let mut p = PostPage::new("1", "2");
    p.init(&doc_with_links(vec![]));
    assert_eq!(p.max(), 0);
    p.init(&doc_with_links(vec![Some("1".to_string()), Some("next".to_string())]));
    assert_eq!(p.max(), 0);
    p.init(&doc_with_links(vec![Some("3".to_string()), None]));
    assert_eq!(p.max(), 0);
}

#[test]
fn url_is_built_from_identity() {
    let mut p = PostPage::new("100", "200");
    p.floor(5);
    assert_eq!(p.url(3), "https://forum.gamer.com.tw/C.php?bsn=100&snA=200&page=3&tnum=5");
    assert_eq!(p.url(3), p.url(3));
    let q = PostPage::with_domain("7", "8", "http://localhost:8080");
    assert_eq!(q.url(12), "http://localhost:8080/C.php?bsn=7&snA=8&page=12&tnum=0");
    assert_eq!(q.url(65535), "http://localhost:8080/C.php?bsn=7&snA=8&page=65535&tnum=0");
}

#[test]
fn url_is_the_same_for_equal_identity() {
    let mut a = PostPage::new("100", "200");
    let mut b = PostPage::new("100", "200");
    a.floor(9);
    b.floor(9);
    b.increase_page();
    b.insert_cache(1, None);
    assert_eq!(a.url(4), b.url(4));
}

#[test]
fn cached_page_is_kept() {
    let mut p = PostPage::new("1", "2");
    assert!(p.needs_fetch(2));
    assert!(p.get(2).is_none());
    p.insert_cache(2, Some(empty_post("first")));
    assert!(!p.needs_fetch(2));
    p.insert_cache(2, Some(empty_post("second")));
    p.insert_cache(2, None);
    for _ in 0..3 {
        let got = p.get(2).unwrap();
        assert_eq!(got.as_ref().unwrap().id, "first");
    }
}

#[test]
fn fetched_empty_differs_from_unfetched() {
    let mut p = PostPage::new("1", "2");
    p.insert_cache(3, None);
    assert!(!p.needs_fetch(3));
    assert!(p.get(3).unwrap().is_none());
    assert!(p.needs_fetch(4));
    assert!(p.get(4).is_none());
}

#[test]
fn page_moves_forward_and_back() {
    let mut p = PostPage::new("1", "2");
    p.increase_page();
    p.increase_page();
    assert_eq!(p.page(), 3);
    p.decrease_page();
    assert_eq!(p.page(), 2);
}

#[test]
fn parameter_builds_page() {
    let param = PostPageUrlParameter::from_url("https://forum.gamer.com.tw/C.php?bsn=100&snA=200&tnum=5")
        .ok()
        .unwrap();
    let p = PostPage::from_parameter(param);
    assert_eq!(p.board_id, "100");
    assert_eq!(p.id, "200");
    assert_eq!(p.floor, 5);
    assert_eq!(p.page(), 1);
    assert_eq!(p.max(), 0);
}

#[test]
fn snapshot_records_position() {
    let mut p = PostPage::new("1", "2");
    p.floor(4);
    p.increase_page();
    let mut links = Vec::new();
    links.push(Some("9".to_string()));
    p.init(&doc_with_links(links));
    let r = PostPageRef::from_page(&p);
    assert_eq!(r.board_id, "1");
    assert_eq!(r.id, "2");
    assert_eq!(r.page, 2);
    assert_eq!(r.max, 2);
    assert_eq!(r.floor, 4);
}
