use std::cell::Cell;

use hkg::resources::common::{
    empty_item, resource_for, ChannelImageItem, ChannelIndexItem, ChannelItem, ChannelItemType, ChannelShowItem,
    ResourceKind,
};
use hkg::resources::default_resource::DefaultResource;
use hkg::resources::show_resource::{
    cache_dir, cache_file_name, post_url, show_request, show_result_item, show_step, ShowStep,
};
use hkg::resources::web_resource::{PageStep, WebResource, MISSING_PAGE};

fn show_item(postid: &str, page: usize) -> ChannelItem {
    ChannelItem {
        extra: Some(ChannelItemType::Show(ChannelShowItem { postid: postid.to_string(), page })),
        result: String::new(),
    }
}

#[test]
fn web_resource_find_of_an_unknown_url_is_none() {
    let wr = WebResource::new();
    assert_eq!(wr.find("http://a"), "None");
    assert_eq!(MISSING_PAGE, "None");
    assert!(!wr.contains("http://a"));
}

fn get_with(wr: &mut WebResource, url: &str, fetch: impl FnOnce(&str) -> String) -> String {
    match wr.get(url) {
        PageStep::Answer(p) => p,
        PageStep::Fetch => {
            let page = fetch(url);
            wr.store(url, page)
        }
    }
}

#[test]
fn web_resource_get_asks_for_a_fetch_only_on_a_miss() {
    let mut wr = WebResource::new();
    assert!(matches!(wr.get("http://a"), PageStep::Fetch));
    let stored = wr.store("http://a", String::from("page of http://a"));
    assert_eq!(stored, "page of http://a");
    match wr.get("http://a") {
        PageStep::Answer(p) => assert_eq!(p, "page of http://a"),
        PageStep::Fetch => panic!("a stored page is not fetched again"),
    }
    assert_eq!(wr.find("http://a"), "page of http://a");
    assert!(wr.contains("http://a"));
    assert_eq!(wr.len(), 1);
}

#[test]
fn web_resource_fetches_once_and_then_answers_from_its_pages() {
    let mut wr = WebResource::new();
    let calls = Cell::new(0);
    let page = get_with(&mut wr, "http://a", |u: &str| {
        calls.set(calls.get() + 1);
        format!("page of {}", u)
    });
    assert_eq!(page, "page of http://a");
    let again = get_with(&mut wr, "http://a", |_u: &str| {
        calls.set(calls.get() + 1);
        String::from("other")
    });
    assert_eq!(again, "page of http://a");
    assert_eq!(calls.get(), 1);
}

#[test]
fn web_resource_store_keeps_the_first_page() {
    let mut wr = WebResource::new();
    wr.store("http://a", String::from("first"));
    assert_eq!(wr.store("http://a", String::from("second")), "first");
    assert_eq!(wr.find("http://a"), "first");
    assert_eq!(wr.len(), 1);
}

#[test]
fn web_resource_get_keeps_other_pages() {
    let mut wr = WebResource::new();
    get_with(&mut wr, "http://a", |_u: &str| String::from("A"));
    get_with(&mut wr, "http://b", |_u: &str| String::from("B"));
    assert_eq!(wr.find("http://a"), "A");
    assert_eq!(wr.find("http://b"), "B");
    assert_eq!(wr.find("http://c"), "None");
    assert_eq!(wr.len(), 2);
}

#[test]
fn web_resource_stores_a_fetched_error_text_too() {
    let mut wr = WebResource::new();
    let p = get_with(&mut wr, "http://down", |_u: &str| String::from("Error { kind: InvalidData }"));
    assert_eq!(p, "Error { kind: InvalidData }");
    assert_eq!(wr.find("http://down"), p);
}

#[test]
fn post_url_writes_the_api_address() {
    assert_eq!(post_url("17173", 1), "https://lihkg.com/api_v1_1/thread/17173/page/1");
    assert_eq!(post_url("5", 120), "https://lihkg.com/api_v1_1/thread/5/page/120");
    assert_eq!(post_url("", 0), "https://lihkg.com/api_v1_1/thread//page/0");
}

#[test]
fn cache_paths() {
    assert_eq!(cache_dir("17173"), "data/cache/html/17173/");
    assert_eq!(cache_file_name(3), "show_3.html");
    assert_eq!(cache_file_name(10), "show_10.html");
}

#[test]
fn show_request_only_for_show_items() {
    let r = show_request(&show_item("99", 4)).unwrap();
    assert_eq!(r.postid, "99");
    assert_eq!(r.page, 4);
    assert!(show_request(&empty_item()).is_none());
    let index = ChannelItem { extra: Some(ChannelItemType::Index(ChannelIndexItem { page: 1 })), result: String::new() };
    assert!(show_request(&index).is_none());
}

#[test]
fn show_result_item_names_the_request_and_holds_the_text() {
    let req = ChannelShowItem { postid: String::from("17173"), page: 2 };
    let it = show_result_item(&req, "{\"success\":1,\"title\":\"標題\"}".as_bytes().to_vec()).unwrap();
    assert_eq!(it.result, "{\"success\":1,\"title\":\"標題\"}");
    match it.extra {
        Some(ChannelItemType::Show(s)) => {
            assert_eq!(s.postid, "17173");
            assert_eq!(s.page, 2);
        }
        _ => panic!("expected a show item"),
    }
}

#[test]
fn show_result_item_rejects_invalid_utf8() {
    let req = ChannelShowItem { postid: String::from("1"), page: 1 };
    assert!(show_result_item(&req, vec![0x66, 0xff, 0x6f]).is_none());
    assert!(show_result_item(&req, vec![0xc0, 0x80]).is_none());
    assert!(show_result_item(&req, vec![0xed, 0xa0, 0x80]).is_none());
    assert_eq!(show_result_item(&req, vec![]).unwrap().result, "");
}

#[test]
fn default_resource_answers_the_empty_item() {
    let mut d = DefaultResource::new();
    let r = d.fetch(&show_item("1", 1));
    assert!(r.extra.is_none());
    assert_eq!(r.result, "");
    let dflt = ChannelItem::default();
    assert!(dflt.extra.is_none());
    assert_eq!(dflt.result, "");
}

#[test]
fn requests_go_to_the_resource_for_their_kind() {
    assert!(matches!(resource_for(&show_item("1", 1)), ResourceKind::Show));
    let index = ChannelItem { extra: Some(ChannelItemType::Index(ChannelIndexItem { page: 2 })), result: String::new() };
    assert!(matches!(resource_for(&index), ResourceKind::Index));
    let image = ChannelItem {
        extra: Some(ChannelItemType::Image(ChannelImageItem { url: String::from("http://i/x.png") })),
        result: String::new(),
    };
    assert!(matches!(resource_for(&image), ResourceKind::Image));
    assert!(matches!(resource_for(&empty_item()), ResourceKind::Empty));
}

#[test]
fn show_step_answers_cached_pages_and_fetches_the_others() {
    let req = ChannelShowItem { postid: String::from("17173"), page: 2 };
    match show_step(&req, Some(vec![1, 2, 3])) {
        ShowStep::Cached(b) => assert_eq!(b, vec![1, 2, 3]),
        ShowStep::FetchFrom(_) => panic!("a cached page is not fetched"),
    }
    match show_step(&req, None) {
        ShowStep::FetchFrom(u) => assert_eq!(u, "https://lihkg.com/api_v1_1/thread/17173/page/2"),
        ShowStep::Cached(_) => panic!("nothing was cached"),
    }
}

#[test]
fn a_second_show_request_hits_the_cache() {
    let req = ChannelShowItem { postid: String::from("17173"), page: 1 };
    let mut cache: Option<Vec<u8>> = None;
    let mut fetches = 0;
    let mut answer = |cache: &mut Option<Vec<u8>>, web: &str| {
        let body = match show_step(&req, cache.clone()) {
            ShowStep::Cached(b) => b,
            ShowStep::FetchFrom(_) => {
                fetches += 1;
                let b = web.as_bytes().to_vec();
                *cache = Some(b.clone());
                b
            }
        };
        show_result_item(&req, body).unwrap().result
    };
    let first = answer(&mut cache, "first page");
    let second = answer(&mut cache, "changed page");
    assert_eq!(first, "first page");
    assert_eq!(second, "first page");
    assert_eq!(fetches, 1);
}
