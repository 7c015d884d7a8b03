use hkg::builder::{
    parse_list_topic_author_item, parse_list_topic_items, parse_list_topic_title_item,
    parse_page_and_max_page, parse_show_reply_items, parse_title_and_reply_count,
    reply_items_handler, Builder, E_CONTENT_ELM, E_CONTENT_INVALID, E_DATATIME, E_PAGE_SELECT,
    E_PAGE_STR, E_REPLIERS_HEADER, E_REPLIERS_TR, E_REPLY_ITEMS, E_TOPIC_DATA,
    E_TOPIC_DATA_LENGTH, E_USERID, E_USERNAME,
};
use hkg::html::{HTML_NAMESPACE, select, Attribute, Element, HtmlNode, Located};
use hkg::model::NodeType;
use hkg::query::parse_url_query_item;
use hkg::selector::{no_attrs, one, tag};

const THREAD_URL: &str = "http://forum1.hkgolden.com/view.aspx?type=BW&message=6543210";

fn element(name: &str, attrs: &[(&str, &str)], children: Vec<HtmlNode>) -> Element {
    Element {
        namespace: String::from(HTML_NAMESPACE),
        name: name.to_string(),
        attributes: attrs
            .iter()
            .map(|(k, v)| Attribute { namespace: String::new(), name: k.to_string(), value: v.to_string() })
            .collect(),
        children,
        html: Some(format!("<{}>", name)),
    }
}

fn el(name: &str, attrs: &[(&str, &str)], children: Vec<HtmlNode>) -> HtmlNode {
    HtmlNode::Element(element(name, attrs, children))
}

fn text(t: &str) -> HtmlNode {
    HtmlNode::Text(t.to_string())
}

fn header_row(divs: Vec<HtmlNode>) -> HtmlNode {
    el("tr", &[], vec![el("td", &[("class", "repliers_header")], divs)])
}

fn reply_row(userid: &str, username: &str, words: &str, time: &str) -> HtmlNode {
    let mut grid = element("div", &[("class", "ContentGrid")], vec![text(words), el("br", &[], vec![])]);
    grid.html = Some(format!("<div class=\"ContentGrid\">{}<br></div>", words));
    el(
        "tr",
        &[("userid", userid), ("username", username)],
        vec![el("td", &[("class", "repliers_right")], vec![HtmlNode::Element(grid), el("span", &[], vec![text(time)])])],
    )
}

fn page_select(selected: usize, pages: usize) -> HtmlNode {
    let options = (1..=pages)
        .map(|p| {
            let n = p.to_string();
            if p == selected {
                el("option", &[("value", &n), ("selected", "selected")], vec![text(&format!(" {} ", n))])
            } else {
                el("option", &[("value", &n)], vec![text(&n)])
            }
        })
        .collect();
    el("select", &[("name", "page")], options)
}

fn show_page(header: HtmlNode, rows: Vec<HtmlNode>, select: Option<HtmlNode>) -> HtmlNode {
    let mut trs = vec![header];
    trs.extend(rows);
    let mut top = vec![el("table", &[("class", "repliers")], trs)];
    if let Some(s) = select {
        top.push(s);
    }
    HtmlNode::Document(vec![el("html", &[], vec![el("body", &[], top)])])
}

fn good_header() -> HtmlNode {
    header_row(vec![el("div", &[], vec![text("  Hello thread \n")]), el("div", &[], vec![text(" 12個回應 ")])])
}

#[test]
fn url_query_item_reads_type_and_message() {
    let q = parse_url_query_item(THREAD_URL);
    assert_eq!(q.channel, "BW");
    assert_eq!(q.message, "6543210");
    let mut b = Builder::new();
    let q2 = b.url_query_item("http://forum1.hkgolden.com/view.aspx?message=1&type=ET&page=2");
    assert_eq!(q2.channel, "ET");
    assert_eq!(q2.message, "1");
}

#[test]
fn url_query_item_keeps_the_first_value_of_a_key() {
    let q = parse_url_query_item("http://x.com/v.aspx?type=A&message=1&type=B&message=2");
    assert_eq!(q.channel, "A");
    assert_eq!(q.message, "1");
}

#[test]
fn url_query_item_is_none_for_urls_without_type_and_message() {
    let mut b = Builder::new();
    assert!(b.try_url_query_item("not a url").is_none());
    assert!(b.try_url_query_item("http://x.com/v.aspx").is_none());
    assert!(b.try_url_query_item("http://x.com/v.aspx?type=A").is_none());
    assert!(b.try_url_query_item("http://x.com/v.aspx?type=A&page=1").is_none());
    assert!(b.try_url_query_item("http://x.com/v.aspx?type=A&type=B").is_none());
    assert!(b.try_url_query_item("http://x.com/v.aspx?message=1&page=2").is_none());
    assert!(b.try_url_query_item(THREAD_URL).is_some());
}

#[test]
fn show_item_reads_a_whole_thread_page() {
    let doc = show_page(
        good_header(),
        vec![reply_row("7", "alice", " first words ", "1/1/2017 10:00"), reply_row("8", "bob", "second", "1/1/2017 10:05")],
        Some(page_select(2, 3)),
    );
    let mut b = Builder::new();
    let item = b.show_item(&doc, THREAD_URL).unwrap();
    assert_eq!(item.url_query.channel, "BW");
    assert_eq!(item.url_query.message, "6543210");
    assert_eq!(item.title, "Hello thread");
    assert_eq!(item.reply_count, "12");
    assert_eq!(item.page, 2);
    assert_eq!(item.max_page, 3);
    assert_eq!(item.replies.len(), 2);
    let r = &item.replies[0];
    assert_eq!(r.userid, "7");
    assert_eq!(r.username, "alice");
    assert_eq!(r.content, "<div class=\"ContentGrid\"> first words <br></div>");
    assert_eq!(r.published_at, "1/1/2017 10:00");
    assert_eq!(r.body.len(), 2);
    match &r.body[0] {
        NodeType::Text(t) => assert_eq!(t.data, "first words"),
        _ => panic!("expected text"),
    }
    assert!(matches!(r.body[1], NodeType::Br(_)));
    assert_eq!(item.replies[1].username, "bob");
}

#[test]
fn try_show_item_needs_a_thread_url() {
    let doc = show_page(good_header(), vec![], Some(page_select(1, 1)));
    let mut b = Builder::new();
    assert!(b.try_show_item(&doc, "http://x.com/v.aspx?page=1").is_none());
    let r = b.try_show_item(&doc, THREAD_URL).unwrap().unwrap();
    assert_eq!(r.replies.len(), 0);
    assert_eq!((r.page, r.max_page), (1, 1));
}

#[test]
fn title_and_reply_count_errors() {
    let empty = HtmlNode::Document(vec![]);
    assert_eq!(parse_title_and_reply_count(&empty, THREAD_URL), Err(E_REPLIERS_TR));
    assert_eq!(E_REPLIERS_TR, "fail to build title and reply_count, reason: 'repliers_tr' not found");

    let no_header = show_page(el("tr", &[], vec![el("td", &[], vec![])]), vec![], None);
    assert_eq!(parse_title_and_reply_count(&no_header, THREAD_URL), Err(E_REPLIERS_HEADER));

    let one_div = show_page(header_row(vec![el("div", &[], vec![text("t")])]), vec![], None);
    assert_eq!(parse_title_and_reply_count(&one_div, THREAD_URL), Err(E_TOPIC_DATA_LENGTH));
    assert_eq!(E_TOPIC_DATA_LENGTH, "length of topic_data is invalid.");

    let bad_count = show_page(
        header_row(vec![el("div", &[], vec![text("t")]), el("div", &[], vec![text("many replies")])]),
        vec![],
        None,
    );
    assert_eq!(parse_title_and_reply_count(&bad_count, THREAD_URL), Err(E_TOPIC_DATA));
}

#[test]
fn title_and_reply_count_reads_the_last_header() {
    let doc = show_page(
        el(
            "tr",
            &[],
            vec![
                el("td", &[("class", "repliers_header")], vec![el("div", &[], vec![text("old")]), el("div", &[], vec![text("1個回應")])]),
                el("td", &[("class", "repliers_header")], vec![el("div", &[], vec![text(" new ")]), el("div", &[], vec![text("305個回應")])]),
            ],
        ),
        vec![],
        None,
    );
    assert_eq!(
        parse_title_and_reply_count(&doc, THREAD_URL),
        Ok((String::from("new"), String::from("305")))
    );
}

#[test]
fn page_and_max_page_errors_and_values() {
    let none = show_page(good_header(), vec![], None);
    assert_eq!(parse_page_and_max_page(&none), Err(E_PAGE_SELECT));
    let no_selected = show_page(good_header(), vec![], Some(el("select", &[("name", "page")], vec![el("option", &[], vec![text("1")])])));
    assert_eq!(parse_page_and_max_page(&no_selected), Err(E_PAGE_STR));
    let empty = show_page(good_header(), vec![], Some(el("select", &[("name", "page")], vec![])));
    assert_eq!(parse_page_and_max_page(&empty), Err(E_PAGE_STR));
    let ok = show_page(good_header(), vec![], Some(page_select(4, 9)));
    assert_eq!(parse_page_and_max_page(&ok), Ok((4, 9)));
    let words = show_page(
        good_header(),
        vec![],
        Some(el(
            "select",
            &[("name", "page")],
            vec![el("option", &[("selected", "selected")], vec![text("first")]), el("option", &[], vec![text("last")])],
        )),
    );
    assert_eq!(parse_page_and_max_page(&words), Ok((0, 0)));
}

#[test]
fn show_item_stops_at_the_first_error() {
    let mut b = Builder::new();
    let no_select = show_page(good_header(), vec![], None);
    assert_eq!(b.show_item(&no_select, THREAD_URL).err(), Some(E_PAGE_SELECT));
    let bad_reply = show_page(
        good_header(),
        vec![el("tr", &[("userid", "1"), ("username", "x")], vec![])],
        Some(page_select(1, 1)),
    );
    assert_eq!(b.show_item(&bad_reply, THREAD_URL).err(), Some(E_REPLY_ITEMS));
    assert_eq!(parse_show_reply_items(&bad_reply).err(), Some(E_REPLY_ITEMS));
}

#[test]
fn reply_items_handler_errors() {
    let check = |tr: Element, expected: &str| {
        let located = Located { element: &tr, ancestors: vec![] };
        assert_eq!(reply_items_handler(&located).err(), Some(expected));
    };
    check(element("tr", &[("username", "x")], vec![]), E_USERID);
    check(element("tr", &[("userid", "1")], vec![]), E_USERNAME);
    assert_eq!(E_USERNAME, "fail to parse show reply item, reason: 'userame' not found");
    check(element("tr", &[("userid", "1"), ("username", "x")], vec![]), E_CONTENT_ELM);
    let mut grid = element("div", &[("class", "ContentGrid")], vec![]);
    grid.html = None;
    check(
        element("tr", &[("userid", "1"), ("username", "x")], vec![el("td", &[("class", "repliers_right")], vec![HtmlNode::Element(grid)])]),
        E_CONTENT_INVALID,
    );
    let grid = element("div", &[("class", "ContentGrid")], vec![]);
    check(
        element("tr", &[("userid", "1"), ("username", "x")], vec![el("td", &[("class", "repliers_right")], vec![HtmlNode::Element(grid)])]),
        E_DATATIME,
    );
}

#[test]
fn reply_items_handler_takes_the_last_span_as_time() {
    let row = reply_row("3", "carol", "hi", "early");
    let doc = HtmlNode::Document(vec![el("table", &[("class", "repliers")], vec![row])]);
    let rows = select(&doc, &one(tag("tr", no_attrs())));
    let r = reply_items_handler(&rows[0]).unwrap();
    assert_eq!(r.published_at, "early");
    assert_eq!(r.userid, "3");
    let replies = parse_show_reply_items(&doc).unwrap();
    assert_eq!(replies.len(), 1);
    assert_eq!(replies[0].username, "carol");
}

fn topic_row(id: &str, href: &str, title: &str, page_links: &[&str]) -> HtmlNode {
    let mut links = vec![el("a", &[("href", href)], vec![text(title)])];
    for p in page_links {
        links.push(el("a", &[("href", href)], vec![text(p)]));
    }
    el(
        "tr",
        &[("id", id)],
        vec![
            el("td", &[], vec![el("img", &[], vec![])]),
            el("td", &[], links),
            el("td", &[], vec![el("a", &[("href", "ProfilePage.aspx?userid=9")], vec![text(" bob ")])]),
            el("td", &[], vec![text(" 1/2/2017 \n 11:30 ")]),
            el("td", &[], vec![text(" 42 ")]),
            el("td", &[], vec![text(" +3 ")]),
            el("td", &[], vec![text("ignored")]),
        ],
    )
}

fn topic_page(rows: Vec<HtmlNode>) -> HtmlNode {
    let mut trs = vec![el("tr", &[], vec![el("td", &[], vec![text("heading")])])];
    trs.extend(rows);
    HtmlNode::Document(vec![el("div", &[("class", "Topic_ListPanel")], vec![el("table", &[], trs)])])
}

#[test]
fn list_topic_items_reads_each_row() {
    let doc = topic_page(vec![
        topic_row("r1", "view.aspx?type=BW&message=100", " Hello ", &["1", " 5 "]),
        topic_row("r2", "/view.aspx?type=ET&message=200", "Single", &[]),
    ]);
    let mut b = Builder::new();
    let items = b.list_topic_items(&doc);
    assert_eq!(items.len(), 2);
    let a = &items[0];
    assert_eq!(a.title.url, "http://forum1.hkgolden.com/view.aspx?type=BW&message=100");
    assert_eq!(a.title.url_query.channel, "BW");
    assert_eq!(a.title.url_query.message, "100");
    assert_eq!(a.title.text, "Hello");
    assert_eq!(a.title.num_of_pages, 5);
    assert_eq!(a.author.url, "ProfilePage.aspx?userid=9");
    assert_eq!(a.author.name, "bob");
    assert_eq!(a.last_replied_date, "1/2/2017");
    assert_eq!(a.last_replied_time, "11:30");
    assert_eq!(a.reply_count, "42");
    assert_eq!(a.rating, "+3");
    let c = &items[1];
    assert_eq!(c.title.url, "http://forum1.hkgolden.com/view.aspx?type=ET&message=200");
    assert_eq!(c.title.num_of_pages, 1);
}

#[test]
fn list_topic_items_of_a_page_without_rows_is_empty() {
    let mut b = Builder::new();
    assert!(b.list_topic_items(&topic_page(vec![])).is_empty());
    assert_eq!(b.try_list_topic_items(&HtmlNode::Document(vec![])).map(|v| v.len()), Some(0));
}

#[test]
fn list_topic_items_with_an_unreadable_row_is_none() {
    let bad = el(
        "tr",
        &[("id", "x")],
        vec![el("td", &[], vec![]), el("td", &[], vec![text("no link")])],
    );
    let mut b0 = Builder::new();
    assert!(b0.try_list_topic_items(&topic_page(vec![bad])).is_none());
    let no_lines = el(
        "tr",
        &[("id", "y")],
        vec![
            el("td", &[], vec![]),
            el("td", &[], vec![el("a", &[("href", "view.aspx?type=A&message=1")], vec![text("t")])]),
            el("td", &[], vec![el("a", &[], vec![text("n")])]),
            el("td", &[], vec![text("one line")]),
        ],
    );
    let mut b = Builder::new();
    assert!(b.try_list_topic_items(&topic_page(vec![no_lines])).is_none());
}

#[test]
fn short_rows_leave_their_parts_empty() {
    let short = el(
        "tr",
        &[("id", "z")],
        vec![el("td", &[], vec![]), el("td", &[], vec![el("a", &[("href", "view.aspx?type=A&message=1")], vec![text("t")])])],
    );
    let items = parse_list_topic_items(&topic_page(vec![short]));
    assert_eq!(items[0].title.text, "t");
    assert_eq!(items[0].author.name, "");
    assert_eq!(items[0].last_replied_date, "");
    assert_eq!(items[0].rating, "");
}

#[test]
fn title_and_author_cells() {
    let doc = topic_page(vec![topic_row("r1", "view.aspx?type=BW&message=100", "T", &["x"])]);
    let tds = select(&doc, &one(tag("td", no_attrs())));
    // tds[0] is the heading row's cell; the row's cells follow.
    let title = parse_list_topic_title_item(&tds[2]);
    assert_eq!(title.num_of_pages, 0);
    assert_eq!(title.text, "T");
    let author = parse_list_topic_author_item(&tds[3]);
    assert_eq!(author.name, "bob");
}

#[test]
fn default_items_are_empty() {
    let b = Builder::new();
    let s = b.default_show_item();
    assert_eq!((s.page, s.max_page, s.replies.len()), (0, 0, 0));
    assert_eq!(s.title, "");
    assert_eq!(s.url_query.channel, "");
    let l = b.default_list_item();
    assert_eq!(l.title.num_of_pages, 0);
    assert_eq!(l.title.url, "");
    assert_eq!(l.author.name, "");
    assert_eq!(l.rating, "");
}

#[test]
fn builder_url_query_item_is_parse_url_query_item() {
    let mut b = Builder::new();
    for u in [THREAD_URL, "http://x.com/v.aspx?message=9&type=CA&type=XX"] {
        let a = b.url_query_item(u);
        let p = parse_url_query_item(u);
        assert_eq!((a.channel, a.message), (p.channel, p.message));
    }
}

#[test]
fn selected_ignores_ascii_case_on_html_elements_only() {
    let html_select = show_page(
        good_header(),
        vec![],
        Some(el(
            "select",
            &[("name", "page")],
            vec![el("option", &[("selected", "SELECTED")], vec![text("5")]), el("option", &[], vec![text("7")])],
        )),
    );
    assert_eq!(parse_page_and_max_page(&html_select), Ok((5, 7)));
    let mut svg_option = element("option", &[("selected", "SELECTED")], vec![text("5")]);
    svg_option.namespace = String::from("http://www.w3.org/2000/svg");
    let svg_select = show_page(
        good_header(),
        vec![],
        Some(el("select", &[("name", "page")], vec![HtmlNode::Element(svg_option), el("option", &[], vec![text("7")])])),
    );
    assert_eq!(parse_page_and_max_page(&svg_select), Err(E_PAGE_STR));
}
