use chrono::TimeZone;
use hkg::bindings::{FIRST_SECOND, LAST_SECOND};
use hkg::builders::index::Index;
use hkg::builders::show::{reply_time_text, Show, E_REPLY_TIME, TIME_FORMAT};
use hkg::model::NodeType;
use hkg::models::{thread, topic};

fn topic_item(thread_id: &str, title: &str, pages: usize) -> topic::Item {
    topic::Item {
        thread_id: thread_id.to_string(),
        cat_id: String::from("5"),
        title: title.to_string(),
        user_nickname: String::from("nick"),
        no_of_reply: String::from("33"),
        create_time: 1,
        last_reply_time: 2,
        total_page: pages,
    }
}

fn thread_page(items: Vec<thread::ItemData>) -> thread::Result {
    thread::Result {
        success: 1,
        server_time: 1500000000,
        response: thread::Response {
            thread_id: String::from("17173"),
            cat_id: String::from("1"),
            title: String::from("A thread"),
            user_id: String::from("9"),
            user_nickname: String::from("owner"),
            no_of_reply: String::from("250"),
            create_time: 1400000000,
            last_reply_time: 1500000000,
            total_page: 9,
            page: 2,
            item_data: items,
        },
    }
}

fn reply(nick: &str, msg: &str, time: usize) -> thread::ItemData {
    thread::ItemData {
        post_id: String::from("p"),
        thread_id: String::from("17173"),
        user_nickname: nick.to_string(),
        reply_time: time,
        msg: msg.to_string(),
    }
}

#[test]
fn index_new_and_build() {
    let mut index = Index::new();
    let mut doc = topic::Result::default();
    doc.response.items = vec![topic_item("100", "First", 3), topic_item("200", "Second", 1)];
    let rows = index.build(&doc).unwrap();
    assert_eq!(rows.len(), 2);
    assert_eq!(rows[0].title.url_query.channel, "5");
    assert_eq!(rows[0].title.url_query.message, "100");
    assert_eq!(rows[0].title.text, "First");
    assert_eq!(rows[0].title.num_of_pages, 3);
    assert_eq!(rows[0].title.url, "");
    assert_eq!(rows[0].author.name, "nick");
    assert_eq!(rows[0].author.url, "");
    assert_eq!(rows[0].reply_count, "33");
    assert_eq!(rows[0].rating, "");
    assert_eq!(rows[0].last_replied_date, "");
    assert_eq!(rows[1].title.url_query.message, "200");
}

#[test]
fn index_build_of_an_empty_list_is_empty() {
    let mut index = Index::new();
    assert!(index.build(&topic::Result::default()).unwrap().is_empty());
}

#[test]
fn show_build_with_times_reads_each_reply() {
    let doc = thread_page(vec![
        reply("amy", "hello<br><img src=\"faces/smile.gif\" class=\"emoji\">", 10),
        reply("ben", "<blockquote>quoted</blockquote> answer ", 20),
    ]);
    let times = vec![Some(String::from("t1")), Some(String::from("t2"))];
    let mut show = Show::new();
    let item = show.build_with_times(&doc, &times).unwrap();
    assert_eq!(item.url_query.channel, "1");
    assert_eq!(item.url_query.message, "17173");
    assert_eq!(item.title, "A thread");
    assert_eq!(item.reply_count, "250");
    assert_eq!((item.page, item.max_page), (2, 9));
    assert_eq!(item.replies.len(), 2);
    let a = &item.replies[0];
    assert_eq!(a.userid, "");
    assert_eq!(a.username, "amy");
    assert_eq!(a.content, "hello<br><img src=\"faces/smile.gif\" class=\"emoji\">");
    assert_eq!(a.published_at, "t1");
    assert_eq!(a.body.len(), 3);
    match &a.body[0] {
        NodeType::Text(t) => assert_eq!(t.data, "hello"),
        _ => panic!("expected text"),
    }
    assert!(matches!(a.body[1], NodeType::Br(_)));
    match &a.body[2] {
        NodeType::Image(i) => {
            assert_eq!(i.data, "faces/smile.gif");
            assert_eq!(i.alt, "emoji");
        }
        _ => panic!("expected image"),
    }
    let b = &item.replies[1];
    assert_eq!(b.published_at, "t2");
    match &b.body[0] {
        NodeType::BlockQuote(q) => match &q.data[0] {
            NodeType::Text(t) => assert_eq!(t.data, "quoted"),
            _ => panic!("expected text"),
        },
        _ => panic!("expected quote"),
    }
    match &b.body[1] {
        NodeType::Text(t) => assert_eq!(t.data, "answer"),
        _ => panic!("expected text"),
    }
}

#[test]
fn show_build_with_a_missing_time_fails() {
    let doc = thread_page(vec![reply("amy", "x", 10), reply("ben", "y", 20)]);
    let times = vec![Some(String::from("t1")), None];
    let mut show = Show::new();
    assert_eq!(show.build_with_times(&doc, &times).err(), Some(hkg::builder::E_REPLY_ITEMS));
    assert_eq!(show.parse_show_reply_items(&doc, &times).err(), Some(hkg::builder::E_REPLY_ITEMS));
    assert!(E_REPLY_TIME.contains("reply_time"));
}

#[test]
fn show_build_writes_times_in_local_time() {
    let doc = thread_page(vec![reply("amy", "hi", 1500000000)]);
    let mut show = Show::new();
    let item = show.build(&doc, "ignored").unwrap();
    let expected = chrono::Local.timestamp_opt(1500000000, 0).single().unwrap().format(TIME_FORMAT).to_string();
    assert_eq!(item.replies[0].published_at, expected);
    assert_eq!(item.replies[0].content, "hi");
}

#[test]
fn show_build_of_a_page_without_replies() {
    let doc = thread_page(vec![]);
    let mut show = Show::new();
    let item = show.build(&doc, "").unwrap();
    assert!(item.replies.is_empty());
    assert_eq!(item.title, "A thread");
}

#[test]
fn reply_time_text_is_the_local_time_of_the_reply() {
    for secs in [0usize, 1480612472, 1500000000] {
        let expected = chrono::Local.timestamp_opt(secs as i64, 0).single().unwrap().format("%d/%m/%Y %H:%M").to_string();
        assert_eq!(reply_time_text(&reply("x", "m", secs)), Some(expected));
    }
}

#[test]
fn reply_time_text_of_a_time_out_of_range_is_none() {
    assert_eq!(reply_time_text(&reply("x", "m", 9_000_000_000_000_000)), None);
}

#[test]
fn chrono_range_is_first_second_to_last_second() {
    assert!(chrono::DateTime::from_timestamp(FIRST_SECOND, 0).is_some());
    assert!(chrono::DateTime::from_timestamp(FIRST_SECOND - 1, 0).is_none());
    assert!(chrono::DateTime::from_timestamp(LAST_SECOND, 0).is_some());
    assert!(chrono::DateTime::from_timestamp(LAST_SECOND + 1, 0).is_none());
}

#[test]
fn reply_time_text_covers_all_of_chrono_range() {
    let last = LAST_SECOND as usize;
    let expected = chrono::Local.timestamp_opt(last as i64, 0).single().unwrap().format("%d/%m/%Y %H:%M").to_string();
    assert_eq!(reply_time_text(&reply("x", "m", last)), Some(expected));
    assert_eq!(reply_time_text(&reply("x", "m", last + 1)), None);
    let near = 8_200_000_000_000usize;
    assert!(reply_time_text(&reply("x", "m", near)).is_some());
}

#[test]
fn show_build_fails_where_the_message_leaves_no_div() {
    let doc = thread_page(vec![reply("amy", "<frameset>", 10)]);
    let times = vec![Some(String::from("t"))];
    let mut show = Show::new();
    assert_eq!(show.build_with_times(&doc, &times).err(), Some(hkg::builder::E_REPLY_ITEMS));
}
