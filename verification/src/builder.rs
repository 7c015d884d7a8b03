use vstd::prelude::*;
use vstd::utf8::encode_utf8;

use crate::bindings::{capture, capture_of, parse_html, parsed_html, url_join, url_join_of};
use crate::content::{content_of_list, recursive};
use crate::model::{
    default_list_item, default_show_item, empty_list_item_view, empty_show_view, list_item_view,
    reply_view, reply_views, show_view, ListItemView, ListTopicItem, ReplyView, ShowItem,
    ShowReplyItem, ShowView, UrlQueryItem,
};
use crate::model::{ListTopicAuthorItem, ListTopicTitleItem, list_item_views};
use crate::query::{or_empty, parse_url_query_item, query_item_of, url_query_item_spec};
use crate::html::{
    attr_spec, get_attr, element_text_spec, found_of, founds_of, select, select_element_spec, select_node_spec,
    select_within, texts_of, CompoundView, Found, HtmlNode, Located,
};
use crate::selector::{
    attrs1, attrs2, class, class_view, equals, equals_view, no_attrs, one, present, present_view, tag,
    tag_view, two,
};
use crate::text::{first_two_lines, first_two_lines_spec, parse_usize, parse_usize_spec, trim, trim_spec};

verus! {

/// The document tree that the HTML text `html` parses to, as the builders read it.
/// The parser takes at most `u32::MAX` bytes of text.
pub fn parse_document(html: &str) -> (r: HtmlNode)
    requires
        encode_utf8(html@).len() <= 0xffff_ffff,
    ensures
        r == parsed_html(html@),
{
    parse_html(html)
}

/// The title and reply count are missing: no `.repliers tr`.
pub const E_REPLIERS_TR: &'static str =
    "fail to build title and reply_count, reason: 'repliers_tr' not found";

/// The title and reply count are missing: no `.repliers_header`.
pub const E_REPLIERS_HEADER: &'static str =
    "fail to build title and reply_count, reason: 'repliers_header' not found";

/// The header holds fewer than two `div`s.
pub const E_TOPIC_DATA_LENGTH: &'static str = "length of topic_data is invalid.";

/// The reply count does not read `<digits>個回應`.
pub const E_TOPIC_DATA: &'static str =
    "fail to build title and reply_count, reason: 'topic_data' not found";

/// The reply count pattern does not compile.
pub const E_REPLY_COUNT_REGEX: &'static str =
    "fail to build title and reply_count, reason: invalid regex";

/// No `select[name='page']`.
pub const E_PAGE_SELECT: &'static str =
    "fail to build page and max_page, reason: 'page_select' not found";

/// No selected `option` in the page select.
pub const E_PAGE_STR: &'static str = "fail to build page and max_page, reason: 'page_str' not found";

/// No `option` in the page select.
pub const E_MAX_PAGE_STR: &'static str =
    "fail to build page and max_page, reason: 'max_page_str' not found";

/// The pattern of the reply count, `<digits>個回應`.
pub const REPLY_COUNT_PATTERN: &'static str = r"^(?P<count>\d+)個回應$";

/// `.repliers tr`
pub open spec fn repliers_tr_sel() -> Seq<CompoundView> {
    seq![class_view("repliers"@), tag_view("tr"@, Seq::empty())]
}

/// `.repliers_header`
pub open spec fn repliers_header_sel() -> Seq<CompoundView> {
    seq![class_view("repliers_header"@)]
}

/// `div`
pub open spec fn div_sel() -> Seq<CompoundView> {
    seq![tag_view("div"@, Seq::empty())]
}

/// `select[name='page']`
pub open spec fn page_select_sel() -> Seq<CompoundView> {
    seq![tag_view("select"@, seq![equals_view("name"@, "page"@, false)])]
}

/// `option[selected='selected']` (on HTML elements the value of `selected` compares
/// without ASCII case)
pub open spec fn selected_option_sel() -> Seq<CompoundView> {
    seq![tag_view("option"@, seq![equals_view("selected"@, "selected"@, true)])]
}

/// `option`
pub open spec fn option_sel() -> Seq<CompoundView> {
    seq![tag_view("option"@, Seq::empty())]
}

/// The trimmed text of a found element.
pub open spec fn trimmed_text(f: Found) -> Seq<char> {
    trim_spec(element_text_spec(f.element))
}

/// The number that a text reads as (`parse::<usize>`), or 0 where it reads as none.
pub open spec fn usize_or_zero(r: Option<usize>) -> usize {
    match r {
        Some(n) => n,
        None => 0,
    }
}

/// The title and the reply count of a thread page: in the first `.repliers tr`, the last
/// `.repliers_header`; its first `div` gives the title (trimmed), its second the reply
/// count, the digits of `<digits>個回應` (trimmed text).
pub open spec fn title_and_reply_count_spec(doc: HtmlNode) -> Result<
    (Seq<char>, Seq<char>),
    Seq<char>,
> {
    let trs = select_node_spec(doc, Seq::empty(), repliers_tr_sel());
    if trs.len() == 0 {
        Err(E_REPLIERS_TR@)
    } else {
        let tr = trs[0];
        let headers = select_element_spec(tr.element, tr.ancestors, repliers_header_sel());
        if headers.len() == 0 {
            Err(E_REPLIERS_HEADER@)
        } else {
            let h = headers.last();
            let divs = select_element_spec(h.element, h.ancestors, div_sel());
            if divs.len() < 2 {
                Err(E_TOPIC_DATA_LENGTH@)
            } else {
                match capture_of(REPLY_COUNT_PATTERN@, trimmed_text(divs[1]), "count"@) {
                    None => Err(E_REPLY_COUNT_REGEX@),
                    Some(None) => Err(E_TOPIC_DATA@),
                    Some(Some(g)) => Ok(
                        (
                            trimmed_text(divs[0]),
                            match g {
                                Some(c) => c,
                                None => "0"@,
                            },
                        ),
                    ),
                }
            }
        }
    }
}

/// The page and the last page of a thread page: in the last `select[name='page']`, the
/// first selected `option` and the last `option`, each read as a number (0 where its
/// trimmed text is not one).
pub open spec fn page_spec(doc: HtmlNode) -> Result<(usize, usize), Seq<char>> {
    let selects = select_node_spec(doc, Seq::empty(), page_select_sel());
    if selects.len() == 0 {
        Err(E_PAGE_SELECT@)
    } else {
        let ps = selects.last();
        let selected = select_element_spec(ps.element, ps.ancestors, selected_option_sel());
        let options = select_element_spec(ps.element, ps.ancestors, option_sel());
        if selected.len() == 0 {
            Err(E_PAGE_STR@)
        } else if options.len() == 0 {
            Err(E_MAX_PAGE_STR@)
        } else {
            Ok(
                (
                    usize_or_zero(parse_usize_spec(trimmed_text(selected[0]))),
                    usize_or_zero(parse_usize_spec(trimmed_text(options.last()))),
                ),
            )
        }
    }
}

/// The trimmed text of a found element.
fn located_text(l: &Located) -> (r: String)
    ensures
        r@ == trimmed_text(found_of(*l)),
{
    let t = texts_of(&l.element.children);
    trim(t.as_str())
}

fn number_or_zero(s: &str) -> (r: usize)
    ensures
        r == usize_or_zero(parse_usize_spec(s@)),
{
    match parse_usize(s) {
        Some(n) => n,
        None => 0,
    }
}

/// The title and the reply count of the thread page `document`
/// (`parse_title_and_reply_count`); the error says what is missing.
pub fn parse_title_and_reply_count(document: &HtmlNode, url: &str) -> (r: Result<
    (String, String),
    &'static str,
>)
    ensures
        match title_and_reply_count_spec(*document) {
            Ok((t, c)) => r matches Ok((x, y)) && x@ == t && y@ == c,
            Err(e) => r matches Err(x) && x@ == e,
        },
{
    let trs = select(document, &two(class("repliers"), tag("tr", no_attrs())));
    assert(founds_of(trs@).len() == trs@.len());
    if trs.len() == 0 {
        return Err(E_REPLIERS_TR);
    }
    let tr = &trs[0];
    assert(found_of(*tr) == founds_of(trs@)[0]);
    let headers = select_within(tr, &one(class("repliers_header")));
    assert(founds_of(headers@).len() == headers@.len());
    if headers.len() == 0 {
        return Err(E_REPLIERS_HEADER);
    }
    let h = &headers[headers.len() - 1];
    assert(found_of(*h) == founds_of(headers@).last());
    let divs = select_within(h, &one(tag("div", no_attrs())));
    assert(founds_of(divs@).len() == divs@.len());
    if divs.len() < 2 {
        return Err(E_TOPIC_DATA_LENGTH);
    }
    assert(found_of(divs@[0]) == founds_of(divs@)[0]);
    assert(found_of(divs@[1]) == founds_of(divs@)[1]);
    let title = located_text(&divs[0]);
    let count_text = located_text(&divs[1]);
    match capture(REPLY_COUNT_PATTERN, count_text.as_str(), "count") {
        None => Err(E_REPLY_COUNT_REGEX),
        Some(None) => Err(E_TOPIC_DATA),
        Some(Some(g)) => {
            let count = match g {
                Some(c) => c,
                None => String::from_str("0"),
            };
            Ok((title, count))
        },
    }
}

/// The page and the last page of the thread page `document`; the error says what is
/// missing.
pub fn parse_page_and_max_page(document: &HtmlNode) -> (r: Result<(usize, usize), &'static str>)
    ensures
        match page_spec(*document) {
            Ok((p, m)) => r == Ok::<(usize, usize), &'static str>((p, m)),
            Err(e) => r matches Err(x) && x@ == e,
        },
{
    let selects = select(document, &one(tag("select", attrs1(equals("name", "page", false)))));
    assert(founds_of(selects@).len() == selects@.len());
    if selects.len() == 0 {
        return Err(E_PAGE_SELECT);
    }
    let ps = &selects[selects.len() - 1];
    assert(found_of(*ps) == founds_of(selects@).last());
    let selected = select_within(
        ps,
        &one(tag("option", attrs1(equals("selected", "selected", true)))),
    );
    assert(founds_of(selected@).len() == selected@.len());
    if selected.len() == 0 {
        return Err(E_PAGE_STR);
    }
    let options = select_within(ps, &one(tag("option", no_attrs())));
    assert(founds_of(options@).len() == options@.len());
    if options.len() == 0 {
        return Err(E_MAX_PAGE_STR);
    }
    assert(found_of(selected@[0]) == founds_of(selected@)[0]);
    assert(found_of(options@.last()) == founds_of(options@).last());
    let page_str = located_text(&selected[0]);
    let max_page_str = located_text(&options[options.len() - 1]);
    Ok((number_or_zero(page_str.as_str()), number_or_zero(max_page_str.as_str())))
}


/// A reply row has no `userid`.
pub const E_USERID: &'static str = "fail to parse show reply item, reason: 'userid' not found";

/// A reply row has no `username`.
pub const E_USERNAME: &'static str = "fail to parse show reply item, reason: 'userame' not found";

/// A reply row has no `.repliers_right .ContentGrid`.
pub const E_CONTENT_ELM: &'static str =
    "fail to parse show reply item, reason: 'content_elm' not found";

/// The markup of a reply's content is not valid UTF-8.
pub const E_CONTENT_INVALID: &'static str =
    "fail to parse show reply item, reason: 'content' invalid";

/// A reply row has no `.repliers_right span`.
pub const E_DATATIME: &'static str = "fail to parse show reply item, reason: 'datatime' not found";

/// Some reply row of a thread page could not be read.
pub const E_REPLY_ITEMS: &'static str =
    "fail to parse show reply items, reason: 'error show reply item' was found";

/// `.repliers tr[userid][username]`
pub open spec fn reply_tr_sel() -> Seq<CompoundView> {
    seq![
        class_view("repliers"@),
        tag_view("tr"@, seq![present_view("userid"@), present_view("username"@)]),
    ]
}

/// `.repliers_right .ContentGrid`
pub open spec fn content_grid_sel() -> Seq<CompoundView> {
    seq![class_view("repliers_right"@), class_view("ContentGrid"@)]
}

/// `.repliers_right span`
pub open spec fn datetime_sel() -> Seq<CompoundView> {
    seq![class_view("repliers_right"@), tag_view("span"@, Seq::empty())]
}

/// The reply that the row `tr` holds: its `userid` and `username` attributes; in it, the
/// first `.repliers_right .ContentGrid`, whose markup is the content and whose children
/// give the body (images take their `alt`); and the text of the last
/// `.repliers_right span`, the time it was published.
pub open spec fn reply_spec(tr: Found) -> Result<ReplyView, Seq<char>> {
    match attr_spec(tr.element, "userid"@) {
        None => Err(E_USERID@),
        Some(userid) => match attr_spec(tr.element, "username"@) {
            None => Err(E_USERNAME@),
            Some(username) => {
                let contents = select_element_spec(tr.element, tr.ancestors, content_grid_sel());
                if contents.len() == 0 {
                    Err(E_CONTENT_ELM@)
                } else {
                    match contents[0].element.html {
                        None => Err(E_CONTENT_INVALID@),
                        Some(h) => {
                            let spans = select_element_spec(
                                tr.element,
                                tr.ancestors,
                                datetime_sel(),
                            );
                            if spans.len() == 0 {
                                Err(E_DATATIME@)
                            } else {
                                Ok(
                                    ReplyView {
                                        userid: userid,
                                        username: username,
                                        content: h@,
                                        body: content_of_list(
                                            contents[0].element.children@,
                                            "alt"@,
                                        ),
                                        published_at: element_text_spec(spans.last().element),
                                    },
                                )
                            }
                        }
                    }
                }
            },
        },
    }
}

/// A reply's published time is the text of the last `.repliers_right span` of its row:
/// spans that come earlier in the row (inside the reply's content, say) never give it.
pub proof fn law_reply_time_is_last_span(tr: Found)
    requires
        reply_spec(tr) is Ok,
    ensures
        ({
            let spans = select_element_spec(tr.element, tr.ancestors, datetime_sel());
            &&& spans.len() > 0
            &&& reply_spec(tr)->Ok_0.published_at == element_text_spec(
                spans[spans.len() - 1].element,
            )
        }),
{
}

/// The replies of a thread page, one for each `.repliers tr[userid][username]` row;
/// an error where some row cannot be read.
pub open spec fn replies_spec(doc: HtmlNode) -> Result<Seq<ReplyView>, Seq<char>> {
    let trs = select_node_spec(doc, Seq::empty(), reply_tr_sel());
    if forall|i: int| 0 <= i < trs.len() ==> #[trigger] reply_spec(trs[i]) is Ok {
        Ok(Seq::new(trs.len(), |i: int| reply_spec(trs[i])->Ok_0))
    } else {
        Err(E_REPLY_ITEMS@)
    }
}

/// The reply that the found row `tr` holds (`reply_items_handler`); the error says
/// what is missing.
pub fn reply_items_handler(tr: &Located) -> (r: Result<ShowReplyItem, &'static str>)
    ensures
        match reply_spec(found_of(*tr)) {
            Ok(v) => r matches Ok(x) && reply_view(x) == v,
            Err(e) => r matches Err(x) && x@ == e,
        },
{
    let userid = match get_attr(tr.element, "userid") {
        Some(v) => v.clone(),
        None => return Err(E_USERID),
    };
    let username = match get_attr(tr.element, "username") {
        Some(v) => v.clone(),
        None => return Err(E_USERNAME),
    };
    let contents = select_within(tr, &two(class("repliers_right"), class("ContentGrid")));
    assert(founds_of(contents@).len() == contents@.len());
    if contents.len() == 0 {
        return Err(E_CONTENT_ELM);
    }
    let content_elm = &contents[0];
    assert(found_of(*content_elm) == founds_of(contents@)[0]);
    let content = match &content_elm.element.html {
        Some(h) => h.clone(),
        None => return Err(E_CONTENT_INVALID),
    };
    let spans = select_within(tr, &two(class("repliers_right"), tag("span", no_attrs())));
    assert(founds_of(spans@).len() == spans@.len());
    if spans.len() == 0 {
        return Err(E_DATATIME);
    }
    assert(found_of(spans@.last()) == founds_of(spans@).last());
    let datatime = texts_of(&spans[spans.len() - 1].element.children);
    let body = recursive(content_elm.element, "alt");
    Ok(
        ShowReplyItem {
            userid: userid,
            username: username,
            content: content,
            body: body,
            published_at: datatime,
        },
    )
}

/// The replies of the thread page `document` (`parse_show_reply_items`): one for each
/// `.repliers tr[userid][username]` row, or an error where some row cannot be read.
pub fn parse_show_reply_items(document: &HtmlNode) -> (r: Result<Vec<ShowReplyItem>, &'static str>)
    ensures
        match replies_spec(*document) {
            Ok(v) => r matches Ok(x) && reply_views(x@) == v,
            Err(e) => r matches Err(x) && x@ == e,
        },
{
    let trs = select(
        document,
        &two(class("repliers"), tag("tr", attrs2(present("userid"), present("username")))),
    );
    let ghost fs = founds_of(trs@);
    assert(fs.len() == trs@.len());
    let mut result: Vec<ShowReplyItem> = Vec::new();
    let mut i: usize = 0;
    while i < trs.len()
        invariant
            i <= trs.len(),
            fs == founds_of(trs@),
            fs == select_node_spec(*document, Seq::empty(), reply_tr_sel()),
            result@.len() == i,
            forall|k: int| 0 <= k < i ==> #[trigger] reply_spec(fs[k]) is Ok,
            forall|k: int|
                0 <= k < i ==> reply_view(#[trigger] result@[k]) == reply_spec(fs[k])->Ok_0,
        decreases trs.len() - i,
    {
        assert(found_of(trs@[i as int]) == fs[i as int]);
        match reply_items_handler(&trs[i]) {
            Ok(item) => {
                result.push(item);
            },
            Err(_) => {
                assert(reply_spec(fs[i as int]) is Err);
                return Err(E_REPLY_ITEMS);
            },
        }
        i = i + 1;
    }
    assert(reply_views(result@) =~= Seq::new(fs.len(), |k: int| reply_spec(fs[k])->Ok_0));
    Ok(result)
}


/// The thread page that `doc` shows, at the URL `url` (whose query must give a channel
/// and a message): the channel and message of `url`, then the title and reply count,
/// the page numbers and the replies, each of which can fail, in that order.
pub open spec fn show_item_spec(doc: HtmlNode, url: Seq<char>) -> Result<ShowView, Seq<char>> {
    let (channel, message) = url_query_item_spec(url)->Some_0;
    match title_and_reply_count_spec(doc) {
        Err(e) => Err(e),
        Ok((title, reply_count)) => match page_spec(doc) {
            Err(e) => Err(e),
            Ok((page, max_page)) => match replies_spec(doc) {
                Err(e) => Err(e),
                Ok(replies) => Ok(
                    ShowView {
                        channel: channel,
                        message: message,
                        replies: replies,
                        page: page,
                        max_page: max_page,
                        reply_count: reply_count,
                        title: title,
                    },
                ),
            },
        },
    }
}

/// The address that the links of the topic list are relative to.
pub const BASE_URL: &'static str = "http://forum1.hkgolden.com/view.aspx";

/// `.Topic_ListPanel tr[id]`
pub open spec fn topic_tr_sel() -> Seq<CompoundView> {
    seq![class_view("Topic_ListPanel"@), tag_view("tr"@, seq![present_view("id"@)])]
}

/// `td`
pub open spec fn td_sel() -> Seq<CompoundView> {
    seq![tag_view("td"@, Seq::empty())]
}

/// `a`
pub open spec fn a_sel() -> Seq<CompoundView> {
    seq![tag_view("a"@, Seq::empty())]
}

/// What the title cell of a topic list row stands for.
pub ghost struct TitleView {
    pub url: Seq<char>,
    pub channel: Seq<char>,
    pub message: Seq<char>,
    pub text: Seq<char>,
    pub num_of_pages: usize,
}

/// The title cell `td` of a topic list row: its first link, whose `href` (empty where it
/// has none) resolved against `BASE_URL` is the URL and gives the channel and message,
/// and whose trimmed text is the title; the number of pages is 1 for a single link, else
/// the number that the last link's trimmed text reads as (0 for none). `None` where the
/// cell has no link, the URL does not resolve or gives no channel and message.
pub open spec fn title_item_spec(td: Found) -> Option<TitleView> {
    let links = select_element_spec(td.element, td.ancestors, a_sel());
    if links.len() == 0 {
        None
    } else {
        let first = links[0];
        let pages = if links.len() >= 2 {
            usize_or_zero(parse_usize_spec(trimmed_text(links.last())))
        } else {
            1
        };
        match url_join_of(BASE_URL@, or_empty(attr_spec(first.element, "href"@))) {
            None => None,
            Some(u) => match url_query_item_spec(u) {
                None => None,
                Some((c, m)) => Some(
                    TitleView {
                        url: u,
                        channel: c,
                        message: m,
                        text: trimmed_text(first),
                        num_of_pages: pages,
                    },
                ),
            },
        }
    }
}

/// The author cell `td` of a topic list row: the `href` (empty where it has none) and
/// the trimmed text of its first link; `None` where it has no link.
pub open spec fn author_item_spec(td: Found) -> Option<(Seq<char>, Seq<char>)> {
    let links = select_element_spec(td.element, td.ancestors, a_sel());
    if links.len() == 0 {
        None
    } else {
        Some((or_empty(attr_spec(links[0].element, "href"@)), trimmed_text(links[0])))
    }
}

/// The date and the time of the last reply, from the third cell's trimmed text: its
/// first two lines, each trimmed; `None` where it has a single line.
pub open spec fn date_time_spec(td: Found) -> Option<(Seq<char>, Seq<char>)> {
    match first_two_lines_spec(trimmed_text(td)) {
        Some((a, b)) => Some((trim_spec(a), trim_spec(b))),
        None => None,
    }
}

/// The date and time of a row's last reply depend on the cell's text only as trimmed:
/// white space around the cell's text (such as the line breaks of pretty-printed markup)
/// never changes them.
pub proof fn law_date_time_ignores_surrounding_space(a: Found, b: Found)
    requires
        trim_spec(element_text_spec(a.element)) == trim_spec(element_text_spec(b.element)),
    ensures
        date_time_spec(a) == date_time_spec(b),
{
}

/// The row `tr` of a topic list: its cells (`td`) from the second to the sixth give the
/// title, the author, the date and time of the last reply, the reply count and the
/// rating (trimmed texts); a missing cell leaves its part empty. `None` where a present
/// title, author or date cell cannot be read.
pub open spec fn row_spec(tr: Found) -> Option<ListItemView> {
    let tds = select_element_spec(tr.element, tr.ancestors, td_sel());
    let title = if tds.len() > 1 {
        title_item_spec(tds[1])
    } else {
        Some(
            TitleView {
                url: Seq::empty(),
                channel: Seq::empty(),
                message: Seq::empty(),
                text: Seq::empty(),
                num_of_pages: 0,
            },
        )
    };
    let author = if tds.len() > 2 {
        author_item_spec(tds[2])
    } else {
        Some((Seq::empty(), Seq::empty()))
    };
    let date_time = if tds.len() > 3 {
        date_time_spec(tds[3])
    } else {
        Some((Seq::empty(), Seq::empty()))
    };
    match (title, author, date_time) {
        (Some(t), Some(a), Some(d)) => Some(
            ListItemView {
                title_url: t.url,
                channel: t.channel,
                message: t.message,
                title_text: t.text,
                num_of_pages: t.num_of_pages,
                author_url: a.0,
                author_name: a.1,
                last_replied_date: d.0,
                last_replied_time: d.1,
                reply_count: if tds.len() > 4 {
                    trimmed_text(tds[4])
                } else {
                    Seq::empty()
                },
                rating: if tds.len() > 5 {
                    trimmed_text(tds[5])
                } else {
                    Seq::empty()
                },
            },
        ),
        _ => None,
    }
}

/// The rows of a topic list page, one for each `.Topic_ListPanel tr[id]`; `None` where
/// some row cannot be read.
pub open spec fn list_spec(doc: HtmlNode) -> Option<Seq<ListItemView>> {
    let trs = select_node_spec(doc, Seq::empty(), topic_tr_sel());
    if forall|i: int| 0 <= i < trs.len() ==> #[trigger] row_spec(trs[i]) is Some {
        Some(Seq::new(trs.len(), |i: int| row_spec(trs[i])->Some_0))
    } else {
        None
    }
}

/// The title cell of a topic list row, or `None` where it cannot be read.
fn title_item_of(td: &Located) -> (r: Option<ListTopicTitleItem>)
    ensures
        match title_item_spec(found_of(*td)) {
            None => r is None,
            Some(t) => r matches Some(x) && x.url@ == t.url && x.url_query.channel@ == t.channel
                && x.url_query.message@ == t.message && x.text@ == t.text && x.num_of_pages
                == t.num_of_pages,
        },
{
    let links = select_within(td, &one(tag("a", no_attrs())));
    assert(founds_of(links@).len() == links@.len());
    if links.len() == 0 {
        return None;
    }
    let first = &links[0];
    assert(found_of(*first) == founds_of(links@)[0]);
    assert(found_of(links@.last()) == founds_of(links@).last());
    let links_count = if links.len() >= 2 {
        let last_text = located_text(&links[links.len() - 1]);
        number_or_zero(last_text.as_str())
    } else {
        1
    };
    let href = match get_attr(first.element, "href") {
        Some(h) => h.clone(),
        None => String::new(),
    };
    let url_str = match url_join(BASE_URL, href.as_str()) {
        Some(u) => u,
        None => return None,
    };
    let url_query_item = match query_item_of(url_str.as_str()) {
        Some(q) => q,
        None => return None,
    };
    let text = located_text(first);
    Some(
        ListTopicTitleItem {
            url: url_str,
            url_query: url_query_item,
            text: text,
            num_of_pages: links_count,
        },
    )
}

/// The author cell of a topic list row, or `None` where it has no link.
fn author_item_of(td: &Located) -> (r: Option<ListTopicAuthorItem>)
    ensures
        match author_item_spec(found_of(*td)) {
            None => r is None,
            Some((u, n)) => r matches Some(x) && x.url@ == u && x.name@ == n,
        },
{
    let links = select_within(td, &one(tag("a", no_attrs())));
    assert(founds_of(links@).len() == links@.len());
    if links.len() == 0 {
        return None;
    }
    let first = &links[0];
    assert(found_of(*first) == founds_of(links@)[0]);
    let url = match get_attr(first.element, "href") {
        Some(h) => h.clone(),
        None => String::new(),
    };
    let name = located_text(first);
    Some(ListTopicAuthorItem { url: url, name: name })
}

/// The row `tr` of a topic list, or `None` where a present title, author or date cell
/// cannot be read.
fn list_topic_row_of(tr: &Located) -> (r: Option<ListTopicItem>)
    ensures
        match row_spec(found_of(*tr)) {
            None => r is None,
            Some(v) => r matches Some(x) && list_item_view(x) == v,
        },
{
    let tds = select_within(tr, &one(tag("td", no_attrs())));
    let ghost fs = founds_of(tds@);
    assert(fs.len() == tds@.len());
    let mut result = default_list_item();
    if tds.len() > 1 {
        assert(found_of(tds@[1]) == fs[1]);
        match title_item_of(&tds[1]) {
            Some(_) => {
                result.title = parse_list_topic_title_item(&tds[1]);
            },
            None => return None,
        }
    }
    if tds.len() > 2 {
        assert(found_of(tds@[2]) == fs[2]);
        match author_item_of(&tds[2]) {
            Some(_) => {
                result.author = parse_list_topic_author_item(&tds[2]);
            },
            None => return None,
        }
    }
    if tds.len() > 3 {
        assert(found_of(tds@[3]) == fs[3]);
        let text = located_text(&tds[3]);
        match first_two_lines(text.as_str()) {
            Some((date, time)) => {
                result.last_replied_date = date;
                result.last_replied_time = time;
            },
            None => return None,
        }
    }
    if tds.len() > 4 {
        assert(found_of(tds@[4]) == fs[4]);
        result.reply_count = located_text(&tds[4]);
    }
    if tds.len() > 5 {
        assert(found_of(tds@[5]) == fs[5]);
        result.rating = located_text(&tds[5]);
    }
    Some(result)
}

/// The rows of the topic list page `document`, or `None` where some row cannot be read.
fn list_items_of(document: &HtmlNode) -> (r: Option<Vec<ListTopicItem>>)
    ensures
        match list_spec(*document) {
            None => r is None,
            Some(v) => r matches Some(x) && list_item_views(x@) == v,
        },
{
    let trs = select(document, &two(class("Topic_ListPanel"), tag("tr", attrs1(present("id")))));
    let ghost fs = founds_of(trs@);
    assert(fs.len() == trs@.len());
    let mut result: Vec<ListTopicItem> = Vec::new();
    let mut i: usize = 0;
    while i < trs.len()
        invariant
            i <= trs.len(),
            fs == founds_of(trs@),
            fs == select_node_spec(*document, Seq::empty(), topic_tr_sel()),
            result@.len() == i,
            forall|k: int| 0 <= k < i ==> #[trigger] row_spec(fs[k]) is Some,
            forall|k: int|
                0 <= k < i ==> list_item_view(#[trigger] result@[k]) == row_spec(fs[k])->Some_0,
        decreases trs.len() - i,
    {
        assert(found_of(trs@[i as int]) == fs[i as int]);
        match list_topic_row_of(&trs[i]) {
            Some(item) => {
                result.push(item);
            },
            None => {
                assert(row_spec(fs[i as int]) is None);
                return None;
            },
        }
        i = i + 1;
    }
    assert(list_item_views(result@) =~= Seq::new(fs.len(), |k: int| row_spec(fs[k])->Some_0));
    Some(result)
}

/// The title cell `td` of a topic list row (`parse_list_topic_title_item`): its first
/// link gives the URL (resolved against `BASE_URL`), channel, message and text, and the
/// last link the number of pages. The cell must be readable (`title_item_spec`): it has a
/// link whose URL resolves and gives a channel and a message; `Builder::try_list_topic_items`
/// tests this for a whole page.
pub fn parse_list_topic_title_item(td: &Located) -> (r: ListTopicTitleItem)
    requires
        title_item_spec(found_of(*td)) is Some,
    ensures
        ({
            let t = title_item_spec(found_of(*td))->Some_0;
            &&& r.url@ == t.url
            &&& r.url_query.channel@ == t.channel
            &&& r.url_query.message@ == t.message
            &&& r.text@ == t.text
            &&& r.num_of_pages == t.num_of_pages
        }),
{
    match title_item_of(td) {
        Some(t) => t,
        None => default_list_item().title,
    }
}

/// The author cell `td` of a topic list row (`parse_list_topic_author_item`): the `href`
/// and trimmed text of its first link. The cell must have a link.
pub fn parse_list_topic_author_item(td: &Located) -> (r: ListTopicAuthorItem)
    requires
        author_item_spec(found_of(*td)) is Some,
    ensures
        (r.url@, r.name@) == author_item_spec(found_of(*td))->Some_0,
{
    match author_item_of(td) {
        Some(a) => a,
        None => default_list_item().author,
    }
}

/// The rows of the topic list page `document` (`parse_list_topic_items`), one for each
/// `.Topic_ListPanel tr[id]`. Every row must be readable (`list_spec`);
/// `Builder::try_list_topic_items` tests this and gives `None` where it fails.
pub fn parse_list_topic_items(document: &HtmlNode) -> (r: Vec<ListTopicItem>)
    requires
        list_spec(*document) is Some,
    ensures
        list_item_views(r@) == list_spec(*document)->Some_0,
{
    match list_items_of(document) {
        Some(v) => v,
        None => Vec::new(),
    }
}

/// Builds the items of the forum's HTML pages.
#[derive(Clone)]
pub struct Builder {}

impl Builder {
    /// A builder.
    pub fn new() -> (r: Self) {
        Builder {  }
    }

    /// The channel and message of the thread URL `url`: the same as `parse_url_query_item`
    /// gives, under the same `requires` (the URL must give them).
    pub fn url_query_item(&mut self, url: &str) -> (r: UrlQueryItem)
        requires
            url_query_item_spec(url@) is Some,
        ensures
            (r.channel@, r.message@) == url_query_item_spec(url@)->Some_0,
    {
        parse_url_query_item(url)
    }

    /// The channel and message of the thread URL `url`, or `None` where the URL does not
    /// give them.
    pub fn try_url_query_item(&mut self, url: &str) -> (r: Option<UrlQueryItem>)
        ensures
            match url_query_item_spec(url@) {
                None => r is None,
                Some((c, m)) => r matches Some(q) && q.channel@ == c && q.message@ == m,
            },
    {
        match query_item_of(url) {
            Some(_) => Some(self.url_query_item(url)),
            None => None,
        }
    }

    /// The thread page that `document` shows, read from the URL `url` (`show_item`); the
    /// URL must give a channel and a message. The error says what the page lacks.
    pub fn show_item(&mut self, document: &HtmlNode, url: &str) -> (r: Result<
        ShowItem,
        &'static str,
    >)
        requires
            url_query_item_spec(url@) is Some,
        ensures
            match show_item_spec(*document, url@) {
                Ok(v) => r matches Ok(x) && show_view(x) == v,
                Err(e) => r matches Err(x) && x@ == e,
            },
    {
        let url_query = self.url_query_item(url);
        let (title, reply_count) = match parse_title_and_reply_count(document, url) {
            Ok(p) => p,
            Err(e) => return Err(e),
        };
        let (page, max_page) = match parse_page_and_max_page(document) {
            Ok(p) => p,
            Err(e) => return Err(e),
        };
        let replies = match parse_show_reply_items(document) {
            Ok(r) => r,
            Err(e) => return Err(e),
        };
        Ok(
            ShowItem {
                url_query: url_query,
                replies: replies,
                page: page,
                max_page: max_page,
                reply_count: reply_count,
                title: title,
            },
        )
    }

    /// The thread page that `document` shows, read from the URL `url`, or `None` where
    /// the URL does not give a channel and a message.
    pub fn try_show_item(&mut self, document: &HtmlNode, url: &str) -> (r: Option<
        Result<ShowItem, &'static str>,
    >)
        ensures
            url_query_item_spec(url@) is None ==> r is None,
            url_query_item_spec(url@) is Some ==> match show_item_spec(*document, url@) {
                Ok(v) => r matches Some(Ok(x)) && show_view(x) == v,
                Err(e) => r matches Some(Err(x)) && x@ == e,
            },
    {
        match query_item_of(url) {
            Some(_) => Some(self.show_item(document, url)),
            None => None,
        }
    }

    /// A thread page with every text empty, no replies and page numbers 0.
    pub fn default_show_item(&self) -> (r: ShowItem)
        ensures
            show_view(r) == empty_show_view(),
    {
        default_show_item()
    }

    /// The rows of the topic list page `document` (`list_topic_items`); every row must
    /// be readable.
    pub fn list_topic_items(&mut self, document: &HtmlNode) -> (r: Vec<ListTopicItem>)
        requires
            list_spec(*document) is Some,
        ensures
            list_item_views(r@) == list_spec(*document)->Some_0,
    {
        parse_list_topic_items(document)
    }

    /// The rows of the topic list page `document`, or `None` where some row cannot be
    /// read.
    pub fn try_list_topic_items(&mut self, document: &HtmlNode) -> (r: Option<Vec<ListTopicItem>>)
        ensures
            match list_spec(*document) {
                None => r is None,
                Some(v) => r matches Some(x) && list_item_views(x@) == v,
            },
    {
        match list_items_of(document) {
            Some(_) => Some(self.list_topic_items(document)),
            None => None,
        }
    }

    /// A topic list row with every text empty and no pages.
    pub fn default_list_item(&self) -> (r: ListTopicItem)
        ensures
            list_item_view(r) == empty_list_item_view(),
    {
        default_list_item()
    }
}

} // verus!
