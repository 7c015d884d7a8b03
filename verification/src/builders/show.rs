use vstd::prelude::*;

use crate::calendar::clock_text;
use crate::bindings::{
    local_offset, offset_time_text, parse_html, parsed_html, FIRST_SECOND,
    LAST_SECOND,
};
use vstd::utf8::encode_utf8;
use crate::builder::{div_sel, E_CONTENT_ELM, E_REPLY_ITEMS};
use crate::content::{content_of_list, recursive};
use crate::html::{
    compound_spec, first_is_outermost, found_of, Found, founds_of, law_first_match_is_outermost, select, select_node_spec,
};
use crate::model::{reply_view, reply_views, ReplyView, ShowItem, ShowReplyItem, ShowView, UrlQueryItem, show_view};
use crate::models::thread;
use crate::selector::{no_attrs, one, tag};

verus! {

/// The time of a reply cannot be written in local time.
pub const E_REPLY_TIME: &'static str =
    "fail to parse show reply item, reason: 'reply_time' out of range";

/// The format of a reply's time: day/month/year hour:minute.
pub const TIME_FORMAT: &'static str = "%d/%m/%Y %H:%M";

/// `msg` wrapped in a `div`, as HTML.
pub open spec fn wrapped_msg(msg: Seq<char>) -> Seq<char> {
    "<div>"@ + msg + "</div>"@
}

/// Whether every message of `items`, wrapped in a `div`, is within the `u32::MAX` bytes
/// that the HTML parser takes.
pub open spec fn messages_fit(items: Seq<thread::ItemData>) -> bool {
    forall|i: int|
        #![trigger items[i]]
        0 <= i < items.len() ==> encode_utf8(wrapped_msg(items[i].msg@)).len() <= 0xffff_ffff
}

/// The seconds since 1970-01-01 00:00:00 UTC of a reply (its number read as an `i64`).
pub open spec fn reply_secs(item: thread::ItemData) -> i64 {
    item.reply_time as i64
}

/// Whether `secs` is an instant that chrono has (from `FIRST_SECOND` to `LAST_SECOND`).
pub open spec fn time_in_range(secs: i64) -> bool {
    FIRST_SECOND <= secs <= LAST_SECOND
}

/// What holds of the local time zone's offset from UTC at the instant `secs`, whatever
/// the machine's time zone: there is one exactly for the instants chrono has, and it is
/// less than a day.
pub open spec fn offset_fits(secs: i64, offset: Option<i32>) -> bool {
    &&& (time_in_range(secs) <==> offset is Some)
    &&& (offset matches Some(o) ==> -86_400 < o < 86_400)
}

/// The instant `secs` written as `TIME_FORMAT` (`clock_text`) in a local time `offset`
/// seconds ahead of UTC; `None` where there is no offset for it.
pub open spec fn time_text_for(secs: i64, offset: Option<i32>) -> Option<Seq<char>> {
    match offset {
        Some(o) => Some(clock_text(secs + o)),
        None => None,
    }
}

/// The local times of the replies `items`, where `offsets[i]` is the local offset at the
/// time of `items[i]`.
pub open spec fn times_for(items: Seq<thread::ItemData>, offsets: Seq<Option<i32>>) -> Seq<
    Option<Seq<char>>,
> {
    Seq::new(items.len(), |i: int| time_text_for(reply_secs(items[i]), offsets[i]))
}

/// The reply that the API's `item` gives, where `published_at` is its time as written in
/// local time (`None` where it could not be): the body is what the children of the first
/// `div` of the parsed `<div>msg</div>` give (images take their `class` as alternative
/// text); the user id is empty, the user name is the nickname, the content is `msg`.
pub open spec fn thread_reply_spec(item: thread::ItemData, published_at: Option<Seq<char>>) -> Result<
    ReplyView,
    Seq<char>,
> {
    let divs = select_node_spec(parsed_html(wrapped_msg(item.msg@)), Seq::empty(), div_sel());
    if divs.len() == 0 {
        Err(E_CONTENT_ELM@)
    } else {
        match published_at {
            None => Err(E_REPLY_TIME@),
            Some(t) => Ok(
                ReplyView {
                    userid: Seq::empty(),
                    username: item.user_nickname@,
                    content: item.msg@,
                    body: content_of_list(divs[0].element.children@, "class"@),
                    published_at: t,
                },
            ),
        }
    }
}

/// The `div`s found in the parsed `<div>msg</div>`, in document order.
pub open spec fn message_divs(msg: Seq<char>) -> Seq<Found> {
    select_node_spec(parsed_html(wrapped_msg(msg)), Seq::empty(), div_sel())
}

/// Whether no ancestor of the found element `f` is a `div`.
pub open spec fn no_div_above(f: Found) -> bool {
    forall|k: int| 0 <= k < f.ancestors.len() ==> (#[trigger] f.ancestors[k]).name@ != "div"@
}

/// The body of an API reply is read from the outermost `div` of the parsed message: a
/// `div` found in the parsed `<div>msg</div>` that has no `div` above it (the wrapper),
/// never from a `div` nested in the message, so text of the message outside its own
/// `div`s is kept.
pub proof fn law_reply_body_is_outermost_div(item: thread::ItemData, time: Seq<char>)
    requires
        thread_reply_spec(item, Some(time)) is Ok,
    ensures
        exists|i: int|
            #![trigger message_divs(item.msg@)[i]]
            0 <= i < message_divs(item.msg@).len() && no_div_above(message_divs(item.msg@)[i])
                && thread_reply_spec(item, Some(time))->Ok_0.body == content_of_list(
                message_divs(item.msg@)[i].element.children@,
                "class"@,
            ),
{
    let divs = message_divs(item.msg@);
    law_first_match_is_outermost(parsed_html(wrapped_msg(item.msg@)), Seq::empty(), div_sel());
    assert(first_is_outermost(divs, Seq::empty(), div_sel()[0]));
    assert forall|k: int|
        0 <= k < divs[0].ancestors.len() implies (#[trigger] divs[0].ancestors[k]).name@ != "div"@ by {
        assert(!compound_spec(divs[0].ancestors[k], div_sel()[0]));
    }
    assert(no_div_above(divs[0]));
}

/// The replies that the API's `items` give, where `times[i]` is the local time of
/// `items[i]`; an error where some reply cannot be read.
pub open spec fn thread_replies_spec(
    items: Seq<thread::ItemData>,
    times: Seq<Option<Seq<char>>>,
) -> Result<Seq<ReplyView>, Seq<char>> {
    if forall|i: int| 0 <= i < items.len() ==> #[trigger] thread_reply_spec(items[i], times[i]) is Ok {
        Ok(Seq::new(items.len(), |i: int| thread_reply_spec(items[i], times[i])->Ok_0))
    } else {
        Err(E_REPLY_ITEMS@)
    }
}

/// The thread page that the API's `document` gives, where `times[i]` is the local time
/// of its `i`-th reply: the category and thread ids as channel and message, the replies,
/// the page and the number of pages, the reply count and the title.
pub open spec fn thread_page_spec(document: thread::Result, times: Seq<Option<Seq<char>>>) -> Result<
    ShowView,
    Seq<char>,
> {
    let resp = document.response;
    match thread_replies_spec(resp.item_data@, times) {
        Err(e) => Err(e),
        Ok(replies) => Ok(
            ShowView {
                channel: resp.cat_id@,
                message: resp.thread_id@,
                replies: replies,
                page: resp.page,
                max_page: resp.total_page,
                reply_count: resp.no_of_reply@,
                title: resp.title@,
            },
        ),
    }
}

/// The reply that the API's `item_data` gives, with `published_at` its time in local
/// time (`reply_items_handler` once the time is known).
pub fn reply_item_from(item_data: &thread::ItemData, published_at: Option<String>) -> (r: Result<
    ShowReplyItem,
    &'static str,
>)
    requires
        encode_utf8(wrapped_msg(item_data.msg@)).len() <= 0xffff_ffff,
    ensures
        match thread_reply_spec(*item_data, published_at.deep_view()) {
            Ok(v) => r matches Ok(x) && reply_view(x) == v,
            Err(e) => r matches Err(x) && x@ == e,
        },
{
    let mut html = String::from_str("<div>");
    html.append(item_data.msg.as_str());
    html.append("</div>");
    assert(html@ == wrapped_msg(item_data.msg@));
    let content = parse_html(html.as_str());
    let divs = select(&content, &one(tag("div", no_attrs())));
    assert(founds_of(divs@).len() == divs@.len());
    if divs.len() == 0 {
        return Err(E_CONTENT_ELM);
    }
    assert(found_of(divs@[0]) == founds_of(divs@)[0]);
    let body = recursive(divs[0].element, "class");
    match published_at {
        None => Err(E_REPLY_TIME),
        Some(t) => Ok(
            ShowReplyItem {
                userid: String::new(),
                username: item_data.user_nickname.clone(),
                content: item_data.msg.clone(),
                body: body,
                published_at: t,
            },
        ),
    }
}

/// Whether `offset` is what asking the machine's time zone for its offset at the instant
/// `secs` (`local_offset`) gives.
pub closed spec fn local_offset_gives(secs: i64, offset: Option<i32>) -> bool {
    call_ensures(local_offset, (secs,), offset)
}

/// What the machine's time zone gives for an instant always fits it: an offset exactly
/// where chrono has the instant, and less than a day. So the local time of a reply is
/// its instant shifted by that very offset (`local_offset_gives`), never by another that
/// merely fits, such as the same offset with the sign turned.
pub proof fn law_local_offset_fits(secs: i64, offset: Option<i32>)
    requires
        local_offset_gives(secs, offset),
    ensures
        offset_fits(secs, offset),
{
}

/// The local time of a reply, written as `TIME_FORMAT`: its instant written in the local
/// time zone's offset at that instant. Which offset applies depends on the machine's time
/// zone; every instant that chrono has gets one, and its text.
pub fn reply_time_text(item_data: &thread::ItemData) -> (r: Option<String>)
    ensures
        exists|o: Option<i32>|
            #[trigger] local_offset_gives(reply_secs(*item_data), o) && offset_fits(
                reply_secs(*item_data),
                o,
            ) && r.deep_view() == time_text_for(reply_secs(*item_data), o),
        time_in_range(reply_secs(*item_data)) ==> r is Some,
{
    let secs: i64 = #[verifier::truncate] (item_data.reply_time as i64);
    assert(secs == reply_secs(*item_data));
    let got = local_offset(secs);
    assert(local_offset_gives(secs, got));
    let r = match got {
        None => None,
        Some(o) => offset_time_text(secs, o, TIME_FORMAT),
    };
    assert(offset_fits(secs, got));
    assert(r.deep_view() == time_text_for(secs, got));
    r
}

/// Builds thread pages from the forum's API answers.
#[derive(Clone)]
pub struct Show {}

impl Show {
    /// A builder.
    pub fn new() -> (r: Self) {
        Show {  }
    }

    /// The thread page that the API's `document` gives (`build`); `url` is not read.
    /// Each reply's time is written in local time: for some local offsets, one for each
    /// reply and each fitting its instant (`offset_fits`, whatever the machine's time
    /// zone), the result is what `thread_page_spec` gives for the times those offsets give;
    /// every reply whose instant chrono has gets its time.
    pub fn build(&mut self, document: &thread::Result, url: &str) -> (r: Result<ShowItem, &'static str>)
        requires
            messages_fit(document.response.item_data@),
        ensures
            exists|offsets: Seq<Option<i32>>|
                #![trigger times_for(document.response.item_data@, offsets)]
                {
                    let items = document.response.item_data@;
                    let times = times_for(items, offsets);
                    &&& offsets.len() == items.len()
                    &&& forall|k: int|
                        0 <= k < items.len() ==> offset_fits(reply_secs(items[k]), #[trigger] offsets[k])
                    &&& forall|k: int|
                        0 <= k < items.len() ==> local_offset_gives(reply_secs(items[k]), #[trigger] offsets[k])
                    &&& forall|k: int|
                        0 <= k < items.len() && time_in_range(reply_secs(items[k])) ==> #[trigger] times[k] is Some
                    &&& match thread_page_spec(*document, times) {
                        Ok(v) => r matches Ok(x) && show_view(x) == v,
                        Err(e) => r matches Err(x) && x@ == e,
                    }
                },
    {
        let items = &document.response.item_data;
        let mut times: Vec<Option<String>> = Vec::new();
        let ghost mut offsets: Seq<Option<i32>> = Seq::empty();
        let mut i: usize = 0;
        while i < items.len()
            invariant
                i <= items.len(),
                items == &document.response.item_data,
                times@.len() == i,
                offsets.len() == i,
                forall|k: int|
                    0 <= k < i ==> offset_fits(reply_secs(items@[k]), #[trigger] offsets[k]),
                forall|k: int|
                    0 <= k < i ==> local_offset_gives(reply_secs(items@[k]), #[trigger] offsets[k]),
                forall|k: int|
                    0 <= k < i ==> #[trigger] times.deep_view()[k] == time_text_for(
                        reply_secs(items@[k]),
                        offsets[k],
                    ),
                forall|k: int|
                    0 <= k < i && time_in_range(reply_secs(items@[k])) ==> #[trigger] times@[k] is Some,
            decreases items.len() - i,
        {
            let t = reply_time_text(&items[i]);
            let ghost o = choose|o: Option<i32>|
                #[trigger] local_offset_gives(reply_secs(items@[i as int]), o) && offset_fits(
                    reply_secs(items@[i as int]),
                    o,
                ) && t.deep_view() == time_text_for(reply_secs(items@[i as int]), o);
            proof {
                offsets = offsets.push(o);
            }
            let ghost before = times.deep_view();
            let ghost tv = t.deep_view();
            times.push(t);
            assert(times.deep_view() =~= before.push(tv));
            i = i + 1;
        }
        let ghost items_v = items@;
        assert(times.deep_view() =~= times_for(items_v, offsets));
        let r = self.build_with_times(document, &times);
        assert(forall|k: int|
            0 <= k < items_v.len() && time_in_range(reply_secs(items_v[k])) ==> #[trigger] times_for(
                items_v,
                offsets,
            )[k] is Some) by {
            assert forall|k: int|
                0 <= k < items_v.len() && time_in_range(reply_secs(items_v[k])) implies #[trigger] times_for(
                items_v,
                offsets,
            )[k] is Some by {
                assert(times@[k] is Some);
                assert(times.deep_view()[k] == times_for(items_v, offsets)[k]);
            }
        }
        r
    }

    /// The thread page that the API's `document` gives, where `times[i]` is the local
    /// time of its `i`-th reply.
    pub fn build_with_times(&mut self, document: &thread::Result, times: &Vec<Option<String>>) -> (r: Result<
        ShowItem,
        &'static str,
    >)
        requires
            times@.len() == document.response.item_data@.len(),
            messages_fit(document.response.item_data@),
        ensures
            match thread_page_spec(*document, times.deep_view()) {
                Ok(v) => r matches Ok(x) && show_view(x) == v,
                Err(e) => r matches Err(x) && x@ == e,
            },
    {
        let url_query_item = UrlQueryItem {
            channel: document.response.cat_id.clone(),
            message: document.response.thread_id.clone(),
        };
        let replies = match self.parse_show_reply_items(document, times) {
            Ok(r) => r,
            Err(e) => return Err(e),
        };
        Ok(
            ShowItem {
                url_query: url_query_item,
                replies: replies,
                page: document.response.page,
                max_page: document.response.total_page,
                reply_count: document.response.no_of_reply.clone(),
                title: document.response.title.clone(),
            },
        )
    }

    /// The replies that the API's `document` gives, where `times[i]` is the local time
    /// of its `i`-th reply; an error where some reply cannot be read.
    pub fn parse_show_reply_items(&self, document: &thread::Result, times: &Vec<Option<String>>) -> (r: Result<
        Vec<ShowReplyItem>,
        &'static str,
    >)
        requires
            times@.len() == document.response.item_data@.len(),
            messages_fit(document.response.item_data@),
        ensures
            match thread_replies_spec(document.response.item_data@, times.deep_view()) {
                Ok(v) => r matches Ok(x) && reply_views(x@) == v,
                Err(e) => r matches Err(x) && x@ == e,
            },
    {
        let ghost ts = times.deep_view();
        let mut result: Vec<ShowReplyItem> = Vec::new();
        let mut i: usize = 0;
        while i < document.response.item_data.len()
            invariant
                i <= document.response.item_data.len(),
                times@.len() == document.response.item_data@.len(),
                messages_fit(document.response.item_data@),
                ts == times.deep_view(),
                result@.len() == i,
                forall|k: int| 0 <= k < i ==> #[trigger] thread_reply_spec(document.response.item_data@[k], ts[k]) is Ok,
                forall|k: int|
                    0 <= k < i ==> reply_view(#[trigger] result@[k]) == thread_reply_spec(
                        document.response.item_data@[k],
                        ts[k],
                    )->Ok_0,
            decreases document.response.item_data.len() - i,
        {
            let t = match &times[i] {
                Some(s) => Some(s.clone()),
                None => None,
            };
            assert(t.deep_view() == ts[i as int]);
            match reply_item_from(&document.response.item_data[i], t) {
                Ok(item) => {
                    result.push(item);
                },
                Err(_) => {
                    assert(thread_reply_spec(document.response.item_data@[i as int], ts[i as int]) is Err);
                    assert(thread_replies_spec(document.response.item_data@, times.deep_view()) is Err);
                    return Err(E_REPLY_ITEMS);
                },
            }
            i = i + 1;
        }
        assert(reply_views(result@) =~= Seq::new(
            document.response.item_data@.len(),
            |k: int| thread_reply_spec(document.response.item_data@[k], ts[k])->Ok_0,
        ));
        Ok(result)
    }
}

} // verus!
