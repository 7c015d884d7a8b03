use vstd::prelude::*;

use crate::bindings::string_from_utf8;
use crate::resources::common::{ChannelItem, ChannelItemType, ChannelShowItem};
use crate::text::{decimal_string, usize_to_string};
use vstd::utf8::{decode_utf8, valid_utf8};

verus! {

/// The API address of page `page` of thread `postid`.
pub open spec fn post_url_spec(postid: Seq<char>, page: usize) -> Seq<char> {
    "https://lihkg.com/api_v1_1/thread/"@ + postid + "/page/"@ + decimal_string(page as nat)
}

/// The directory in which the pages of thread `postid` are cached.
pub open spec fn cache_dir_spec(postid: Seq<char>) -> Seq<char> {
    "data/cache/html/"@ + postid + "/"@
}

/// The name of the cache file of page `page`.
pub open spec fn cache_file_name_spec(page: usize) -> Seq<char> {
    "show_"@ + decimal_string(page as nat) + ".html"@
}

/// The API address of page `page` of thread `postid`.
pub fn post_url(postid: &str, page: usize) -> (r: String)
    ensures
        r@ == post_url_spec(postid@, page),
{
    let mut r = String::from_str("https://lihkg.com/api_v1_1/thread/");
    r.append(postid);
    r.append("/page/");
    let n = usize_to_string(page);
    r.append(n.as_str());
    r
}

/// The directory in which the pages of thread `postid` are cached.
pub fn cache_dir(postid: &str) -> (r: String)
    ensures
        r@ == cache_dir_spec(postid@),
{
    let mut r = String::from_str("data/cache/html/");
    r.append(postid);
    r.append("/");
    r
}

/// The name of the cache file of page `page`.
pub fn cache_file_name(page: usize) -> (r: String)
    ensures
        r@ == cache_file_name_spec(page),
{
    let mut r = String::from_str("show_");
    let n = usize_to_string(page);
    r.append(n.as_str());
    r.append(".html");
    r
}

/// The thread page that `item` asks for, where it asks for one; `None` for any other
/// request, which the show resource answers with the empty item.
pub fn show_request(item: &ChannelItem) -> (r: Option<ChannelShowItem>)
    ensures
        match item.extra {
            Some(ChannelItemType::Show(s)) => r matches Some(q) && q.postid@ == s.postid@ && q.page
                == s.page,
            _ => r is None,
        },
{
    match &item.extra {
        Some(ChannelItemType::Show(s)) => Some(ChannelShowItem { postid: s.postid.clone(), page: s.page }),
        _ => None,
    }
}

/// What the show resource does for a thread page request once its cache has been read.
pub enum ShowStep {
    /// The page was in the cache: answer with these bytes, and write nothing.
    Cached(Vec<u8>),
    /// The page was not in the cache: get it from this address, write what comes back to
    /// the cache, and answer with it.
    FetchFrom(String),
}

/// What a step stands for.
pub ghost enum ShowStepView {
    Cached(Seq<u8>),
    FetchFrom(Seq<char>),
}

/// The value that the step `s` stands for.
pub open spec fn show_step_view(s: ShowStep) -> ShowStepView {
    match s {
        ShowStep::Cached(b) => ShowStepView::Cached(b@),
        ShowStep::FetchFrom(u) => ShowStepView::FetchFrom(u@),
    }
}

/// The next step for page `page` of thread `postid`, given what reading its cache file gave
/// (`None` where the read failed).
pub open spec fn show_step_spec(postid: Seq<char>, page: usize, cached: Option<Seq<u8>>) -> ShowStepView {
    match cached {
        Some(b) => ShowStepView::Cached(b),
        None => ShowStepView::FetchFrom(post_url_spec(postid, page)),
    }
}

/// What an answer to a thread page request stands for: the thread and page it names, and
/// its text.
pub ghost struct ShowAnswerView {
    pub postid: Seq<char>,
    pub page: usize,
    pub text: Seq<char>,
}

/// The answer for page `page` of thread `postid` whose page came back as `body`: the page
/// read as UTF-8, `None` where it is not valid UTF-8.
pub open spec fn show_answer_spec(postid: Seq<char>, page: usize, body: Seq<u8>) -> Option<ShowAnswerView> {
    if valid_utf8(body) {
        Some(ShowAnswerView { postid: postid, page: page, text: decode_utf8(body) })
    } else {
        None
    }
}

/// What an answer item stands for, where it names a thread page.
pub open spec fn show_answer_view(r: Option<ChannelItem>) -> Option<ShowAnswerView> {
    match r {
        Some(it) => match it.extra {
            Some(ChannelItemType::Show(s)) => Some(
                ShowAnswerView { postid: s.postid@, page: s.page, text: it.result@ },
            ),
            _ => None,
        },
        None => None,
    }
}

/// One request for page `page` of thread `postid` as the show resource runs it, where
/// reading the cache gave `cached` and the web gives `fetched`: what is written to the
/// cache (`None` for nothing), and the answer.
pub open spec fn show_round(postid: Seq<char>, page: usize, cached: Option<Seq<u8>>, fetched: Seq<u8>) -> (
    Option<Seq<u8>>,
    Option<ShowAnswerView>,
) {
    match show_step_spec(postid, page, cached) {
        ShowStepView::Cached(b) => (None, show_answer_spec(postid, page, b)),
        ShowStepView::FetchFrom(_) => (Some(fetched), show_answer_spec(postid, page, fetched)),
    }
}

/// With a cache that gives back what was written to it, a second request for a thread page
/// finds the page that the first request fetched and wrote: it fetches and writes nothing,
/// and gives the same answer as the first, whatever the web would give now.
pub proof fn law_second_request_hits_the_cache(
    postid: Seq<char>,
    page: usize,
    fetched: Seq<u8>,
    fetched_again: Seq<u8>,
)
    ensures
        show_step_spec(postid, page, None) == ShowStepView::FetchFrom(post_url_spec(postid, page)),
        show_round(postid, page, None, fetched).0 == Some(fetched),
        show_step_spec(postid, page, show_round(postid, page, None, fetched).0)
            == ShowStepView::Cached(fetched),
        show_round(postid, page, show_round(postid, page, None, fetched).0, fetched_again) == (
            None::<Seq<u8>>,
            show_round(postid, page, None, fetched).1,
        ),
{
}

/// The next step for the request `show`, given what reading its cache file gave (`None`
/// where the read failed): a cached page is answered as it is, any other is fetched from
/// the API address of the thread page.
pub fn show_step(show: &ChannelShowItem, cached: Option<Vec<u8>>) -> (r: ShowStep)
    ensures
        match cached {
            Some(b) => r matches ShowStep::Cached(x) && x@ == b@,
            None => r matches ShowStep::FetchFrom(u) && u@ == post_url_spec(show.postid@, show.page),
        },
        show_step_view(r) == show_step_spec(
            show.postid@,
            show.page,
            match cached {
                Some(b) => Some(b@),
                None => None,
            },
        ),
{
    match cached {
        Some(b) => ShowStep::Cached(b),
        None => ShowStep::FetchFrom(post_url(show.postid.as_str(), show.page)),
    }
}

/// The answer to the request `show`, whose page came back as `body`: it names the same
/// thread and page and holds `body` read as UTF-8; `None` where `body` is not valid UTF-8.
pub fn show_result_item(show: &ChannelShowItem, body: Vec<u8>) -> (r: Option<ChannelItem>)
    ensures
        r is Some <==> valid_utf8(body@),
        r matches Some(it) ==> (it.extra matches Some(ChannelItemType::Show(s)) && s.postid@
            == show.postid@ && s.page == show.page) && it.result@ == decode_utf8(body@),
        show_answer_view(r) == show_answer_spec(show.postid@, show.page, body@),
{
    match string_from_utf8(body) {
        Some(text) => Some(
            ChannelItem {
                extra: Some(
                    ChannelItemType::Show(ChannelShowItem { postid: show.postid.clone(), page: show.page }),
                ),
                result: text,
            },
        ),
        None => None,
    }
}

} // verus!
