use vstd::prelude::*;

use crate::calendar::clock_text;
use crate::html::{Attribute, Element, HtmlNode};
use vstd::utf8::{decode_utf8, encode_utf8, valid_utf8};
use chrono::TimeZone;
use kuchiki::traits::TendrilSink;
use std::fmt::Write;

verus! {

/// What `url::Url::parse(input)` and then `Url::query` give: `None` where `input` is not a
/// URL that parses, else the query of the parsed URL (the text after `?` and before any
/// `#`), if it has one.
pub uninterp spec fn url_query_of(input: Seq<char>) -> Option<Option<Seq<char>>>;

/// Parses `input` with `url::Url::parse` and gives the query of the result
/// (`Url::query`). The contract claims that the result is a function of `input` alone
/// (the name `url_query_of`); what the URL parser does is not stated.
#[verifier::external_body]
pub(crate) fn url_query(input: &str) -> (r: Option<Option<String>>)
    ensures
        r.deep_view() == url_query_of(input@),
{
    url::Url::parse(input).ok().map(|u| u.query().map(|q| q.to_string()))
}

/// What `url::Url::parse(base)` and then `Url::join(reference)` give, as the serialization
/// of the joined URL (`String::from(url)`); `None` where either fails.
pub uninterp spec fn url_join_of(base: Seq<char>, reference: Seq<char>) -> Option<Seq<char>>;

/// Parses `base` with `url::Url::parse`, resolves `reference` against it with
/// `Url::join`, and gives the serialization of the result (`String::from(url)`). The
/// contract claims that the result is a function of the two texts alone (the name
/// `url_join_of`); how URLs are resolved is not stated.
#[verifier::external_body]
pub(crate) fn url_join(base: &str, reference: &str) -> (r: Option<String>)
    ensures
        r.deep_view() == url_join_of(base@, reference@),
{
    url::Url::parse(base).ok().and_then(|b| b.join(reference).ok()).map(|u| String::from(u))
}

/// What `regex::Regex::new(pattern)` and then `Regex::captures_iter(text)` give: `None`
/// where the pattern does not compile; else, for each successive non-overlapping match,
/// the texts of the named groups `first` and `second` (`Captures::name`), `None` for a
/// group that did not take part in the match.
pub uninterp spec fn capture_pairs_of(
    pattern: Seq<char>,
    text: Seq<char>,
    first: Seq<char>,
    second: Seq<char>,
) -> Option<Seq<(Option<Seq<char>>, Option<Seq<char>>)>>;

/// Compiles `pattern` with `regex::Regex::new` and walks its matches in `text` with
/// `Regex::captures_iter`, taking the named groups `first` and `second` of each match
/// with `Captures::name`. The contract claims that the result is a function of the four
/// texts alone (the name `capture_pairs_of`); how the regex matches is not stated.
#[verifier::external_body]
pub(crate) fn capture_pairs(pattern: &str, text: &str, first: &str, second: &str) -> (r: Option<
    Vec<(Option<String>, Option<String>)>,
>)
    ensures
        r.deep_view() == capture_pairs_of(pattern@, text@, first@, second@),
{
    regex::Regex::new(pattern).ok().map(
        |re|
            re.captures_iter(text).map(
                |c|
                    (
                        c.name(first).map(|m| m.as_str().to_string()),
                        c.name(second).map(|m| m.as_str().to_string()),
                    ),
            ).collect(),
    )
}

/// What `regex::Regex::new(pattern)` and then `Regex::captures(text)` give: `None` where
/// the pattern does not compile; else `None` where it does not match `text`, and else the
/// text of the named group `group` in the leftmost-first match (`Captures::name`), if the
/// group took part in it.
pub uninterp spec fn capture_of(pattern: Seq<char>, text: Seq<char>, group: Seq<char>) -> Option<
    Option<Option<Seq<char>>>,
>;

/// Compiles `pattern` with `regex::Regex::new`, matches it against `text` with
/// `Regex::captures` and takes the named group `group` with `Captures::name`. The
/// contract claims that the result is a function of the three texts alone (the name
/// `capture_of`); how the regex matches is not stated.
#[verifier::external_body]
pub(crate) fn capture(pattern: &str, text: &str, group: &str) -> (r: Option<
    Option<Option<String>>,
>)
    ensures
        r.deep_view() == capture_of(pattern@, text@, group@),
{
    regex::Regex::new(pattern).ok().map(
        |re| re.captures(text).map(|c| c.name(group).map(|m| m.as_str().to_string())),
    )
}

#[verifier::external_type_specification]
#[verifier::external_body]
pub struct ExNodeRef(kuchiki::NodeRef);

/// Copies the kuchiki node `n` and its descendants into an `HtmlNode` tree, one node for
/// one node: elements with their namespace, local name, attributes and markup (`attributes_of`,
/// `markup_of`); text nodes with their text; document and fragment roots with their
/// children; comments, doctypes and processing instructions as `Other`. Nothing is
/// stated of the result: the input is opaque.
#[verifier::external_body]
fn node_of(n: &kuchiki::NodeRef) -> HtmlNode {
    let mut children = Vec::new();
    for c in n.children() {
        children.push(node_of(&c));
    }
    match n.data() {
        kuchiki::NodeData::Element(e) => HtmlNode::Element(Element {
            namespace: e.name.ns.to_string(), name: e.name.local.to_string(),
            attributes: attributes_of(n), children, html: markup_of(n) }),
        kuchiki::NodeData::Text(t) => HtmlNode::Text(t.borrow().clone()),
        kuchiki::NodeData::Document(_) => HtmlNode::Document(children),
        kuchiki::NodeData::DocumentFragment => HtmlNode::Document(children),
        _ => HtmlNode::Other,
    }
}

/// The attributes of the kuchiki element `n` (none for another node), each with its
/// namespace, local name and value, in the order of kuchiki's attribute map. Nothing is
/// stated of the result: the input is opaque.
#[verifier::external_body]
fn attributes_of(n: &kuchiki::NodeRef) -> Vec<Attribute> {
    match n.as_element() {
        Some(e) => e.attributes.borrow().map.iter().map(
            |(k, v)| Attribute { namespace: k.ns.to_string(), name: k.local.to_string(), value: v.value.clone() },
        ).collect(),
        None => Vec::new(),
    }
}

/// The markup that kuchiki's `NodeRef::serialize` writes for `n` and its descendants,
/// read as UTF-8 (`String::from_utf8`); `None` where either fails. Nothing is stated of
/// the result: the input is opaque.
#[verifier::external_body]
fn markup_of(n: &kuchiki::NodeRef) -> Option<String> {
    let mut buf: Vec<u8> = Vec::new();
    n.serialize(&mut buf).ok().and_then(|_| String::from_utf8(buf).ok())
}

/// The tree that `kuchiki::parse_html().one(html)` builds from `html`, copied into an
/// `HtmlNode` (a `Document` root).
pub uninterp spec fn parsed_html(html: Seq<char>) -> HtmlNode;

/// Parses `html` as a whole document with `kuchiki::parse_html().one` and copies the
/// tree into an `HtmlNode`. The text is first made a `StrTendril`, which holds at most
/// `u32::MAX` bytes (longer texts panic), hence the `requires`. The contract claims that
/// the result is a function of the text alone (the name `parsed_html`); how HTML is
/// parsed is not stated.
#[verifier::external_body]
pub(crate) fn parse_html(html: &str) -> (r: HtmlNode)
    requires
        encode_utf8(html@).len() <= 0xffff_ffff,
    ensures
        r == parsed_html(html@),
{
    node_of(&kuchiki::parse_html().one(html))
}

/// The first second that chrono has: 262144 BCE (year -262143), January 1, 00:00:00 UTC.
pub const FIRST_SECOND: i64 = -8_334_601_228_800;

/// The last second that chrono has: 262142 CE, December 31, 23:59:59 UTC.
pub const LAST_SECOND: i64 = 8_210_266_876_799;

/// The offset of the machine's local time zone from UTC, in seconds, at the instant `secs`
/// seconds after 1970-01-01 00:00:00 UTC: `chrono::Local.timestamp_opt(secs, 0)`, then
/// `FixedOffset::local_minus_utc` of the result's offset. `timestamp_opt` is `None`
/// exactly where `DateTime::from_timestamp(secs, 0)` is, that is outside chrono's dates
/// (`NaiveDate::MIN` to `NaiveDate::MAX`: `FIRST_SECOND` to `LAST_SECOND`), and a
/// `FixedOffset` is less than a day. Which offset comes back depends on the machine's
/// time zone, so no more is stated.
#[verifier::external_body]
pub(crate) fn local_offset(secs: i64) -> (r: Option<i32>)
    ensures
        r is Some <==> FIRST_SECOND <= secs <= LAST_SECOND,
        r matches Some(o) ==> -86_400 < o < 86_400,
{
    chrono::Local.timestamp_opt(secs, 0).single().map(|dt| dt.offset().local_minus_utc())
}

/// What writing the instant `secs` seconds after 1970-01-01 00:00:00 UTC, in a time zone
/// `offset` seconds ahead of UTC, with the chrono format `fmt` gives:
/// `FixedOffset::east_opt(offset)`, `timestamp_opt(secs, 0)`, then `DateTime::format(fmt)`
/// written out; `None` where the offset or the instant is out of range or the format holds
/// an item that cannot be written.
pub uninterp spec fn offset_time_text_of(secs: i64, offset: i32, fmt: Seq<char>) -> Option<Seq<char>>;

/// Writes the instant `secs` in the time zone `offset` seconds ahead of UTC with the
/// chrono format `fmt` (`FixedOffset::east_opt`, `TimeZone::timestamp_opt`,
/// `DateTime::format`). The contract claims that the result is a function of the three
/// arguments alone (the name `offset_time_text_of`), and that with `%d/%m/%Y %H:%M`, for
/// every instant chrono has and every offset of less than a day (`east_opt` takes those),
/// the text is the local date-time `secs + offset` written as `clock_text` says: chrono's
/// `%d`, `%m`, `%H` and `%M` write two digits, and `%Y` writes a year from 0 to 9999 with
/// four digits and any other with a sign and at least four digits (`write_year`).
#[verifier::external_body]
pub(crate) fn offset_time_text(secs: i64, offset: i32, fmt: &str) -> (r: Option<String>)
    ensures
        r.deep_view() == offset_time_text_of(secs, offset, fmt@),
        fmt@ == "%d/%m/%Y %H:%M"@ && -86_400 < offset < 86_400 && FIRST_SECOND <= secs
            <= LAST_SECOND ==> r.deep_view() == Some(clock_text(secs + offset)),
{
    chrono::FixedOffset::east_opt(offset).and_then(|tz| tz.timestamp_opt(secs, 0).single()).and_then(
        |dt| {
            let mut s = String::new();
            write!(s, "{}", dt.format(fmt)).ok().map(|_| s)
        },
    )
}

/// Reads `bytes` as UTF-8 with `String::from_utf8`: `Some` with the decoded characters
/// exactly where the bytes are valid UTF-8 (no overlong form, no surrogate, nothing past
/// U+10FFFF), as std's documentation gives it.
#[verifier::external_body]
pub(crate) fn string_from_utf8(bytes: Vec<u8>) -> (r: Option<String>)
    ensures
        r is Some <==> valid_utf8(bytes@),
        r matches Some(s) ==> s@ == decode_utf8(bytes@),
{
    String::from_utf8(bytes).ok()
}

} // verus!
