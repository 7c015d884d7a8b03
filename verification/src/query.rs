use vstd::prelude::*;

use crate::bindings::{capture_pairs, capture_pairs_of, url_query, url_query_of};
use crate::model::UrlQueryItem;
use crate::text::str_eq;

verus! {

/// The pattern that picks `key=value` pairs out of a URL query.
pub const QUERY_PAIR_PATTERN: &'static str = r"(\\?|&)(?P<key>[^&=]+)=(?P<value>[^&]+)";

/// The text of an optional capture group, or the empty text where it took no part.
pub open spec fn or_empty(g: Option<Seq<char>>) -> Seq<char> {
    match g {
        Some(t) => t,
        None => Seq::empty(),
    }
}

/// The value of the first entry with key `key` among `entries`.
pub open spec fn lookup(entries: Seq<(Seq<char>, Seq<char>)>, key: Seq<char>) -> Option<Seq<char>>
    decreases entries.len(),
{
    if entries.len() == 0 {
        None
    } else if entries[0].0 == key {
        Some(entries[0].1)
    } else {
        lookup(entries.drop_first(), key)
    }
}

/// The map that inserting the captured `(key, value)` pairs one after another builds,
/// where a key keeps the first value it got (`entry(key).or_insert(value)`), as entries
/// in order of first insertion; a missing group counts as the empty text.
pub open spec fn query_map(pairs: Seq<(Option<Seq<char>>, Option<Seq<char>>)>) -> Seq<
    (Seq<char>, Seq<char>),
>
    decreases pairs.len(),
{
    if pairs.len() == 0 {
        Seq::empty()
    } else {
        let m = query_map(pairs.drop_last());
        let k = or_empty(pairs.last().0);
        if lookup(m, k) is Some {
            m
        } else {
            m.push((k, or_empty(pairs.last().1)))
        }
    }
}

/// The channel (`type`) and message of the URL `url`: `None` where the URL does not
/// parse, has no query, the pattern gives fewer than two distinct keys, or `type` or
/// `message` is missing.
pub open spec fn url_query_item_spec(url: Seq<char>) -> Option<(Seq<char>, Seq<char>)> {
    match url_query_of(url) {
        Some(Some(q)) => match capture_pairs_of(QUERY_PAIR_PATTERN@, q, "key"@, "value"@) {
            Some(pairs) => {
                let m = query_map(pairs);
                match (lookup(m, "type"@), lookup(m, "message"@)) {
                    (Some(c), Some(msg)) => if m.len() >= 2 {
                        Some((c, msg))
                    } else {
                        None
                    },
                    _ => None,
                }
            },
            None => None,
        },
        _ => None,
    }
}

/// Adding an entry at the end never changes what an existing key finds, and a new key
/// finds the added value.
pub proof fn lemma_lookup_push(m: Seq<(Seq<char>, Seq<char>)>, e: (Seq<char>, Seq<char>), k: Seq<char>)
    ensures
        lookup(m.push(e), k) == (if lookup(m, k) is Some {
            lookup(m, k)
        } else if e.0 == k {
            Some(e.1)
        } else {
            None
        }),
    decreases m.len(),
{
    if m.len() == 0 {
        assert(m.push(e).drop_first() =~= m);
    } else {
        assert(m.push(e).drop_first() =~= m.drop_first().push(e));
        lemma_lookup_push(m.drop_first(), e, k);
    }
}

/// Pairs captured after a key got its value never change that value: the map keeps the
/// first value of each key (`entry(key).or_insert(value)`).
pub proof fn law_query_keeps_first_value(
    pairs: Seq<(Option<Seq<char>>, Option<Seq<char>>)>,
    more: Seq<(Option<Seq<char>>, Option<Seq<char>>)>,
    key: Seq<char>,
)
    requires
        lookup(query_map(pairs), key) is Some,
    ensures
        lookup(query_map(pairs + more), key) == lookup(query_map(pairs), key),
    decreases more.len(),
{
    if more.len() == 0 {
        assert(pairs + more =~= pairs);
    } else {
        law_query_keeps_first_value(pairs, more.drop_last(), key);
        let all = pairs + more;
        assert(all.drop_last() =~= pairs + more.drop_last());
        let m = query_map(all.drop_last());
        lemma_lookup_push(m, (or_empty(all.last().0), or_empty(all.last().1)), key);
    }
}

proof fn lemma_query_map_has_key(pairs: Seq<(Option<Seq<char>>, Option<Seq<char>>)>, key: Seq<char>)
    ensures
        (lookup(query_map(pairs), key) is Some) == (exists|j: int|
            0 <= j < pairs.len() && #[trigger] or_empty(pairs[j].0) == key),
    decreases pairs.len(),
{
    if pairs.len() > 0 {
        let rest = pairs.drop_last();
        lemma_query_map_has_key(rest, key);
        let m = query_map(rest);
        lemma_lookup_push(m, (or_empty(pairs.last().0), or_empty(pairs.last().1)), key);
        if exists|j: int| 0 <= j < rest.len() && #[trigger] or_empty(rest[j].0) == key {
            let j = choose|j: int| 0 <= j < rest.len() && #[trigger] or_empty(rest[j].0) == key;
            assert(or_empty(pairs[j].0) == key);
        }
        if exists|j: int| 0 <= j < pairs.len() && #[trigger] or_empty(pairs[j].0) == key {
            let j = choose|j: int| 0 <= j < pairs.len() && #[trigger] or_empty(pairs[j].0) == key;
            if j < rest.len() {
                assert(or_empty(rest[j].0) == key);
            }
        }
    }
}

/// The value of a key is the value of the first pair that names it (a missing group
/// counting as the empty text).
pub proof fn law_query_first_pair_wins(pairs: Seq<(Option<Seq<char>>, Option<Seq<char>>)>, i: int)
    requires
        0 <= i < pairs.len(),
        forall|j: int| 0 <= j < i ==> #[trigger] or_empty(pairs[j].0) != or_empty(pairs[i].0),
    ensures
        lookup(query_map(pairs), or_empty(pairs[i].0)) == Some(or_empty(pairs[i].1)),
{
    let key = or_empty(pairs[i].0);
    let before = pairs.take(i);
    lemma_query_map_has_key(before, key);
    assert forall|j: int| 0 <= j < before.len() implies #[trigger] or_empty(before[j].0) != key by {
        assert(before[j] == pairs[j]);
    }
    let upto = pairs.take(i + 1);
    assert(upto.drop_last() =~= before);
    lemma_lookup_push(query_map(before), (key, or_empty(pairs[i].1)), key);
    assert(upto + pairs.skip(i + 1) =~= pairs);
    law_query_keeps_first_value(upto, pairs.skip(i + 1), key);
}

/// The index of the first entry of `m` whose key is `key`, if there is one.
pub fn lookup_exec(m: &Vec<(String, String)>, key: &str) -> (r: Option<usize>)
    ensures
        match lookup(m@.map_values(|p: (String, String)| (p.0@, p.1@)), key@) {
            None => r is None,
            Some(v) => r matches Some(i) && i < m.len() && m@[i as int].1@ == v,
        },
{
    let ghost mv = m@.map_values(|p: (String, String)| (p.0@, p.1@));
    let mut i: usize = 0;
    assert(mv.subrange(0, mv.len() as int) =~= mv);
    while i < m.len()
        invariant
            i <= m.len(),
            mv == m@.map_values(|p: (String, String)| (p.0@, p.1@)),
            lookup(mv, key@) == lookup(mv.subrange(i as int, mv.len() as int), key@),
        decreases m.len() - i,
    {
        let ghost rest = mv.subrange(i as int, mv.len() as int);
        assert(rest.drop_first() =~= mv.subrange(i + 1, mv.len() as int));
        if str_eq(m[i].0.as_str(), key) {
            return Some(i);
        }
        i = i + 1;
    }
    None
}

/// Builds the first-value-wins map of the captured pairs (`query_map`).
fn build_query_map(pairs: &Vec<(Option<String>, Option<String>)>) -> (m: Vec<(String, String)>)
    ensures
        m@.map_values(|p: (String, String)| (p.0@, p.1@)) == query_map(pairs.deep_view()),
{
    let mut m: Vec<(String, String)> = Vec::new();
    let mut i: usize = 0;
    let ghost pv = pairs.deep_view();
    assert(pv.take(0) =~= Seq::<(Option<Seq<char>>, Option<Seq<char>>)>::empty());
    assert(m@.map_values(|p: (String, String)| (p.0@, p.1@)) =~= Seq::<
        (Seq<char>, Seq<char>),
    >::empty());
    while i < pairs.len()
        invariant
            i <= pairs.len(),
            pv == pairs.deep_view(),
            m@.map_values(|p: (String, String)| (p.0@, p.1@)) == query_map(pv.take(i as int)),
        decreases pairs.len() - i,
    {
        let key = match &pairs[i].0 {
            Some(k) => k.clone(),
            None => String::new(),
        };
        let value = match &pairs[i].1 {
            Some(v) => v.clone(),
            None => String::new(),
        };
        assert(pv.take(i + 1).drop_last() =~= pv.take(i as int));
        assert(pv.take(i + 1).last() == pv[i as int]);
        assert(key@ == or_empty(pv[i as int].0));
        assert(value@ == or_empty(pv[i as int].1));
        let found = lookup_exec(&m, key.as_str());
        if found.is_none() {
            let ghost before = m@;
            m.push((key, value));
            assert(m@.map_values(|p: (String, String)| (p.0@, p.1@)) =~= before.map_values(
                |p: (String, String)| (p.0@, p.1@),
            ).push((key@, value@)));
        }
        i = i + 1;
    }
    assert(pv.take(pairs.len() as int) =~= pv);
    m
}

/// The channel (`type`) and message of the thread URL `url_str`, or `None` where it does
/// not give them (see `parse_url_query_item`).
pub(crate) fn query_item_of(url_str: &str) -> (r: Option<UrlQueryItem>)
    ensures
        match url_query_item_spec(url_str@) {
            None => r is None,
            Some((c, m)) => r matches Some(q) && q.channel@ == c && q.message@ == m,
        },
{
    let query = match url_query(url_str) {
        Some(Some(q)) => q,
        _ => return None,
    };
    let pairs = match capture_pairs(QUERY_PAIR_PATTERN, query.as_str(), "key", "value") {
        Some(p) => p,
        None => return None,
    };
    let map = build_query_map(&pairs);
    let ghost mv = map@.map_values(|p: (String, String)| (p.0@, p.1@));
    if map.len() < 2 {
        return None;
    }
    let channel = match lookup_exec(&map, "type") {
        Some(i) => map[i].1.clone(),
        None => return None,
    };
    let message = match lookup_exec(&map, "message") {
        Some(i) => map[i].1.clone(),
        None => return None,
    };
    Some(UrlQueryItem { channel, message })
}

/// The channel (`type`) and message of the thread URL `url_str`: its query is read with
/// the URL parser, `key=value` pairs are taken from it with `QUERY_PAIR_PATTERN`, and the
/// first value of each key is kept. The URL must parse, have a query, give at least two
/// distinct keys, a `type` and a `message`; `Builder::try_url_query_item` tests this and
/// gives `None` for any other URL.
pub fn parse_url_query_item(url_str: &str) -> (r: UrlQueryItem)
    requires
        url_query_item_spec(url_str@) is Some,
    ensures
        (r.channel@, r.message@) == url_query_item_spec(url_str@)->Some_0,
{
    match query_item_of(url_str) {
        Some(q) => q,
        None => UrlQueryItem { channel: String::new(), message: String::new() },
    }
}

} // verus!
