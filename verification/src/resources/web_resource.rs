use vstd::prelude::*;

use crate::query::{lemma_lookup_push, lookup, lookup_exec};

verus! {

/// The text that `find` gives for a page that was never fetched.
pub const MISSING_PAGE: &'static str = "None";

/// What to do for a request of a page.
pub enum PageStep {
    /// Answer with this page, stored before.
    Answer(String),
    /// Fetch the page, then `store` it.
    Fetch,
}

/// The pages fetched so far, each under the URL it was fetched from, in the order in
/// which they were first fetched; no URL is stored twice (the type's invariant). A URL is
/// fetched at most once: later requests for it are answered from here.
pub struct WebResource {
    pages: Vec<(String, String)>,
}

/// The stored `(url, page)` entries as texts.
pub open spec fn entries_view(pages: Seq<(String, String)>) -> Seq<(Seq<char>, Seq<char>)> {
    pages.map_values(|p: (String, String)| (p.0@, p.1@))
}

/// What `find` answers for `url` given the stored entries: the stored page, or
/// `MISSING_PAGE` where none is stored.
pub open spec fn find_spec(entries: Seq<(Seq<char>, Seq<char>)>, url: Seq<char>) -> Seq<char> {
    match lookup(entries, url) {
        Some(page) => page,
        None => "None"@,
    }
}

/// No URL is stored twice.
pub open spec fn urls_distinct(entries: Seq<(Seq<char>, Seq<char>)>) -> bool {
    forall|i: int, j: int|
        #![trigger entries[i], entries[j]]
        0 <= i < j < entries.len() ==> entries[i].0 != entries[j].0
}

proof fn lemma_lookup_none(entries: Seq<(Seq<char>, Seq<char>)>, url: Seq<char>)
    requires
        lookup(entries, url) is None,
    ensures
        forall|i: int| 0 <= i < entries.len() ==> #[trigger] entries[i].0 != url,
    decreases entries.len(),
{
    if entries.len() > 0 {
        lemma_lookup_none(entries.drop_first(), url);
        assert forall|i: int| 0 <= i < entries.len() implies #[trigger] entries[i].0 != url by {
            if i > 0 {
                assert(entries[i] == entries.drop_first()[i - 1]);
            }
        }
    }
}

impl WebResource {
    /// The stored `(url, page)` entries as texts.
    pub closed spec fn entries(&self) -> Seq<(Seq<char>, Seq<char>)> {
        entries_view(self.pages@)
    }

    /// No URL is stored twice.
    #[verifier::type_invariant]
    spec fn well_formed(self) -> bool {
        urls_distinct(entries_view(self.pages@))
    }

    /// The number of stored pages.
    pub fn len(&self) -> (r: usize)
        ensures
            r == self.entries().len(),
    {
        self.pages.len()
    }

    /// A resource that has fetched nothing yet.
    pub fn new() -> (r: Self)
        ensures
            r.entries() == Seq::<(Seq<char>, Seq<char>)>::empty(),
            urls_distinct(r.entries()),
    {
        let r = WebResource { pages: Vec::new() };
        assert(r.entries() =~= Seq::<(Seq<char>, Seq<char>)>::empty());
        r
    }

    /// Whether a page is stored for `url`.
    pub fn contains(&self, url: &str) -> (r: bool)
        ensures
            r == (lookup(self.entries(), url@) is Some),
    {
        lookup_exec(&self.pages, url).is_some()
    }

    /// The page stored for `url`, or `MISSING_PAGE` where none is.
    pub fn find(&self, url: &str) -> (r: String)
        ensures
            r@ == find_spec(self.entries(), url@),
    {
        match lookup_exec(&self.pages, url) {
            Some(i) => self.pages[i].1.clone(),
            None => String::from_str(MISSING_PAGE),
        }
    }

    /// What to do for a request of `url`: answer with the page stored for it, where there
    /// is one, and else fetch it (and then `store` what came back). A stored page is
    /// never fetched again.
    pub fn get(&self, url: &str) -> (r: PageStep)
        ensures
            match lookup(self.entries(), url@) {
                Some(page) => r matches PageStep::Answer(p) && p@ == page,
                None => r is Fetch,
            },
    {
        match lookup_exec(&self.pages, url) {
            Some(i) => PageStep::Answer(self.pages[i].1.clone()),
            None => PageStep::Fetch,
        }
    }

    /// Stores `page`, fetched from `url`, where no page is stored for `url` yet, and gives
    /// the page now stored for `url`: `page` itself, or the one stored before.
    pub fn store(&mut self, url: &str, page: String) -> (r: String)
        ensures
            lookup(old(self).entries(), url@) is Some ==> final(self).entries() == old(
                self,
            ).entries() && r@ == find_spec(old(self).entries(), url@),
            lookup(old(self).entries(), url@) is None ==> final(self).entries() == old(
                self,
            ).entries().push((url@, page@)) && r@ == page@,
            r@ == find_spec(final(self).entries(), url@),
            urls_distinct(final(self).entries()),
    {
        proof {
            use_type_invariant(&*self);
        }
        let ghost before = self.entries();
        let ghost pv = page@;
        if lookup_exec(&self.pages, url).is_none() {
            let key = String::from_str(url);
            let mut pages: Vec<(String, String)> = Vec::new();
            std::mem::swap(&mut pages, &mut self.pages);
            pages.push((key, page));
            proof {
                assert(entries_view(pages@) =~= before.push((url@, pv)));
                lemma_lookup_push(before, (url@, pv), url@);
                lemma_lookup_none(before, url@);
            }
            self.pages = pages;
        }
        proof {
            use_type_invariant(&*self);
        }
        self.find(url)
    }
}

/// Once a page is stored for a URL, `get` answers with it and `find` gives it back:
/// storing a page under a URL that had none makes the URL find exactly that page, so the
/// URL is fetched at most once.
pub proof fn law_find_after_store(entries: Seq<(Seq<char>, Seq<char>)>, url: Seq<char>, page: Seq<
    char,
>)
    requires
        lookup(entries, url) is None,
    ensures
        lookup(entries.push((url, page)), url) == Some(page),
        find_spec(entries.push((url, page)), url) == page,
{
    lemma_lookup_push(entries, (url, page), url);
}

/// Storing a page under one URL leaves what every other URL finds unchanged, and a URL
/// that already had a page keeps it.
pub proof fn law_store_keeps_others(
    entries: Seq<(Seq<char>, Seq<char>)>,
    url: Seq<char>,
    page: Seq<char>,
    other: Seq<char>,
)
    requires
        other != url || lookup(entries, other) is Some,
    ensures
        find_spec(entries.push((url, page)), other) == find_spec(entries, other),
{
    lemma_lookup_push(entries, (url, page), other);
}

} // verus!
