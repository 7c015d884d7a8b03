# hkg

A reader for the HKGolden and LIHKG forums: it turns forum pages (HTML) and API answers
into thread pages, replies and topic list rows, and keeps fetched pages: the page store
answers a request with the page it holds, and asks for a download only where it holds
none.

The library under `src/` is verified with Verus:

- `text`, `html`, `selector`: trimming, number reading, and CSS-style selection over a
  document tree (`select` finds exactly the matching elements, in document order).
- `content`: the walk that turns a reply's markup into body pieces.
- `query`, `builder`: thread URL queries, thread pages and topic lists read from HTML.
- `builders`: thread pages and topic lists read from the forum's JSON API models.
- `resources`: the request items, the page store, and the steps of the thread page
  resource (API address, cache names, cache-or-web, the answer item).
- `bindings`: the calls into `url`, `regex`, `kuchiki` and `chrono`, with the contracts
  that the rest of the library relies on.

`app/` holds what cannot be verified: the HTTPS client (`hyper`), the file cache, and the
worker thread that answers requests.
