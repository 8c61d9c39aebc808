//! The decisions of a wiki search: which categories are searched, under
//! which key a page is cached, and the page a cache record or a fetched
//! document gives. Reading the cache, fetching pages and writing the cache
//! are left to the caller.
use vstd::prelude::*;
use crate::search::{DndSearchClient, SearchCategory, SearchResult, WikiPageContent, cached_parts, slug_of, page_text,
    page_title, category_kind};
use crate::text::{to_lowercase, lowercase};
use crate::words::{replace_char, replaced, lines, lines_from, strip_cr, find_from, starts_with, words, views,
    split_words, lemma_words_nonempty};
use crate::search::{safe_slug, possible_urls, query_variations, variations_defined, category_name};
use crate::text::str_chars;
use crate::tui::opt_view;

verus! {

/// The categories a search goes through: the one asked for, else all.
pub open spec fn searched(category: Option<SearchCategory>) -> Seq<SearchCategory> {
    match category {
        Some(c) => seq![c],
        None => seq![
            SearchCategory::Spells,
            SearchCategory::Classes,
            SearchCategory::Equipment,
            SearchCategory::Monsters,
            SearchCategory::Races,
        ],
    }
}

/// The categories a search goes through (see `searched`).
pub fn search_categories(category: Option<SearchCategory>) -> (res: Vec<SearchCategory>)
    ensures
        res@ == searched(category),
{
    match category {
        Some(c) => {
            let mut v: Vec<SearchCategory> = Vec::new();
            v.push(c);
            assert(v@ =~= seq![c]);
            v
        },
        None => SearchCategory::all(),
    }
}

/// The key a page of `kind` found for `query` is cached under.
pub open spec fn page_key(kind: Seq<char>, query: Seq<char>) -> Seq<char> {
    kind + ":"@ + query
}

/// The key a page of `kind` found for `query` is cached under: `kind:query`.
pub fn cache_key(kind: &str, query: &str) -> (res: String)
    ensures
        res@ == page_key(kind@, query@),
{
    let mut k = String::from_str(kind);
    k.append(":");
    k.append(query);
    k
}

/// The record a fetched page is cached as.
pub open spec fn page_record(title: Seq<char>, url: Seq<char>, content: Seq<char>) -> Seq<char> {
    "TITLE:"@ + title + "\nURL:"@ + url + "\nCONTENT:\n"@ + content
}

/// A title or address that a cache record holds on one line and reads
/// back unchanged: no line break or carriage return in it, and not ending
/// with the `CONTENT:` marker.
pub open spec fn plain_field(t: Seq<char>) -> bool {
    &&& forall|k: int| 0 <= k < t.len() ==> #[trigger] t[k] != '\n' && t[k] != '\r'
    &&& !(t.len() >= 8 && t.subrange(t.len() - 8, t.len() as int) == "CONTENT:"@)
}

proof fn lemma_line_segment(s: Seq<char>, i: int, j: int, cur: Seq<char>)
    requires
        0 <= i <= j < s.len(),
        s[j] == '\n',
        forall|k: int| i <= k < j ==> #[trigger] s[k] != '\n',
    ensures
        lines_from(s, i, cur) == seq![strip_cr(cur + s.subrange(i, j))] + lines_from(s, j + 1, seq![]),
    decreases j - i,
{
    if i == j {
        assert(cur + s.subrange(i, i) =~= cur);
    } else {
        lemma_line_segment(s, i + 1, j, cur.push(s[i]));
        assert(cur.push(s[i]) + s.subrange(i + 1, j) =~= cur + s.subrange(i, j));
    }
}

proof fn lemma_find_first(s: Seq<char>, p: Seq<char>, i: int, k: int)
    requires
        0 <= i <= k,
        k + p.len() <= s.len(),
        s.subrange(k, k + p.len()) == p,
        forall|j: int| i <= j < k ==> #[trigger] s.subrange(j, j + p.len()) != p,
    ensures
        find_from(s, p, i) == Some(k),
    decreases k - i,
{
    if i < k {
        assert(s.subrange(i, i + p.len()) != p);
        lemma_find_first(s, p, i + 1, k);
    }
}

/// Law: a page cached as a record reads back as the same title, address
/// and content, for a title and address that each fit on one line (see
/// `plain_field`); the content may be anything.
#[verifier::spinoff_prover]
#[verifier::rlimit(40)]
pub proof fn law_cache_record_round_trip(t: Seq<char>, u: Seq<char>, c: Seq<char>)
    requires
        plain_field(t),
        plain_field(u),
    ensures
        cached_parts(page_record(t, u, c)) == Some((t, u, c)),
{
    reveal_strlit("TITLE:");
    reveal_strlit("URL:");
    reveal_strlit("\nURL:");
    reveal_strlit("\nCONTENT:\n");
    reveal_strlit("CONTENT:\n");
    reveal_strlit("CONTENT:");
    let a = "TITLE:"@;
    let b = "\nURL:"@;
    let m = "\nCONTENT:\n"@;
    let p = "CONTENT:\n"@;
    let r = page_record(t, u, c);
    let n1: int = 6 + t.len() as int;
    let n2: int = n1 + 5 + u.len() as int;
    let n3: int = n2 + 9;
    assert(r.len() == n2 + 10 + c.len());
    assert forall|k: int| 0 <= k < 6 implies #[trigger] r[k] == a[k] by {}
    assert forall|k: int| 6 <= k < n1 implies #[trigger] r[k] == t[k - 6] by {}
    assert forall|k: int| n1 <= k < n1 + 5 implies #[trigger] r[k] == b[k - n1] by {}
    assert forall|k: int| n1 + 5 <= k < n2 implies #[trigger] r[k] == u[k - n1 - 5] by {}
    assert forall|k: int| n2 <= k < n2 + 10 implies #[trigger] r[k] == m[k - n2] by {}
    assert forall|k: int| n2 + 10 <= k < r.len() implies #[trigger] r[k] == c[k - n2 - 10] by {}
    // The three first lines.
    assert forall|k: int| 0 <= k < n1 implies #[trigger] r[k] != '\n' by {
        if k < 6 { assert(r[k] == a[k]); } else { assert(r[k] == t[k - 6]); }
    }
    assert forall|k: int| n1 + 1 <= k < n2 implies #[trigger] r[k] != '\n' by {
        if k < n1 + 5 { assert(r[k] == b[k - n1]); } else { assert(r[k] == u[k - n1 - 5]); }
    }
    assert forall|k: int| n2 + 1 <= k < n3 implies #[trigger] r[k] != '\n' by {
        assert(r[k] == m[k - n2]);
    }
    assert(r[n1] == '\n' && r[n2] == '\n' && r[n3] == '\n');
    lemma_line_segment(r, 0, n1, seq![]);
    lemma_line_segment(r, n1 + 1, n2, seq![]);
    lemma_line_segment(r, n2 + 1, n3, seq![]);
    let l0 = Seq::<char>::empty() + r.subrange(0, n1);
    let l1 = Seq::<char>::empty() + r.subrange(n1 + 1, n2);
    assert(l0 =~= a + t);
    assert(l1 =~= "URL:"@ + u);
    assert(strip_cr(l0) == l0) by {
        if t.len() > 0 { assert(l0.last() == t[t.len() - 1]); } else { assert(l0.last() == a[5]); }
    }
    assert(strip_cr(l1) == l1) by {
        if u.len() > 0 { assert(l1.last() == u[u.len() - 1]); } else { assert(l1.last() == "URL:"@[3]); }
    }
    let ls = lines(r);
    assert(ls.len() >= 3);
    assert(ls[0] == l0);
    assert(ls[1] == l1);
    assert(l0.take(6) =~= a);
    assert(l1.take(4) =~= "URL:"@);
    assert(l0.skip(6) =~= t);
    assert(l1.skip(4) =~= u);
    // The content marker is first found where the record puts it.
    assert(r.subrange(n2 + 1, n2 + 10) =~= p);
    assert forall|j: int| 0 <= j < n2 + 1 implies #[trigger] r.subrange(j, j + 9) != p by {
        if r.subrange(j, j + 9) == p {
            assert(r.subrange(j, j + 9)[8] == r[j + 8]);
            assert(r[j + 8] == '\n');
            assert(r.subrange(j, j + 9)[0] == r[j]);
            if j + 8 == n1 {
                if j >= 6 {
                    assert(t.subrange(t.len() - 8, t.len() as int) =~= "CONTENT:"@) by {
                        assert forall|q: int| 0 <= q < 8 implies #[trigger] t.subrange(t.len() - 8, t.len() as int)[q]
                            == "CONTENT:"@[q] by {
                            assert(r[j + q] == t[j + q - 6]);
                            assert(r.subrange(j, j + 9)[q] == r[j + q]);
                        }
                    }
                } else {
                    assert(r[j] == a[j]);
                }
            } else if j + 8 == n2 {
                if j >= n1 + 5 {
                    assert(u.subrange(u.len() - 8, u.len() as int) =~= "CONTENT:"@) by {
                        assert forall|q: int| 0 <= q < 8 implies #[trigger] u.subrange(u.len() - 8, u.len() as int)[q]
                            == "CONTENT:"@[q] by {
                            assert(r[j + q] == u[j + q - n1 - 5]);
                            assert(r.subrange(j, j + 9)[q] == r[j + q]);
                        }
                    }
                } else if j > n1 {
                    assert(r[j] == b[j - n1]);
                } else {
                    assert(r.subrange(j, j + 9)[n1 - j] == r[n1]);
                }
            } else {
                assert(j + 8 < n2);
            }
        }
    }
    lemma_find_first(r, p, 0, n2 + 1);
    assert(r.skip(n2 + 10) =~= c);
}

/// `r` is the page of `kind` found for `query`, with this title, address
/// and content.
pub open spec fn page_is(r: SearchResult, query: Seq<char>, kind: Seq<char>, title: Seq<char>, url: Seq<char>, content: Seq<char>) -> bool {
    &&& r.page.index@ == slug_of(query)
    &&& r.page.name@ == title
    &&& r.page.url@ == url
    &&& r.page.content@ == content
    &&& r.page.content_type@ == kind
}

/// The slug of a query (see `slug_of`).
fn slug(query: &str) -> (res: String)
    ensures
        res@ == slug_of(query@),
{
    let lower = to_lowercase(query);
    replace_char(lower.as_str(), ' ', "-")
}

impl DndSearchClient {
    /// The page a cache record gives for `query` among pages of `kind`, or
    /// nothing when the record is malformed.
    pub fn page_from_cache(&self, query: &str, kind: &str, record: &str) -> (res: Option<SearchResult>)
        ensures
            match cached_parts(record@) {
                Some((t, u, c)) => res matches Some(r) && page_is(r, query@, kind@, t, u, c),
                None => res is None,
            },
    {
        match self.parse_cached_content(record) {
            None => None,
            Some((title, url, content)) => Some(SearchResult {
                page: WikiPageContent {
                    index: slug(query),
                    name: title,
                    url,
                    content,
                    content_type: String::from_str(kind),
                },
            }),
        }
    }

    /// The page of `kind` fetched from `url` for `query`, with the record
    /// to cache it as; or why the document holds no page.
    pub fn page_from_document(&self, query: &str, kind: &str, url: &str, document: &str) -> (res: Result<(SearchResult, String), String>)
        ensures
            match page_text(document@) {
                Err(m) => res matches Err(e) && e@ == m,
                Ok(c) => res matches Ok((r, rec)) && page_is(r, query@, kind@, page_title(document@, query@), url@, c)
                    && rec@ == page_record(page_title(document@, query@), url@, c),
            },
    {
        let content = self.extract_page_content(document)?;
        let title = self.extract_page_title(document, query);
        let mut rec = String::from_str("TITLE:");
        rec.append(title.as_str());
        rec.append("\nURL:");
        rec.append(url);
        rec.append("\nCONTENT:\n");
        rec.append(content.as_str());
        let page = WikiPageContent {
            index: slug(query),
            name: title,
            url: String::from_str(url),
            content,
            content_type: String::from_str(kind),
        };
        Ok((SearchResult { page }, rec))
    }
}

/// The failure of a search of one kind that no address answered.
pub fn kind_not_found(kind: &str, query: &str) -> (res: String)
    ensures
        res@ == kind@ + " '"@ + query@ + "' not found"@,
{
    let mut m = String::from_str(kind);
    m.append(" '");
    m.append(query);
    m.append("' not found");
    m
}

/// The failure of a search that no form of the query answered.
pub fn no_matches(query: &str) -> (res: String)
    ensures
        res@ == "No matches found for '"@ + query@ + "'"@,
{
    let mut m = String::from_str("No matches found for '");
    m.append(query);
    m.append("'");
    m
}


/// A found page as plain text: index, title, address, content and kind.
pub struct PageView {
    pub index: Seq<char>,
    pub name: Seq<char>,
    pub url: Seq<char>,
    pub content: Seq<char>,
    pub kind: Seq<char>,
}

/// A search result as plain text.
pub open spec fn page_view(r: SearchResult) -> PageView {
    PageView {
        index: r.page.index@,
        name: r.page.name@,
        url: r.page.url@,
        content: r.page.content@,
        kind: r.page.content_type@,
    }
}

/// The page of `kind` found for `q` with this title, address and content.
pub open spec fn page_of(q: Seq<char>, kind: Seq<char>, t: Seq<char>, u: Seq<char>, c: Seq<char>) -> PageView {
    PageView { index: slug_of(q), name: t, url: u, content: c, kind }
}

/// Results as plain text.
pub open spec fn pages_view(v: Seq<SearchResult>) -> Seq<PageView> {
    v.map_values(|r: SearchResult| page_view(r))
}

/// Where a fetch of one page stands.
#[derive(Debug)]
pub enum FetchState {
    /// Nothing done yet.
    Start,
    /// Waiting for the cache record.
    ReadingCache,
    /// Waiting for the answer from the address at this position.
    Fetching(usize),
    /// The page was fetched and is being cached.
    Found(SearchResult),
    /// Finished.
    Done,
}

/// What the program around the library reports back to a fetch.
#[derive(Debug)]
pub enum FetchEvent {
    /// Go on (the first step of a fetch).
    Begin,
    /// The cache record, or `None` when it could not be read.
    Cache(Option<String>),
    /// The request could not be sent; the error's text.
    SendFailed(String),
    /// The answer: whether its status was a success, and its body (or why
    /// the body could not be read).
    Response(bool, Result<String, String>),
    /// The cache was written (or writing failed, which does not matter).
    Written,
}

/// What a fetch asks the program around the library to do next.
#[derive(Debug)]
pub enum FetchAction {
    /// Read the cache file at this path.
    ReadCache(String),
    /// Send a request for this address.
    Get(String),
    /// Write this record to the cache file at this path.
    WriteCache(String, String),
    /// The fetch is over, with its outcome.
    Finish(Result<Vec<SearchResult>, String>),
    /// Nothing (the fetch is over).
    Idle,
}

/// `FetchState` as plain values.
pub enum FetchStateV {
    Start,
    ReadingCache,
    Fetching(int),
    Found(PageView),
    Done,
}

/// `FetchEvent` as plain values.
pub enum FetchEventV {
    Begin,
    Cache(Option<Seq<char>>),
    SendFailed(Seq<char>),
    Response(bool, Result<Seq<char>, Seq<char>>),
    Written,
}

/// `FetchAction` as plain values.
pub enum FetchActionV {
    ReadCache(Seq<char>),
    Get(Seq<char>),
    WriteCache(Seq<char>, Seq<char>),
    Finish(Result<Seq<PageView>, Seq<char>>),
    Idle,
}

/// Text results as plain values.
pub open spec fn text_result(r: Result<String, String>) -> Result<Seq<char>, Seq<char>> {
    match r {
        Ok(t) => Ok(t@),
        Err(m) => Err(m@),
    }
}

impl View for FetchState {
    type V = FetchStateV;

    open spec fn view(&self) -> FetchStateV {
        match *self {
            FetchState::Start => FetchStateV::Start,
            FetchState::ReadingCache => FetchStateV::ReadingCache,
            FetchState::Fetching(i) => FetchStateV::Fetching(i as int),
            FetchState::Found(r) => FetchStateV::Found(page_view(r)),
            FetchState::Done => FetchStateV::Done,
        }
    }
}

impl View for FetchEvent {
    type V = FetchEventV;

    open spec fn view(&self) -> FetchEventV {
        match *self {
            FetchEvent::Begin => FetchEventV::Begin,
            FetchEvent::Cache(o) => FetchEventV::Cache(opt_view(o)),
            FetchEvent::SendFailed(m) => FetchEventV::SendFailed(m@),
            FetchEvent::Response(ok, body) => FetchEventV::Response(ok, text_result(body)),
            FetchEvent::Written => FetchEventV::Written,
        }
    }
}

impl View for FetchAction {
    type V = FetchActionV;

    open spec fn view(&self) -> FetchActionV {
        match *self {
            FetchAction::ReadCache(p) => FetchActionV::ReadCache(p@),
            FetchAction::Get(u) => FetchActionV::Get(u@),
            FetchAction::WriteCache(p, r) => FetchActionV::WriteCache(p@, r@),
            FetchAction::Finish(r) => FetchActionV::Finish(
                match r {
                    Ok(v) => Ok(pages_view(v@)),
                    Err(m) => Err(m@),
                },
            ),
            FetchAction::Idle => FetchActionV::Idle,
        }
    }
}

/// The cache file of the page of `kind` for `q` in the cache directory `dir`.
pub open spec fn cache_path_of(dir: Seq<char>, kind: Seq<char>, q: Seq<char>) -> Seq<char> {
    dir + "/"@ + safe_slug(page_key(kind, q)) + ".txt"@
}

/// Asking for the address at position `i`, or, past the last one, giving up
/// with "not found".
pub open spec fn try_url(base: Seq<char>, q: Seq<char>, kind: Seq<char>, i: int) -> (FetchStateV, FetchActionV) {
    let urls = possible_urls(base, q, kind);
    if 0 <= i < urls.len() {
        (FetchStateV::Fetching(i), FetchActionV::Get(urls[i]))
    } else {
        (FetchStateV::Done, FetchActionV::Finish(Err(kind + " '"@ + q + "' not found"@)))
    }
}

/// One step of fetching the page of `kind` for `q` from the wiki at `base`,
/// caching under `dir`: the cache is read first, and a well-formed record
/// there is the result; otherwise each address is requested in turn until
/// one answers with success, whose page is cached and is the result; a
/// request that cannot be sent, a body that cannot be read, or a page
/// without content ends the fetch with that failure; when no address
/// answers, the page is not found. An event the state does not wait for
/// changes nothing and the pending request is asked for again.
pub open spec fn fetch_next(
    base: Seq<char>,
    dir: Seq<char>,
    q: Seq<char>,
    kind: Seq<char>,
    s: FetchStateV,
    e: FetchEventV,
) -> (FetchStateV, FetchActionV) {
    let path = cache_path_of(dir, kind, q);
    match s {
        FetchStateV::Start => (FetchStateV::ReadingCache, FetchActionV::ReadCache(path)),
        FetchStateV::ReadingCache => match e {
            FetchEventV::Cache(Some(rec)) => match cached_parts(rec) {
                Some((t, u, c)) => (FetchStateV::Done, FetchActionV::Finish(Ok(seq![page_of(q, kind, t, u, c)]))),
                None => try_url(base, q, kind, 0),
            },
            FetchEventV::Cache(None) => try_url(base, q, kind, 0),
            _ => (FetchStateV::ReadingCache, FetchActionV::ReadCache(path)),
        },
        FetchStateV::Fetching(i) => match e {
            FetchEventV::SendFailed(m) => (
                FetchStateV::Done,
                FetchActionV::Finish(Err("Network request failed: "@ + m)),
            ),
            FetchEventV::Response(ok, body) => if !ok {
                try_url(base, q, kind, i + 1)
            } else {
                match body {
                    Err(m) => (FetchStateV::Done, FetchActionV::Finish(Err("Failed to read response: "@ + m))),
                    Ok(html) => {
                        let urls = possible_urls(base, q, kind);
                        if 0 <= i < urls.len() {
                            match page_text(html) {
                                Err(m) => (FetchStateV::Done, FetchActionV::Finish(Err(m))),
                                Ok(c) => {
                                    let t = page_title(html, q);
                                    (
                                        FetchStateV::Found(page_of(q, kind, t, urls[i], c)),
                                        FetchActionV::WriteCache(path, page_record(t, urls[i], c)),
                                    )
                                },
                            }
                        } else {
                            try_url(base, q, kind, i)
                        }
                    },
                }
            },
            _ => try_url(base, q, kind, i),
        },
        FetchStateV::Found(p) => (FetchStateV::Done, FetchActionV::Finish(Ok(seq![p]))),
        FetchStateV::Done => (FetchStateV::Done, FetchActionV::Idle),
    }
}

fn try_url_exec(urls: &Vec<String>, query: &str, kind: &str, i: usize) -> (res: (FetchState, FetchAction))
    ensures
        (res.0@, res.1@) == (if (i as int) < urls@.len() {
            (FetchStateV::Fetching(i as int), FetchActionV::Get(views(urls@)[i as int]))
        } else {
            (FetchStateV::Done, FetchActionV::Finish(Err(kind@ + " '"@ + query@ + "' not found"@)))
        }),
{
    if i < urls.len() {
        (FetchState::Fetching(i), FetchAction::Get(urls[i].clone()))
    } else {
        (FetchState::Done, FetchAction::Finish(Err(kind_not_found(kind, query))))
    }
}

/// One step of fetching the page of `kind` for `query` (see `fetch_next`).
pub fn fetch_step(client: &DndSearchClient, query: &str, kind: &str, state: FetchState, event: FetchEvent) -> (res: (
    FetchState,
    FetchAction,
))
    ensures
        (res.0@, res.1@) == fetch_next(client.base_url@, client.cache_dir@, query@, kind@, state@, event@),
{
    let ghost urls_v = possible_urls(client.base_url@, query@, kind@);
    match state {
        FetchState::Start => {
            let path = client.get_cache_path(cache_key(kind, query).as_str());
            (FetchState::ReadingCache, FetchAction::ReadCache(path))
        },
        FetchState::ReadingCache => {
            match event {
                FetchEvent::Cache(Some(record)) => {
                    match client.page_from_cache(query, kind, record.as_str()) {
                        Some(r) => {
                            let mut v: Vec<SearchResult> = Vec::new();
                            v.push(r);
                            proof {
                                let (t, u, c) = cached_parts(record@)->0;
                                assert(pages_view(v@) =~= seq![page_of(query@, kind@, t, u, c)]);
                            }
                            (FetchState::Done, FetchAction::Finish(Ok(v)))
                        },
                        None => {
                            let urls = client.generate_possible_urls(query, kind);
                            try_url_exec(&urls, query, kind, 0)
                        },
                    }
                },
                FetchEvent::Cache(None) => {
                    let urls = client.generate_possible_urls(query, kind);
                    try_url_exec(&urls, query, kind, 0)
                },
                _ => {
                    let path = client.get_cache_path(cache_key(kind, query).as_str());
                    (FetchState::ReadingCache, FetchAction::ReadCache(path))
                },
            }
        },
        FetchState::Fetching(i) => {
            let urls = client.generate_possible_urls(query, kind);
            match event {
                FetchEvent::SendFailed(m) => {
                    let mut e = String::from_str("Network request failed: ");
                    e.append(m.as_str());
                    (FetchState::Done, FetchAction::Finish(Err(e)))
                },
                FetchEvent::Response(ok, body) => {
                    if !ok {
                        if i < urls.len() {
                            try_url_exec(&urls, query, kind, i + 1)
                        } else {
                            try_url_exec(&urls, query, kind, i)
                        }
                    } else {
                        match body {
                            Err(m) => {
                                let mut e = String::from_str("Failed to read response: ");
                                e.append(m.as_str());
                                (FetchState::Done, FetchAction::Finish(Err(e)))
                            },
                            Ok(html) => {
                                if i < urls.len() {
                                    match client.page_from_document(query, kind, urls[i].as_str(), html.as_str()) {
                                        Err(m) => (FetchState::Done, FetchAction::Finish(Err(m))),
                                        Ok((r, rec)) => {
                                            let path = client.get_cache_path(cache_key(kind, query).as_str());
                                            (FetchState::Found(r), FetchAction::WriteCache(path, rec))
                                        },
                                    }
                                } else {
                                    try_url_exec(&urls, query, kind, i)
                                }
                            },
                        }
                    }
                },
                _ => try_url_exec(&urls, query, kind, i),
            }
        },
        FetchState::Found(r) => {
            let mut v: Vec<SearchResult> = Vec::new();
            let ghost p = page_view(r);
            v.push(r);
            assert(pages_view(v@) =~= seq![p]);
            (FetchState::Done, FetchAction::Finish(Ok(v)))
        },
        FetchState::Done => (FetchState::Done, FetchAction::Idle),
    }
}


/// Where a search stands: looking in the category at this position for the
/// query as typed, or for the variation at the second position, stopped
/// because the query's words cannot be capitalised, or finished.
#[derive(Debug)]
pub enum SearchStage {
    Exact(usize),
    Fuzzy(usize, usize),
    Unspellable,
    Done,
}

/// A search in progress: its stage, the pages found so far, and the fetch
/// under way.
#[derive(Debug)]
pub struct SearchState {
    pub stage: SearchStage,
    pub found: Vec<SearchResult>,
    pub fetch: FetchState,
}

/// `SearchStage` as plain values.
pub enum SearchStageV {
    Exact(int),
    Fuzzy(int, int),
    Unspellable,
    Done,
}

/// `SearchState` as plain values.
pub struct SearchStateV {
    pub stage: SearchStageV,
    pub found: Seq<PageView>,
    pub fetch: FetchStateV,
}

impl View for SearchState {
    type V = SearchStateV;

    open spec fn view(&self) -> SearchStateV {
        SearchStateV {
            stage: match self.stage {
                SearchStage::Exact(c) => SearchStageV::Exact(c as int),
                SearchStage::Fuzzy(c, v) => SearchStageV::Fuzzy(c as int, v as int),
                SearchStage::Unspellable => SearchStageV::Unspellable,
                SearchStage::Done => SearchStageV::Done,
            },
            found: pages_view(self.found@),
            fetch: self.fetch@,
        }
    }
}

impl SearchState {
    /// A search that has not started: the first category, nothing found.
    pub fn start() -> (res: SearchState)
        ensures
            res@ == (SearchStateV { stage: SearchStageV::Exact(0), found: seq![], fetch: FetchStateV::Start }),
    {
        let s = SearchState { stage: SearchStage::Exact(0), found: Vec::new(), fetch: FetchState::Start };
        assert(pages_view(s.found@) =~= Seq::<PageView>::empty());
        s
    }
}

/// A finished search (what it found has been handed out).
pub open spec fn search_done() -> SearchStateV {
    SearchStateV { stage: SearchStageV::Done, found: seq![], fetch: FetchStateV::Done }
}

/// Looking for the variation at `v` in the category at `c`, or, past the
/// last, the search's failure.
pub open spec fn fuzzy_at(dir: Seq<char>, q: Seq<char>, cat: Option<SearchCategory>, c: int, v: int) -> (SearchStateV, FetchActionV) {
    let cats = searched(cat);
    let vars = query_variations(q);
    if 0 <= c < cats.len() && 0 <= v < vars.len() {
        (
            SearchStateV { stage: SearchStageV::Fuzzy(c, v), found: seq![], fetch: FetchStateV::ReadingCache },
            FetchActionV::ReadCache(cache_path_of(dir, category_kind(cats[c]), vars[v])),
        )
    } else {
        (search_done(), FetchActionV::Finish(Err("No matches found for '"@ + q + "'"@)))
    }
}

/// After the variation at `v` of the category at `c` found nothing: the
/// next variation, or the first of the next category.
pub open spec fn fuzzy_next(dir: Seq<char>, q: Seq<char>, cat: Option<SearchCategory>, c: int, v: int) -> (SearchStateV, FetchActionV) {
    if v + 1 < query_variations(q).len() {
        fuzzy_at(dir, q, cat, c, v + 1)
    } else {
        fuzzy_at(dir, q, cat, c + 1, 0)
    }
}

/// Going on to the category at `c` with the query as typed; past the last,
/// the pages found are the result, and when there are none the variations
/// of the query are tried (which needs the words to be capitalisable).
pub open spec fn exact_after(
    dir: Seq<char>,
    q: Seq<char>,
    cat: Option<SearchCategory>,
    c: int,
    found: Seq<PageView>,
) -> (SearchStateV, FetchActionV) {
    let cats = searched(cat);
    if 0 <= c < cats.len() {
        (
            SearchStateV { stage: SearchStageV::Exact(c), found, fetch: FetchStateV::ReadingCache },
            FetchActionV::ReadCache(cache_path_of(dir, category_kind(cats[c]), q)),
        )
    } else if found.len() > 0 {
        (search_done(), FetchActionV::Finish(Ok(found)))
    } else if !variations_defined(q) {
        (
            SearchStateV { stage: SearchStageV::Unspellable, found: seq![], fetch: FetchStateV::Done },
            FetchActionV::Idle,
        )
    } else {
        fuzzy_at(dir, q, cat, 0, 0)
    }
}

/// One step of a search for `q` in `cat` (all categories when `None`): each
/// category is fetched in turn (see `fetch_next`), cache first, with the
/// query as typed, and what they find together is the result; a category
/// that fails gives a warning and the search goes on. When none found
/// anything, each variation of the query is tried in each category, and the
/// first that finds a page is the result; when none does, nothing matched.
/// Also returns the warning to report, if any.
pub open spec fn search_next(
    base: Seq<char>,
    dir: Seq<char>,
    q: Seq<char>,
    cat: Option<SearchCategory>,
    s: SearchStateV,
    e: FetchEventV,
) -> (SearchStateV, FetchActionV, Option<Seq<char>>) {
    let cats = searched(cat);
    match s.stage {
        SearchStageV::Exact(c) => if 0 <= c < cats.len() {
            let (fs, fa) = fetch_next(base, dir, q, category_kind(cats[c]), s.fetch, e);
            match fa {
                FetchActionV::Finish(Ok(ps)) => {
                    let (s2, a) = exact_after(dir, q, cat, c + 1, s.found + ps);
                    (s2, a, None)
                },
                FetchActionV::Finish(Err(m)) => {
                    let (s2, a) = exact_after(dir, q, cat, c + 1, s.found);
                    (s2, a, Some("Warning: Failed to search "@ + category_name(cats[c]) + ": "@ + m))
                },
                _ => (SearchStateV { stage: SearchStageV::Exact(c), found: s.found, fetch: fs }, fa, None),
            }
        } else {
            let (s2, a) = exact_after(dir, q, cat, c, s.found);
            (s2, a, None)
        },
        SearchStageV::Fuzzy(c, v) => {
            let vars = query_variations(q);
            if !variations_defined(q) {
                (
                    SearchStateV { stage: SearchStageV::Unspellable, found: seq![], fetch: FetchStateV::Done },
                    FetchActionV::Idle,
                    None,
                )
            } else if 0 <= c < cats.len() && 0 <= v < vars.len() {
                let (fs, fa) = fetch_next(base, dir, vars[v], category_kind(cats[c]), s.fetch, e);
                match fa {
                    FetchActionV::Finish(r) => if r matches Ok(ps) && ps.len() > 0 {
                        (search_done(), FetchActionV::Finish(r), None)
                    } else {
                        let (s2, a) = fuzzy_next(dir, q, cat, c, v);
                        (s2, a, None)
                    },
                    _ => (SearchStateV { stage: SearchStageV::Fuzzy(c, v), found: s.found, fetch: fs }, fa, None),
                }
            } else {
                (search_done(), FetchActionV::Finish(Err("No matches found for '"@ + q + "'"@)), None)
            }
        },
        _ => (s, FetchActionV::Idle, None),
    }
}

/// Whether every word of a query of several words starts with an ASCII
/// character (see `variations_defined`).
pub fn can_vary(query: &str) -> (r: bool)
    ensures
        r == variations_defined(query@),
{
    let ws = split_words(query);
    assert(views(ws@).len() == ws@.len());
    if ws.len() <= 1 {
        return true;
    }
    proof {
        lemma_words_nonempty(query@);
    }
    let mut i: usize = 0;
    while i < ws.len()
        invariant
            i <= ws@.len(),
            ws@.len() > 1,
            words(query@).len() == ws@.len(),
            views(ws@) == words(query@),
            forall|k: int| 0 <= k < words(query@).len() ==> #[trigger] words(query@)[k].len() > 0,
            forall|k: int| 0 <= k < i ==> (#[trigger] words(query@)[k][0] as u32) < 128,
        decreases ws@.len() - i,
    {
        let cs = str_chars(ws[i].as_str());
        assert(views(ws@)[i as int] == ws@[i as int]@);
        assert(cs@ == words(query@)[i as int]);
        let c = cs[0];
        if (c as u32) >= 128 {
            assert(!((words(query@)[i as int][0] as u32) < 128));
            return false;
        }
        i = i + 1;
    }
    true
}

fn fuzzy_at_exec(
    client: &DndSearchClient,
    cats: &Vec<SearchCategory>,
    vars: &Vec<String>,
    query: &str,
    c: usize,
    v: usize,
    Ghost(cat): Ghost<Option<SearchCategory>>,
) -> (res: (SearchState, FetchAction))
    requires
        cats@ == searched(cat),
        views(vars@) == query_variations(query@),
    ensures
        (res.0@, res.1@) == fuzzy_at(client.cache_dir@, query@, cat, c as int, v as int),
{
    if c < cats.len() && v < vars.len() {
        let path = client.get_cache_path(cache_key(cats[c].kind(), vars[v].as_str()).as_str());
        let st = SearchState { stage: SearchStage::Fuzzy(c, v), found: Vec::new(), fetch: FetchState::ReadingCache };
        assert(pages_view(st.found@) =~= Seq::<PageView>::empty());
        assert(views(vars@)[v as int] == vars@[v as int]@);
        (st, FetchAction::ReadCache(path))
    } else {
        let st = SearchState { stage: SearchStage::Done, found: Vec::new(), fetch: FetchState::Done };
        assert(pages_view(st.found@) =~= Seq::<PageView>::empty());
        (st, FetchAction::Finish(Err(no_matches(query))))
    }
}

fn exact_after_exec(
    client: &DndSearchClient,
    cats: &Vec<SearchCategory>,
    query: &str,
    c: usize,
    found: Vec<SearchResult>,
    Ghost(cat): Ghost<Option<SearchCategory>>,
) -> (res: (SearchState, FetchAction))
    requires
        cats@ == searched(cat),
    ensures
        (res.0@, res.1@) == exact_after(client.cache_dir@, query@, cat, c as int, pages_view(found@)),
{
    if c < cats.len() {
        let path = client.get_cache_path(cache_key(cats[c].kind(), query).as_str());
        (SearchState { stage: SearchStage::Exact(c), found, fetch: FetchState::ReadingCache }, FetchAction::ReadCache(path))
    } else if found.len() > 0 {
        let st = SearchState { stage: SearchStage::Done, found: Vec::new(), fetch: FetchState::Done };
        assert(pages_view(st.found@) =~= Seq::<PageView>::empty());
        (st, FetchAction::Finish(Ok(found)))
    } else if !can_vary(query) {
        let st = SearchState { stage: SearchStage::Unspellable, found: Vec::new(), fetch: FetchState::Done };
        assert(pages_view(st.found@) =~= Seq::<PageView>::empty());
        (st, FetchAction::Idle)
    } else {
        let vars = client.generate_query_variations(query);
        fuzzy_at_exec(client, cats, &vars, query, 0, 0, Ghost(cat))
    }
}

/// One step of a search for `query` in `category` (see `search_next`): the
/// next state, what to do, and a warning to report, if any.
pub fn search_step(
    client: &DndSearchClient,
    query: &str,
    category: Option<SearchCategory>,
    state: SearchState,
    event: FetchEvent,
) -> (res: (SearchState, FetchAction, Option<String>))
    ensures
        (res.0@, res.1@, opt_view(res.2)) == search_next(
            client.base_url@,
            client.cache_dir@,
            query@,
            category,
            state@,
            event@,
        ),
{
    let cats = search_categories(category);
    let ghost s0 = state@;
    let SearchState { stage, found, fetch } = state;
    match stage {
        SearchStage::Exact(c) => {
            if c < cats.len() {
                let kind = cats[c].kind();
                let (fs, fa) = fetch_step(client, query, kind, fetch, event);
                match fa {
                    FetchAction::Finish(Ok(ps)) => {
                        let mut all = found;
                        let mut more = ps;
                        let ghost a0 = all@;
                        let ghost m0 = more@;
                        all.append(&mut more);
                        assert(pages_view(all@) =~= pages_view(a0) + pages_view(m0));
                        let (s2, a) = exact_after_exec(client, &cats, query, c + 1, all, Ghost(category));
                        (s2, a, None)
                    },
                    FetchAction::Finish(Err(m)) => {
                        let mut w = String::from_str("Warning: Failed to search ");
                        w.append(cats[c].as_str());
                        w.append(": ");
                        w.append(m.as_str());
                        let (s2, a) = exact_after_exec(client, &cats, query, c + 1, found, Ghost(category));
                        (s2, a, Some(w))
                    },
                    other => (SearchState { stage: SearchStage::Exact(c), found, fetch: fs }, other, None),
                }
            } else {
                let (s2, a) = exact_after_exec(client, &cats, query, c, found, Ghost(category));
                (s2, a, None)
            }
        },
        SearchStage::Fuzzy(c, v) => {
            if !can_vary(query) {
                let st = SearchState { stage: SearchStage::Unspellable, found: Vec::new(), fetch: FetchState::Done };
                assert(pages_view(st.found@) =~= Seq::<PageView>::empty());
                return (st, FetchAction::Idle, None);
            }
            let vars = client.generate_query_variations(query);
            if c < cats.len() && v < vars.len() {
                let kind = cats[c].kind();
                assert(views(vars@)[v as int] == vars@[v as int]@);
                let (fs, fa) = fetch_step(client, vars[v].as_str(), kind, fetch, event);
                match fa {
                    FetchAction::Finish(r) => {
                        let hit = match &r {
                            Ok(ps) => ps.len() > 0,
                            Err(_) => false,
                        };
                        if hit {
                            let st = SearchState { stage: SearchStage::Done, found: Vec::new(), fetch: FetchState::Done };
                            assert(pages_view(st.found@) =~= Seq::<PageView>::empty());
                            (st, FetchAction::Finish(r), None)
                        } else if v + 1 < vars.len() {
                            let (s2, a) = fuzzy_at_exec(client, &cats, &vars, query, c, v + 1, Ghost(category));
                            (s2, a, None)
                        } else {
                            let (s2, a) = fuzzy_at_exec(client, &cats, &vars, query, c + 1, 0, Ghost(category));
                            (s2, a, None)
                        }
                    },
                    other => (SearchState { stage: SearchStage::Fuzzy(c, v), found, fetch: fs }, other, None),
                }
            } else {
                let st = SearchState { stage: SearchStage::Done, found: Vec::new(), fetch: FetchState::Done };
                assert(pages_view(st.found@) =~= Seq::<PageView>::empty());
                (st, FetchAction::Finish(Err(no_matches(query))), None)
            }
        },
        SearchStage::Unspellable => (SearchState { stage: SearchStage::Unspellable, found, fetch }, FetchAction::Idle, None),
        SearchStage::Done => (SearchState { stage: SearchStage::Done, found, fetch }, FetchAction::Idle, None),
    }
}

} // verus!
