//! Looking things up on the D&D 5e wiki: categories, results, the page
//! addresses to try, the cache format, query variations, suggestions, and
//! turning a page's HTML into readable text. Fetching pages and the cache's
//! files are handled outside the library.
use vstd::prelude::*;
use vstd::utf8::encode_utf8;
use crate::text::{lowercase, to_lowercase, str_eq, str_chars, string_from_range, ascii_upper, to_ascii_upper,
    trim, trimmed, contains_text, chars_contain, all_ascii};
use crate::words::{words, views, join_with, split_words, join_from, push_line, split_lines, lines,
    replaced, replace_char, starts_with, str_starts_with, find_from, find_text};
use crate::text::{uppercase, ascii_lower, ascii_lower_seq, ascii_upper_seq};
use crate::tui::lemma_space;

verus! {

/// One wiki page: its index (the query in slug form), title, address, text
/// content and kind (`spell`, `class`, ...).
#[derive(Debug)]
pub struct WikiPageContent {
    pub index: String,
    pub name: String,
    pub url: String,
    pub content: String,
    pub content_type: String,
}

/// The parts of the wiki a search can look in.
#[derive(Debug, Clone, Copy, PartialEq, Eq, Hash, Structural)]
pub enum SearchCategory {
    Spells,
    Classes,
    Equipment,
    Monsters,
    Races,
}

/// The category's name.
pub open spec fn category_name(c: SearchCategory) -> Seq<char> {
    match c {
        SearchCategory::Spells => "spells"@,
        SearchCategory::Classes => "classes"@,
        SearchCategory::Equipment => "equipment"@,
        SearchCategory::Monsters => "monsters"@,
        SearchCategory::Races => "races"@,
    }
}

/// The category a lower-case word names, singular or plural, with the
/// synonyms item(s) and gear for equipment and creature(s) for monsters.
pub open spec fn category_for(w: Seq<char>) -> Option<SearchCategory> {
    if w == "spell"@ || w == "spells"@ {
        Some(SearchCategory::Spells)
    } else if w == "class"@ || w == "classes"@ {
        Some(SearchCategory::Classes)
    } else if w == "equipment"@ || w == "item"@ || w == "items"@ || w == "gear"@ {
        Some(SearchCategory::Equipment)
    } else if w == "monster"@ || w == "monsters"@ || w == "creature"@ || w == "creatures"@ {
        Some(SearchCategory::Monsters)
    } else if w == "race"@ || w == "races"@ {
        Some(SearchCategory::Races)
    } else {
        None
    }
}

/// Law: reading a category's own name gives the category back: the name
/// is ASCII, so `from_str` folds it with ASCII lowercase, which leaves it
/// as it is.
pub proof fn law_category_name_round_trip(c: SearchCategory)
    ensures
        all_ascii(category_name(c)),
        category_for(ascii_lower_seq(category_name(c))) == Some(c),
{
    reveal_strlit("spell");
    reveal_strlit("spells");
    reveal_strlit("class");
    reveal_strlit("classes");
    reveal_strlit("equipment");
    reveal_strlit("item");
    reveal_strlit("items");
    reveal_strlit("gear");
    reveal_strlit("monster");
    reveal_strlit("monsters");
    reveal_strlit("creature");
    reveal_strlit("creatures");
    reveal_strlit("race");
    reveal_strlit("races");
    let n = category_name(c);
    assert(ascii_lower_seq(n) =~= n);
    assert("races"@[0] == 'r' && "spell"@[0] == 's' && "class"@[0] == 'c' && "items"@[0] == 'i');
}

/// Law: for ASCII text, case does not matter to `from_str`: the text and
/// its ASCII uppercase (both ASCII) name the same category, or none.
pub proof fn law_category_ignores_ascii_case(s: Seq<char>)
    requires
        all_ascii(s),
    ensures
        all_ascii(ascii_upper_seq(s)),
        category_for(ascii_lower_seq(ascii_upper_seq(s))) == category_for(ascii_lower_seq(s)),
{
    assert forall|i: int| 0 <= i < s.len() implies ascii_lower(#[trigger] ascii_upper_seq(s)[i]) == ascii_lower(s[i])
        && (ascii_upper_seq(s)[i] as u32) < 128 by {
        let c = s[i];
        if 'a' <= c <= 'z' {
            assert(ascii_upper_seq(s)[i] == ((c as u32) - 32) as char);
        }
    }
    assert(ascii_lower_seq(ascii_upper_seq(s)) =~= ascii_lower_seq(s));
}

/// The kind of page a category holds, which is also the prefix of its
/// page addresses.
pub open spec fn category_kind(c: SearchCategory) -> Seq<char> {
    match c {
        SearchCategory::Spells => "spell"@,
        SearchCategory::Classes => "class"@,
        SearchCategory::Equipment => "equipment"@,
        SearchCategory::Monsters => "monster"@,
        SearchCategory::Races => "race"@,
    }
}

impl SearchCategory {
    /// The category's name.
    pub fn as_str(&self) -> (res: &'static str)
        ensures
            res@ == category_name(*self),
    {
        match self {
            SearchCategory::Spells => "spells",
            SearchCategory::Classes => "classes",
            SearchCategory::Equipment => "equipment",
            SearchCategory::Monsters => "monsters",
            SearchCategory::Races => "races",
        }
    }

    /// The category a word names, ignoring case.
    pub fn from_str(s: &str) -> (res: Option<SearchCategory>)
        ensures
            res == category_for(lowercase(s@)),
            all_ascii(s@) ==> res == category_for(ascii_lower_seq(s@)),
    {
        let l = to_lowercase(s);
        let w = l.as_str();
        if str_eq(w, "spell") || str_eq(w, "spells") {
            Some(SearchCategory::Spells)
        } else if str_eq(w, "class") || str_eq(w, "classes") {
            Some(SearchCategory::Classes)
        } else if str_eq(w, "equipment") || str_eq(w, "item") || str_eq(w, "items") || str_eq(w, "gear") {
            Some(SearchCategory::Equipment)
        } else if str_eq(w, "monster") || str_eq(w, "monsters") || str_eq(w, "creature") || str_eq(
            w,
            "creatures",
        ) {
            Some(SearchCategory::Monsters)
        } else if str_eq(w, "race") || str_eq(w, "races") {
            Some(SearchCategory::Races)
        } else {
            None
        }
    }

    /// Every category, in the order searches go through them.
    pub fn all() -> (res: Vec<SearchCategory>)
        ensures
            res@ == seq![
                SearchCategory::Spells,
                SearchCategory::Classes,
                SearchCategory::Equipment,
                SearchCategory::Monsters,
                SearchCategory::Races,
            ],
    {
        let mut v: Vec<SearchCategory> = Vec::new();
        v.push(SearchCategory::Spells);
        v.push(SearchCategory::Classes);
        v.push(SearchCategory::Equipment);
        v.push(SearchCategory::Monsters);
        v.push(SearchCategory::Races);
        assert(v@ =~= seq![
            SearchCategory::Spells,
            SearchCategory::Classes,
            SearchCategory::Equipment,
            SearchCategory::Monsters,
            SearchCategory::Races,
        ]);
        v
    }

    /// The kind of page the category holds (`spell`, `class`, ...), also the
    /// prefix of its page addresses.
    pub fn kind(&self) -> (res: &'static str)
        ensures
            res@ == category_kind(*self),
    {
        match self {
            SearchCategory::Spells => "spell",
            SearchCategory::Classes => "class",
            SearchCategory::Equipment => "equipment",
            SearchCategory::Monsters => "monster",
            SearchCategory::Races => "race",
        }
    }
}

/// A page found by a search.
#[derive(Debug)]
pub struct SearchResult {
    pub page: WikiPageContent,
}

impl SearchResult {
    /// The page's title.
    pub fn name(&self) -> (res: &str)
        ensures
            res@ == self.page.name@,
    {
        self.page.name.as_str()
    }

    /// The page's index (the query in slug form).
    pub fn index(&self) -> (res: &str)
        ensures
            res@ == self.page.index@,
    {
        self.page.index.as_str()
    }

    /// The page's kind.
    pub fn content_type(&self) -> (res: &str)
        ensures
            res@ == self.page.content_type@,
    {
        self.page.content_type.as_str()
    }
}

/// The wiki the searches go to.
pub open spec fn wiki_base() -> Seq<char> {
    "http://dnd5e.wikidot.com"@
}

/// A cache key with `:` and `/` made file-name safe.
pub open spec fn safe_slug(s: Seq<char>) -> Seq<char> {
    replaced(replaced(s, ':', "_"@), '/', "_"@)
}

/// A query in the slug form of page addresses: lower case, spaces as
/// dashes.
pub open spec fn slug_of(q: Seq<char>) -> Seq<char> {
    replaced(lowercase(q), ' ', "-"@)
}

/// The title, address and content held in a cache record
/// `TITLE:..\nURL:..\nCONTENT:\n..`; `None` when the record is malformed.
pub open spec fn cached_parts(c: Seq<char>) -> Option<(Seq<char>, Seq<char>, Seq<char>)> {
    let ls = lines(c);
    if ls.len() < 3 || !starts_with(ls[0], "TITLE:"@) || !starts_with(ls[1], "URL:"@) {
        None
    } else {
        match find_from(c, "CONTENT:\n"@, 0) {
            None => None,
            Some(p) => Some((ls[0].skip(6), ls[1].skip(4), c.skip(p + 9))),
        }
    }
}

/// The addresses tried for a query in a kind of page: `base/kind:slug`
/// except for classes and races, which live at `base/slug`; equipment is
/// also tried as a weapon and as armour.
pub open spec fn possible_urls(base: Seq<char>, q: Seq<char>, kind: Seq<char>) -> Seq<Seq<char>> {
    let b = slug_of(q);
    (if kind != "class"@ && kind != "race"@ {
        seq![base + "/"@ + kind + ":"@ + b]
    } else {
        seq![]
    }) + (if kind == "class"@ || kind == "race"@ {
        seq![base + "/"@ + b]
    } else {
        seq![]
    }) + if kind == "equipment"@ {
        seq![base + "/weapon:"@ + b, base + "/armor:"@ + b]
    } else {
        seq![]
    }
}

/// `t` is the last part of `s`.
pub open spec fn ends_with(s: Seq<char>, t: Seq<char>) -> bool {
    t.len() <= s.len() && s.subrange(s.len() - t.len(), s.len() as int) == t
}

proof fn lemma_ends_with_suffix(p: Seq<char>, t: Seq<char>)
    ensures
        ends_with(p + t, t),
{
    assert((p + t).subrange(p.len() as int, (p + t).len() as int) =~= t);
}

proof fn lemma_replaced_char(s: Seq<char>, from: char, to: char)
    ensures
        replaced(s, from, seq![to]).len() == s.len(),
        forall|i: int| 0 <= i < s.len() ==> #[trigger] replaced(s, from, seq![to])[i] == if s[i] == from {
            to
        } else {
            s[i]
        },
    decreases s.len(),
{
    if s.len() > 0 {
        let p = s.drop_last();
        lemma_replaced_char(p, from, to);
        assert forall|i: int| 0 <= i < s.len() implies #[trigger] replaced(s, from, seq![to])[i] == if s[i] == from {
            to
        } else {
            s[i]
        } by {
            if i < s.len() - 1 {
                assert(p[i] == s[i]);
            }
        }
    }
}

/// Law: a query's slug is its lower case with each space made a `-`,
/// character by character (for ASCII text the ASCII lower case); every
/// address tried for a query ends with that slug, the same text a page
/// found for the query gets as its index; the first address is
/// `base/kind:slug`, or `base/slug` for classes and races.
pub proof fn law_addresses_end_with_slug(base: Seq<char>, q: Seq<char>, kind: Seq<char>)
    ensures
        slug_of(q).len() == lowercase(q).len(),
        forall|i: int| 0 <= i < lowercase(q).len() ==> #[trigger] slug_of(q)[i] == if lowercase(q)[i] == ' ' {
            '-'
        } else {
            lowercase(q)[i]
        },
        all_ascii(q) ==> slug_of(q).len() == q.len() && forall|i: int| 0 <= i < q.len()
            ==> #[trigger] slug_of(q)[i] == if q[i] == ' ' { '-' } else { ascii_lower(q[i]) },
        possible_urls(base, q, kind).len() >= 1,
        forall|i: int| 0 <= i < possible_urls(base, q, kind).len() ==> ends_with(
            #[trigger] possible_urls(base, q, kind)[i],
            slug_of(q),
        ),
        kind != "class"@ && kind != "race"@ ==> possible_urls(base, q, kind)[0] == base + "/"@ + kind + ":"@ + slug_of(q),
        kind == "class"@ || kind == "race"@ ==> possible_urls(base, q, kind)[0] == base + "/"@ + slug_of(q),
{
    reveal_strlit("-");
    reveal_strlit("class");
    reveal_strlit("race");
    reveal_strlit("equipment");
    assert("-"@ =~= seq!['-']);
    lemma_replaced_char(lowercase(q), ' ', '-');
    if all_ascii(q) {
        assert(lowercase(q) == ascii_lower_seq(q));
    }
    let b = slug_of(q);
    let u = possible_urls(base, q, kind);
    assert("class"@.len() == 5 && "race"@.len() == 4 && "equipment"@.len() == 9);
    if kind == "class"@ || kind == "race"@ {
        assert(kind != "equipment"@);
        assert(u =~= seq![base + "/"@ + b]);
        lemma_ends_with_suffix(base + "/"@, b);
    } else if kind == "equipment"@ {
        assert(u =~= seq![base + "/"@ + kind + ":"@ + b, base + "/weapon:"@ + b, base + "/armor:"@ + b]);
        lemma_ends_with_suffix(base + "/"@ + kind + ":"@, b);
        lemma_ends_with_suffix(base + "/weapon:"@, b);
        lemma_ends_with_suffix(base + "/armor:"@, b);
    } else {
        assert(u =~= seq![base + "/"@ + kind + ":"@ + b]);
        lemma_ends_with_suffix(base + "/"@ + kind + ":"@, b);
    }
}

/// A word with its first letter in upper case and the rest in lower case.
pub open spec fn title_word(w: Seq<char>) -> Seq<char> {
    seq![ascii_upper(w[0])] + lowercase(w.drop_first())
}

/// The forms of a query tried when it is not found as typed: as typed,
/// dashed, without spaces, lower case, lower case dashed, and for several
/// words each word capitalised, spaced and dashed.
pub open spec fn query_variations(q: Seq<char>) -> Seq<Seq<char>> {
    seq![q, replaced(q, ' ', "-"@), replaced(q, ' ', ""@), lowercase(q), replaced(lowercase(q), ' ', "-"@)]
        + if words(q).len() > 1 {
        let t = join_with(words(q).map_values(|w: Seq<char>| title_word(w)), seq![' ']);
        seq![t, replaced(t, ' ', "-"@)]
    } else {
        seq![]
    }
}

/// Each word of a query of several words starts with an ASCII character
/// (capitalising cuts the first character off by its byte).
pub open spec fn variations_defined(q: Seq<char>) -> bool {
    words(q).len() > 1 ==> forall|i: int| 0 <= i < words(q).len() ==> (#[trigger] words(q)[i][0] as u32) < 128
}

/// The cache directory: `dnd_tools` inside the user's cache directory
/// `root` (on Linux `$XDG_CACHE_HOME` or `$HOME/.cache`), or
/// `.cache/dnd_tools` where the platform has none.
pub open spec fn cache_location(root: Option<Seq<char>>) -> Seq<char> {
    match root {
        Some(r) => r + "/dnd_tools"@,
        None => ".cache/dnd_tools"@,
    }
}

/// The search client's settings: the wiki's address and the cache
/// directory.
#[derive(Debug)]
pub struct DndSearchClient {
    pub base_url: String,
    pub cache_dir: String,
}

/// `dirs::cache_dir`: the user's cache directory as text, when the platform
/// has one (a path that is not valid UTF-8 is converted lossily, since the
/// library holds paths as text). It depends on the operating system and the
/// environment, so nothing is stated of it.
#[verifier::external_body]
fn user_cache_dir() -> (res: Option<String>) {
    dirs::cache_dir().map(|p| p.to_string_lossy().into_owned())
}

impl DndSearchClient {
    /// A client for the wiki that caches pages under the user's cache
    /// directory (`dnd_tools` inside it), or under `.cache/dnd_tools` where
    /// the platform has none.
    pub fn new() -> (res: Self)
        ensures
            res.base_url@ == wiki_base(),
            exists|root: Option<Seq<char>>| res.cache_dir@ == cache_location(root),
    {
        let root = user_cache_dir();
        let ghost seen: Option<Seq<char>> = crate::tui::opt_view(root);
        let dir = match root {
            Some(r) => {
                let mut d = r;
                d.append("/dnd_tools");
                d
            },
            None => String::from_str(".cache/dnd_tools"),
        };
        assert(dir@ == cache_location(seen));
        Self::with_cache_dir(dir)
    }

    /// The same client as [`DndSearchClient::new`]; the refresh flag is
    /// not used.
    pub fn with_cache_refresh(_refresh: bool) -> (res: Self)
        ensures
            res.base_url@ == wiki_base(),
            exists|root: Option<Seq<char>>| res.cache_dir@ == cache_location(root),
    {
        Self::new()
    }

    /// A client for the wiki caching pages in `cache_dir`.
    pub fn with_cache_dir(cache_dir: String) -> (res: Self)
        ensures
            res.base_url@ == wiki_base(),
            res.cache_dir == cache_dir,
    {
        DndSearchClient { base_url: String::from_str("http://dnd5e.wikidot.com"), cache_dir }
    }

    /// The cache file of a page key: in the cache directory, the key with
    /// `:` and `/` as `_`, then `.txt`.
    pub fn get_cache_path(&self, slug: &str) -> (res: String)
        ensures
            res@ == self.cache_dir@ + "/"@ + safe_slug(slug@) + ".txt"@,
    {
        let a = replace_char(slug, ':', "_");
        let b = replace_char(a.as_str(), '/', "_");
        let mut s = self.cache_dir.clone();
        s.append("/");
        s.append(b.as_str());
        s.append(".txt");
        s
    }

    /// The title, address and content of a cache record, or `None`.
    pub fn parse_cached_content(&self, content: &str) -> (res: Option<(String, String, String)>)
        ensures
            match cached_parts(content@) {
                Some((t, u, c)) => res matches Some((a, b, d)) && a@ == t && b@ == u && d@ == c,
                None => res is None,
            },
    {
        proof {
            reveal_strlit("TITLE:");
            reveal_strlit("URL:");
            reveal_strlit("CONTENT:\n");
        }
        let ls = split_lines(content);
        assert(views(ls@).len() == ls@.len());
        if ls.len() < 3 {
            return None;
        }
        assert(views(ls@)[0] == ls@[0]@ && views(ls@)[1] == ls@[1]@);
        if !str_starts_with(ls[0].as_str(), "TITLE:") || !str_starts_with(ls[1].as_str(), "URL:") {
            return None;
        }
        let v = str_chars(content);
        let vl = v.len();
        let pat = str_chars("CONTENT:\n");
        assert(pat@.len() == 9);
        match find_text(&v, &pat) {
            None => None,
            Some(p) => {
                let t0 = str_chars(ls[0].as_str());
                let title = string_from_range(&t0, 6, t0.len());
                let u0 = str_chars(ls[1].as_str());
                let url = string_from_range(&u0, 4, u0.len());
                let body = string_from_range(&v, p + 9, vl);
                assert(title@ =~= ls@[0]@.skip(6));
                assert(url@ =~= ls@[1]@.skip(4));
                assert(body@ =~= content@.skip(p + 9));
                Some((title, url, body))
            },
        }
    }

    /// The addresses to try for `query` among pages of kind `url_prefix`.
    pub fn generate_possible_urls(&self, query: &str, url_prefix: &str) -> (res: Vec<String>)
        ensures
            views(res@) == possible_urls(self.base_url@, query@, url_prefix@),
    {
        let lower = to_lowercase(query);
        let b = replace_char(lower.as_str(), ' ', "-");
        let is_class = str_eq(url_prefix, "class");
        let is_race = str_eq(url_prefix, "race");
        let mut urls: Vec<String> = Vec::new();
        let ghost base = self.base_url@;
        if !is_class && !is_race {
            let mut u = self.base_url.clone();
            u.append("/");
            u.append(url_prefix);
            u.append(":");
            u.append(b.as_str());
            push_line(&mut urls, u);
        }
        let ghost first = views(urls@);
        if is_class || is_race {
            let mut u = self.base_url.clone();
            u.append("/");
            u.append(b.as_str());
            push_line(&mut urls, u);
        }
        let ghost second = views(urls@);
        if str_eq(url_prefix, "equipment") {
            let mut w = self.base_url.clone();
            w.append("/weapon:");
            w.append(b.as_str());
            push_line(&mut urls, w);
            let mut a = self.base_url.clone();
            a.append("/armor:");
            a.append(b.as_str());
            push_line(&mut urls, a);
        }
        assert(views(urls@) =~= possible_urls(self.base_url@, query@, url_prefix@));
        urls
    }

    /// The forms of `query` tried when it is not found as typed.
    #[verifier::spinoff_prover]
    #[verifier::rlimit(30)]
    pub fn generate_query_variations(&self, query: &str) -> (res: Vec<String>)
        requires
            variations_defined(query@),
        ensures
            views(res@) == query_variations(query@),
    {
        let mut v: Vec<String> = Vec::new();
        push_line(&mut v, String::from_str(query));
        push_line(&mut v, replace_char(query, ' ', "-"));
        push_line(&mut v, replace_char(query, ' ', ""));
        let lower = to_lowercase(query);
        let dashed = replace_char(lower.as_str(), ' ', "-");
        push_line(&mut v, lower);
        push_line(&mut v, dashed);
        let ghost head = views(v@);
        let ws = split_words(query);
        if ws.len() > 1 {
            let mut titled: Vec<String> = Vec::new();
            let mut i: usize = 0;
            while i < ws.len()
                invariant
                    views(ws@) == words(query@),
                    variations_defined(query@),
                    words(query@).len() > 1,
                    i <= ws@.len(),
                    views(titled@) == words(query@).take(i as int).map_values(|w: Seq<char>| title_word(w)),
                decreases ws@.len() - i,
            {
                assert(views(ws@)[i as int] == ws@[i as int]@);
                proof {
                    crate::words::lemma_words_nonempty(query@);
                    assert(words(query@)[i as int].len() > 0);
                    assert((words(query@)[i as int][0] as u32) < 128);
                }
                let t = title_case_word(ws[i].as_str());
                let ghost before = views(titled@);
                push_line(&mut titled, t);
                assert(words(query@).take(i + 1).map_values(|w: Seq<char>| title_word(w)) =~= before.push(
                    title_word(words(query@)[i as int]),
                ));
                i = i + 1;
            }
            assert(words(query@).take(ws@.len() as int) =~= words(query@));
            let joined = join_from(&titled, 0, " ");
            proof {
                reveal_strlit(" ");
                assert(" "@ =~= seq![' ']);
                assert(views(titled@).skip(0) =~= views(titled@));
            }
            let dashed_title = replace_char(joined.as_str(), ' ', "-");
            push_line(&mut v, joined);
            push_line(&mut v, dashed_title);
            assert(views(v@) =~= query_variations(query@));
        } else {
            assert(views(v@) =~= query_variations(query@));
        }
        v
    }
}

/// A word capitalised: its first (ASCII) letter in upper case, the rest in
/// lower case.
fn title_case_word(w: &str) -> (res: String)
    requires
        w@.len() > 0,
        (w@[0] as u32) < 128,
    ensures
        res@ == title_word(w@),
{
    let v = str_chars(w);
    let rest = string_from_range(&v, 1, v.len());
    let lower_rest = to_lowercase(rest.as_str());
    let mut s = String::new();
    crate::text::push_char(&mut s, to_ascii_upper(v[0]));
    s.append(lower_rest.as_str());
    assert(rest@ =~= w@.drop_first());
    s
}

/// Strict lexicographic order of texts by character code (the order of
/// `String`'s `Ord`).
pub open spec fn lex_lt(a: Seq<char>, b: Seq<char>) -> bool
    decreases a.len(),
{
    if a.len() == 0 {
        b.len() > 0
    } else if b.len() == 0 {
        false
    } else if a[0] == b[0] {
        lex_lt(a.drop_first(), b.drop_first())
    } else {
        a[0] < b[0]
    }
}

proof fn lemma_lex_irreflexive(a: Seq<char>)
    ensures
        !lex_lt(a, a),
    decreases a.len(),
{
    if a.len() > 0 {
        lemma_lex_irreflexive(a.drop_first());
    }
}

proof fn lemma_lex_transitive(a: Seq<char>, b: Seq<char>, c: Seq<char>)
    requires
        lex_lt(a, b),
        lex_lt(b, c),
    ensures
        lex_lt(a, c),
    decreases a.len(),
{
    if a.len() > 0 && b.len() > 0 && c.len() > 0 {
        if a[0] == b[0] && b[0] == c[0] {
            lemma_lex_transitive(a.drop_first(), b.drop_first(), c.drop_first());
        }
    }
}

proof fn lemma_lex_total(a: Seq<char>, b: Seq<char>)
    ensures
        a == b || lex_lt(a, b) || lex_lt(b, a),
    decreases a.len(),
{
    if a.len() > 0 && b.len() > 0 && a[0] == b[0] {
        lemma_lex_total(a.drop_first(), b.drop_first());
        if a.drop_first() == b.drop_first() {
            assert(a =~= seq![a[0]] + a.drop_first());
            assert(b =~= seq![b[0]] + b.drop_first());
        }
    } else if a.len() == 0 && b.len() == 0 {
        assert(a =~= b);
    }
}

/// Whether `a` comes strictly before `b`.
fn text_less(a: &str, b: &str) -> (r: bool)
    ensures
        r == lex_lt(a@, b@),
{
    let va = str_chars(a);
    let vb = str_chars(b);
    let mut i: usize = 0;
    assert(a@.skip(0) =~= a@ && b@.skip(0) =~= b@);
    while i < va.len() && i < vb.len() && va[i] == vb[i]
        invariant
            va@ == a@,
            vb@ == b@,
            i <= va@.len(),
            i <= vb@.len(),
            lex_lt(a@, b@) == lex_lt(a@.skip(i as int), b@.skip(i as int)),
        decreases va@.len() - i,
    {
        assert(a@.skip(i as int).drop_first() =~= a@.skip(i + 1));
        assert(b@.skip(i as int).drop_first() =~= b@.skip(i + 1));
        i = i + 1;
    }
    if i == va.len() {
        i < vb.len()
    } else if i == vb.len() {
        false
    } else {
        va[i] < vb[i]
    }
}

/// The texts in strictly increasing order (so without repeats).
pub open spec fn strictly_sorted(s: Seq<Seq<char>>) -> bool {
    forall|i: int, j: int| 0 <= i < j < s.len() ==> lex_lt(#[trigger] s[i], #[trigger] s[j])
}

/// The class names offered as suggestions.
pub open spec fn suggestion_classes() -> Seq<Seq<char>> {
    seq![
        "fighter"@, "wizard"@, "cleric"@, "rogue"@, "ranger"@, "paladin"@, "barbarian"@, "bard"@, "druid"@,
        "monk"@, "sorcerer"@, "warlock"@,
    ]
}

/// The names among `cs` that begin with `q` or that `q` begins with.
pub open spec fn prefix_related(cs: Seq<Seq<char>>, q: Seq<char>) -> Seq<Seq<char>>
    decreases cs.len(),
{
    if cs.len() == 0 {
        seq![]
    } else {
        prefix_related(cs.drop_last(), q) + if starts_with(cs.last(), q) || starts_with(q, cs.last()) {
            seq![cs.last()]
        } else {
            seq![]
        }
    }
}

/// The number of bytes of a text in UTF-8 (as `str::len` reports it).
pub open spec fn utf8_len(s: Seq<char>) -> usize {
    encode_utf8(s).len() as usize
}

/// The suggestions offered for a lower-case query before sorting: fire,
/// healing and light spells whose theme the query touches, and for a short
/// query (at most 8 bytes) the classes it starts or is started by.
pub open spec fn suggestion_candidates(q: Seq<char>) -> Seq<Seq<char>> {
    (if contains_text(q, "fire"@) || starts_with("fireball"@, q) || starts_with("fire"@, q) {
        seq!["fireball"@, "fire-bolt"@, "burning-hands"@]
    } else {
        seq![]
    }) + (if contains_text(q, "heal"@) || starts_with("heal"@, q) || starts_with("healing"@, q) {
        seq!["cure-wounds"@, "healing-word"@, "heal"@]
    } else {
        seq![]
    }) + (if contains_text(q, "light"@) || starts_with("light"@, q) || starts_with("lightning"@, q) {
        seq!["light"@, "dancing-lights"@, "lightning-bolt"@]
    } else {
        seq![]
    }) + if utf8_len(q) <= 8 {
        prefix_related(suggestion_classes(), q)
    } else {
        seq![]
    }
}

/// `res` is the first five (or fewer) of the candidates' distinct texts in
/// increasing order.
pub open spec fn first_five_sorted(cands: Seq<Seq<char>>, res: Seq<Seq<char>>) -> bool {
    exists|all: Seq<Seq<char>>|
        #[trigger] strictly_sorted(all) && all.to_set() == cands.to_set() && res == all.take(
            if all.len() < 5 { all.len() as int } else { 5 },
        )
}

proof fn lemma_push_to_set(s: Seq<Seq<char>>, x: Seq<char>)
    ensures
        s.push(x).to_set() == s.to_set().insert(x),
{
    assert forall|y: Seq<char>| s.push(x).contains(y) <==> s.to_set().insert(x).contains(y) by {
        if s.push(x).contains(y) {
            let i = choose|i: int| 0 <= i < s.push(x).len() && s.push(x)[i] == y;
            if i < s.len() {
                assert(s[i] == y);
            }
        }
        if s.contains(y) {
            let i = choose|i: int| 0 <= i < s.len() && s[i] == y;
            assert(s.push(x)[i] == y);
        }
        if y == x {
            assert(s.push(x)[s.len() as int] == x);
        }
    }
    assert(s.push(x).to_set() =~= s.to_set().insert(x));
}

/// Inserts `x` into a strictly sorted list unless it is already there.
fn insert_sorted(v: &mut Vec<String>, x: String)
    requires
        strictly_sorted(views(old(v)@)),
    ensures
        strictly_sorted(views(final(v)@)),
        views(final(v)@).to_set() == views(old(v)@).to_set().insert(x@),
{
    let n = v.len();
    let mut k: usize = 0;
    while k < n && text_less(v[k].as_str(), x.as_str())
        invariant
            n == v@.len(),
            k <= n,
            strictly_sorted(views(v@)),
            forall|m: int| 0 <= m < k ==> lex_lt(#[trigger] views(v@)[m], x@),
        decreases n - k,
    {
        assert(views(v@)[k as int] == v@[k as int]@);
        k = k + 1;
    }
    let ghost s = views(v@);
    if k < n && crate::text::str_eq(v[k].as_str(), x.as_str()) {
        assert(s[k as int] == v@[k as int]@);
        assert(s.to_set().insert(x@) =~= s.to_set());
        return;
    }
    proof {
        if k < n {
            assert(s[k as int] == v@[k as int]@);
            lemma_lex_total(s[k as int], x@);
            assert forall|m: int| k <= m < n implies lex_lt(x@, #[trigger] s[m]) by {
                if m > k {
                    lemma_lex_transitive(x@, s[k as int], s[m]);
                }
            }
        }
    }
    v.insert(k, x);
    let ghost t = views(v@);
    assert(t =~= s.insert(k as int, x@));
    assert forall|i: int, j: int| 0 <= i < j < t.len() implies lex_lt(#[trigger] t[i], #[trigger] t[j]) by {
        if j < k {
        } else if i < k && j == k {
        } else if i < k && j > k {
            assert(t[j] == s[j - 1]);
        } else if i == k {
            assert(t[j] == s[j - 1]);
        } else {
            assert(t[i] == s[i - 1] && t[j] == s[j - 1]);
        }
    }
    assert(t.to_set() =~= s.to_set().insert(x@)) by {
        assert forall|y: Seq<char>| t.to_set().contains(y) <==> s.to_set().insert(x@).contains(y) by {
            if t.to_set().contains(y) {
                let i = choose|i: int| 0 <= i < t.len() && t[i] == y;
                if i < k {
                    assert(s[i] == y);
                } else if i > k {
                    assert(s[i - 1] == y);
                }
            }
            if s.to_set().contains(y) {
                let i = choose|i: int| 0 <= i < s.len() && s[i] == y;
                if i < k {
                    assert(t[i] == y);
                } else {
                    assert(t[i + 1] == y);
                }
            }
            if y == x@ {
                assert(t[k as int] == y);
            }
        }
    }
}

fn push_if(v: &mut Vec<String>, cond: bool, items: &[&str]) -> (res: ())
    ensures
        views(final(v)@) == views(old(v)@) + if cond {
            items@.map_values(|s: &str| s@)
        } else {
            seq![]
        },
{
    let ghost start = views(v@);
    if cond {
        let mut i: usize = 0;
        while i < items.len()
            invariant
                i <= items@.len(),
                views(v@) == start + items@.map_values(|s: &str| s@).take(i as int),
            decreases items@.len() - i,
        {
            push_line(v, String::from_str(items[i]));
            assert(items@.map_values(|s: &str| s@).take(i + 1) =~= items@.map_values(|s: &str| s@).take(
                i as int,
            ).push(items@[i as int]@));
            i = i + 1;
        }
        assert(items@.map_values(|s: &str| s@).take(items@.len() as int) =~= items@.map_values(|s: &str| s@));
    } else {
        assert(start + Seq::<Seq<char>>::empty() =~= start);
    }
}

impl DndSearchClient {
    /// Suggestions for a query that found nothing: spells on a theme the
    /// query touches and classes it abbreviates, sorted, without repeats, at
    /// most five. The category does not narrow them.
    pub fn get_suggestions(&self, query: &str, _category: Option<SearchCategory>) -> (res: Vec<String>)
        ensures
            first_five_sorted(suggestion_candidates(lowercase(query@)), views(res@)),
    {
        let ql = to_lowercase(query);
        let q = ql.as_str();
        let qv = str_chars(q);
        let mut cands: Vec<String> = Vec::new();
        let fire = chars_contain(&qv, &str_chars("fire")) || str_starts_with("fireball", q) || str_starts_with(
            "fire",
            q,
        );
        push_if(&mut cands, fire, &["fireball", "fire-bolt", "burning-hands"]);
        let heal = chars_contain(&qv, &str_chars("heal")) || str_starts_with("heal", q) || str_starts_with(
            "healing",
            q,
        );
        push_if(&mut cands, heal, &["cure-wounds", "healing-word", "heal"]);
        let light = chars_contain(&qv, &str_chars("light")) || str_starts_with("light", q) || str_starts_with(
            "lightning",
            q,
        );
        push_if(&mut cands, light, &["light", "dancing-lights", "lightning-bolt"]);
        let ghost themed = views(cands@);
        if q.len() <= 8 {
            let classes: [&str; 12] = [
                "fighter", "wizard", "cleric", "rogue", "ranger", "paladin", "barbarian", "bard", "druid", "monk",
                "sorcerer", "warlock",
            ];
            assert(classes@.map_values(|s: &str| s@) =~= suggestion_classes());
            let mut i: usize = 0;
            while i < 12
                invariant
                    i <= 12,
                    classes@.map_values(|s: &str| s@) == suggestion_classes(),
                    views(cands@) == themed + prefix_related(suggestion_classes().take(i as int), q@),
                decreases 12 - i,
            {
                let c = classes[i];
                assert(suggestion_classes().take(i + 1).drop_last() =~= suggestion_classes().take(i as int));
                assert(c@ == suggestion_classes()[i as int]);
                if str_starts_with(c, q) || str_starts_with(q, c) {
                    push_line(&mut cands, String::from_str(c));
                }
                assert(views(cands@) =~= themed + prefix_related(suggestion_classes().take(i + 1), q@));
                i = i + 1;
            }
            assert(suggestion_classes().take(12) =~= suggestion_classes());
        } else {
            assert(views(cands@) =~= themed + Seq::<Seq<char>>::empty());
        }
        assert(views(cands@) =~= suggestion_candidates(ql@));
        let ghost all_cands = views(cands@);
        let mut sorted: Vec<String> = Vec::new();
        let mut j: usize = 0;
        while j < cands.len()
            invariant
                j <= cands@.len(),
                views(cands@) == all_cands,
                strictly_sorted(views(sorted@)),
                views(sorted@).to_set() == all_cands.take(j as int).to_set(),
            decreases cands@.len() - j,
        {
            let ghost before = views(sorted@).to_set();
            insert_sorted(&mut sorted, cands[j].clone());
            assert(all_cands.take(j + 1) =~= all_cands.take(j as int).push(all_cands[j as int]));
            proof {
                lemma_push_to_set(all_cands.take(j as int), all_cands[j as int]);
            }
            j = j + 1;
        }
        assert(all_cands.take(cands@.len() as int) =~= all_cands);
        let ghost full = views(sorted@);
        sorted.truncate(5);
        assert(views(sorted@) =~= full.take(if full.len() < 5 { full.len() as int } else { 5 }));
        assert(first_five_sorted(all_cands, views(sorted@)));
        sorted
    }
}

/// What `html2text` renders from a page at 80 columns as plain text
/// (`None` when the page cannot be laid out in that width).
pub uninterp spec fn html_plain_text(html: Seq<char>) -> Option<Seq<char>>;

/// `html2text::config::plain().string_from_read(html, 80)`: the page as
/// plain text wrapped at 80 columns. The crate's own layout rules decide the
/// text; nothing is stated of it but that it depends on the page alone.
#[verifier::external_body]
fn render_plain_text(html: &str) -> (res: Option<String>)
    ensures
        crate::tui::opt_view(res) == html_plain_text(html@),
{
    html2text::config::plain().string_from_read(html.as_bytes(), 80).ok()
}

/// The elements of an HTML fragment that carry text (`p`, `div`, `span`,
/// `em`, `strong`, `h1`..`h6`, `ul`, `li`, `table`, `tr`, `td`), in document
/// order: each tag's name and its text pieces.
pub uninterp spec fn fragment_elements(html: Seq<char>) -> Seq<(Seq<char>, Seq<Seq<char>>)>;

/// `scraper`: parses the fragment and selects its text-carrying elements,
/// giving each one's tag name and text nodes. Which elements come out, and
/// in what order, is the crate's HTML parsing; it is not restated.
#[verifier::external_body]
fn select_fragment_elements(html: &str) -> (res: Vec<(String, Vec<String>)>)
    ensures
        res@.map_values(|p: (String, Vec<String>)| (p.0@, views(p.1@))) == fragment_elements(html@),
{
    let doc = scraper::Html::parse_fragment(html);
    let sel = scraper::Selector::parse("p, div, span, em, strong, h1, h2, h3, h4, h5, h6, ul, li, table, tr, td")
        .unwrap();
    let mut out = Vec::new();
    for e in doc.select(&sel) {
        out.push((e.value().name().to_string(), e.text().map(|t| t.to_string()).collect()));
    }
    out
}

/// The inner HTML of a document's `#page-content` element, if it has one.
pub uninterp spec fn page_content_html(document: Seq<char>) -> Option<Seq<char>>;

/// `scraper`: parses the document and gives the inner HTML of its first
/// `#page-content` element. The parsing is the crate's; not restated.
#[verifier::external_body]
fn select_page_content(document: &str) -> (res: Option<String>)
    ensures
        crate::tui::opt_view(res) == page_content_html(document@),
{
    let doc = scraper::Html::parse_document(document);
    let sel = scraper::Selector::parse("#page-content").unwrap();
    doc.select(&sel).next().map(|e| e.inner_html())
}

/// The text nodes of a document's first element with the tag `tag`, if any.
pub uninterp spec fn first_element_texts(document: Seq<char>, tag: Seq<char>) -> Option<Seq<Seq<char>>>;

/// `scraper`: parses the document and gives the text nodes of its first
/// `title` or `h1` element. The parsing is the crate's; not restated.
#[verifier::external_body]
fn select_first_texts(document: &str, tag: &str) -> (res: Option<Vec<String>>)
    requires
        tag@ == "title"@ || tag@ == "h1"@,
    ensures
        match res {
            Some(v) => first_element_texts(document@, tag@) == Some(views(v@)),
            None => first_element_texts(document@, tag@) is None,
        },
{
    let doc = scraper::Html::parse_document(document);
    let sel = scraper::Selector::parse(tag).unwrap();
    doc.select(&sel).next().map(|e| e.text().map(|t| t.to_string()).collect())
}

/// `text` with every match of the regular expression `pattern` replaced by
/// `with`.
pub uninterp spec fn regex_replaced(pattern: Seq<char>, text: Seq<char>, with: Seq<char>) -> Seq<char>;

/// `regex::Regex::new(pattern).replace_all(text, with)` for the three
/// patterns the page cleaning uses (runs of three or more newlines, tags,
/// runs of whitespace). The matching is the crate's; not restated.
#[verifier::external_body]
fn replace_all_matches(pattern: &str, text: &str, with: &str) -> (res: String)
    requires
        pattern@ == "\n{3,}"@ || pattern@ == "<[^>]+>"@ || pattern@ == "\\s+"@,
    ensures
        res@ == regex_replaced(pattern@, text@, with@),
{
    regex::Regex::new(pattern).unwrap().replace_all(text, with).to_string()
}

/// `char::to_uppercase` followed by taking its first character.
pub uninterp spec fn upper_first_char(c: char) -> char;

/// The first character of `char::to_uppercase` (the character itself when
/// the mapping is empty): for ASCII, the ASCII upper case.
#[verifier::external_body]
fn first_of_uppercase(c: char) -> (res: char)
    ensures
        res == upper_first_char(c),
        (c as u32) < 128 ==> res == ascii_upper(c),
{
    c.to_uppercase().next().unwrap_or(c)
}

/// The trimmed lines of `ls` that are not empty and longer than `min`
/// bytes.
pub open spec fn kept_lines(ls: Seq<Seq<char>>, min: nat) -> Seq<Seq<char>>
    decreases ls.len(),
{
    if ls.len() == 0 {
        seq![]
    } else {
        let t = trim(ls.last());
        kept_lines(ls.drop_last(), min) + if t.len() > 0 && utf8_len(t) > min {
            seq![t]
        } else {
            seq![]
        }
    }
}

/// The text with each line trimmed and lines of at most `min` bytes (the
/// empty ones among them) dropped.
pub open spec fn cleaned_text(s: Seq<char>, min: nat) -> Seq<char> {
    join_with(kept_lines(lines(s), min), "\n"@)
}

/// How an element's text is written out in the fallback rendering.
pub open spec fn element_piece(tag: Seq<char>, t: Seq<char>) -> Seq<char> {
    if tag == "h1"@ || tag == "h2"@ || tag == "h3"@ || tag == "h4"@ || tag == "h5"@ || tag == "h6"@ {
        "\n"@ + uppercase(t) + "\n"@
    } else if tag == "p"@ || tag == "div"@ {
        t + "\n"@
    } else if tag == "li"@ {
        "• "@ + t + "\n"@
    } else if tag == "em"@ {
        "*"@ + t + "*"@
    } else if tag == "strong"@ {
        "**"@ + t + "**"@
    } else if tag == "td"@ {
        t + " | "@
    } else {
        t + " "@
    }
}

/// The fallback rendering of a fragment's elements, skipping those whose
/// text (pieces joined with spaces, trimmed) is empty.
pub open spec fn elements_text(es: Seq<(Seq<char>, Seq<Seq<char>>)>) -> Seq<char>
    decreases es.len(),
{
    if es.len() == 0 {
        seq![]
    } else {
        let t = trim(join_with(es.last().1, " "@));
        elements_text(es.drop_last()) + if t.len() == 0 {
            seq![]
        } else {
            element_piece(es.last().0, t)
        }
    }
}

/// The readable text of a page's HTML: the plain-text rendering cleaned of
/// short lines; failing that, the text of its elements cleaned the same way
/// with runs of blank lines collapsed; failing that, the HTML with its tags
/// and runs of whitespace replaced by single spaces.
pub open spec fn readable_text(html: Seq<char>) -> Seq<char> {
    let first = match html_plain_text(html) {
        Some(t) => cleaned_text(t, 2),
        None => seq![],
    };
    if trim(first).len() > 0 {
        first
    } else {
        let second = regex_replaced("\n{3,}"@, cleaned_text(elements_text(fragment_elements(html)), 3), "\n\n"@);
        if trim(second).len() == 0 {
            trim(regex_replaced("\\s+"@, regex_replaced("<[^>]+>"@, html, " "@), " "@))
        } else {
            second
        }
    }
}

/// The main text of a page, or why there is none.
pub open spec fn page_text(document: Seq<char>) -> Result<Seq<char>, Seq<char>> {
    match page_content_html(document) {
        None => Err("Could not find page content"@),
        Some(h) => if trim(readable_text(h)).len() == 0 {
            Err("Page content is empty or could not be parsed"@)
        } else {
            Ok(readable_text(h))
        },
    }
}

/// A word with its first character upper-cased as `char::to_uppercase`
/// gives it first.
pub open spec fn capitalised(w: Seq<char>) -> Seq<char> {
    if w.len() == 0 {
        w
    } else {
        seq![upper_first_char(w[0])] + w.drop_first()
    }
}

/// A page's title: the document title before ` - ` when that part is not
/// blank; else the first `h1` heading, trimmed, when it is not empty; else
/// the query with each word capitalised.
pub open spec fn page_title(document: Seq<char>, fallback: Seq<char>) -> Seq<char> {
    let from_title = match first_element_texts(document, "title"@) {
        Some(ts) => {
            let t = join_with(ts, seq![]);
            match find_from(t, " - "@, 0) {
                Some(p) => if trim(t.take(p)).len() > 0 {
                    Some(trim(t.take(p)))
                } else {
                    None
                },
                None => None,
            }
        },
        None => None,
    };
    let from_h1 = match first_element_texts(document, "h1"@) {
        Some(ts) => if join_with(ts, seq![]).len() > 0 {
            Some(trim(join_with(ts, seq![])))
        } else {
            None
        },
        None => None,
    };
    match from_title {
        Some(t) => t,
        None => match from_h1 {
            Some(h) => h,
            None => join_with(words(fallback).map_values(|w: Seq<char>| capitalised(w)), seq![' ']),
        },
    }
}

/// All the pieces joined with `sep`.
fn join_all(v: &Vec<String>, sep: &str) -> (res: String)
    ensures
        res@ == join_with(views(v@), sep@),
{
    let r = join_from(v, 0, sep);
    assert(views(v@).skip(0) =~= views(v@));
    r
}

/// The text with its lines trimmed and those of at most `min` bytes dropped.
fn clean_lines(s: &str, min: usize) -> (res: String)
    ensures
        res@ == cleaned_text(s@, min as nat),
{
    let ls = split_lines(s);
    let mut kept: Vec<String> = Vec::new();
    let mut i: usize = 0;
    while i < ls.len()
        invariant
            i <= ls@.len(),
            views(kept@) == kept_lines(views(ls@).take(i as int), min as nat),
        decreases ls@.len() - i,
    {
        assert(views(ls@).take(i + 1).drop_last() =~= views(ls@).take(i as int));
        assert(views(ls@).take(i + 1).last() == ls@[i as int]@);
        let t = trimmed(ls[i].as_str());
        let ghost before = views(kept@);
        if !t.as_str().is_empty() && t.as_str().len() > min {
            push_line(&mut kept, t);
        } else {
            assert(before + Seq::<Seq<char>>::empty() =~= before);
        }
        i = i + 1;
    }
    assert(views(ls@).take(ls@.len() as int) =~= views(ls@));
    proof {
        reveal_strlit("\n");
    }
    join_all(&kept, "\n")
}

/// How one element's text is written out.
fn piece_of(tag: &str, t: &str) -> (res: String)
    ensures
        res@ == element_piece(tag@, t@),
{
    if str_eq(tag, "h1") || str_eq(tag, "h2") || str_eq(tag, "h3") || str_eq(tag, "h4") || str_eq(tag, "h5")
        || str_eq(tag, "h6") {
        let mut s = String::from_str("\n");
        let up = crate::text::to_uppercase(t);
        s.append(up.as_str());
        s.append("\n");
        s
    } else if str_eq(tag, "p") || str_eq(tag, "div") {
        let mut s = String::from_str(t);
        s.append("\n");
        s
    } else if str_eq(tag, "li") {
        let mut s = String::from_str("• ");
        s.append(t);
        s.append("\n");
        s
    } else if str_eq(tag, "em") {
        let mut s = String::from_str("*");
        s.append(t);
        s.append("*");
        s
    } else if str_eq(tag, "strong") {
        let mut s = String::from_str("**");
        s.append(t);
        s.append("**");
        s
    } else if str_eq(tag, "td") {
        let mut s = String::from_str(t);
        s.append(" | ");
        s
    } else {
        let mut s = String::from_str(t);
        s.append(" ");
        s
    }
}

/// The fallback rendering of a fragment's text-carrying elements.
fn render_elements(html: &str) -> (res: String)
    ensures
        res@ == elements_text(fragment_elements(html@)),
{
    let es = select_fragment_elements(html);
    let ghost all = fragment_elements(html@);
    let mut out = String::new();
    let mut i: usize = 0;
    while i < es.len()
        invariant
            i <= es@.len(),
            es@.map_values(|p: (String, Vec<String>)| (p.0@, views(p.1@))) == all,
            out@ == elements_text(all.take(i as int)),
        decreases es@.len() - i,
    {
        assert(all.take(i + 1).drop_last() =~= all.take(i as int));
        assert(all.take(i + 1).last() == all[i as int]);
        assert(all[i as int] == (es@[i as int].0@, views(es@[i as int].1@)));
        let joined = join_all(&es[i].1, " ");
        let t = trimmed(joined.as_str());
        if !t.as_str().is_empty() {
            let p = piece_of(es[i].0.as_str(), t.as_str());
            out.append(p.as_str());
        } else {
            assert(out@ + Seq::<char>::empty() =~= out@);
        }
        i = i + 1;
    }
    assert(all.take(es@.len() as int) =~= all);
    out
}

impl DndSearchClient {
    /// Turns a page's HTML into readable text (see [`readable_text`]).
    pub fn html_to_readable_text(&self, html: &str) -> (res: String)
        ensures
            res@ == readable_text(html@),
    {
        proof {
            reveal_strlit("\n{3,}");
            reveal_strlit("<[^>]+>");
            reveal_strlit("\\s+");
        }
        let first = match render_plain_text(html) {
            Some(t) => clean_lines(t.as_str(), 2),
            None => String::new(),
        };
        let ft = trimmed(first.as_str());
        if !ft.as_str().is_empty() {
            return first;
        }
        let rendered = render_elements(html);
        let cleaned = clean_lines(rendered.as_str(), 3);
        let second = replace_all_matches("\n{3,}", cleaned.as_str(), "\n\n");
        let st = trimmed(second.as_str());
        if st.as_str().is_empty() {
            let untagged = replace_all_matches("<[^>]+>", html, " ");
            let spaced = replace_all_matches("\\s+", untagged.as_str(), " ");
            trimmed(spaced.as_str())
        } else {
            second
        }
    }

    /// The readable text of a page's main content (`#page-content`), or
    /// why there is none.
    pub fn extract_page_content(&self, document: &str) -> (res: Result<String, String>)
        ensures
            match page_text(document@) {
                Ok(t) => res matches Ok(s) && s@ == t,
                Err(m) => res matches Err(e) && e@ == m,
            },
    {
        match select_page_content(document) {
            None => Err(String::from_str("Could not find page content")),
            Some(inner) => {
                let text = self.html_to_readable_text(inner.as_str());
                let t = trimmed(text.as_str());
                if t.as_str().is_empty() {
                    Err(String::from_str("Page content is empty or could not be parsed"))
                } else {
                    Ok(text)
                }
            },
        }
    }

    /// The title of a page (see [`page_title`]); `fallback` is the query.
    pub fn extract_page_title(&self, document: &str, fallback: &str) -> (res: String)
        ensures
            res@ == page_title(document@, fallback@),
    {
        proof {
            reveal_strlit(" - ");
            reveal_strlit("");
            assert(""@ =~= Seq::<char>::empty());
            lemma_space();
        }
        let from_title: Option<String> = match select_first_texts(document, "title") {
            Some(ts) => {
                let t = join_all(&ts, "");
                let tv = str_chars(t.as_str());
                let pat = str_chars(" - ");
                match find_text(&tv, &pat) {
                    Some(p) => {
                        let head = string_from_range(&tv, 0, p);
                        assert(head@ =~= t@.take(p as int));
                        let h = trimmed(head.as_str());
                        if !h.as_str().is_empty() {
                            Some(h)
                        } else {
                            None
                        }
                    },
                    None => None,
                }
            },
            None => None,
        };
        if let Some(t) = from_title {
            return t;
        }
        let from_h1: Option<String> = match select_first_texts(document, "h1") {
            Some(ts) => {
                let h = join_all(&ts, "");
                if !h.as_str().is_empty() {
                    Some(trimmed(h.as_str()))
                } else {
                    None
                }
            },
            None => None,
        };
        if let Some(h) = from_h1 {
            return h;
        }
        let ws = split_words(fallback);
        let mut caps: Vec<String> = Vec::new();
        let mut i: usize = 0;
        while i < ws.len()
            invariant
                views(ws@) == words(fallback@),
                i <= ws@.len(),
                views(caps@) == words(fallback@).take(i as int).map_values(|w: Seq<char>| capitalised(w)),
            decreases ws@.len() - i,
        {
            assert(views(ws@)[i as int] == ws@[i as int]@);
            let v = str_chars(ws[i].as_str());
            let mut s = String::new();
            if v.len() > 0 {
                crate::text::push_char(&mut s, first_of_uppercase(v[0]));
                let rest = string_from_range(&v, 1, v.len());
                s.append(rest.as_str());
                assert(rest@ =~= ws@[i as int]@.drop_first());
            } else {
                assert(ws@[i as int]@ =~= Seq::<char>::empty());
            }
            let ghost before = views(caps@);
            push_line(&mut caps, s);
            assert(words(fallback@).take(i + 1).map_values(|w: Seq<char>| capitalised(w)) =~= before.push(
                capitalised(words(fallback@)[i as int]),
            ));
            i = i + 1;
        }
        assert(words(fallback@).take(ws@.len() as int) =~= words(fallback@));
        join_all(&caps, " ")
    }
}

} // verus!
