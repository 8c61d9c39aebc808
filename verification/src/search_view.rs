//! How a found wiki page is shown in the line-by-line interface: a framed
//! header, the content laid out line by line, and the licence notice.
use vstd::prelude::*;
use crate::search::{SearchResult, utf8_len};
use crate::text::{trim, trimmed, uppercase, to_uppercase, is_whitespace, char_is_whitespace, str_chars, all_ascii};
use crate::words::{words, views, split_words, lines, split_lines, push_line, push_all, join_with};

verus! {

/// `char::is_alphanumeric`: Unicode letters and numbers.
pub uninterp spec fn alphanumeric(c: char) -> bool;

/// `char::is_alphanumeric`. Which characters count follows Unicode's
/// tables, which are not restated here; for ASCII characters they are the
/// letters and digits, as the standard library documents.
#[verifier::external_body]
fn char_is_alphanumeric(c: char) -> (r: bool)
    ensures
        r == alphanumeric(c),
        (c as u32) < 128 ==> r == (('a' <= c <= 'z') || ('A' <= c <= 'Z') || ('0' <= c <= '9')),
{
    c.is_alphanumeric()
}

/// `n` spaces.
pub open spec fn spaces(n: int) -> Seq<char> {
    Seq::new(n as nat, |i: int| ' ')
}

/// A page can be framed: its type and name, and its address, leave room
/// in the frame's lines.
pub open spec fn frame_fits(r: SearchResult) -> bool {
    &&& utf8_len(r.page.content_type@) + utf8_len(r.page.name@) + 3 <= 69
    &&& utf8_len(r.page.url@) + 8 <= 70
}

/// A line that reads as a heading: under 50 bytes, and ending in `:` or
/// made of letters, digits and spaces in at most four words.
pub open spec fn heading(t: Seq<char>) -> bool {
    &&& utf8_len(t) < 50
    &&& (t.len() > 0 && t.last() == ':') || ((forall|i: int| 0 <= i < t.len() ==> alphanumeric(#[trigger] t[i]) || is_whitespace(t[i]))
        && words(t).len() <= 4)
}

/// A line that reads as a statistic: exactly one `:`, under 60 bytes.
pub open spec fn stat_line(t: Seq<char>) -> bool {
    t.filter(|c: char| c == ':').len() == 1 && utf8_len(t) < 60
}

/// Words laid out in lines of at most 73 bytes (a longer word stands
/// alone): the finished lines and the line being filled.
pub open spec fn wrap_state(ws: Seq<Seq<char>>) -> (Seq<Seq<char>>, Seq<char>)
    decreases ws.len(),
{
    if ws.len() == 0 {
        (seq![], seq![])
    } else {
        let (done, cur) = wrap_state(ws.drop_last());
        let w = ws.last();
        let flush = utf8_len(cur) + utf8_len(w) + 1 > 73 && cur.len() > 0;
        let done2 = if flush { done.push(cur) } else { done };
        let cur2 = if flush { seq![] } else { cur };
        (done2, if cur2.len() > 0 { cur2 + seq![' '] + w } else { w })
    }
}

/// A paragraph wrapped into indented lines.
pub open spec fn wrapped(t: Seq<char>) -> Seq<Seq<char>> {
    let (done, cur) = wrap_state(words(t));
    let all = if cur.len() > 0 { done.push(cur) } else { done };
    all.map_values(|l: Seq<char>| "  "@ + l)
}

/// A rule of fifty `─`.
pub open spec fn rule50() -> Seq<char> {
    "──────────────────────────────────────────────────"@
}

/// How one trimmed content line is shown: nothing when empty; a heading in
/// capitals over a rule; a statistic marked as such; else wrapped text.
pub open spec fn shown_line(t: Seq<char>) -> Seq<Seq<char>> {
    if t.len() == 0 {
        seq![]
    } else if heading(t) {
        seq!["🔸 "@ + uppercase(t), rule50()]
    } else if stat_line(t) {
        seq!["  📊 "@ + t]
    } else {
        wrapped(t)
    }
}

/// How the content lines are shown, in order.
pub open spec fn shown_content(ls: Seq<Seq<char>>) -> Seq<Seq<char>>
    decreases ls.len(),
{
    if ls.len() == 0 {
        seq![]
    } else {
        shown_content(ls.drop_last()) + shown_line(trim(ls.last()))
    }
}

/// The framed header of a page.
pub open spec fn page_header(r: SearchResult) -> Seq<Seq<char>> {
    let p = r.page;
    seq![
        ""@,
        "╔═══════════════════════════════════════════════════════════════════════════════╗"@,
        "║ "@ + uppercase(p.content_type@) + " - "@ + p.name@ + spaces(
            69 - (utf8_len(p.content_type@) + utf8_len(p.name@) + 3),
        ) + " ║"@,
        "╠═══════════════════════════════════════════════════════════════════════════════╣"@,
        "║ Source: "@ + p.url@ + " "@ + spaces(70 - (utf8_len(p.url@) + 8)) + " ║"@,
        "╚═══════════════════════════════════════════════════════════════════════════════╝"@,
        ""@,
    ]
}

/// The licence notice under a page.
pub open spec fn page_footer() -> Seq<Seq<char>> {
    seq![
        ""@,
        "────────────────────────────────────────────────────────────────────────────────"@,
        "📄 Source: dnd5e.wikidot.com | CC BY-SA 3.0"@,
        "🔗 https://creativecommons.org/licenses/by-sa/3.0/"@,
        "ℹ️  Content used under Creative Commons Attribution-ShareAlike 3.0 license"@,
        "   for personal/educational use only."@,
        ""@,
    ]
}

/// All the lines that show a page.
pub open spec fn page_display(r: SearchResult) -> Seq<Seq<char>> {
    page_header(r) + shown_content(lines(r.page.content@)) + page_footer()
}

fn push_spaces(s: &mut String, n: usize)
    ensures
        final(s)@ == old(s)@ + spaces(n as int),
{
    let mut i: usize = 0;
    while i < n
        invariant
            i <= n,
            s@ == old(s)@ + spaces(i as int),
        decreases n - i,
    {
        let ghost before = s@;
        s.append(" ");
        proof {
            reveal_strlit(" ");
        }
        assert(s@ =~= old(s)@ + spaces(i + 1));
        i = i + 1;
    }
}

/// Whether a trimmed line reads as a heading (see `heading`).
fn is_heading(t: &str) -> (r: bool)
    ensures
        r == heading(t@),
{
    if t.len() >= 50 {
        return false;
    }
    let cs = str_chars(t);
    let n = cs.len();
    if n > 0 && cs[n - 1] == ':' {
        return true;
    }
    let mut i: usize = 0;
    while i < n
        invariant
            n == t@.len(),
            cs@ == t@,
            i <= n,
            forall|k: int| 0 <= k < i ==> alphanumeric(#[trigger] t@[k]) || is_whitespace(t@[k]),
            n == 0 || t@.last() != ':',
            utf8_len(t@) < 50,
        decreases n - i,
    {
        if !(char_is_alphanumeric(cs[i]) || char_is_whitespace(cs[i])) {
            assert(!(alphanumeric(t@[i as int]) || is_whitespace(t@[i as int])));
            return false;
        }
        i = i + 1;
    }
    let ws = split_words(t);
    assert(views(ws@).len() == ws@.len());
    ws.len() <= 4
}

/// Whether a trimmed line reads as a statistic (see `stat_line`).
fn is_stat_line(t: &str) -> (r: bool)
    ensures
        r == stat_line(t@),
{
    let cs = str_chars(t);
    let ghost pred = |c: char| c == ':';
    let mut count: usize = 0;
    let mut i: usize = 0;
    while i < cs.len()
        invariant
            cs@ == t@,
            i <= cs@.len(),
            count as int == cs@.take(i as int).filter(pred).len(),
            count <= i,
            pred == (|c: char| c == ':'),
        decreases cs@.len() - i,
    {
        proof {
            reveal(Seq::filter);
            assert(cs@.take(i + 1).drop_last() =~= cs@.take(i as int));
        }
        if cs[i] == ':' {
            count = count + 1;
        }
        i = i + 1;
    }
    assert(cs@.take(i as int) =~= t@);
    count == 1 && t.len() < 60
}

/// A paragraph wrapped into indented lines (see `wrapped`).
fn wrap_lines(t: &str) -> (res: Vec<String>)
    ensures
        views(res@) == wrapped(t@),
{
    let ws = split_words(t);
    let ghost wv = views(ws@);
    assert(wv.len() == ws@.len());
    proof {
        crate::words::lemma_words_nonempty(t@);
    }
    let mut done: Vec<String> = Vec::new();
    let mut cur = String::new();
    let mut i: usize = 0;
    while i < ws.len()
        invariant
            i <= ws@.len(),
            wv == views(ws@),
            wv == words(t@),
            wv.len() == ws@.len(),
            (views(done@), cur@) == wrap_state(wv.take(i as int)),
        decreases ws@.len() - i,
    {
        assert(wv.take(i + 1).drop_last() =~= wv.take(i as int));
        assert(wv.take(i + 1).last() == ws@[i as int]@);
        let w = ws[i].as_str();
        let ghost before_done = views(done@);
        let ghost before_cur = cur@;
        let over = if w.len() > 72 { true } else { cur.as_str().len() > 72 - w.len() };
        if over && cur.unicode_len() > 0 {
            let mut fresh = String::new();
            std::mem::swap(&mut fresh, &mut cur);
            done.push(fresh);
            assert(views(done@) =~= before_done.push(before_cur));
            proof {
                assert(cur@ =~= Seq::<char>::empty());
            }
        }
        if cur.unicode_len() > 0 {
            cur.append(" ");
            proof {
                reveal_strlit(" ");
            }
        }
        cur.append(w);
        assert(cur@ =~= (if before_cur.len() > 0 && !(utf8_len(before_cur) + utf8_len(w@) + 1 > 73 && before_cur.len() > 0) {
            before_cur + seq![' '] + w@
        } else {
            w@
        }));
        i = i + 1;
    }
    assert(wv.take(i as int) =~= wv);
    let ghost all_done = views(done@);
    let ghost last = cur@;
    if cur.unicode_len() > 0 {
        done.push(cur);
    }
    let ghost all = views(done@);
    assert(all =~= (if last.len() > 0 { all_done.push(last) } else { all_done }));
    let mut out: Vec<String> = Vec::new();
    let mut k: usize = 0;
    while k < done.len()
        invariant
            k <= done@.len(),
            all == views(done@),
            views(out@) == all.take(k as int).map_values(|l: Seq<char>| "  "@ + l),
        decreases done@.len() - k,
    {
        let mut l = String::from_str("  ");
        l.append(done[k].as_str());
        let ghost before = views(out@);
        out.push(l);
        assert(all.take(k + 1).map_values(|l: Seq<char>| "  "@ + l) =~= before.push("  "@ + all[k as int]));
        assert(views(out@) =~= before.push("  "@ + all[k as int]));
        k = k + 1;
    }
    assert(all.take(k as int) =~= all);
    out
}

/// How one trimmed content line is shown (see `shown_line`).
fn shown_line_lines(t: &str) -> (res: Vec<String>)
    ensures
        views(res@) == shown_line(t@),
{
    let mut v: Vec<String> = Vec::new();
    if t.unicode_len() == 0 {
        assert(views(v@) =~= Seq::<Seq<char>>::empty());
        return v;
    }
    if is_heading(t) {
        let mut l = String::from_str("🔸 ");
        let up = to_uppercase(t);
        l.append(up.as_str());
        v.push(l);
        v.push(String::from_str("──────────────────────────────────────────────────"));
        assert(views(v@) =~= seq!["🔸 "@ + uppercase(t@), rule50()]);
        v
    } else if is_stat_line(t) {
        let mut l = String::from_str("  📊 ");
        l.append(t);
        v.push(l);
        assert(views(v@) =~= seq!["  📊 "@ + t@]);
        v
    } else {
        wrap_lines(t)
    }
}

impl SearchResult {
    /// The lines that show the page: the framed header with its type, name
    /// and address, the content laid out line by line, and the licence
    /// notice.
    pub fn display_lines(&self) -> (res: Vec<String>)
        requires
            frame_fits(*self),
        ensures
            views(res@) == page_display(*self),
    {
        let p = &self.page;
        let mut v: Vec<String> = Vec::new();
        v.push(String::from_str(""));
        v.push(String::from_str("╔═══════════════════════════════════════════════════════════════════════════════╗"));
        let mut l = String::from_str("║ ");
        let up = to_uppercase(p.content_type.as_str());
        l.append(up.as_str());
        l.append(" - ");
        l.append(p.name.as_str());
        let gap: usize = 69 - (p.content_type.as_str().len() + p.name.as_str().len() + 3);
        push_spaces(&mut l, gap);
        l.append(" ║");
        v.push(l);
        v.push(String::from_str("╠═══════════════════════════════════════════════════════════════════════════════╣"));
        let mut l2 = String::from_str("║ Source: ");
        l2.append(p.url.as_str());
        l2.append(" ");
        let gap2: usize = 70 - (p.url.as_str().len() + 8);
        push_spaces(&mut l2, gap2);
        l2.append(" ║");
        v.push(l2);
        v.push(String::from_str("╚═══════════════════════════════════════════════════════════════════════════════╝"));
        v.push(String::from_str(""));
        assert(views(v@) =~= page_header(*self));
        let ghost head = views(v@);
        let ls = split_lines(p.content.as_str());
        let ghost lv = views(ls@);
        assert(lv.len() == ls@.len());
        let mut i: usize = 0;
        while i < ls.len()
            invariant
                i <= ls@.len(),
                lv == views(ls@),
                lv.len() == ls@.len(),
                views(v@) == head + shown_content(lv.take(i as int)),
            decreases ls@.len() - i,
        {
            assert(lv.take(i + 1).drop_last() =~= lv.take(i as int));
            assert(lv.take(i + 1).last() == ls@[i as int]@);
            let t = trimmed(ls[i].as_str());
            let shown = shown_line_lines(t.as_str());
            let ghost before = views(v@);
            let ghost sv = views(shown@);
            push_all(&mut v, shown);
            assert(views(v@) =~= before + sv);
            i = i + 1;
        }
        assert(lv.take(i as int) =~= lv);
        let ghost body = views(v@);
        v.push(String::from_str(""));
        v.push(String::from_str("────────────────────────────────────────────────────────────────────────────────"));
        v.push(String::from_str("📄 Source: dnd5e.wikidot.com | CC BY-SA 3.0"));
        v.push(String::from_str("🔗 https://creativecommons.org/licenses/by-sa/3.0/"));
        v.push(String::from_str("ℹ️  Content used under Creative Commons Attribution-ShareAlike 3.0 license"));
        v.push(String::from_str("   for personal/educational use only."));
        v.push(String::from_str(""));
        assert(views(v@) =~= body + page_footer());
        v
    }
}

} // verus!
