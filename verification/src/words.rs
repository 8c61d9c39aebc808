//! Splitting a command line into whitespace-separated words and joining
//! words back together.
use vstd::prelude::*;
use crate::text::{is_whitespace, char_is_whitespace, str_chars, push_char, string_from_range};

verus! {

/// The texts of a sequence of strings.
pub open spec fn views(v: Seq<String>) -> Seq<Seq<char>> {
    v.map_values(|w: String| w@)
}

/// The words of `s[i..]`, given that `cur` is the part of a word already
/// read just before position `i`.
pub open spec fn words_from(s: Seq<char>, i: int, cur: Seq<char>) -> Seq<Seq<char>>
    decreases s.len() - i,
{
    if i >= s.len() || i < 0 {
        if cur.len() > 0 { seq![cur] } else { seq![] }
    } else if is_whitespace(s[i]) {
        let rest = words_from(s, i + 1, seq![]);
        if cur.len() > 0 { seq![cur] + rest } else { rest }
    } else {
        words_from(s, i + 1, cur.push(s[i]))
    }
}

proof fn lemma_words_from_nonempty(s: Seq<char>, i: int, cur: Seq<char>)
    ensures
        forall|k: int| 0 <= k < words_from(s, i, cur).len() ==> #[trigger] words_from(s, i, cur)[k].len() > 0,
    decreases s.len() - i,
{
    if i >= s.len() || i < 0 {
        if cur.len() > 0 {
            assert(words_from(s, i, cur) == seq![cur]);
        } else {
            assert(words_from(s, i, cur).len() == 0);
        }
    } else if is_whitespace(s[i]) {
        lemma_words_from_nonempty(s, i + 1, seq![]);
        let rest = words_from(s, i + 1, seq![]);
        if cur.len() > 0 {
            assert(words_from(s, i, cur) == seq![cur] + rest);
            assert forall|k: int| 0 <= k < (seq![cur] + rest).len() implies #[trigger] (seq![cur] + rest)[k].len() > 0 by {
                if k > 0 {
                    assert((seq![cur] + rest)[k] == rest[k - 1]);
                }
            }
        }
    } else {
        lemma_words_from_nonempty(s, i + 1, cur.push(s[i]));
        assert(words_from(s, i, cur) == words_from(s, i + 1, cur.push(s[i])));
    }
}

/// Every word has at least one character.
pub proof fn lemma_words_nonempty(s: Seq<char>)
    ensures
        forall|k: int| 0 <= k < words(s).len() ==> #[trigger] words(s)[k].len() > 0,
{
    lemma_words_from_nonempty(s, 0, seq![]);
}

/// `str::split_whitespace`: the maximal runs of non-whitespace characters,
/// in order.
pub open spec fn words(s: Seq<char>) -> Seq<Seq<char>> {
    words_from(s, 0, seq![])
}

/// The words joined with `sep` between each two (`[..].join(sep)`).
pub open spec fn join_with(ws: Seq<Seq<char>>, sep: Seq<char>) -> Seq<char>
    decreases ws.len(),
{
    if ws.len() == 0 {
        seq![]
    } else if ws.len() == 1 {
        ws[0]
    } else {
        join_with(ws.drop_last(), sep) + sep + ws.last()
    }
}

fn string_of(v: &Vec<char>) -> (res: String)
    ensures
        res@ == v@,
{
    let mut out = String::new();
    let mut i: usize = 0;
    while i < v.len()
        invariant
            i <= v@.len(),
            out@ == v@.subrange(0, i as int),
        decreases v@.len() - i,
    {
        push_char(&mut out, v[i]);
        assert(out@ =~= v@.subrange(0, i + 1));
        i = i + 1;
    }
    assert(v@.subrange(0, v@.len() as int) =~= v@);
    out
}

/// `str::split_whitespace` collected into owned words.
pub fn split_words(s: &str) -> (res: Vec<String>)
    ensures
        views(res@) == words(s@),
{
    let v = str_chars(s);
    let n = v.len();
    let mut out: Vec<String> = Vec::new();
    let mut cur: Vec<char> = Vec::new();
    let mut i: usize = 0;
    while i < n
        invariant
            n == v@.len(),
            v@ == s@,
            i <= n,
            views(out@) + words_from(v@, i as int, cur@) == words(s@),
        decreases n - i,
    {
        let c = v[i];
        if char_is_whitespace(c) {
            if cur.len() > 0 {
                let w = string_of(&cur);
                let ghost before = views(out@);
                out.push(w);
                assert(views(out@) =~= before.push(cur@));
                assert(before + (seq![cur@] + words_from(v@, i + 1, seq![])) =~= before.push(cur@)
                    + words_from(v@, i + 1, seq![]));
            }
            cur = Vec::new();
            assert(cur@ =~= Seq::<char>::empty());
        } else {
            cur.push(c);
        }
        i = i + 1;
    }
    if cur.len() > 0 {
        let w = string_of(&cur);
        let ghost before = views(out@);
        out.push(w);
        assert(views(out@) =~= before.push(cur@));
        assert(before + seq![cur@] =~= before.push(cur@));
    } else {
        assert(views(out@) + Seq::<Seq<char>>::empty() =~= views(out@));
    }
    out
}

/// The words `ws[from..]` joined with `sep` (`parts[from..].join(sep)`).
pub fn join_from(ws: &Vec<String>, from: usize, sep: &str) -> (res: String)
    requires
        from <= ws@.len(),
    ensures
        res@ == join_with(views(ws@).skip(from as int), sep@),
{
    let mut out = String::new();
    let mut i = from;
    assert(views(ws@).skip(from as int).take(0) =~= Seq::<Seq<char>>::empty());
    while i < ws.len()
        invariant
            from <= i <= ws@.len(),
            out@ == join_with(views(ws@).skip(from as int).take(i - from), sep@),
        decreases ws@.len() - i,
    {
        let ghost part = views(ws@).skip(from as int).take(i - from);
        let ghost next = views(ws@).skip(from as int).take(i + 1 - from);
        assert(next.drop_last() =~= part);
        assert(next.last() == ws@[i as int]@);
        if i > from {
            out.append(sep);
        }
        out.append(ws[i].as_str());
        if i == from {
            assert(next.len() == 1);
        }
        assert(out@ == join_with(next, sep@));
        i = i + 1;
    }
    assert(views(ws@).skip(from as int).take(ws@.len() - from) =~= views(ws@).skip(from as int));
    out
}

/// Appends a line to a list of lines.
pub fn push_line(v: &mut Vec<String>, line: String)
    ensures
        views(final(v)@) == views(old(v)@) + seq![line@],
{
    let ghost a = v@;
    v.push(line);
    assert(views(v@) =~= views(a) + seq![line@]);
}

/// Appends lines to a list of lines.
pub fn push_all(v: &mut Vec<String>, more: Vec<String>)
    ensures
        views(final(v)@) == views(old(v)@) + views(more@),
{
    let mut more = more;
    let ghost a = v@;
    let ghost b = more@;
    v.append(&mut more);
    assert(views(a + b) =~= views(a) + views(b));
}

/// `s` followed by spaces up to `w` characters (`format!("{:<w$}", s)`).
pub open spec fn pad(s: Seq<char>, w: nat) -> Seq<char> {
    if s.len() >= w {
        s
    } else {
        s + Seq::new((w - s.len()) as nat, |i: int| ' ')
    }
}

/// `s` padded with spaces to `w` characters.
pub fn padded(s: &str, w: usize) -> (res: String)
    ensures
        res@ == pad(s@, w as nat),
{
    let mut out = String::from_str(s);
    let n = str_chars(s).len();
    let mut k = n;
    assert(out@ =~= s@ + Seq::new(0, |i: int| ' '));
    while k < w
        invariant
            n == s@.len(),
            n <= k,
            n < w ==> k <= w,
            w <= n ==> k == n,
            out@ == s@ + Seq::new((k - n) as nat, |i: int| ' '),
        decreases w - k,
    {
        push_char(&mut out, ' ');
        assert(out@ =~= s@ + Seq::new((k + 1 - n) as nat, |i: int| ' '));
        k = k + 1;
    }
    if n >= w {
        assert(out@ =~= s@);
    } else {
        assert(k == w);
    }
    out
}

/// A line without the carriage return that ended it.
pub open spec fn strip_cr(s: Seq<char>) -> Seq<char> {
    if s.len() > 0 && s.last() == '\r' {
        s.drop_last()
    } else {
        s
    }
}

/// The lines of `s[i..]`, given that `cur` is the part of a line already
/// read just before position `i`.
pub open spec fn lines_from(s: Seq<char>, i: int, cur: Seq<char>) -> Seq<Seq<char>>
    decreases s.len() - i,
{
    if i >= s.len() || i < 0 {
        if cur.len() > 0 { seq![cur] } else { seq![] }
    } else if s[i] == '\n' {
        seq![strip_cr(cur)] + lines_from(s, i + 1, seq![])
    } else {
        lines_from(s, i + 1, cur.push(s[i]))
    }
}

/// `str::lines`: the text split at each `\n` (a `\r` before it dropped),
/// with no empty line after a final `\n`.
pub open spec fn lines(s: Seq<char>) -> Seq<Seq<char>> {
    lines_from(s, 0, seq![])
}

/// `str::lines` collected into owned lines.
pub fn split_lines(s: &str) -> (res: Vec<String>)
    ensures
        views(res@) == lines(s@),
{
    let v = str_chars(s);
    let n = v.len();
    let mut out: Vec<String> = Vec::new();
    let mut cur: Vec<char> = Vec::new();
    let mut i: usize = 0;
    while i < n
        invariant
            n == v@.len(),
            v@ == s@,
            i <= n,
            views(out@) + lines_from(v@, i as int, cur@) == lines(s@),
        decreases n - i,
    {
        let c = v[i];
        if c == '\n' {
            let k = cur.len();
            let line = if k > 0 && cur[k - 1] == '\r' {
                assert(cur@.subrange(0, k - 1) =~= cur@.drop_last());
                string_from_range(&cur, 0, k - 1)
            } else {
                string_of(&cur)
            };
            let ghost before = views(out@);
            out.push(line);
            assert(views(out@) =~= before.push(strip_cr(cur@)));
            assert(before + (seq![strip_cr(cur@)] + lines_from(v@, i + 1, seq![])) =~= before.push(
                strip_cr(cur@),
            ) + lines_from(v@, i + 1, seq![]));
            cur = Vec::new();
            assert(cur@ =~= Seq::<char>::empty());
        } else {
            cur.push(c);
        }
        i = i + 1;
    }
    if cur.len() > 0 {
        let w = string_of(&cur);
        let ghost before = views(out@);
        out.push(w);
        assert(views(out@) =~= before.push(cur@));
        assert(before + seq![cur@] =~= before.push(cur@));
    } else {
        assert(views(out@) + Seq::<Seq<char>>::empty() =~= views(out@));
    }
    out
}

/// `s` with every `from` replaced by the text `to` (`str::replace` with a
/// one-character pattern).
pub open spec fn replaced(s: Seq<char>, from: char, to: Seq<char>) -> Seq<char>
    decreases s.len(),
{
    if s.len() == 0 {
        seq![]
    } else {
        replaced(s.drop_last(), from, to) + if s.last() == from {
            to
        } else {
            seq![s.last()]
        }
    }
}

/// `str::replace` of a one-character pattern.
pub fn replace_char(s: &str, from: char, to: &str) -> (res: String)
    ensures
        res@ == replaced(s@, from, to@),
{
    let v = str_chars(s);
    let mut out = String::new();
    let mut i: usize = 0;
    while i < v.len()
        invariant
            v@ == s@,
            i <= v@.len(),
            out@ == replaced(v@.take(i as int), from, to@),
        decreases v@.len() - i,
    {
        assert(v@.take(i + 1).drop_last() =~= v@.take(i as int));
        if v[i] == from {
            out.append(to);
        } else {
            push_char(&mut out, v[i]);
        }
        i = i + 1;
    }
    assert(v@.take(v@.len() as int) =~= v@);
    out
}

/// `s` begins with `p`.
pub open spec fn starts_with(s: Seq<char>, p: Seq<char>) -> bool {
    p.len() <= s.len() && s.take(p.len() as int) == p
}

/// `str::starts_with` with a text pattern.
pub fn str_starts_with(s: &str, p: &str) -> (r: bool)
    ensures
        r == starts_with(s@, p@),
{
    let v = str_chars(s);
    let w = str_chars(p);
    if w.len() > v.len() {
        return false;
    }
    let mut k: usize = 0;
    while k < w.len()
        invariant
            v@ == s@,
            w@ == p@,
            w@.len() <= v@.len(),
            k <= w@.len(),
            forall|m: int| 0 <= m < k ==> #[trigger] v@[m] == w@[m],
        decreases w@.len() - k,
    {
        if v[k] != w[k] {
            assert(v@.take(w@.len() as int)[k as int] != w@[k as int]);
            return false;
        }
        k = k + 1;
    }
    assert(v@.take(w@.len() as int) =~= w@);
    true
}

/// The first position at or after `i` where `p` occurs in `s`.
pub open spec fn find_from(s: Seq<char>, p: Seq<char>, i: int) -> Option<int>
    decreases s.len() + 1 - i,
{
    if i < 0 || i + p.len() > s.len() {
        None
    } else if s.subrange(i, i + p.len()) == p {
        Some(i)
    } else {
        find_from(s, p, i + 1)
    }
}

/// `str::find` with a text pattern, counted in characters.
pub fn find_text(s: &Vec<char>, p: &Vec<char>) -> (res: Option<usize>)
    ensures
        match find_from(s@, p@, 0) {
            Some(i) => res == Some(i as usize) && i + p@.len() <= s@.len(),
            None => res is None,
        },
        res matches Some(k) ==> k + p@.len() <= s@.len() && find_from(s@, p@, 0) == Some(k as int),
{
    let n = s.len();
    let m = p.len();
    if m > n {
        return None;
    }
    let mut i: usize = 0;
    while i <= n - m
        invariant
            n == s@.len(),
            m == p@.len(),
            m <= n,
            i <= n - m + 1,
            find_from(s@, p@, 0) == find_from(s@, p@, i as int),
        decreases n - i,
    {
        let mut k: usize = 0;
        let mut same = true;
        while k < m
            invariant
                k <= m,
                i + m <= n,
                n == s@.len(),
                m == p@.len(),
                same == forall|j: int| 0 <= j < k ==> s@[i + j] == #[trigger] p@[j],
            decreases m - k,
        {
            if s[i + k] != p[k] {
                same = false;
            }
            k = k + 1;
        }
        if same {
            assert(s@.subrange(i as int, i + m) =~= p@);
            return Some(i);
        }
        assert(s@.subrange(i as int, i + m) != p@) by {
            let j = choose|j: int| 0 <= j < m && s@[i + j] != #[trigger] p@[j];
            assert(s@.subrange(i as int, i + m)[j] == s@[i + j]);
        }
        i = i + 1;
    }
    None
}

} // verus!
