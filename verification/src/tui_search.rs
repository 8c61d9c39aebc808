//! Showing what a search of the wiki found, in the search terminal and in
//! the combat terminal.
use vstd::prelude::*;
use crate::text::{decimal, push_decimal, lowercase};
use crate::words::{views, lines, split_lines, push_line, push_all};
use crate::search::{SearchResult, DndSearchClient, first_five_sorted, suggestion_candidates};
use crate::tui::{App, Screen, print};

verus! {

/// The numbered suggestions, at most `k` of them.
pub open spec fn suggestion_lines(s: Seq<Seq<char>>, k: nat) -> Seq<Seq<char>> {
    Seq::new(
        if s.len() < k { s.len() } else { k },
        |i: int| "  "@ + decimal((i + 1) as nat) + ". "@ + s[i],
    )
}

/// At most `k` lines of a page's content, then how many more there are
/// (`more` words it), or nothing when it fits.
pub open spec fn content_head(content: Seq<char>, k: nat, full_note: bool) -> Seq<Seq<char>> {
    let ls = lines(content);
    ls.take(if ls.len() < k { ls.len() as int } else { k as int }) + if ls.len() > k {
        if full_note {
            seq!["... ("@ + decimal((ls.len() - k) as nat) + " more lines)"@]
        } else {
            seq!["... (use search mode for full details)"@]
        }
    } else {
        seq![]
    }
}

/// The block shown for the `i`-th of `n` results in the search terminal.
pub open spec fn result_block(r: SearchResult, i: int, n: int) -> Seq<Seq<char>> {
    (if n > 1 { seq!["--- Result "@ + decimal((i + 1) as nat) + " ---"@] } else { seq![] }) + seq![
        "📝 Name: "@ + r.page.name@,
        "🏷️ Type: "@ + r.page.index@,
        "🔗 Source: "@ + r.page.url@,
        ""@,
    ] + content_head(r.page.content@, 20, true) + if i < n - 1 {
        seq![""@]
    } else {
        seq![]
    }
}

/// The block shown for the `i`-th of `n` results in the combat terminal.
pub open spec fn combat_result_block(r: SearchResult, i: int, n: int) -> Seq<Seq<char>> {
    (if n > 1 { seq!["--- Result "@ + decimal((i + 1) as nat) + " ---"@] } else { seq![] }) + seq![
        "📝 "@ + r.page.index@ + ": "@ + r.page.name@,
    ] + content_head(r.page.content@, 10, false) + if i == 0 && n > 1 {
        seq![""@]
    } else {
        seq![]
    }
}

/// The blocks of the first `k` results, for the terminal named by
/// `in_combat`.
pub open spec fn result_blocks(rs: Seq<SearchResult>, k: int, in_combat: bool) -> Seq<Seq<char>>
    decreases k,
{
    if k <= 0 {
        seq![]
    } else {
        result_blocks(rs, k - 1, in_combat) + if in_combat {
            combat_result_block(rs[k - 1], k - 1, rs.len() as int)
        } else {
            result_block(rs[k - 1], k - 1, rs.len() as int)
        }
    }
}

/// `lines` show what a search for `q` gave: the results (all of them in the
/// search terminal, the first two in a fight), or that nothing matched with
/// the suggestions (`sugg`, five in the search terminal, three in a fight),
/// or the failure. A fight's terminal then says it returns to the fight.
pub open spec fn outcome_lines(
    q: Seq<char>,
    outcome: Result<Seq<SearchResult>, Seq<char>>,
    sugg: Seq<Seq<char>>,
    in_combat: bool,
) -> Seq<Seq<char>> {
    let body = match outcome {
        Err(e) => if in_combat {
            seq!["❌ Search failed: "@ + e]
        } else {
            seq!["❌ Search failed: "@ + e, "💡 This might be due to network issues"@]
        },
        Ok(rs) => if rs.len() == 0 {
            seq!["❌ No exact match found for '"@ + q + "'"@] + if sugg.len() == 0 {
                seq![]
            } else if in_combat {
                seq!["🔍 Similar items found:"@] + suggestion_lines(sugg, 3)
            } else {
                seq!["🔍 Similar items found:"@] + suggestion_lines(sugg, 5) + seq![
                    ""@,
                    "💡 Try searching for one of these suggestions"@,
                ]
            }
        } else if in_combat {
            seq!["✅ Found "@ + decimal(rs.len()) + " result(s):"@] + result_blocks(
                rs,
                if rs.len() < 2 { rs.len() as int } else { 2 },
                true,
            )
        } else {
            seq!["✅ Found "@ + decimal(rs.len()) + " result(s):"@, ""@] + result_blocks(rs, rs.len() as int, false)
        },
    };
    body + if in_combat {
        seq![""@, "📋 Returning to combat..."@]
    } else {
        seq![]
    }
}

/// The search outcome as plain values: the results, or the failure's text.
pub open spec fn outcome_view(o: Result<Vec<SearchResult>, String>) -> Result<Seq<SearchResult>, Seq<char>> {
    match o {
        Ok(v) => Ok(v@),
        Err(e) => Err(e@),
    }
}

/// `lines` show the outcome with suggestions that are the query's sorted
/// suggestions (only looked up when nothing was found).
pub open spec fn outcome_shown(
    q: Seq<char>,
    outcome: Result<Seq<SearchResult>, Seq<char>>,
    in_combat: bool,
    sugg: Seq<Seq<char>>,
    lines: Seq<Seq<char>>,
) -> bool {
    &&& (outcome matches Ok(rs) && rs.len() == 0) ==> first_five_sorted(suggestion_candidates(lowercase(q)), sugg)
    &&& lines == outcome_lines(q, outcome, sugg, in_combat)
}

fn numbered(s: &Vec<String>, k: usize) -> (res: Vec<String>)
    ensures
        views(res@) == suggestion_lines(views(s@), k as nat),
{
    let n = if s.len() < k { s.len() } else { k };
    let mut v: Vec<String> = Vec::new();
    let mut i: usize = 0;
    while i < n
        invariant
            n <= s@.len(),
            n == (if s@.len() < k { s@.len() } else { k as nat }),
            i <= n,
            views(v@) == Seq::new(i as nat, |j: int| "  "@ + decimal((j + 1) as nat) + ". "@ + views(s@)[j]),
        decreases n - i,
    {
        let mut l = String::from_str("  ");
        push_decimal(&mut l, (i + 1) as u64);
        l.append(". ");
        l.append(s[i].as_str());
        push_line(&mut v, l);
        assert(views(v@) =~= Seq::new((i + 1) as nat, |j: int| "  "@ + decimal((j + 1) as nat) + ". "@ + views(s@)[j]));
        i = i + 1;
    }
    v
}

fn content_head_lines(content: &str, k: usize, full_note: bool) -> (res: Vec<String>)
    ensures
        views(res@) == content_head(content@, k as nat, full_note),
{
    let ls = split_lines(content);
    let n = ls.len();
    let m = if n < k { n } else { k };
    let mut v: Vec<String> = Vec::new();
    let mut i: usize = 0;
    while i < m
        invariant
            n == ls@.len(),
            m <= n,
            i <= m,
            views(v@) == views(ls@).take(i as int),
        decreases m - i,
    {
        push_line(&mut v, ls[i].clone());
        assert(views(ls@).take(i + 1) =~= views(ls@).take(i as int).push(ls@[i as int]@));
        i = i + 1;
    }
    let ghost head = views(v@);
    if n > k {
        if full_note {
            let mut l = String::from_str("... (");
            push_decimal(&mut l, (n - k) as u64);
            l.append(" more lines)");
            push_line(&mut v, l);
        } else {
            push_line(&mut v, String::from_str("... (use search mode for full details)"));
        }
    } else {
        assert(head + Seq::<Seq<char>>::empty() =~= head);
    }
    v
}

fn block_lines(r: &SearchResult, i: usize, n: usize, in_combat: bool) -> (res: Vec<String>)
    requires
        i < n,
    ensures
        views(res@) == if in_combat {
            combat_result_block(*r, i as int, n as int)
        } else {
            result_block(*r, i as int, n as int)
        },
{
    let mut v: Vec<String> = Vec::new();
    if n > 1 {
        let mut l = String::from_str("--- Result ");
        push_decimal(&mut l, (i + 1) as u64);
        l.append(" ---");
        push_line(&mut v, l);
    }
    let ghost first = views(v@);
    if in_combat {
        let mut l = String::from_str("📝 ");
        l.append(r.page.index.as_str());
        l.append(": ");
        l.append(r.page.name.as_str());
        push_line(&mut v, l);
        push_all(&mut v, content_head_lines(r.page.content.as_str(), 10, false));
        if i == 0 && n > 1 {
            push_line(&mut v, String::from_str(""));
        }
    } else {
        let mut l1 = String::from_str("📝 Name: ");
        l1.append(r.page.name.as_str());
        let mut l2 = String::from_str("🏷️ Type: ");
        l2.append(r.page.index.as_str());
        let mut l3 = String::from_str("🔗 Source: ");
        l3.append(r.page.url.as_str());
        push_line(&mut v, l1);
        push_line(&mut v, l2);
        push_line(&mut v, l3);
        push_line(&mut v, String::from_str(""));
        push_all(&mut v, content_head_lines(r.page.content.as_str(), 20, true));
        if i < n - 1 {
            push_line(&mut v, String::from_str(""));
        }
    }
    let ghost want = if in_combat {
        combat_result_block(*r, i as int, n as int)
    } else {
        result_block(*r, i as int, n as int)
    };
    assert(views(v@) =~= want);
    v
}

fn outcome_body(client: &DndSearchClient, query: &str, outcome: &Result<Vec<SearchResult>, String>, in_combat: bool) -> (res: (Vec<String>, Ghost<Seq<Seq<char>>>))
    ensures
        outcome_shown(query@, outcome_view(*outcome), in_combat, res.1@, views(res.0@)),
{
    let mut v: Vec<String> = Vec::new();
    let ghost mut sugg_view: Seq<Seq<char>> = seq![];
    match outcome {
        Err(e) => {
            let mut l = String::from_str("❌ Search failed: ");
            l.append(e.as_str());
            push_line(&mut v, l);
            if !in_combat {
                push_line(&mut v, String::from_str("💡 This might be due to network issues"));
            }
        },
        Ok(rs) => {
            if rs.len() == 0 {
                let mut l = String::from_str("❌ No exact match found for '");
                l.append(query);
                l.append("'");
                push_line(&mut v, l);
                let sugg = client.get_suggestions(query, None);
                proof {
                    sugg_view = views(sugg@);
                }
                if sugg.len() > 0 {
                    push_line(&mut v, String::from_str("🔍 Similar items found:"));
                    if in_combat {
                        push_all(&mut v, numbered(&sugg, 3));
                    } else {
                        push_all(&mut v, numbered(&sugg, 5));
                        push_line(&mut v, String::from_str(""));
                        push_line(&mut v, String::from_str("💡 Try searching for one of these suggestions"));
                    }
                }
            } else {
                let n = rs.len();
                let mut l = String::from_str("✅ Found ");
                push_decimal(&mut l, n as u64);
                l.append(" result(s):");
                push_line(&mut v, l);
                if !in_combat {
                    push_line(&mut v, String::from_str(""));
                }
                let ghost head = views(v@);
                let k: usize = if in_combat && n > 2 { 2 } else { n };
                let mut i: usize = 0;
                while i < k
                    invariant
                        k <= n == rs@.len(),
                        i <= k,
                        views(v@) == head + result_blocks(rs@, i as int, in_combat),
                    decreases k - i,
                {
                    let b = block_lines(&rs[i], i, n, in_combat);
                    push_all(&mut v, b);
                    assert(views(v@) =~= head + result_blocks(rs@, i + 1, in_combat));
                    i = i + 1;
                }
            }
        },
    }
    let ghost body = views(v@);
    if in_combat {
        push_line(&mut v, String::from_str(""));
        push_line(&mut v, String::from_str("📋 Returning to combat..."));
    }
    assert(views(v@) =~= outcome_lines(query@, outcome_view(*outcome), sugg_view, in_combat));
    (v, Ghost(sugg_view))
}

impl App {
    /// Shows the outcome of the pending search for `query` (`client`'s
    /// search result, or the failure's text) in the search terminal or, with
    /// `in_combat`, in the combat terminal.
    pub fn show_search_outcome(
        &mut self,
        client: &DndSearchClient,
        query: &str,
        outcome: Result<Vec<SearchResult>, String>,
        in_combat: bool,
    )
        ensures
            exists|sugg: Seq<Seq<char>>, ls: Seq<Seq<char>>|
                #[trigger] outcome_shown(query@, outcome_view(outcome), in_combat, sugg, ls) && final(self).screen()
                    == print(old(self).screen(), ls),
            final(self).same_input(*old(self)),
    {
        let (lines, sugg) = outcome_body(client, query, &outcome, in_combat);
        let ghost ls = views(lines@);
        self.emit(lines);
        assert(outcome_shown(query@, outcome_view(outcome), in_combat, sugg@, ls));
    }
}

} // verus!
