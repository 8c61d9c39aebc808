//! What the line interface says after a search: the results, or the
//! fallback to suggestions when nothing was found or the search failed, and
//! what a picked suggestion leads to.
use vstd::prelude::*;
use crate::text::{decimal, push_decimal};
use crate::words::{views, push_line, push_all};
use crate::search::SearchResult;
use crate::cli::{Choice, choice_of, numbered_choice};

verus! {

/// What follows a search's reply.
#[derive(Debug, Clone, Copy, PartialEq, Eq, Structural)]
pub enum OutcomeNext {
    /// Show the results that were found.
    ShowResults,
    /// Ask which of the listed suggestions to search for.
    AskChoice,
    /// Nothing more.
    Done,
}

/// The suggestions numbered from 1, each line ending with `suffix`.
pub open spec fn numbered_lines(s: Seq<Seq<char>>, suffix: Seq<char>) -> Seq<Seq<char>> {
    Seq::new(s.len(), |i: int| "  "@ + decimal((i + 1) as nat) + ". "@ + s[i] + suffix)
}

/// The reply to a search for `q` (in a category when `in_category`) whose
/// outcome is `outcome` (`Ok` with the number of results, or the failure's
/// text), with the suggestions `sugg`: results are shown; when nothing
/// matched the suggestions are listed and a choice asked for, or advice
/// given when there are none; a failure is reported with the suggestions
/// found in cached data.
pub open spec fn search_outcome_lines(
    outcome: Result<nat, Seq<char>>,
    q: Seq<char>,
    in_category: bool,
    sugg: Seq<Seq<char>>,
) -> (Seq<Seq<char>>, OutcomeNext) {
    match outcome {
        Ok(n) => if n > 0 {
            (seq![], OutcomeNext::ShowResults)
        } else if sugg.len() == 0 {
            (
                seq!["❌ No exact match found for '"@ + q + "'"@, "🔍 No similar items found either."@] + if in_category {
                    seq!["💡 Try searching in a different category or check your spelling"@]
                } else {
                    seq!["💡 Try specifying a category: search <category> <query>"@, "   Example: search spell "@ + q]
                },
                OutcomeNext::Done,
            )
        } else {
            (
                seq![
                    "❌ No exact match found for '"@ + q + "'"@,
                    "🔍 Here are some suggestions that might be what you're looking for:"@,
                    "   (These are the closest matches found)"@,
                    ""@,
                ] + numbered_lines(sugg, " 📝"@) + seq![
                    ""@,
                    "💡 Would you like to search for one of these suggestions?"@,
                    "   Enter the number of your choice (1-"@ + decimal(sugg.len())
                        + "), or press Enter to skip:"@,
                ],
                OutcomeNext::AskChoice,
            )
        },
        Err(e) => (
            seq![
                "❌ Search failed: "@ + e,
                "💡 This might be due to network issues. The search will fall back to cached data."@,
                "🔍 Checking for suggestions in cached data..."@,
            ] + if sugg.len() == 0 {
                seq![]
            } else {
                seq!["📝 Found these similar items in cached data:"@] + numbered_lines(sugg, ""@) + seq![
                    ""@,
                    "Try searching for one of these when the network is available."@,
                ]
            },
            OutcomeNext::Done,
        ),
    }
}

/// A search outcome as the reply sees it: how many results, or the
/// failure's text.
pub open spec fn outcome_count(o: Result<Vec<SearchResult>, String>) -> Result<nat, Seq<char>> {
    match o {
        Ok(v) => Ok(v@.len()),
        Err(e) => Err(e@),
    }
}

fn numbered_with(s: &Vec<String>, suffix: &str) -> (res: Vec<String>)
    ensures
        views(res@) == numbered_lines(views(s@), suffix@),
{
    let mut v: Vec<String> = Vec::new();
    let mut i: usize = 0;
    while i < s.len()
        invariant
            i <= s@.len(),
            views(v@) == Seq::new(i as nat, |j: int| "  "@ + decimal((j + 1) as nat) + ". "@ + views(s@)[j] + suffix@),
        decreases s@.len() - i,
    {
        let mut l = String::from_str("  ");
        push_decimal(&mut l, (i + 1) as u64);
        l.append(". ");
        l.append(s[i].as_str());
        l.append(suffix);
        push_line(&mut v, l);
        assert(views(v@) =~= Seq::new((i + 1) as nat, |j: int| "  "@ + decimal((j + 1) as nat) + ". "@ + views(s@)[j] + suffix@));
        i = i + 1;
    }
    assert(views(v@) =~= numbered_lines(views(s@), suffix@));
    v
}

fn text_line(s: &str) -> (res: String)
    ensures
        res@ == s@,
{
    String::from_str(s)
}

/// The reply to a search for `query` (see `search_outcome_lines`), given
/// the suggestions for the query, and what follows it.
pub fn search_outcome_reply(
    outcome: &Result<Vec<SearchResult>, String>,
    query: &str,
    in_category: bool,
    suggestions: &Vec<String>,
) -> (res: (Vec<String>, OutcomeNext))
    ensures
        (views(res.0@), res.1) == search_outcome_lines(outcome_count(*outcome), query@, in_category, views(suggestions@)),
{
    let mut v: Vec<String> = Vec::new();
    match outcome {
        Ok(results) => {
            if results.len() > 0 {
                assert(views(v@) =~= Seq::<Seq<char>>::empty());
                return (v, OutcomeNext::ShowResults);
            }
            let mut l = String::from_str("❌ No exact match found for '");
            l.append(query);
            l.append("'");
            push_line(&mut v, l);
            if suggestions.len() == 0 {
                push_line(&mut v, text_line("🔍 No similar items found either."));
                if in_category {
                    push_line(&mut v, text_line("💡 Try searching in a different category or check your spelling"));
                } else {
                    push_line(&mut v, text_line("💡 Try specifying a category: search <category> <query>"));
                    let mut e = String::from_str("   Example: search spell ");
                    e.append(query);
                    push_line(&mut v, e);
                }
                let ghost want = search_outcome_lines(outcome_count(*outcome), query@, in_category, views(suggestions@)).0;
                assert(views(v@) =~= want);
                return (v, OutcomeNext::Done);
            }
            push_line(&mut v, text_line("🔍 Here are some suggestions that might be what you're looking for:"));
            push_line(&mut v, text_line("   (These are the closest matches found)"));
            push_line(&mut v, text_line(""));
            push_all(&mut v, numbered_with(suggestions, " 📝"));
            push_line(&mut v, text_line(""));
            push_line(&mut v, text_line("💡 Would you like to search for one of these suggestions?"));
            let mut a = String::from_str("   Enter the number of your choice (1-");
            push_decimal(&mut a, suggestions.len() as u64);
            a.append("), or press Enter to skip:");
            push_line(&mut v, a);
            let ghost want = search_outcome_lines(outcome_count(*outcome), query@, in_category, views(suggestions@)).0;
            assert(views(v@) =~= want);
            (v, OutcomeNext::AskChoice)
        },
        Err(e) => {
            let mut l = String::from_str("❌ Search failed: ");
            l.append(e.as_str());
            push_line(&mut v, l);
            push_line(
                &mut v,
                text_line("💡 This might be due to network issues. The search will fall back to cached data."),
            );
            push_line(&mut v, text_line("🔍 Checking for suggestions in cached data..."));
            if suggestions.len() > 0 {
                push_line(&mut v, text_line("📝 Found these similar items in cached data:"));
                push_all(&mut v, numbered_with(suggestions, ""));
                push_line(&mut v, text_line(""));
                push_line(&mut v, text_line("Try searching for one of these when the network is available."));
            }
            let ghost want = search_outcome_lines(outcome_count(*outcome), query@, in_category, views(suggestions@)).0;
            assert(views(v@) =~= want);
            (v, OutcomeNext::Done)
        },
    }
}

/// The reply to the line typed when asked to pick one of `sugg`, and the
/// suggestion to search for next, if any.
pub open spec fn suggestion_choice_lines(input: Seq<char>, sugg: Seq<Seq<char>>) -> (Seq<Seq<char>>, Option<Seq<char>>) {
    match choice_of(input, sugg.len() as usize) {
        Choice::Empty => (seq!["👍 Skipping suggestions."@], None),
        Choice::Picked(i) => (seq!["🔍 Searching for '"@ + sugg[i as int] + "'..."@], Some(sugg[i as int])),
        Choice::OutOfRange => (
            seq!["❌ Invalid choice. Please select a number between 1 and "@ + decimal(sugg.len())],
            None,
        ),
        Choice::NotANumber => (seq!["❌ Invalid input. Please enter a number or press Enter to skip."@], None),
    }
}

/// The reply to a pick among the suggestions (see `suggestion_choice_lines`).
pub fn suggestion_choice_reply(input: &str, suggestions: &Vec<String>) -> (res: (Vec<String>, Option<String>))
    ensures
        views(res.0@) == suggestion_choice_lines(input@, views(suggestions@)).0,
        match suggestion_choice_lines(input@, views(suggestions@)).1 {
            Some(s) => res.1 matches Some(t) && t@ == s,
            None => res.1 is None,
        },
{
    let mut v: Vec<String> = Vec::new();
    assert(views(suggestions@).len() == suggestions@.len());
    match numbered_choice(input, suggestions.len()) {
        Choice::Empty => {
            push_line(&mut v, text_line("👍 Skipping suggestions."));
            assert(views(v@) =~= seq!["👍 Skipping suggestions."@]);
            (v, None)
        },
        Choice::Picked(i) => {
            let chosen = suggestions[i].clone();
            let mut l = String::from_str("🔍 Searching for '");
            l.append(chosen.as_str());
            l.append("'...");
            push_line(&mut v, l);
            assert(views(v@) =~= seq!["🔍 Searching for '"@ + views(suggestions@)[i as int] + "'..."@]);
            (v, Some(chosen))
        },
        Choice::OutOfRange => {
            let mut l = String::from_str("❌ Invalid choice. Please select a number between 1 and ");
            push_decimal(&mut l, suggestions.len() as u64);
            push_line(&mut v, l);
            assert(views(v@) =~= seq!["❌ Invalid choice. Please select a number between 1 and "@ + decimal(views(suggestions@).len())]);
            (v, None)
        },
        Choice::NotANumber => {
            push_line(&mut v, text_line("❌ Invalid input. Please enter a number or press Enter to skip."));
            assert(views(v@) =~= seq!["❌ Invalid input. Please enter a number or press Enter to skip."@]);
            (v, None)
        },
    }
}

/// The reply to the search for a picked suggestion `s`: its results are
/// shown, or that it gave none, or the failure.
pub open spec fn suggestion_outcome_lines(outcome: Result<nat, Seq<char>>, s: Seq<char>) -> (Seq<Seq<char>>, OutcomeNext) {
    match outcome {
        Ok(n) => if n > 0 {
            (seq![], OutcomeNext::ShowResults)
        } else {
            (seq!["❌ No detailed results found for '"@ + s + "'"@], OutcomeNext::Done)
        },
        Err(e) => (seq!["❌ Error searching for suggestion: "@ + e], OutcomeNext::Done),
    }
}

/// The reply to the search for a picked suggestion (see
/// `suggestion_outcome_lines`).
pub fn suggestion_outcome_reply(outcome: &Result<Vec<SearchResult>, String>, selected: &str) -> (res: (Vec<String>, OutcomeNext))
    ensures
        (views(res.0@), res.1) == suggestion_outcome_lines(outcome_count(*outcome), selected@),
{
    let mut v: Vec<String> = Vec::new();
    match outcome {
        Ok(results) => {
            if results.len() > 0 {
                assert(views(v@) =~= Seq::<Seq<char>>::empty());
                (v, OutcomeNext::ShowResults)
            } else {
                let mut l = String::from_str("❌ No detailed results found for '");
                l.append(selected);
                l.append("'");
                push_line(&mut v, l);
                assert(views(v@) =~= seq!["❌ No detailed results found for '"@ + selected@ + "'"@]);
                (v, OutcomeNext::Done)
            }
        },
        Err(e) => {
            let mut l = String::from_str("❌ Error searching for suggestion: ");
            l.append(e.as_str());
            push_line(&mut v, l);
            assert(views(v@) =~= seq!["❌ Error searching for suggestion: "@ + e@]);
            (v, OutcomeNext::Done)
        },
    }
}

} // verus!
