//! Campaign events: their store, and the `e` command that manages them.
use vstd::prelude::*;
use std::collections::HashMap;
use crate::text::{trim, trimmed, str_chars, string_from_range};
use crate::words::{words, views, join_with, split_words, join_from};

verus! {

/// Events filed under a one-letter key.
#[derive(Debug, Clone)]
pub struct Data {
    pub data: HashMap<char, Vec<String>>,
}

impl Data {
    /// An empty store.
    pub fn new() -> (res: Self)
        ensures
            res.data@ == Map::<char, Vec<String>>::empty(),
    {
        Data { data: HashMap::new() }
    }
}

/// The first line of the answer to an event command whose text after the
/// leading `e` is `rest`: its first non-blank letter picks the action.
pub open spec fn event_action_line(rest: Seq<char>) -> Seq<char> {
    let c = trim(rest);
    if c.len() > 0 && c[0] == 'a' {
        "Event management - add functionality coming soon"@
    } else if c.len() > 0 && c[0] == 'r' {
        "Remove event functionality coming soon"@
    } else if c.len() > 0 && c[0] == 'l' {
        "Load events functionality coming soon"@
    } else {
        "Invalid event command. Use 'ea' to add, 'er' to remove, 'el' to load"@
    }
}

/// The lines printed for the event command `buffer`: nothing for a blank
/// command; otherwise the action's line, then, when the text after the
/// leading letter has at least three words, the event, its time and its
/// description (the remaining words).
pub open spec fn event_lines(buffer: Seq<char>) -> Seq<Seq<char>> {
    let t = trim(buffer);
    if t.len() == 0 {
        seq![]
    } else {
        let rest = t.drop_first();
        let ws = words(rest);
        if trim(rest).len() > 0 && ws.len() >= 3 {
            seq![
                event_action_line(rest),
                "Event: "@ + ws[0] + "\nTime: "@ + ws[1] + "\nDescription: "@ + join_with(
                    ws.skip(2),
                    seq![' '],
                ),
            ]
        } else {
            seq![event_action_line(rest)]
        }
    }
}

/// Answers an event command (`ea`, `er`, `el`, with optional details): the
/// lines to show, in order.
pub fn add_event(buffer: &str) -> (res: Vec<String>)
    ensures
        views(res@) == event_lines(buffer@),
{
    let mut out: Vec<String> = Vec::new();
    let t = trimmed(buffer);
    let tv = str_chars(t.as_str());
    if tv.len() == 0 {
        assert(views(out@) =~= event_lines(buffer@));
        return out;
    }
    let rest = string_from_range(&tv, 1, tv.len());
    assert(rest@ =~= trim(buffer@).drop_first());
    let c = trimmed(rest.as_str());
    let cv = str_chars(c.as_str());
    let first = if cv.len() > 0 { Some(cv[0]) } else { None };
    proof {
        reveal_strlit(" ");
        assert(" "@ =~= seq![' ']);
    }
    let line = match first {
        Some('a') => String::from_str("Event management - add functionality coming soon"),
        Some('r') => String::from_str("Remove event functionality coming soon"),
        Some('l') => String::from_str("Load events functionality coming soon"),
        _ => String::from_str("Invalid event command. Use 'ea' to add, 'er' to remove, 'el' to load"),
    };
    assert(line@ == event_action_line(rest@));
    out.push(line);
    if cv.len() == 0 {
        assert(views(out@) =~= event_lines(buffer@));
        return out;
    }
    let parts = split_words(rest.as_str());
    if parts.len() >= 3 {
        let mut s = String::from_str("Event: ");
        s.append(parts[0].as_str());
        s.append("\nTime: ");
        s.append(parts[1].as_str());
        s.append("\nDescription: ");
        let desc = join_from(&parts, 2, " ");
        s.append(desc.as_str());
        assert(views(parts@)[0] == parts@[0]@ && views(parts@)[1] == parts@[1]@);
        out.push(s);
    }
    assert(views(out@) =~= event_lines(buffer@));
    out
}

} // verus!
