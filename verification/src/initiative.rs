//! A simple initiative tracker: named entries ordered from highest to lowest
//! initiative, and whose turn it is.
use vstd::prelude::*;
use crate::order::{HasInitiative, stable_sort_by_initiative, stable_sorted_desc};
use crate::text::{str_eq, signed_decimal, push_signed_decimal};

verus! {

/// One entry of the initiative order.
#[derive(Debug, PartialEq, Eq)]
pub struct InitiativeEntry {
    pub name: String,
    pub initiative: i32,
    pub is_player: bool,
}

impl Clone for InitiativeEntry {
    fn clone(&self) -> (res: Self)
        ensures
            res == *self,
    {
        InitiativeEntry { name: self.name.clone(), initiative: self.initiative, is_player: self.is_player }
    }
}

impl HasInitiative for InitiativeEntry {
    open spec fn init_key(&self) -> i32 {
        self.initiative
    }

    fn initiative_value(&self) -> (r: i32) {
        self.initiative
    }
}

/// The entries in initiative order and the position of the next turn.
#[derive(Debug)]
pub struct InitiativeTracker {
    entries: Vec<InitiativeEntry>,
    current_turn: usize,
}

impl InitiativeTracker {
    /// The entries, highest initiative first.
    pub closed spec fn entries_seq(&self) -> Seq<InitiativeEntry> {
        self.entries@
    }

    /// The position of the entry whose turn comes next.
    pub closed spec fn turn(&self) -> int {
        self.current_turn as int
    }

    #[verifier::type_invariant]
    closed spec fn inv(self) -> bool {
        self.entries@.len() == 0 || self.current_turn < self.entries@.len()
    }

    /// An empty tracker.
    pub fn new() -> (res: Self)
        ensures
            res.entries_seq().len() == 0,
            res.turn() == 0,
    {
        InitiativeTracker { entries: Vec::new(), current_turn: 0 }
    }

    /// Adds an entry and re-sorts by initiative (highest first, ties in the
    /// order they were added); the turn goes back to the top.
    pub fn add_entry(&mut self, name: String, initiative: i32, is_player: bool)
        ensures
            stable_sorted_desc(
                old(self).entries_seq().push(InitiativeEntry { name, initiative, is_player }),
                final(self).entries_seq(),
            ),
            final(self).turn() == 0,
    {
        let entry = InitiativeEntry { name, initiative, is_player };
        let mut entries = Vec::new();
        std::mem::swap(&mut entries, &mut self.entries);
        entries.push(entry);
        stable_sort_by_initiative(&mut entries);
        *self = InitiativeTracker { entries, current_turn: 0 };
    }

    /// The entry whose turn it is; the turn moves to the next one, wrapping
    /// to the top after the last. `None` when the tracker is empty.
    pub fn next_turn(&mut self) -> (res: Option<&InitiativeEntry>)
        ensures
            final(self).entries_seq() == old(self).entries_seq(),
            old(self).entries_seq().len() == 0 ==> res is None && final(self).turn() == old(self).turn(),
            old(self).entries_seq().len() > 0 ==> (res matches Some(e) && *e == old(self).entries_seq()[old(self).turn()]
                && final(self).turn() == (if old(self).turn() + 1 == old(self).entries_seq().len() { 0 } else { old(self).turn() + 1 })),
    {
        proof { use_type_invariant(&*self); }
        if self.entries.is_empty() {
            return None;
        }
        let idx = self.current_turn;
        let n = self.entries.len();
        assert(idx < n);
        self.current_turn = if idx + 1 == n { 0 } else { idx + 1 };
        Some(&self.entries[idx])
    }

    /// Removes the first entry with exactly this name; tells whether there was
    /// one. A turn position past the end goes back to the top.
    pub fn remove_entry(&mut self, name: &str) -> (res: bool)
        ensures
            removal(old(self).entries_seq(), old(self).turn(), name@, res, final(self).entries_seq(), final(self).turn()),
    {
        proof { use_type_invariant(&*self); }
        let mut i: usize = 0;
        while i < self.entries.len()
            invariant
                i <= self.entries@.len(),
                *self == *old(self),
                forall|j: int| 0 <= j < i ==> #[trigger] self.entries@[j].name@ != name@,
            decreases self.entries@.len() - i,
        {
            if str_eq(self.entries[i].name.as_str(), name) {
                let ghost k = i as int;
                assert(old(self).entries_seq()[k].name@ == name@);
                let mut entries = Vec::new();
                std::mem::swap(&mut entries, &mut self.entries);
                entries.remove(i);
                let mut turn = self.current_turn;
                if turn >= entries.len() && !entries.is_empty() {
                    turn = 0;
                }
                *self = InitiativeTracker { entries, current_turn: turn };
                assert(self.entries_seq() == old(self).entries_seq().remove(k));
                return true;
            }
            i = i + 1;
        }
        false
    }

    /// The entries, highest initiative first.
    pub fn get_entries(&self) -> (res: &Vec<InitiativeEntry>)
        ensures
            res@ == self.entries_seq(),
    {
        &self.entries
    }

    /// The lines that show the order: a heading, then one line per entry,
    /// `>>> ` marking the next turn.
    pub fn display_lines(&self) -> (res: Vec<String>)
        ensures
            res@.len() == self.entries_seq().len() + 1,
            res@[0]@ == "Initiative Order:"@,
            forall|i: int| 0 <= i < self.entries_seq().len() ==> #[trigger] res@[i + 1]@ == entry_line(
                self.entries_seq()[i],
                i == self.turn(),
            ),
            res@.map_values(|l: String| l@) == order_lines(self.entries_seq(), self.turn()),
    {
        let mut out: Vec<String> = Vec::new();
        out.push(String::from_str("Initiative Order:"));
        let mut i: usize = 0;
        while i < self.entries.len()
            invariant
                i <= self.entries@.len(),
                out@.len() == i + 1,
                out@[0]@ == "Initiative Order:"@,
                forall|k: int| 0 <= k < i ==> #[trigger] out@[k + 1]@ == entry_line(self.entries@[k], k == self.current_turn),
            decreases self.entries@.len() - i,
        {
            let e = &self.entries[i];
            let mut line = String::from_str(if i == self.current_turn { ">>> " } else { "    " });
            line.append("Initiative ");
            push_signed_decimal(&mut line, e.initiative as i64);
            line.append(": ");
            line.append(e.name.as_str());
            line.append(" ");
            line.append(if e.is_player { "(Player)" } else { "(NPC)" });
            assert(line@ =~= entry_line(*e, i == self.current_turn));
            out.push(line);
            i = i + 1;
        }
        let ghost ls = order_lines(self.entries@, self.current_turn as int);
        let ghost ov = out@.map_values(|l: String| l@);
        assert forall|k: int| 0 <= k < out@.len() implies #[trigger] ov[k] == ls[k] by {
            if k > 0 {
                assert(out@[(k - 1) + 1]@ == entry_line(self.entries@[k - 1], k - 1 == self.current_turn));
            }
        }
        assert(ov =~= ls);
        out
    }
}

/// Removing the first entry named `name` from `e0` (turn `t0`) answers `res`
/// and leaves `e1` (turn `t1`): `res` tells whether there was such an entry;
/// without one nothing changes; with one it alone leaves, and a turn past the
/// new end goes back to the top.
pub open spec fn removal(e0: Seq<InitiativeEntry>, t0: int, name: Seq<char>, res: bool, e1: Seq<InitiativeEntry>, t1: int) -> bool {
    &&& res == exists|i: int| 0 <= i < e0.len() && #[trigger] e0[i].name@ == name
    &&& res ==> exists|i: int| {
        &&& 0 <= i < e0.len()
        &&& e0[i].name@ == name
        &&& forall|j: int| 0 <= j < i ==> #[trigger] e0[j].name@ != name
        &&& e1 == e0.remove(i)
    }
    &&& !res ==> e1 == e0 && t1 == t0
    &&& res ==> t1 == (if t0 >= e1.len() && e1.len() > 0 { 0 } else { t0 })
}

/// The lines that show an initiative order `entries` with the next turn at
/// `turn`: a heading, then one line per entry.
pub open spec fn order_lines(entries: Seq<InitiativeEntry>, turn: int) -> Seq<Seq<char>> {
    seq!["Initiative Order:"@] + Seq::new(entries.len(), |i: int| entry_line(entries[i], i == turn))
}

/// The display line of one entry.
pub open spec fn entry_line(e: InitiativeEntry, current: bool) -> Seq<char> {
    (if current { ">>> "@ } else { "    "@ }) + "Initiative "@ + signed_decimal(e.initiative as int) + ": "@
        + e.name@ + " "@ + (if e.is_player { "(Player)"@ } else { "(NPC)"@ })
}

} // verus!
