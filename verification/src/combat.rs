//! Combat tracking: combatants with hit points and status effects, the
//! initiative order, turns and rounds, damage and saving throws.
use vstd::prelude::*;
use crate::character::{Character, AbilityScore};
use crate::order::{HasInitiative, stable_sort_by_initiative, stable_sorted_desc};
use crate::text::{eq_ignore_ascii_case, str_eq_ignore_ascii_case, str_eq, signed_decimal, push_signed_decimal, decimal, push_decimal, lowercase, to_lowercase};
use crate::character::{ability_name, modifier_text};
use crate::dice::{roll_dice_with_crits, crit_text, lemma_d20, total_of, roll_sum};

verus! {

/// A named condition on a combatant, with rounds remaining (`None` for a
/// permanent one).
#[derive(Debug)]
pub struct StatusEffect {
    pub name: String,
    pub description: Option<String>,
    pub duration: Option<i32>,
}

/// One participant of a fight. Player characters carry their sheet.
#[derive(Debug)]
pub struct Combatant {
    pub name: String,
    pub character_data: Option<Character>,
    pub current_hp: i32,
    pub max_hp: i32,
    pub temp_hp: i32,
    pub ac: i32,
    pub initiative: i32,
    pub is_player: bool,
    pub status_effects: Vec<StatusEffect>,
}

impl HasInitiative for Combatant {
    open spec fn init_key(&self) -> i32 {
        self.initiative
    }

    fn initiative_value(&self) -> (r: i32) {
        self.initiative
    }
}

/// The effects of `s` other than those named `n` (names compared exactly).
pub open spec fn without_status(s: Seq<StatusEffect>, n: Seq<char>) -> Seq<StatusEffect> {
    s.filter(not_named(n))
}

/// The test "is not named `n`".
pub open spec fn not_named(n: Seq<char>) -> spec_fn(StatusEffect) -> bool {
    |e: StatusEffect| e.name@ != n
}

fn filter_status(effects: Vec<StatusEffect>, name: &str) -> (res: Vec<StatusEffect>)
    ensures
        res@ == without_status(effects@, name@),
{
    let ghost orig = effects@;
    let ghost pred = not_named(name@);
    let mut src = effects;
    let mut out: Vec<StatusEffect> = Vec::new();
    let ghost mut done: int = 0;
    assert(orig.take(0) =~= Seq::<StatusEffect>::empty());
    assert(orig.skip(0) =~= orig);
    proof { reveal(Seq::filter); }
    assert(orig.take(0).filter(pred) =~= Seq::<StatusEffect>::empty());
    while src.len() > 0
        invariant
            0 <= done <= orig.len(),
            pred == not_named(name@),
            src@ == orig.skip(done),
            out@ == orig.take(done).filter(pred),
        decreases src@.len(),
    {
        let e = src.remove(0);
        proof {
            assert(orig.skip(done)[0] == e);
            assert(orig[done] == e);
            assert(orig.skip(done).drop_first() =~= orig.skip(done + 1));
            assert(orig.take(done + 1) =~= orig.take(done).push(e));
            orig.take(done).lemma_filter_push(e, pred);
        }
        let ghost ev = e;
        if !str_eq(e.name.as_str(), name) {
            assert(pred(ev));
            out.push(e);
        } else {
            assert(!pred(ev));
        }
        proof {
            assert(out@ == orig.take(done + 1).filter(pred));
            done = done + 1;
        }
    }
    assert(orig.take(done) =~= orig);
    out
}

/// `s` holds an effect named exactly `n`.
pub open spec fn has_status(s: Seq<StatusEffect>, n: Seq<char>) -> bool {
    exists|i: int| 0 <= i < s.len() && #[trigger] s[i].name@ == n
}

impl Combatant {
    /// A player combatant made from a character sheet: HP from the sheet (10
    /// when missing), max HP from the sheet (else the HP as a byte), temporary
    /// HP (0 when missing), AC (10 when missing).
    pub fn from_character(character: Character, initiative: i32) -> (res: Self)
        ensures
            res.name == character.name,
            res.character_data == Some(character),
            res.current_hp == (match character.hp { Some(h) => h, None => 10u8 }) as i32,
            res.max_hp == (match character.max_hp { Some(m) => m, None => (match character.hp { Some(h) => h, None => 10u8 }) }) as i32,
            res.temp_hp == (match character.temp_hp { Some(t) => t, None => 0u8 }) as i32,
            res.ac == (match character.ac { Some(a) => a, None => 10u8 }) as i32,
            res.initiative == initiative,
            res.is_player,
            res.status_effects@.len() == 0,
    {
        let hp: u8 = match character.hp { Some(h) => h, None => 10 };
        let current_hp = hp as i32;
        let max_hp: i32 = match character.max_hp { Some(m) => m as i32, None => current_hp };
        let temp_hp: i32 = match character.temp_hp { Some(t) => t as i32, None => 0 };
        let ac: i32 = match character.ac { Some(a) => a as i32, None => 10 };
        let name = character.name.clone();
        Combatant {
            name,
            character_data: Some(character),
            current_hp,
            max_hp,
            temp_hp,
            ac,
            initiative,
            is_player: true,
            status_effects: Vec::new(),
        }
    }

    /// A non-player combatant at full health.
    pub fn new_npc(name: String, hp: i32, ac: i32, initiative: i32) -> (res: Self)
        ensures
            res.name == name,
            res.character_data is None,
            res.current_hp == hp && res.max_hp == hp && res.temp_hp == 0,
            res.ac == ac && res.initiative == initiative,
            !res.is_player,
            res.status_effects@.len() == 0,
    {
        Combatant {
            name,
            character_data: None,
            current_hp: hp,
            max_hp: hp,
            temp_hp: 0,
            ac,
            initiative,
            is_player: false,
            status_effects: Vec::new(),
        }
    }

    /// Adds a status effect, replacing any effect of the same name.
    pub fn add_status(&mut self, status: StatusEffect)
        ensures
            final(self).status_effects@ == without_status(old(self).status_effects@, status.name@).push(status),
            final(self).name == old(self).name && final(self).current_hp == old(self).current_hp,
            final(self).max_hp == old(self).max_hp && final(self).temp_hp == old(self).temp_hp,
            final(self).ac == old(self).ac && final(self).initiative == old(self).initiative,
            final(self).is_player == old(self).is_player,
            final(self).character_data == old(self).character_data,
    {
        let mut effects = Vec::new();
        std::mem::swap(&mut effects, &mut self.status_effects);
        let mut kept = filter_status(effects, status.name.as_str());
        kept.push(status);
        self.status_effects = kept;
    }

    /// Removes every effect with the given name; tells whether there was one.
    pub fn remove_status(&mut self, status_name: &str) -> (res: bool)
        ensures
            final(self).status_effects@ == without_status(old(self).status_effects@, status_name@),
            res == has_status(old(self).status_effects@, status_name@),
            final(self).name == old(self).name && final(self).current_hp == old(self).current_hp,
            final(self).max_hp == old(self).max_hp && final(self).temp_hp == old(self).temp_hp,
            final(self).ac == old(self).ac && final(self).initiative == old(self).initiative,
            final(self).is_player == old(self).is_player,
            final(self).character_data == old(self).character_data,
    {
        let ghost old_effects = self.status_effects@;
        let count_before = self.status_effects.len();
        let mut effects = Vec::new();
        std::mem::swap(&mut effects, &mut self.status_effects);
        let kept = filter_status(effects, status_name);
        self.status_effects = kept;
        proof {
            let pred = not_named(status_name@);
            old_effects.lemma_filter_len(pred);
            if has_status(old_effects, status_name@) {
                let i = choose|i: int| 0 <= i < old_effects.len() && #[trigger] old_effects[i].name@ == status_name@;
                lemma_filter_drops(old_effects, pred, i);
            } else {
                assert forall|i: int| 0 <= i < old_effects.len() implies pred(#[trigger] old_effects[i]) by {}
                lemma_filter_all(old_effects, pred);
            }
        }
        self.status_effects.len() != count_before
    }
}

proof fn lemma_filter_all<T>(s: Seq<T>, pred: spec_fn(T) -> bool)
    requires
        forall|i: int| 0 <= i < s.len() ==> pred(#[trigger] s[i]),
    ensures
        s.filter(pred) == s,
    decreases s.len(),
{
    reveal(Seq::filter);
    if s.len() > 0 {
        let p = s.drop_last();
        assert forall|i: int| 0 <= i < p.len() implies pred(#[trigger] p[i]) by {
            assert(p[i] == s[i]);
        }
        lemma_filter_all(p, pred);
        assert(pred(s[s.len() - 1]));
        assert(p.push(s.last()) =~= s);
    }
    assert(s.filter(pred) =~= s);
}

proof fn lemma_filter_drops<T>(s: Seq<T>, pred: spec_fn(T) -> bool, i: int)
    requires
        0 <= i < s.len(),
        !pred(s[i]),
    ensures
        s.filter(pred).len() < s.len(),
    decreases s.len(),
{
    reveal(Seq::filter);
    let p = s.drop_last();
    p.lemma_filter_len(pred);
    if i < s.len() - 1 {
        assert(p[i] == s[i]);
        lemma_filter_drops(p, pred, i);
    }
}

/// The name of `c` matches `name` ignoring ASCII case.
pub open spec fn name_matches(c: Combatant, name: Seq<char>) -> bool {
    eq_ignore_ascii_case(c.name@, name)
}

/// `i` is the first position of `s` whose combatant's name matches `name`.
pub open spec fn is_first_named(s: Seq<Combatant>, name: Seq<char>, i: int) -> bool {
    &&& 0 <= i < s.len()
    &&& name_matches(s[i], name)
    &&& forall|j: int| 0 <= j < i ==> !name_matches(#[trigger] s[j], name)
}

/// No combatant of `s` has a name matching `name`.
pub open spec fn none_named(s: Seq<Combatant>, name: Seq<char>) -> bool {
    forall|j: int| 0 <= j < s.len() ==> !name_matches(#[trigger] s[j], name)
}

/// The combatant is skipped when its turn comes: initiative 0 or below.
pub open spec fn skipped(c: Combatant) -> bool {
    c.initiative <= 0
}

/// Position `x` counted around a circle of `n` places (for `x < 2n`).
pub open spec fn around(x: int, n: int) -> int {
    if x < n {
        x
    } else {
        x - n
    }
}

/// From turn `t`, the `k`-th next position holds the first combatant that is
/// not skipped.
pub open spec fn first_active_offset(s: Seq<Combatant>, t: int, k: int) -> bool {
    &&& 0 <= k < s.len()
    &&& !skipped(s[around(t + k, s.len() as int)])
    &&& forall|j: int| 0 <= j < k ==> skipped(#[trigger] s[around(t + j, s.len() as int)])
}

/// `t1` is `t0` after the turn moved on to the next combatant who is not
/// skipped (at offset `k` from the turn position), the position now just
/// past them and the round counted up when it wrapped; the fight keeps its
/// number of combatants.
pub open spec fn turn_moved_on(t0: CombatTracker, t1: CombatTracker) -> bool {
    let s = t0.combatants@;
    let n = s.len() as int;
    let t = t0.current_turn as int;
    let after = t1.current_turn as int;
    let idx = if after == 0 { n - 1 } else { after - 1 };
    let k = if idx >= t { idx - t } else { idx + n - t };
    &&& t1.combatants@.len() == n
    &&& 0 <= after < n
    &&& first_active_offset(s, t, k)
    &&& after == around(t + k + 1, n)
    &&& t1.round_number == t0.round_number + (if t + k + 1 >= n { 1int } else { 0 })
}

/// `t1` is `t0` after the turn stepped back one position: from the top to
/// the last combatant with the round counted down (not below 1), otherwise
/// to the combatant before; the combatants stay as they were.
pub open spec fn turn_moved_back(t0: CombatTracker, t1: CombatTracker) -> bool {
    &&& t1.combatants == t0.combatants
    &&& t0.current_turn == 0 ==> t1.current_turn == t0.combatants@.len() - 1
        && t1.round_number == (if t0.round_number > 1 { t0.round_number - 1 } else { t0.round_number as int })
    &&& t0.current_turn > 0 ==> t1.current_turn == t0.current_turn - 1 && t1.round_number == t0.round_number
}

/// The whole fight: combatants in initiative order, whose turn it is, and the
/// round number.
#[derive(Debug)]
pub struct CombatTracker {
    pub combatants: Vec<Combatant>,
    pub current_turn: usize,
    pub round_number: i32,
}

impl CombatTracker {
    /// The turn position is usable: inside the list, or the list is empty.
    pub open spec fn turn_in_range(self) -> bool {
        self.combatants@.len() == 0 || self.current_turn < self.combatants@.len()
    }

    /// An empty fight at round 1.
    pub fn new() -> (res: Self)
        ensures
            res.combatants@.len() == 0,
            res.current_turn == 0,
            res.round_number == 1,
    {
        CombatTracker { combatants: Vec::new(), current_turn: 0, round_number: 1 }
    }

    /// Adds a combatant and re-sorts by initiative (highest first, ties in
    /// the order they were added); the turn goes back to the top.
    pub fn add_combatant(&mut self, combatant: Combatant)
        ensures
            stable_sorted_desc(old(self).combatants@.push(combatant), final(self).combatants@),
            final(self).current_turn == 0,
            final(self).round_number == old(self).round_number,
    {
        self.combatants.push(combatant);
        self.sort_by_initiative();
    }

    fn sort_by_initiative(&mut self)
        ensures
            stable_sorted_desc(old(self).combatants@, final(self).combatants@),
            final(self).current_turn == 0,
            final(self).round_number == old(self).round_number,
    {
        stable_sort_by_initiative(&mut self.combatants);
        self.current_turn = 0;
    }

    pub(crate) fn find_combatant(&self, name: &str) -> (res: Option<usize>)
        ensures
            match res {
                Some(i) => is_first_named(self.combatants@, name@, i as int),
                None => none_named(self.combatants@, name@),
            },
    {
        let mut i: usize = 0;
        while i < self.combatants.len()
            invariant
                i <= self.combatants@.len(),
                forall|j: int| 0 <= j < i ==> !name_matches(#[trigger] self.combatants@[j], name@),
            decreases self.combatants@.len() - i,
        {
            if str_eq_ignore_ascii_case(self.combatants[i].name.as_str(), name) {
                return Some(i);
            }
            i = i + 1;
        }
        None
    }

    /// The first combatant whose name matches, ignoring ASCII case.
    pub fn get_combatant(&self, name: &str) -> (res: Option<&Combatant>)
        ensures
            match res {
                Some(c) => exists|i: int| is_first_named(self.combatants@, name@, i) && *c == self.combatants@[i],
                None => none_named(self.combatants@, name@),
            },
    {
        match self.find_combatant(name) {
            Some(i) => Some(&self.combatants[i]),
            None => None,
        }
    }

    /// Removes the first combatant whose name matches, ignoring ASCII case;
    /// tells whether one was found. A turn position past the end goes back to
    /// the top.
    pub fn remove_combatant(&mut self, name: &str) -> (res: bool)
        ensures
            res == !none_named(old(self).combatants@, name@),
            res ==> exists|i: int| is_first_named(old(self).combatants@, name@, i)
                && final(self).combatants@ == old(self).combatants@.remove(i),
            !res ==> final(self).combatants@ == old(self).combatants@,
            final(self).current_turn == (if res && old(self).current_turn >= final(self).combatants@.len()
                && final(self).combatants@.len() > 0 { 0 } else { old(self).current_turn }),
            final(self).round_number == old(self).round_number,
    {
        match self.find_combatant(name) {
            Some(pos) => {
                self.combatants.remove(pos);
                if self.current_turn >= self.combatants.len() && !self.combatants.is_empty() {
                    self.current_turn = 0;
                }
                true
            },
            None => false,
        }
    }

    /// Hands the turn to the next combatant who is not skipped (initiative 0
    /// or below) and returns that combatant; the turn position moves just
    /// past them. Each time the position wraps to the top a new round begins.
    /// When everyone is skipped the position goes once around (one new
    /// round) and nothing is returned.
    pub fn next_turn(&mut self) -> (res: Option<&mut Combatant>)
        requires
            old(self).turn_in_range(),
            old(self).round_number < i32::MAX,
        ensures
            res is Some ==> turn_moved_on(*old(self), *final(self)),
            ({
                let s = old(self).combatants@;
                let n = s.len() as int;
                let t = old(self).current_turn as int;
                let after = final(self).current_turn as int;
                let idx = if after == 0 { n - 1 } else { after - 1 };
                let k = if idx >= t { idx - t } else { idx + n - t };
                match res {
                    Some(r) => {
                        &&& 0 <= after < n
                        &&& first_active_offset(s, t, k)
                        &&& idx == around(t + k, n)
                        &&& after == around(t + k + 1, n)
                        &&& *r == s[idx]
                        &&& final(self).combatants@ == s.update(idx, *final(r))
                        &&& final(self).round_number == old(self).round_number + (if t + k + 1 >= n { 1int } else { 0 })
                    },
                    None => {
                        ||| n == 0 && *final(self) == *old(self)
                        ||| {
                            &&& n > 0
                            &&& forall|k: int| 0 <= k < n ==> skipped(#[trigger] s[around(t + k, n)])
                            &&& final(self).combatants == old(self).combatants
                            &&& final(self).current_turn == old(self).current_turn
                            &&& final(self).round_number == old(self).round_number + 1
                        }
                    },
                }
            }),
    {
        if self.combatants.is_empty() {
            return None;
        }
        let ghost s = self.combatants@;
        let ghost orig = self.combatants;
        let ghost t = self.current_turn as int;
        let ghost r0 = self.round_number as int;
        let n = self.combatants.len();
        let mut attempts: usize = 0;
        let mut found: Option<usize> = None;
        while attempts < n
            invariant_except_break
                self.combatants@ == s,
                self.combatants == orig,
                n == s.len(),
                0 <= t < n,
                attempts <= n,
                self.current_turn == around(t + attempts, n as int),
                self.round_number == r0 + (if t + attempts >= n { 1int } else { 0 }),
                r0 < i32::MAX,
                forall|j: int| 0 <= j < attempts ==> skipped(#[trigger] s[around(t + j, n as int)]),
                found is None,
            ensures
                self.combatants@ == s,
                self.combatants == orig,
                n == s.len(),
                0 <= t < n,
                match found {
                    Some(current) => {
                        &&& current == around(t + attempts, n as int)
                        &&& first_active_offset(s, t, attempts as int)
                        &&& self.current_turn == around(t + attempts + 1, n as int)
                        &&& self.round_number == r0 + (if t + attempts + 1 >= n { 1int } else { 0 })
                    },
                    None => {
                        &&& attempts == n
                        &&& self.current_turn == t
                        &&& self.round_number == r0 + 1
                        &&& forall|j: int| 0 <= j < n ==> skipped(#[trigger] s[around(t + j, n as int)])
                    },
                },
            decreases n - attempts,
        {
            let current = self.current_turn;
            if self.combatants[current].initiative > 0 {
                self.current_turn = if current + 1 == n { 0 } else { current + 1 };
                if self.current_turn == 0 {
                    self.round_number += 1;
                }
                found = Some(current);
                break;
            }
            self.current_turn = if current + 1 == n { 0 } else { current + 1 };
            attempts += 1;
            if self.current_turn == 0 {
                self.round_number += 1;
            }
        }
        match found {
            Some(current) => {
                proof {
                    let a = attempts as int;
                    let after = self.current_turn as int;
                    let idx = if after == 0 { n - 1 } else { after - 1 };
                    assert(idx == current);
                    let k = if idx >= t { idx - t } else { idx + n - t };
                    assert(k == a);
                }
                Some(&mut self.combatants[current])
            },
            None => None,
        }
    }

    /// The combatant whose turn it is, for changing in place.
    pub fn get_current_combatant(&mut self) -> (res: Option<&mut Combatant>)
        ensures
            match res {
                Some(r) => {
                    &&& old(self).current_turn < old(self).combatants@.len()
                    &&& *r == old(self).combatants@[old(self).current_turn as int]
                    &&& final(self).combatants@ == old(self).combatants@.update(old(self).current_turn as int, *final(r))
                    &&& final(self).current_turn == old(self).current_turn
                    &&& final(self).round_number == old(self).round_number
                },
                None => old(self).current_turn >= old(self).combatants@.len() && *final(self) == *old(self),
            },
    {
        if self.current_turn < self.combatants.len() {
            Some(&mut self.combatants[self.current_turn])
        } else {
            None
        }
    }

    /// The first combatant whose name matches (ignoring ASCII case), for
    /// changing in place.
    pub fn get_combatant_mut(&mut self, name: &str) -> (res: Option<&mut Combatant>)
        ensures
            match res {
                Some(r) => exists|i: int| {
                    &&& is_first_named(old(self).combatants@, name@, i)
                    &&& *r == old(self).combatants@[i]
                    &&& final(self).combatants@ == old(self).combatants@.update(i, *final(r))
                },
                None => none_named(old(self).combatants@, name@) && *final(self) == *old(self),
            },
            final(self).current_turn == old(self).current_turn,
            final(self).round_number == old(self).round_number,
    {
        match self.find_combatant(name) {
            Some(i) => Some(&mut self.combatants[i]),
            None => None,
        }
    }

    /// Steps back one turn: from the top to the last combatant, going back a
    /// round unless in round 1. Tells whether there was anyone to step to.
    pub fn previous_turn(&mut self) -> (res: bool)
        ensures
            res == (old(self).combatants@.len() > 0),
            res ==> turn_moved_back(*old(self), *final(self)),
            final(self).combatants == old(self).combatants,
            !res ==> final(self).current_turn == old(self).current_turn && final(self).round_number == old(self).round_number,
            res && old(self).current_turn == 0 ==> final(self).current_turn == old(self).combatants@.len() - 1
                && final(self).round_number == (if old(self).round_number > 1 { old(self).round_number - 1 } else { old(self).round_number as int }),
            res && old(self).current_turn > 0 ==> final(self).current_turn == old(self).current_turn - 1
                && final(self).round_number == old(self).round_number,
    {
        if self.combatants.is_empty() {
            return false;
        }
        if self.current_turn == 0 {
            self.current_turn = self.combatants.len() - 1;
            if self.round_number > 1 {
                self.round_number -= 1;
            }
        } else {
            self.current_turn -= 1;
        }
        true
    }
}


/// Truncating division by 4 (`/` on `i32`).
pub open spec fn quarter(m: int) -> int {
    if m >= 0 {
        m / 4
    } else {
        -((-m) / 4)
    }
}

/// Damage can be applied to `c` without arithmetic overflow.
pub open spec fn damage_fits(c: Combatant, damage: i32) -> bool {
    if c.temp_hp > 0 {
        if damage <= c.temp_hp {
            c.temp_hp - damage <= i32::MAX
        } else {
            c.current_hp - (damage - c.temp_hp) >= i32::MIN
        }
    } else {
        i32::MIN <= c.current_hp - damage <= i32::MAX
    }
}

/// At least 0.
pub open spec fn floor0(x: int) -> int {
    if x < 0 {
        0
    } else {
        x
    }
}

/// `c` after taking `damage`: temporary HP absorb it first; HP never drop
/// below 0.
pub open spec fn damaged(c: Combatant, damage: i32) -> Combatant {
    if c.temp_hp > 0 {
        if damage <= c.temp_hp {
            Combatant { temp_hp: (c.temp_hp - damage) as i32, ..c }
        } else {
            Combatant {
                temp_hp: 0,
                current_hp: floor0(c.current_hp - (damage - c.temp_hp)) as i32,
                ..c
            }
        }
    } else {
        Combatant { current_hp: floor0(c.current_hp - damage) as i32, ..c }
    }
}

/// Law: without temporary hit points, damage of 0 or more takes the hit
/// points down by the damage but not below 0: what is left is
/// `max(0, hp - damage)`. Damage of at least the current hit points leaves
/// exactly 0, and the report then ends with "💀 DOWN!". Nothing else of the
/// combatant changes.
pub proof fn law_damage_takes_hit_points(c: Combatant, damage: i32)
    requires
        c.temp_hp <= 0,
        damage >= 0,
    ensures
        damaged(c, damage).current_hp == (if damage >= c.current_hp { 0 } else { c.current_hp - damage }),
        damage >= c.current_hp ==> damaged(c, damage).current_hp == 0
            && health_status(damaged(c, damage).current_hp as int, c.max_hp as int) == "💀 DOWN!"@,
        damage < c.current_hp ==> damaged(c, damage).current_hp + damage == c.current_hp,
        damaged(c, damage) == (Combatant { current_hp: damaged(c, damage).current_hp, ..c }),
{
}

/// Law: when no combatant is skipped, stepping back right after the turn
/// moved on restores the turn position and the round, as long as rounds are
/// counted from 1.
pub proof fn law_previous_turn_undoes_next_turn(t0: CombatTracker, t1: CombatTracker, t2: CombatTracker)
    requires
        t0.combatants@.len() > 0,
        t0.current_turn < t0.combatants@.len(),
        t0.round_number >= 1,
        forall|i: int| 0 <= i < t0.combatants@.len() ==> !skipped(#[trigger] t0.combatants@[i]),
        turn_moved_on(t0, t1),
        turn_moved_back(t1, t2),
    ensures
        t2.current_turn == t0.current_turn,
        t2.round_number == t0.round_number,
        t2.combatants == t1.combatants,
{
    let s = t0.combatants@;
    let n = s.len() as int;
    let t = t0.current_turn as int;
    let after = t1.current_turn as int;
    let idx = if after == 0 { n - 1 } else { after - 1 };
    let k = if idx >= t { idx - t } else { idx + n - t };
    assert(first_active_offset(s, t, k));
    if k > 0 {
        assert(skipped(s[around(t + 0, n)]));
        assert(around(t + 0, n) == t);
    }
    assert(k == 0);
}

/// Damage is taken by the temporary hit points first: damage they can
/// absorb leaves the hit points as they were, and only what exceeds them
/// reaches the hit points, which then never go below 0 and the temporary
/// hit points run out.
pub proof fn law_temporary_hp_absorb_first(c: Combatant, damage: i32)
    requires
        damage >= 0,
        damage_fits(c, damage),
    ensures
        c.temp_hp > 0 && damage <= c.temp_hp ==> damaged(c, damage).current_hp == c.current_hp
            && damaged(c, damage).temp_hp == c.temp_hp - damage,
        c.temp_hp > 0 && damage > c.temp_hp ==> damaged(c, damage).temp_hp == 0
            && damaged(c, damage).current_hp == floor0(c.current_hp - (damage - c.temp_hp)),
        c.current_hp >= 0 ==> damaged(c, damage).current_hp >= 0,
        damaged(c, damage).current_hp <= c.current_hp || c.current_hp < 0,
        damaged(c, damage).max_hp == c.max_hp && damaged(c, damage).name == c.name,
{
}

/// The condition shown after plain damage: down at 0 HP, bloodied at a
/// quarter of max HP or less.
pub open spec fn health_status(hp: int, max_hp: int) -> Seq<char> {
    if hp == 0 {
        "💀 DOWN!"@
    } else if hp <= quarter(max_hp) {
        "🩸 Bloodied"@
    } else {
        Seq::empty()
    }
}

/// The report of damage dealt to `c`, named `target` as the user wrote it.
pub open spec fn damage_message(target: Seq<char>, c: Combatant, damage: i32) -> Seq<char> {
    let after = damaged(c, damage);
    if c.temp_hp > 0 {
        if damage <= c.temp_hp {
            "💛 "@ + target + " takes "@ + signed_decimal(damage as int)
                + " damage to temporary HP (Temp HP: "@ + signed_decimal(after.temp_hp as int)
                + "/"@ + signed_decimal(c.current_hp as int) + ")"@
        } else {
            "💛❤️ "@ + target + " takes "@ + signed_decimal(damage as int) + " damage ("@
                + signed_decimal(c.temp_hp as int) + " to temp HP, "@ + signed_decimal(
                damage - c.temp_hp,
            ) + " to HP). HP: "@ + signed_decimal(after.current_hp as int) + "/"@
                + signed_decimal(c.max_hp as int) + ", Temp: 0"@
        }
    } else {
        "❤️ "@ + target + " takes "@ + signed_decimal(damage as int) + " damage. HP: "@
            + signed_decimal(after.current_hp as int) + "/"@ + signed_decimal(c.max_hp as int)
            + " "@ + health_status(after.current_hp as int, c.max_hp as int)
    }
}

/// The message for a name that is not in the fight.
pub open spec fn target_not_found(name: Seq<char>) -> Seq<char> {
    "Target '"@ + name + "' not found in combat"@
}

/// The message for a combatant that is not in the fight.
pub open spec fn combatant_not_found(name: Seq<char>) -> Seq<char> {
    "Combatant '"@ + name + "' not found in combat"@
}

/// The ability a saving-throw keyword names (`str`/`strength`, `dex`, ...).
pub open spec fn ability_keyword(s: Seq<char>) -> Option<AbilityScore> {
    if s == "str"@ || s == "strength"@ {
        Some(AbilityScore::Strength)
    } else if s == "dex"@ || s == "dexterity"@ {
        Some(AbilityScore::Dexterity)
    } else if s == "con"@ || s == "constitution"@ {
        Some(AbilityScore::Constitution)
    } else if s == "wis"@ || s == "wisdom"@ {
        Some(AbilityScore::Wisdom)
    } else if s == "int"@ || s == "intelligence"@ {
        Some(AbilityScore::Intelligence)
    } else if s == "cha"@ || s == "charisma"@ {
        Some(AbilityScore::Charisma)
    } else {
        None
    }
}

/// The saving-throw modifier of a combatant: from the sheet of a player,
/// 0 for others.
pub open spec fn save_modifier(c: Combatant, a: AbilityScore) -> int {
    match c.character_data {
        Some(ch) => ch.modifier_for(a),
        None => 0,
    }
}

/// The report of a saving throw with the d20 showing `roll`.
pub open spec fn saving_throw_text(name: Seq<char>, a: AbilityScore, modifier: int, roll: u8) -> Seq<char> {
    let total = roll + modifier;
    let line = "🎲 "@ + name + " makes a "@ + ability_name(a) + " saving throw: "@ + signed_decimal(total)
        + " (d20: "@ + decimal(roll as nat) + ", modifier: "@ + modifier_text(modifier) + ") = "@
        + signed_decimal(total);
    match crit_text("1d20"@, seq![roll]) {
        Some(c) => line + "\n"@ + c,
        None => line,
    }
}

/// The message for an unknown saving-throw ability.
pub open spec fn invalid_ability(ability: Seq<char>) -> Seq<char> {
    "Invalid ability score: "@ + ability + ". Use str, dex, con, wis, int, or cha"@
}

fn concat3(a: &str, b: &str, c: &str) -> (res: String)
    ensures
        res@ == a@ + b@ + c@,
{
    let mut s = String::from_str(a);
    s.append(b);
    s.append(c);
    s
}

fn quarter_of(m: i32) -> (res: i32)
    ensures
        res == quarter(m as int),
{
    if m >= 0 {
        m / 4
    } else {
        let p: i64 = 0 - (m as i64);
        (0 - p / 4) as i32
    }
}

fn push_i32(s: &mut String, n: i32)
    ensures
        final(s)@ == old(s)@ + signed_decimal(n as int),
{
    push_signed_decimal(s, n as i64);
}

/// The report of a saving throw with the d20 showing `roll` (see
/// `saving_throw_text`).
pub fn saving_throw_message(name: &str, ability: AbilityScore, modifier: i8, roll: u8, crit: Option<String>) -> (res: String)
    requires
        match crit_text("1d20"@, seq![roll]) {
            Some(c) => crit matches Some(m) && m@ == c,
            None => crit is None,
        },
    ensures
        res@ == saving_throw_text(name@, ability, modifier as int, roll),
{
    let total: i32 = roll as i32 + modifier as i32;
    let mut s = String::from_str("🎲 ");
    s.append(name);
    s.append(" makes a ");
    s.append(ability.name());
    s.append(" saving throw: ");
    push_i32(&mut s, total);
    s.append(" (d20: ");
    push_decimal(&mut s, roll as u64);
    s.append(", modifier: ");
    if modifier >= 0 {
        s.append("+");
        push_decimal(&mut s, modifier as u64);
    } else {
        s.append("-");
        push_decimal(&mut s, (0 - modifier as i32) as u64);
    }
    s.append(") = ");
    push_i32(&mut s, total);
    proof {
        reveal_strlit("+");
        reveal_strlit("-");
    }
    let ghost line = s@;
    assert(line =~= "🎲 "@ + name@ + " makes a "@ + ability_name(ability) + " saving throw: "@ + signed_decimal(total as int)
        + " (d20: "@ + decimal(roll as nat) + ", modifier: "@ + modifier_text(modifier as int) + ") = "@
        + signed_decimal(total as int));
    match crit {
        Some(m) => {
            s.append("\n");
            s.append(m.as_str());
        },
        None => {},
    }
    s
}

impl CombatTracker {
    /// Deals damage to the first combatant whose name matches (ignoring ASCII
    /// case): temporary HP absorb it first, HP never drop below 0. Gives the
    /// report, or an error when no one matches.
    pub fn apply_damage(&mut self, target_name: &str, damage: i32) -> (res: Result<String, String>)
        requires
            forall|i: int| is_first_named(old(self).combatants@, target_name@, i) ==> damage_fits(old(self).combatants@[i], damage),
        ensures
            final(self).current_turn == old(self).current_turn,
            final(self).round_number == old(self).round_number,
            none_named(old(self).combatants@, target_name@) ==> (res matches Err(e) && e@ == target_not_found(target_name@)
                && final(self).combatants@ == old(self).combatants@),
            forall|i: int| is_first_named(old(self).combatants@, target_name@, i) ==> (res matches Ok(m)
                && m@ == damage_message(target_name@, old(self).combatants@[i], damage)
                && final(self).combatants@ == old(self).combatants@.update(i, damaged(old(self).combatants@[i], damage))),
    {
        let i = match self.find_combatant(target_name) {
            Some(i) => i,
            None => {
                return Err(concat3("Target '", target_name, "' not found in combat"));
            },
        };
        let ghost c = self.combatants@[i as int];
        assert(forall|j: int| is_first_named(self.combatants@, target_name@, j) ==> j == i) by {
            assert forall|j: int| is_first_named(self.combatants@, target_name@, j) implies j == i by {
                if j < i {
                } else if j > i {
                    assert(!name_matches(self.combatants@[i as int], target_name@));
                }
            }
        }
        let temp = self.combatants[i].temp_hp;
        let hp = self.combatants[i].current_hp;
        let max_hp = self.combatants[i].max_hp;
        let mut msg: String;
        if temp > 0 {
            if damage <= temp {
                let new_temp = temp - damage;
                self.combatants[i].temp_hp = new_temp;
                msg = String::from_str("💛 ");
                msg.append(target_name);
                msg.append(" takes ");
                push_i32(&mut msg, damage);
                msg.append(" damage to temporary HP (Temp HP: ");
                push_i32(&mut msg, new_temp);
                msg.append("/");
                push_i32(&mut msg, hp);
                msg.append(")");
            } else {
                let remaining = damage - temp;
                let new_hp = if hp - remaining < 0 { 0 } else { hp - remaining };
                self.combatants[i].temp_hp = 0;
                self.combatants[i].current_hp = new_hp;
                msg = String::from_str("💛❤️ ");
                msg.append(target_name);
                msg.append(" takes ");
                push_i32(&mut msg, damage);
                msg.append(" damage (");
                push_i32(&mut msg, temp);
                msg.append(" to temp HP, ");
                push_i32(&mut msg, remaining);
                msg.append(" to HP). HP: ");
                push_i32(&mut msg, new_hp);
                msg.append("/");
                push_i32(&mut msg, max_hp);
                msg.append(", Temp: 0");
            }
        } else {
            let new_hp = if hp - damage < 0 { 0 } else { hp - damage };
            self.combatants[i].current_hp = new_hp;
            let status = if new_hp == 0 {
                "💀 DOWN!"
            } else if new_hp <= quarter_of(max_hp) {
                "🩸 Bloodied"
            } else {
                ""
            };
            msg = String::from_str("❤️ ");
            msg.append(target_name);
            msg.append(" takes ");
            push_i32(&mut msg, damage);
            msg.append(" damage. HP: ");
            push_i32(&mut msg, new_hp);
            msg.append("/");
            push_i32(&mut msg, max_hp);
            msg.append(" ");
            msg.append(status);
            proof { reveal_strlit(""); }
            assert(status@ == health_status(new_hp as int, max_hp as int));
        }
        assert(self.combatants@ =~= old(self).combatants@.update(i as int, damaged(c, damage)));
        assert(msg@ =~= damage_message(target_name@, c, damage));
        Ok(msg)
    }

    /// Rolls a saving throw (d20 plus the ability modifier; players use their
    /// sheet, others 0) for the first combatant whose name matches, ignoring
    /// ASCII case. The ability is given as `str`, `strength`, `dex`, ... in
    /// any case. Gives the report, or an error for an unknown combatant or
    /// ability.
    pub fn make_saving_throw(&self, combatant_name: &str, ability: &str) -> (res: Result<String, String>)
        ensures
            none_named(self.combatants@, combatant_name@) ==> (res matches Err(e) && e@ == combatant_not_found(combatant_name@)),
            forall|i: int| is_first_named(self.combatants@, combatant_name@, i) ==> match ability_keyword(lowercase(ability@)) {
                None => res matches Err(e) && e@ == invalid_ability(ability@),
                Some(a) => res matches Ok(m) && exists|roll: u8| 1 <= roll <= 20
                    && m@ == saving_throw_text(combatant_name@, a, save_modifier(self.combatants@[i], a), roll),
            },
    {
        let i = match self.find_combatant(combatant_name) {
            Some(i) => i,
            None => {
                return Err(concat3("Combatant '", combatant_name, "' not found in combat"));
            },
        };
        assert(forall|j: int| is_first_named(self.combatants@, combatant_name@, j) ==> j == i) by {
            assert forall|j: int| is_first_named(self.combatants@, combatant_name@, j) implies j == i by {
                if j > i {
                    assert(!name_matches(self.combatants@[i as int], combatant_name@));
                }
            }
        }
        let lower = to_lowercase(ability);
        let l = lower.as_str();
        let ability_type = if str_eq(l, "str") || str_eq(l, "strength") {
            AbilityScore::Strength
        } else if str_eq(l, "dex") || str_eq(l, "dexterity") {
            AbilityScore::Dexterity
        } else if str_eq(l, "con") || str_eq(l, "constitution") {
            AbilityScore::Constitution
        } else if str_eq(l, "wis") || str_eq(l, "wisdom") {
            AbilityScore::Wisdom
        } else if str_eq(l, "int") || str_eq(l, "intelligence") {
            AbilityScore::Intelligence
        } else if str_eq(l, "cha") || str_eq(l, "charisma") {
            AbilityScore::Charisma
        } else {
            return Err(concat3("Invalid ability score: ", ability, ". Use str, dex, con, wis, int, or cha"));
        };
        let modifier: i8 = match &self.combatants[i].character_data {
            Some(ch) => ch.get_ability_modifier(ability_type),
            None => 0,
        };
        proof { lemma_d20(); }
        match roll_dice_with_crits("1d20") {
            Ok((rolls, base_roll, crit_message)) => {
                proof {
                    assert(rolls@.len() == 1);
                    assert(rolls@ =~= seq![rolls@[0]]);
                }
                let roll = rolls[0];
                let msg = saving_throw_message(combatant_name, ability_type, modifier, roll, crit_message);
                assert(ability_keyword(lowercase(ability@)) == Some(ability_type));
                assert(modifier as int == save_modifier(self.combatants@[i as int], ability_type));
                assert(1 <= roll <= 20);
                assert(msg@ == saving_throw_text(combatant_name@, ability_type, save_modifier(self.combatants@[i as int], ability_type), roll));
                Ok(msg)
            },
            Err(e) => Err(e),
        }
    }
}

} // verus!
