//! The combat tracker of the line-by-line interface: what each typed command
//! does to the fight and what is printed in answer. Reading lines, searching
//! the reference site and writing files are left to the caller, which is told
//! what to do next.
use vstd::prelude::*;
use crate::text::{lowercase, to_lowercase, str_eq, decimal, signed_decimal, push_decimal, trim, trimmed,
    parse_i32_spec, parse_i32, push_signed_decimal};
use crate::words::{words, views, split_words, join_with, join_from, push_line, push_all};
use crate::combat::{skipped, around, first_active_offset};
use crate::combat::{CombatTracker, Combatant, StatusEffect, is_first_named, none_named, name_matches,
    target_not_found, combatant_not_found, ability_keyword, save_modifier, damage_fits, damaged, damage_message,
    saving_throw_text, invalid_ability, without_status, has_status};
use crate::combat_view::{stats_card, card_drawable, initiative_order};
use crate::character::{Character, AbilityScore, modifier_text};
use crate::order::stable_sorted_desc;
use crate::text::{eq_ignore_ascii_case, str_eq_ignore_ascii_case};
use crate::tui::{d20_crit, roll_d20};
use crate::tui_combat::{first_named, combatant_missing, status_added, status_removed, status_names,
    first_combatant, replace_at, status_names_of, signed};

verus! {

/// What the caller does after a command of the combat tracker.
#[derive(Debug, PartialEq, Eq)]
pub enum CombatFollowUp {
    /// Read the next command.
    Stay,
    /// Look the query up in the reference site, then come back.
    Search(String),
    /// The attack on this target hit: ask for the damage.
    AskDamage(String),
    /// Ask for the details of a combatant of this name to join the fight.
    Insert(String),
    /// Write the record of the NPC of this name to its file.
    SaveNpc(String),
    /// Leave the tracker, saving the player characters.
    Quit,
}

/// The answer to a command: whether the console is cleared first, the lines
/// printed, and what the caller does next.
#[derive(Debug)]
pub struct CombatReply {
    pub clear_first: bool,
    pub lines: Vec<String>,
    pub follow_up: CombatFollowUp,
}

/// The fight can go on: the turn position is usable, another round can
/// start, and every combatant's card can be drawn.
pub open spec fn fight_ready(t: CombatTracker) -> bool {
    &&& t.turn_in_range()
    &&& t.round_number < i32::MAX
    &&& forall|i: int| 0 <= i < t.combatants@.len() ==> card_drawable(#[trigger] t.combatants@[i])
}

/// Whether a combatant's card can be drawn (see `card_drawable`).
pub fn can_draw_card(c: &Combatant) -> (r: bool)
    ensures
        r == card_drawable(*c),
{
    match &c.character_data {
        None => true,
        Some(ch) => match ch.passive_perception {
            Some(_) => true,
            None => {
                let wm = ch.get_wisdom_modifier() as i32;
                let pb: u8 = match ch.prof_bonus {
                    Some(p) => p,
                    None => 2,
                };
                let pbi: i32 = if pb < 128 { pb as i32 } else { pb as i32 - 256 };
                10 + wm <= 127 && -128 <= 10 + wm + pbi && 10 + wm + pbi <= 127
            },
        },
    }
}

/// Whether the fight can go on (see `fight_ready`).
pub fn fight_is_ready(t: &CombatTracker) -> (r: bool)
    ensures
        r == fight_ready(*t),
{
    if !(t.combatants.len() == 0 || t.current_turn < t.combatants.len()) || t.round_number == i32::MAX {
        return false;
    }
    let mut i: usize = 0;
    while i < t.combatants.len()
        invariant
            i <= t.combatants@.len(),
            forall|k: int| 0 <= k < i ==> card_drawable(#[trigger] t.combatants@[k]),
        decreases t.combatants@.len() - i,
    {
        if !can_draw_card(&t.combatants[i]) {
            return false;
        }
        i = i + 1;
    }
    true
}

/// The name of the combatant whose turn it is, if the position holds one.
pub open spec fn current_name(t: CombatTracker) -> Option<Seq<char>> {
    if t.current_turn < t.combatants@.len() {
        Some(t.combatants@[t.current_turn as int].name@)
    } else {
        None
    }
}

/// The name a status command means by `target`: `self` (in any case) is the
/// combatant whose turn it is, else the name as typed; an error line when
/// there is no such combatant.
pub open spec fn status_target(t: CombatTracker, target: Seq<char>) -> Result<Seq<char>, Seq<char>> {
    if lowercase(target) == "self"@ {
        match current_name(t) {
            Some(n) => Ok(n),
            None => Err("❌ Cannot determine current combatant for 'self'"@),
        }
    } else {
        Ok(target)
    }
}

/// How long an effect lasts, as the status list shows it.
pub open spec fn remaining_text(d: Option<i32>) -> Seq<char> {
    match d {
        Some(r) => " ("@ + signed_decimal(r as int) + " rounds remaining)"@,
        None => " (permanent)"@,
    }
}

/// The summary line of a combatant with effects.
pub open spec fn summary_line(c: Combatant) -> Seq<char> {
    "  "@ + c.name@ + ": "@ + status_names(c.status_effects@)
}

/// The summary lines of the combatants with effects, in order.
pub open spec fn summary_lines(s: Seq<Combatant>) -> Seq<Seq<char>>
    decreases s.len(),
{
    if s.len() == 0 {
        seq![]
    } else {
        summary_lines(s.drop_last()) + if s.last().status_effects@.len() > 0 {
            seq![summary_line(s.last())]
        } else {
            seq![]
        }
    }
}

/// The lines that list one combatant's effects, named as `n`.
pub open spec fn effect_list(c: Combatant, n: Seq<char>) -> Seq<Seq<char>> {
    if c.status_effects@.len() == 0 {
        seq!["📋 "@ + n + " has no status effects"@]
    } else {
        seq!["📋 Status effects for "@ + n + ":"@] + Seq::new(
            c.status_effects@.len(),
            |j: int| "  • "@ + c.status_effects@[j].name@ + remaining_text(c.status_effects@[j].duration),
        )
    }
}

/// What `status <args>` does in the combat tracker: `list` shows the
/// effects of one combatant or of all; `add` and `remove` change one
/// combatant's effects (an added effect lasts until removed).
pub open spec fn status_reply(t0: CombatTracker, args: Seq<Seq<char>>, t1: CombatTracker, lines: Seq<Seq<char>>) -> bool {
    let same = t1 == t0;
    if args.len() == 0 {
        same && lines == seq!["Usage: status [add|remove|list] [self|name] <status_name>"@]
    } else {
        let action = lowercase(args[0]);
        if action == "list"@ {
            &&& same
            &&& if args.len() >= 2 {
                match status_target(t0, args[1]) {
                    Err(m) => lines == seq![m],
                    Ok(n) => match first_named(t0.combatants@, n) {
                        Some(i) => lines == effect_list(t0.combatants@[i], n),
                        None => lines == seq![combatant_missing(n)],
                    },
                }
            } else {
                lines == seq!["📋 Status Effects Summary:"@] + summary_lines(t0.combatants@)
            }
        } else if args.len() < 3 {
            same && lines == seq!["Usage: status [add|remove] [self|name] <status_name>"@]
        } else {
            let status = join_with(args.skip(2), seq![' ']);
            match status_target(t0, args[1]) {
                Err(m) => same && lines == seq![m],
                Ok(n) => if action == "add"@ {
                    match first_named(t0.combatants@, n) {
                        None => same && lines == seq![combatant_missing(n)],
                        Some(i) => {
                            &&& t1.current_turn == t0.current_turn
                            &&& t1.round_number == t0.round_number
                            &&& t1.combatants@.len() == t0.combatants@.len()
                            &&& t1.combatants@ == t0.combatants@.update(i, t1.combatants@[i])
                            &&& status_added(t0.combatants@[i], status, None, t1.combatants@[i])
                            &&& lines == seq!["✅ Added status '"@ + status + "' to "@ + n]
                        },
                    }
                } else if action == "remove"@ {
                    match first_named(t0.combatants@, n) {
                        None => same && lines == seq![combatant_missing(n)],
                        Some(i) => {
                            &&& t1.current_turn == t0.current_turn
                            &&& t1.round_number == t0.round_number
                            &&& t1.combatants@.len() == t0.combatants@.len()
                            &&& t1.combatants@ == t0.combatants@.update(i, t1.combatants@[i])
                            &&& status_removed(t0.combatants@[i], status, t1.combatants@[i])
                            &&& lines == seq![
                                if has_status(t0.combatants@[i].status_effects@, status) {
                                    "✅ Removed status '"@ + status + "' from "@ + n
                                } else {
                                    "❌ Status '"@ + status + "' not found on "@ + n
                                },
                            ]
                        },
                    }
                } else {
                    same && lines == seq!["❌ Invalid action '"@ + action + "'. Use 'add', 'remove', or 'list'"@]
                },
            }
        }
    }
}

/// Resolves the target of a status command (see `status_target`).
fn resolve_status_target(t: &CombatTracker, target: &str) -> (res: Result<String, String>)
    ensures
        match status_target(*t, target@) {
            Ok(n) => res matches Ok(s) && s@ == n,
            Err(m) => res matches Err(e) && e@ == m,
        },
{
    let low = to_lowercase(target);
    if str_eq(low.as_str(), "self") {
        if t.current_turn < t.combatants.len() {
            Ok(t.combatants[t.current_turn].name.clone())
        } else {
            Err(String::from_str("❌ Cannot determine current combatant for 'self'"))
        }
    } else {
        Ok(String::from_str(target))
    }
}

fn one_line(s: String) -> (res: Vec<String>)
    ensures
        views(res@) == seq![s@],
{
    let mut v: Vec<String> = Vec::new();
    v.push(s);
    assert(views(v@) =~= seq![s@]);
    v
}

fn literal_line(s: &str) -> (res: Vec<String>)
    ensures
        views(res@) == seq![s@],
{
    one_line(String::from_str(s))
}

fn missing_line(n: &str) -> (res: Vec<String>)
    ensures
        views(res@) == seq![combatant_missing(n@)],
{
    let mut s = String::from_str("❌ Combatant '");
    s.append(n);
    s.append("' not found");
    one_line(s)
}

/// The lines listing one combatant's effects (see `effect_list`).
fn effect_list_lines(c: &Combatant, n: &str) -> (res: Vec<String>)
    ensures
        views(res@) == effect_list(*c, n@),
{
    if c.status_effects.len() == 0 {
        let mut s = String::from_str("📋 ");
        s.append(n);
        s.append(" has no status effects");
        return one_line(s);
    }
    let mut head = String::from_str("📋 Status effects for ");
    head.append(n);
    head.append(":");
    let mut v: Vec<String> = Vec::new();
    v.push(head);
    let ghost h = views(v@);
    let ghost rows = Seq::new(
        c.status_effects@.len(),
        |j: int| "  • "@ + c.status_effects@[j].name@ + remaining_text(c.status_effects@[j].duration),
    );
    let mut j: usize = 0;
    while j < c.status_effects.len()
        invariant
            j <= c.status_effects@.len(),
            rows == Seq::new(
                c.status_effects@.len(),
                |j: int| "  • "@ + c.status_effects@[j].name@ + remaining_text(c.status_effects@[j].duration),
            ),
            views(v@) == h + rows.take(j as int),
        decreases c.status_effects@.len() - j,
    {
        let e = &c.status_effects[j];
        let mut l = String::from_str("  • ");
        l.append(e.name.as_str());
        match e.duration {
            Some(d) => {
                l.append(" (");
                signed(&mut l, d);
                l.append(" rounds remaining)");
            },
            None => {
                l.append(" (permanent)");
            },
        }
        assert(l@ =~= rows[j as int]);
        let ghost before = views(v@);
        v.push(l);
        assert(views(v@) =~= before.push(rows[j as int]));
        assert(rows.take(j + 1) =~= rows.take(j as int).push(rows[j as int]));
        j = j + 1;
    }
    assert(rows.take(j as int) =~= rows);
    v
}

/// The summary lines of all combatants with effects (see `summary_lines`).
fn summary_lines_of(t: &CombatTracker) -> (res: Vec<String>)
    ensures
        views(res@) == summary_lines(t.combatants@),
{
    let mut v: Vec<String> = Vec::new();
    let mut i: usize = 0;
    while i < t.combatants.len()
        invariant
            i <= t.combatants@.len(),
            views(v@) == summary_lines(t.combatants@.take(i as int)),
        decreases t.combatants@.len() - i,
    {
        let c = &t.combatants[i];
        let ghost before = views(v@);
        assert(t.combatants@.take(i + 1).drop_last() =~= t.combatants@.take(i as int));
        if c.status_effects.len() > 0 {
            let mut l = String::from_str("  ");
            l.append(c.name.as_str());
            l.append(": ");
            let names = status_names_of(&c.status_effects);
            l.append(names.as_str());
            v.push(l);
            assert(views(v@) =~= before + seq![summary_line(*c)]);
        } else {
            assert(views(v@) =~= before + Seq::<Seq<char>>::empty());
        }
        i = i + 1;
    }
    assert(t.combatants@.take(i as int) =~= t.combatants@);
    v
}

/// Carries out `status <args>` in the combat tracker (see `status_reply`).
pub fn status_command(t: &mut CombatTracker, args: &Vec<String>) -> (lines: Vec<String>)
    ensures
        status_reply(*old(t), views(args@), *final(t), views(lines@)),
{
    let ghost a = views(args@);
    assert(a.len() == args@.len());
    if args.len() == 0 {
        return literal_line("Usage: status [add|remove|list] [self|name] <status_name>");
    }
    assert(a[0] == args@[0]@);
    let action = to_lowercase(args[0].as_str());
    if str_eq(action.as_str(), "list") {
        if args.len() >= 2 {
            assert(a[1] == args@[1]@);
            match resolve_status_target(t, args[1].as_str()) {
                Err(m) => one_line(m),
                Ok(n) => match first_combatant(t, n.as_str()) {
                    Some(i) => effect_list_lines(&t.combatants[i], n.as_str()),
                    None => missing_line(n.as_str()),
                },
            }
        } else {
            let mut v = literal_line("📋 Status Effects Summary:");
            let rest = summary_lines_of(t);
            push_all(&mut v, rest);
            v
        }
    } else if args.len() < 3 {
        literal_line("Usage: status [add|remove] [self|name] <status_name>")
    } else {
        assert(a[1] == args@[1]@);
        let status = join_from(args, 2, " ");
        proof {
            reveal_strlit(" ");
            assert(" "@ =~= seq![' ']);
        }
        match resolve_status_target(t, args[1].as_str()) {
            Err(m) => one_line(m),
            Ok(n) => {
                if str_eq(action.as_str(), "add") {
                    match first_combatant(t, n.as_str()) {
                        None => missing_line(n.as_str()),
                        Some(i) => {
                            let ghost t0 = *t;
                            let mut c = t.combatants.remove(i);
                            let ghost c0 = c;
                            c.add_status(StatusEffect { name: status.clone(), description: None, duration: None });
                            assert(c.status_effects@.drop_last() =~= without_status(c0.status_effects@, status@));
                            t.combatants.insert(i, c);
                            assert(t.combatants@ =~= t0.combatants@.update(i as int, t.combatants@[i as int]));
                            assert(status_added(t0.combatants@[i as int], status@, None, t.combatants@[i as int]));
                            let mut l = String::from_str("✅ Added status '");
                            l.append(status.as_str());
                            l.append("' to ");
                            l.append(n.as_str());
                            one_line(l)
                        },
                    }
                } else if str_eq(action.as_str(), "remove") {
                    match first_combatant(t, n.as_str()) {
                        None => missing_line(n.as_str()),
                        Some(i) => {
                            let ghost t0 = *t;
                            let mut c = t.combatants.remove(i);
                            let found = c.remove_status(status.as_str());
                            t.combatants.insert(i, c);
                            assert(t.combatants@ =~= t0.combatants@.update(i as int, t.combatants@[i as int]));
                            assert(status_removed(t0.combatants@[i as int], status@, t.combatants@[i as int]));
                            let l = if found {
                                let mut l = String::from_str("✅ Removed status '");
                                l.append(status.as_str());
                                l.append("' from ");
                                l.append(n.as_str());
                                l
                            } else {
                                let mut l = String::from_str("❌ Status '");
                                l.append(status.as_str());
                                l.append("' not found on ");
                                l.append(n.as_str());
                                l
                            };
                            one_line(l)
                        },
                    }
                } else {
                    let mut l = String::from_str("❌ Invalid action '");
                    l.append(action.as_str());
                    l.append("'. Use 'add', 'remove', or 'list'");
                    one_line(l)
                }
            },
        }
    }
}

/// The lines of an attack roll `r` against armour class `ac`; on a hit the
/// damage is asked for.
pub open spec fn attack_text(r: u8, ac: i32) -> Seq<Seq<char>> {
    seq![""@, "⚔️  Attack Roll: "@ + decimal(r as nat) + " (d20: "@ + decimal(r as nat) + ")"@] + d20_crit(r) + seq![
        "🎯 Target AC: "@ + signed_decimal(ac as int),
    ] + if r >= ac {
        seq!["💥 HIT! The attack connects!"@, "🎲 Enter damage amount (or type 'roll' to use dice mode):"@]
    } else {
        seq!["🛡️  MISS! The attack fails to connect."@]
    }
}

/// `lines` show an attack roll `r` (a d20) against armour class `ac`, and
/// `hit` tells whether it hits.
pub open spec fn attack_rolled(r: u8, ac: i32, lines: Seq<Seq<char>>, hit: bool) -> bool {
    &&& 1 <= r <= 20
    &&& hit == (r >= ac)
    &&& lines == attack_text(r, ac)
}

/// What `attack <target>` answers: a d20 against the armour class of the
/// first combatant of that name (ignoring ASCII case).
pub open spec fn attack_reply(t: CombatTracker, target: Seq<char>, lines: Seq<Seq<char>>, hit: bool) -> bool {
    match first_named(t.combatants@, target) {
        None => !hit && lines == seq!["❌ Target '"@ + target + "' not found in combat"@],
        Some(i) => exists|r: u8| #[trigger] attack_rolled(r, t.combatants@[i].ac, lines, hit),
    }
}

/// Rolls an attack against `target` (see `attack_reply`); tells whether it
/// hit.
pub fn attack_command(t: &CombatTracker, target: &str) -> (res: (Vec<String>, bool))
    ensures
        attack_reply(*t, target@, views(res.0@), res.1),
{
    match first_combatant(t, target) {
        None => {
            let mut l = String::from_str("❌ Target '");
            l.append(target);
            l.append("' not found in combat");
            (one_line(l), false)
        },
        Some(i) => {
            let ac = t.combatants[i].ac;
            let (r, crit) = roll_d20();
            let mut v: Vec<String> = Vec::new();
            v.push(String::from_str(""));
            let mut l = String::from_str("⚔️  Attack Roll: ");
            push_decimal(&mut l, r as u64);
            l.append(" (d20: ");
            push_decimal(&mut l, r as u64);
            l.append(")");
            v.push(l);
            let ghost h1 = views(v@);
            assert(h1 =~= seq![""@, "⚔️  Attack Roll: "@ + decimal(r as nat) + " (d20: "@ + decimal(r as nat) + ")"@]) by {
                reveal_strlit("");
            }
            let ghost cv = views(crit@);
            push_all(&mut v, crit);
            let mut l2 = String::from_str("🎯 Target AC: ");
            signed(&mut l2, ac);
            v.push(l2);
            let ghost h2 = views(v@);
            assert(h2 =~= h1 + cv + seq!["🎯 Target AC: "@ + signed_decimal(ac as int)]);
            let hit = (r as i32) >= ac;
            if hit {
                v.push(String::from_str("💥 HIT! The attack connects!"));
                v.push(String::from_str("🎲 Enter damage amount (or type 'roll' to use dice mode):"));
                assert(views(v@) =~= h2 + seq!["💥 HIT! The attack connects!"@, "🎲 Enter damage amount (or type 'roll' to use dice mode):"@]);
            } else {
                v.push(String::from_str("🛡️  MISS! The attack fails to connect."));
                assert(views(v@) =~= h2 + seq!["🛡️  MISS! The attack fails to connect."@]);
            }
            assert(views(v@) =~= attack_text(r, ac));
            assert(attack_rolled(r, ac, views(v@), hit));
            (v, hit)
        },
    }
}

/// Whether damage can be dealt to `c` without leaving the range of its
/// hit points (see `damage_fits`).
fn damage_fits_of(c: &Combatant, damage: i32) -> (r: bool)
    ensures
        r == damage_fits(*c, damage),
{
    let temp = c.temp_hp as i64;
    let hp = c.current_hp as i64;
    let d = damage as i64;
    if temp > 0 {
        if d <= temp {
            temp - d <= 0x7fff_ffff
        } else {
            hp - (d - temp) >= -0x8000_0000
        }
    } else {
        -0x8000_0000 <= hp - d && hp - d <= 0x7fff_ffff
    }
}

/// What typing an amount of damage for `target` does: the trimmed line read
/// as a number is dealt to the first combatant of that name. A line that is
/// not a number, or damage that would take the hit points out of their
/// range, is refused.
pub open spec fn damage_reply(t0: CombatTracker, target: Seq<char>, input: Seq<char>, t1: CombatTracker, lines: Seq<Seq<char>>) -> bool {
    match parse_i32_spec(trim(input)) {
        None => t1 == t0 && lines == seq!["❌ Invalid damage amount"@],
        Some(d) => match first_named(t0.combatants@, target) {
            None => t1 == t0 && lines == seq!["❌ Target '"@ + target + "' not found in combat"@],
            Some(i) => if damage_fits(t0.combatants@[i], d) {
                &&& t1.current_turn == t0.current_turn
                &&& t1.round_number == t0.round_number
                &&& t1.combatants@ == t0.combatants@.update(i, damaged(t0.combatants@[i], d))
                &&& lines == seq![damage_message(target, t0.combatants@[i], d)]
            } else {
                t1 == t0 && lines == seq!["❌ Invalid damage amount"@]
            },
        },
    }
}

/// Deals the damage typed for `target` (see `damage_reply`).
pub fn damage_command(t: &mut CombatTracker, target: &str, input: &str) -> (lines: Vec<String>)
    ensures
        damage_reply(*old(t), target@, input@, *final(t), views(lines@)),
{
    let v = trimmed(input);
    match parse_i32(v.as_str()) {
        None => literal_line("❌ Invalid damage amount"),
        Some(d) => match first_combatant(t, target) {
            None => {
                let mut l = String::from_str("❌ Target '");
                l.append(target);
                l.append("' not found in combat");
                one_line(l)
            },
            Some(i) => {
                if !damage_fits_of(&t.combatants[i], d) {
                    return literal_line("❌ Invalid damage amount");
                }
                proof {
                    let k = choose|k: int| is_first_named(t.combatants@, target@, k);
                    assert(is_first_named(t.combatants@, target@, i as int));
                    lemma_first_unique_all(t.combatants@, target@, i as int);
                }
                match t.apply_damage(target, d) {
                    Ok(m) => one_line(m),
                    Err(e) => {
                        let mut l = String::from_str("❌ ");
                        l.append(e.as_str());
                        one_line(l)
                    },
                }
            },
        },
    }
}

/// A match at `j` means there is a first match.
proof fn lemma_some_first(s: Seq<Combatant>, n: Seq<char>, j: int)
    requires
        0 <= j < s.len(),
        name_matches(s[j], n),
    ensures
        first_named(s, n) is Some,
    decreases j,
{
    if forall|k: int| 0 <= k < j ==> !name_matches(#[trigger] s[k], n) {
        assert(is_first_named(s, n, j));
    } else {
        let k = choose|k: int| 0 <= k < j && !!name_matches(#[trigger] s[k], n);
        lemma_some_first(s, n, k);
    }
}

/// Every first match is the one at `i`.
proof fn lemma_first_unique_all(s: Seq<Combatant>, n: Seq<char>, i: int)
    requires
        is_first_named(s, n, i),
    ensures
        forall|j: int| #[trigger] is_first_named(s, n, j) ==> j == i,
{
    assert forall|j: int| #[trigger] is_first_named(s, n, j) implies j == i by {
        if j < i {
            assert(!name_matches(s[j], n));
        } else if j > i {
            assert(!name_matches(s[i], n));
        }
    }
}

/// What the first answer after a hit does: `roll` (in any case) only says
/// to enter the damage by hand and asks again; anything else is the damage
/// (see `damage_reply`).
pub open spec fn damage_prompt_reply(
    t0: CombatTracker,
    target: Seq<char>,
    input: Seq<char>,
    t1: CombatTracker,
    lines: Seq<Seq<char>>,
    again: bool,
) -> bool {
    if lowercase(trim(input)) == "roll"@ {
        &&& again
        &&& t1 == t0
        &&& lines == seq!["💡 Use the dice mode in another terminal or enter damage manually."@, "Enter damage amount:"@]
    } else {
        !again && damage_reply(t0, target, input, t1, lines)
    }
}

/// Handles the first answer after a hit (see `damage_prompt_reply`): tells
/// whether the damage is to be asked for once more.
pub fn damage_prompt(t: &mut CombatTracker, target: &str, input: &str) -> (res: (Vec<String>, bool))
    ensures
        damage_prompt_reply(*old(t), target@, input@, *final(t), views(res.0@), res.1),
{
    let v = trimmed(input);
    let low = to_lowercase(v.as_str());
    if str_eq(low.as_str(), "roll") {
        let mut lines: Vec<String> = Vec::new();
        lines.push(String::from_str("💡 Use the dice mode in another terminal or enter damage manually."));
        lines.push(String::from_str("Enter damage amount:"));
        assert(views(lines@) =~= seq!["💡 Use the dice mode in another terminal or enter damage manually."@, "Enter damage amount:"@]);
        (lines, true)
    } else {
        (damage_command(t, target, input), false)
    }
}

/// The line a saving throw of `name` with the ability word `ability` prints.
pub open spec fn save_line(t: CombatTracker, name: Seq<char>, ability: Seq<char>, line: Seq<char>) -> bool {
    match first_named(t.combatants@, name) {
        None => line == "❌ "@ + combatant_not_found(name),
        Some(i) => match ability_keyword(lowercase(ability)) {
            None => line == "❌ "@ + invalid_ability(ability),
            Some(a) => exists|roll: u8| 1 <= roll <= 20 && line == #[trigger] saving_throw_text(
                name,
                a,
                save_modifier(t.combatants@[i], a),
                roll,
            ),
        },
    }
}

/// Rolls the saving throw and gives its line (see `save_line`).
fn save_throw_line(t: &CombatTracker, name: &str, ability: &str) -> (res: String)
    ensures
        save_line(*t, name@, ability@, res@),
{
    let found = first_combatant(t, name);
    proof {
        match found {
            Some(i) => {
                let k = choose|k: int| is_first_named(t.combatants@, name@, k);
                assert(is_first_named(t.combatants@, name@, i as int));
                lemma_first_unique_all(t.combatants@, name@, i as int);
            },
            None => {
                assert(none_named(t.combatants@, name@)) by {
                    assert forall|j: int| 0 <= j < t.combatants@.len() implies !name_matches(#[trigger] t.combatants@[j], name@) by {
                        if name_matches(t.combatants@[j], name@) {
                            lemma_some_first(t.combatants@, name@, j);
                        }
                    }
                }
            },
        }
    }
    match t.make_saving_throw(name, ability) {
        Ok(m) => m,
        Err(e) => {
            let mut l = String::from_str("❌ ");
            l.append(e.as_str());
            l
        },
    }
}

/// `t1` is `t0` after the turn passed to `who` (see `next_turn`): the next
/// combatant that is not skipped, or nobody when all are.
pub open spec fn turn_taken(t0: CombatTracker, t1: CombatTracker, who: Option<Combatant>) -> bool {
    let s = t0.combatants@;
    let n = s.len() as int;
    let t = t0.current_turn as int;
    let after = t1.current_turn as int;
    let idx = if after == 0 { n - 1 } else { after - 1 };
    let k = if idx >= t { idx - t } else { idx + n - t };
    match who {
        Some(c) => {
            &&& 0 <= after < n
            &&& first_active_offset(s, t, k)
            &&& idx == around(t + k, n)
            &&& after == around(t + k + 1, n)
            &&& c == s[idx]
            &&& t1.combatants@ == s
            &&& t1.round_number == t0.round_number + (if t + k + 1 >= n { 1int } else { 0 })
        },
        None => {
            ||| n == 0 && t1 == t0
            ||| {
                &&& n > 0
                &&& forall|j: int| 0 <= j < n ==> skipped(#[trigger] s[around(t + j, n)])
                &&& t1.combatants == t0.combatants
                &&& t1.current_turn == t0.current_turn
                &&& t1.round_number == t0.round_number + 1
            }
        },
    }
}

/// The announcement of a new round, when the round number went up.
pub open spec fn round_lines(t0: CombatTracker, t1: CombatTracker) -> Seq<Seq<char>> {
    if t1.round_number > t0.round_number {
        seq![""@, "🔄 Starting Round "@ + signed_decimal(t1.round_number as int)]
    } else {
        seq![]
    }
}

/// The lines that announce `who`'s turn after `intro`, with their card.
pub open spec fn turn_lines(intro: Seq<char>, who: Option<Combatant>) -> Seq<Seq<char>> {
    match who {
        Some(c) => seq![""@, intro + c.name@ + "'s turn!"@] + stats_card(c),
        None => seq!["❌ No combatants available for turns"@],
    }
}

/// Passes the turn; gives the announcement of a new round, whether someone
/// got the turn, and the lines that show them (see `turn_taken`).
fn pass_turn(t: &mut CombatTracker, intro: &str) -> (res: (Vec<String>, bool))
    requires
        fight_ready(*old(t)),
    ensures
        exists|who: Option<Combatant>| #[trigger] turn_taken(*old(t), *final(t), who)
            && views(res.0@) == round_lines(*old(t), *final(t)) + (match who {
                Some(c) => seq![""@, intro@ + c.name@ + "'s turn!"@] + stats_card(c),
                None => seq![],
            })
            && res.1 == (who is Some),
{
    let ghost t0 = *t;
    let r0 = t.round_number;
    let mut shown: Vec<String> = Vec::new();
    let mut found = false;
    let ghost mut who: Option<Combatant> = None;
    match t.next_turn() {
        Some(c) => {
            proof {
                who = Some(*c);
            }
            shown.push(String::from_str(""));
            let mut l = String::from_str(intro);
            l.append(c.name.as_str());
            l.append("'s turn!");
            shown.push(l);
            let card = c.stats_card_lines();
            push_all(&mut shown, card);
            found = true;
        },
        None => {},
    }
    if found {
        assert(t.combatants@ =~= t0.combatants@);
    }
    assert(turn_taken(t0, *t, who));
    let mut v: Vec<String> = Vec::new();
    if t.round_number > r0 {
        v.push(String::from_str(""));
        let mut l = String::from_str("🔄 Starting Round ");
        signed(&mut l, t.round_number);
        v.push(l);
        assert(views(v@) =~= round_lines(t0, *t)) by {
            reveal_strlit("");
        }
    } else {
        assert(views(v@) =~= round_lines(t0, *t));
    }
    let ghost head = views(v@);
    let ghost body = views(shown@);
    push_all(&mut v, shown);
    (v, found)
}

/// The banner printed when the fight begins.
pub open spec fn combat_banner() -> Seq<Seq<char>> {
    seq![
        ""@,
        "⚔️  COMBAT MODE ACTIVATED ⚔️"@,
        "═══════════════════════════════════════════════════════════"@,
        "Available commands:"@,
        "  📊 stats [name] - Show character stats"@,
        "  ⚔️  attack <target> - Roll attack vs target's AC"@,
        "  🎭 status [add|remove|list] [self|name] <status> - Manage status effects"@,
        "  🎲 save [ability] [self|name] - Make saving throw (e.g., save wis Gandalf)"@,
        "  🔍 search <query> - Search D&D 5e API (returns to combat after)"@,
        "  ➡️  next|continue - Advance to next combatant"@,
        "  ⬅️  back - Go back to previous combatant's turn"@,
        "  ➕ insert <name> - Add new combatant mid-fight"@,
        "  🗑️  remove <name> - Remove combatant from combat"@,
        "  💾 save <npc_name> - Save NPC to npcs/ directory"@,
        "  🔍 show|list - Display current initiative order"@,
        "  ❓ help - Show this help"@,
        "  🚪 quit - Exit combat mode (auto-saves characters)"@,
        "═══════════════════════════════════════════════════════════"@,
    ]
}

fn combat_banner_lines() -> (res: Vec<String>)
    ensures
        views(res@) == combat_banner(),
{
    let mut v: Vec<String> = Vec::new();
    v.push(String::from_str(""));
    v.push(String::from_str("⚔️  COMBAT MODE ACTIVATED ⚔️"));
    v.push(String::from_str("═══════════════════════════════════════════════════════════"));
    v.push(String::from_str("Available commands:"));
    v.push(String::from_str("  📊 stats [name] - Show character stats"));
    v.push(String::from_str("  ⚔️  attack <target> - Roll attack vs target's AC"));
    v.push(String::from_str("  🎭 status [add|remove|list] [self|name] <status> - Manage status effects"));
    v.push(String::from_str("  🎲 save [ability] [self|name] - Make saving throw (e.g., save wis Gandalf)"));
    v.push(String::from_str("  🔍 search <query> - Search D&D 5e API (returns to combat after)"));
    v.push(String::from_str("  ➡️  next|continue - Advance to next combatant"));
    v.push(String::from_str("  ⬅️  back - Go back to previous combatant's turn"));
    v.push(String::from_str("  ➕ insert <name> - Add new combatant mid-fight"));
    v.push(String::from_str("  🗑️  remove <name> - Remove combatant from combat"));
    v.push(String::from_str("  💾 save <npc_name> - Save NPC to npcs/ directory"));
    v.push(String::from_str("  🔍 show|list - Display current initiative order"));
    v.push(String::from_str("  ❓ help - Show this help"));
    v.push(String::from_str("  🚪 quit - Exit combat mode (auto-saves characters)"));
    v.push(String::from_str("═══════════════════════════════════════════════════════════"));
    assert(views(v@) =~= combat_banner());
    v
}

/// The help of the combat tracker.
pub open spec fn combat_cli_help() -> Seq<Seq<char>> {
    seq![
        "Combat Mode Commands:"@,
        "  stats [name] - Show character stats"@,
        "  attack <target> - Roll d20 attack vs target's AC"@,
        "  status [add|remove|list] [self|name] <status> - Manage status effects"@,
        "  search <query> - Search D&D 5e API (returns to combat after)"@,
        "  save [ability] [self|name] - Make saving throw (e.g., save wis Gandalf)"@,
        "  save <npc_name> - Save NPC stats to npcs/ directory"@,
        "  next|continue - Advance to next combatant"@,
        "  back - Go back to previous combatant's turn"@,
        "  insert <name> - Add new combatant mid-fight"@,
        "  remove <name> - Remove combatant from combat loop"@,
        "  show|list - Display current initiative order"@,
        "  quit - Exit combat mode (auto-saves player characters)"@,
    ]
}

fn combat_cli_help_lines() -> (res: Vec<String>)
    ensures
        views(res@) == combat_cli_help(),
{
    let mut v: Vec<String> = Vec::new();
    v.push(String::from_str("Combat Mode Commands:"));
    v.push(String::from_str("  stats [name] - Show character stats"));
    v.push(String::from_str("  attack <target> - Roll d20 attack vs target's AC"));
    v.push(String::from_str("  status [add|remove|list] [self|name] <status> - Manage status effects"));
    v.push(String::from_str("  search <query> - Search D&D 5e API (returns to combat after)"));
    v.push(String::from_str("  save [ability] [self|name] - Make saving throw (e.g., save wis Gandalf)"));
    v.push(String::from_str("  save <npc_name> - Save NPC stats to npcs/ directory"));
    v.push(String::from_str("  next|continue - Advance to next combatant"));
    v.push(String::from_str("  back - Go back to previous combatant's turn"));
    v.push(String::from_str("  insert <name> - Add new combatant mid-fight"));
    v.push(String::from_str("  remove <name> - Remove combatant from combat loop"));
    v.push(String::from_str("  show|list - Display current initiative order"));
    v.push(String::from_str("  quit - Exit combat mode (auto-saves player characters)"));
    assert(views(v@) =~= combat_cli_help());
    v
}

/// `t1` is `t0` stepped back one turn (see `previous_turn`), when there is
/// anyone to step back to.
pub open spec fn turn_back(t0: CombatTracker, t1: CombatTracker) -> bool {
    &&& t1.combatants == t0.combatants
    &&& t0.current_turn == 0 ==> t1.current_turn == t0.combatants@.len() - 1
        && t1.round_number == (if t0.round_number > 1 { t0.round_number - 1 } else { t0.round_number as int })
    &&& t0.current_turn > 0 ==> t1.current_turn == t0.current_turn - 1 && t1.round_number == t0.round_number
}

/// `t1` is `t0` after removing the first combatant named `name` (ignoring
/// ASCII case), `res` telling whether there was one (see `remove_combatant`).
pub open spec fn combatant_removed(t0: CombatTracker, name: Seq<char>, res: bool, t1: CombatTracker) -> bool {
    &&& res == !none_named(t0.combatants@, name)
    &&& res ==> exists|i: int| is_first_named(t0.combatants@, name, i) && t1.combatants@ == t0.combatants@.remove(i)
    &&& !res ==> t1.combatants@ == t0.combatants@
    &&& t1.current_turn == (if res && t0.current_turn >= t1.combatants@.len() && t1.combatants@.len() > 0 { 0 } else { t0.current_turn })
    &&& t1.round_number == t0.round_number
}

/// Whom a saving throw is for: the third word, else the combatant whose
/// turn it is; `self` means the combatant whose turn it is.
pub open spec fn save_target(t: CombatTracker, ws: Seq<Seq<char>>) -> Result<Seq<char>, Seq<char>> {
    let named = if ws.len() >= 3 {
        Ok(ws[2])
    } else {
        match current_name(t) {
            Some(n) => Ok(n),
            None => Err("❌ No current combatant for saving throw"@),
        }
    };
    match named {
        Err(m) => Err(m),
        Ok(n) => status_target(t, n),
    }
}

/// What `save ...` answers: with an ability word, a saving throw; with any
/// other word, the NPC of that name is to be written to its file.
pub open spec fn save_reply(t: CombatTracker, ws: Seq<Seq<char>>, lines: Seq<Seq<char>>, f: CombatFollowUp) -> bool {
    if ws.len() >= 2 {
        if ability_keyword(lowercase(ws[1])) is Some {
            &&& f == CombatFollowUp::Stay
            &&& match save_target(t, ws) {
                Err(m) => lines == seq![m],
                Ok(n) => lines.len() == 1 && save_line(t, n, ws[1], lines[0]),
            }
        } else {
            lines.len() == 0 && (f matches CombatFollowUp::SaveNpc(n) && n@ == ws[1])
        }
    } else {
        &&& f == CombatFollowUp::Stay
        &&& lines == seq![
            "Usage: save [ability] [self|name] for saving throws, or save <npc_name> for NPC saving"@,
            "Examples: save wis Gandalf, save dex self, save Orc"@,
        ]
    }
}

/// What `back` does: the turn steps back and the combatant whose turn it is
/// is shown on a cleared console; with nobody in the fight it is refused.
pub open spec fn back_reply(t0: CombatTracker, t1: CombatTracker, clear: bool, lines: Seq<Seq<char>>) -> bool {
    if t0.combatants@.len() > 0 {
        &&& clear
        &&& turn_back(t0, t1)
        &&& t1.current_turn < t1.combatants@.len()
        &&& lines == turn_lines("⬅️  Going back to "@, Some(t1.combatants@[t1.current_turn as int]))
    } else {
        !clear && t1 == t0 && lines == seq!["❌ Cannot go back further"@]
    }
}

/// What a command typed in the combat tracker does. The command is the
/// first word, in lower case; `t0` is the fight before and `t1` after,
/// `clear` tells whether the console is cleared before `lines` are printed,
/// and `f` is what the caller does next.
pub open spec fn combat_reply(
    t0: CombatTracker,
    input: Seq<char>,
    t1: CombatTracker,
    clear: bool,
    lines: Seq<Seq<char>>,
    f: CombatFollowUp,
) -> bool {
    let ws = words(input);
    let cmd = lowercase(first_word(ws));
    if cmd == "stats"@ {
        &&& !clear && f == CombatFollowUp::Stay && t1 == t0
        &&& lines == if ws.len() >= 2 {
            match first_named(t0.combatants@, ws[1]) {
                Some(i) => stats_card(t0.combatants@[i]),
                None => seq![combatant_missing(ws[1])],
            }
        } else {
            seq!["Usage: stats <name>"@]
        }
    } else if cmd == "search"@ {
        &&& !clear && t1 == t0
        &&& if ws.len() >= 2 {
            lines.len() == 0 && (f matches CombatFollowUp::Search(q) && q@ == join_with(ws.skip(1), seq![' ']))
        } else {
            f == CombatFollowUp::Stay && lines == seq!["Usage: search <query>"@, "Example: search fireball"@]
        }
    } else if cmd == "attack"@ {
        &&& !clear && t1 == t0
        &&& if ws.len() >= 2 {
            exists|hit: bool| #[trigger] attack_reply(t0, ws[1], lines, hit) && if hit {
                f matches CombatFollowUp::AskDamage(n) && n@ == ws[1]
            } else {
                f == CombatFollowUp::Stay
            }
        } else {
            f == CombatFollowUp::Stay && lines == seq!["Usage: attack <target>"@]
        }
    } else if cmd == "status"@ {
        !clear && f == CombatFollowUp::Stay && status_reply(t0, ws.skip(1), t1, lines)
    } else if cmd == "next"@ || cmd == "continue"@ {
        &&& clear && f == CombatFollowUp::Stay
        &&& exists|who: Option<Combatant>| #[trigger] turn_taken(t0, t1, who)
            && lines == round_lines(t0, t1) + turn_lines("🎯 It's "@, who)
    } else if cmd == "back"@ {
        f == CombatFollowUp::Stay && back_reply(t0, t1, clear, lines)
    } else if cmd == "insert"@ {
        &&& !clear && t1 == t0
        &&& if ws.len() >= 2 {
            lines.len() == 0 && (f matches CombatFollowUp::Insert(n) && n@ == ws[1])
        } else {
            f == CombatFollowUp::Stay && lines == seq!["Usage: insert <combatant_name>"@]
        }
    } else if cmd == "remove"@ {
        &&& !clear && f == CombatFollowUp::Stay
        &&& if ws.len() >= 2 {
            exists|res: bool| #[trigger] combatant_removed(t0, ws[1], res, t1) && lines == if res {
                seq!["✅ Removed "@ + ws[1] + " from combat"@] + initiative_order(t1)
            } else {
                seq!["❌ Could not find "@ + ws[1] + " in combat"@]
            }
        } else {
            t1 == t0 && lines == seq!["Usage: remove <name>"@]
        }
    } else if cmd == "save"@ {
        !clear && t1 == t0 && save_reply(t0, ws, lines, f)
    } else if cmd == "show"@ || cmd == "list"@ {
        !clear && f == CombatFollowUp::Stay && t1 == t0 && lines == initiative_order(t0)
    } else if cmd == "quit"@ || cmd == "q"@ {
        !clear && f == CombatFollowUp::Quit && t1 == t0 && lines == seq!["💀 Exiting combat mode..."@]
    } else if cmd == "help"@ || cmd == "h"@ {
        !clear && f == CombatFollowUp::Stay && t1 == t0 && lines == combat_cli_help()
    } else {
        &&& !clear && f == CombatFollowUp::Stay && t1 == t0
        &&& lines == seq!["❌ Unknown command '"@ + first_word(ws) + "'. Type 'help' for available commands."@]
    }
}

/// The first word of a line, or nothing.
pub open spec fn first_word(ws: Seq<Seq<char>>) -> Seq<char> {
    if ws.len() == 0 { seq![] } else { ws[0] }
}

fn reply(clear_first: bool, lines: Vec<String>, follow_up: CombatFollowUp) -> (res: CombatReply)
    ensures
        res.clear_first == clear_first,
        res.lines == lines,
        res.follow_up == follow_up,
{
    CombatReply { clear_first, lines, follow_up }
}

fn stay(lines: Vec<String>) -> (res: CombatReply)
    ensures
        !res.clear_first,
        res.lines == lines,
        res.follow_up == CombatFollowUp::Stay,
{
    reply(false, lines, CombatFollowUp::Stay)
}

/// Carries out a command typed in the combat tracker (see `combat_reply`).
pub fn combat_command(t: &mut CombatTracker, input: &str) -> (res: CombatReply)
    requires
        fight_ready(*old(t)),
    ensures
        combat_reply(*old(t), input@, *final(t), res.clear_first, views(res.lines@), res.follow_up),
{
    let parts = split_words(input);
    let ghost ws = views(parts@);
    assert(ws.len() == parts@.len());
    let first: String = if parts.len() > 0 { parts[0].clone() } else { String::new() };
    assert(first@ == first_word(ws)) by {
        if parts.len() > 0 {
            assert(ws[0] == parts@[0]@);
        } else {
            assert(first@ =~= Seq::<char>::empty());
        }
    }
    if parts.len() >= 2 {
        assert(ws[1] == parts@[1]@);
    }
    if parts.len() >= 3 {
        assert(ws[2] == parts@[2]@);
    }
    let cmd = to_lowercase(first.as_str());
    proof {
        if parts.len() == 0 {
            assert(crate::text::all_ascii(first@));
            assert(cmd@ =~= Seq::<char>::empty());
        }
    }
    let c = cmd.as_str();
    if str_eq(c, "stats") {
        if parts.len() >= 2 {
            match first_combatant(t, parts[1].as_str()) {
                Some(i) => stay(t.combatants[i].stats_card_lines()),
                None => stay(missing_line(parts[1].as_str())),
            }
        } else {
            stay(literal_line("Usage: stats <name>"))
        }
    } else if str_eq(c, "search") {
        if parts.len() >= 2 {
            let q = join_from(&parts, 1, " ");
            proof {
                reveal_strlit(" ");
                assert(" "@ =~= seq![' ']);
            }
            let v: Vec<String> = Vec::new();
            assert(views(v@) =~= Seq::<Seq<char>>::empty());
            reply(false, v, CombatFollowUp::Search(q))
        } else {
            let mut v: Vec<String> = Vec::new();
            v.push(String::from_str("Usage: search <query>"));
            v.push(String::from_str("Example: search fireball"));
            assert(views(v@) =~= seq!["Usage: search <query>"@, "Example: search fireball"@]);
            stay(v)
        }
    } else if str_eq(c, "attack") {
        if parts.len() >= 2 {
            let (lines, hit) = attack_command(t, parts[1].as_str());
            assert(attack_reply(*t, ws[1], views(lines@), hit));
            if hit {
                reply(false, lines, CombatFollowUp::AskDamage(parts[1].clone()))
            } else {
                stay(lines)
            }
        } else {
            stay(literal_line("Usage: attack <target>"))
        }
    } else if str_eq(c, "status") {
        proof {
            reveal_strlit("status");
        }
        let mut rest: Vec<String> = Vec::new();
        let mut k: usize = 1;
        assert(views(rest@) =~= ws.subrange(1, 1));
        while k < parts.len()
            invariant
                1 <= k <= parts@.len(),
                views(rest@) == ws.subrange(1, k as int),
                ws == views(parts@),
                ws.len() == parts@.len(),
            decreases parts@.len() - k,
        {
            let ghost before = views(rest@);
            rest.push(parts[k].clone());
            assert(ws[k as int] == parts@[k as int]@);
            assert(views(rest@) =~= before.push(ws[k as int]));
            assert(views(rest@) =~= ws.subrange(1, k + 1));
            k = k + 1;
        }
        assert(ws.skip(1) =~= ws.subrange(1, k as int));
        let lines = status_command(t, &rest);
        stay(lines)
    } else if str_eq(c, "next") || str_eq(c, "continue") {
        let (mut lines, found) = pass_turn(t, "🎯 It's ");
        if !found {
            let ghost before = views(lines@);
            lines.push(String::from_str("❌ No combatants available for turns"));
            assert(views(lines@) =~= before + seq!["❌ No combatants available for turns"@]);
        }
        reply(true, lines, CombatFollowUp::Stay)
    } else if str_eq(c, "back") {
        let ghost t0 = *t;
        if t.previous_turn() {
            let i = t.current_turn;
            let mut v: Vec<String> = Vec::new();
            v.push(String::from_str(""));
            let mut l = String::from_str("⬅️  Going back to ");
            l.append(t.combatants[i].name.as_str());
            l.append("'s turn!");
            v.push(l);
            let card = t.combatants[i].stats_card_lines();
            push_all(&mut v, card);
            assert(views(v@) =~= turn_lines("⬅️  Going back to "@, Some(t.combatants@[i as int]))) by {
                reveal_strlit("");
            }
            reply(true, v, CombatFollowUp::Stay)
        } else {
            stay(literal_line("❌ Cannot go back further"))
        }
    } else if str_eq(c, "insert") {
        if parts.len() >= 2 {
            let v: Vec<String> = Vec::new();
            assert(views(v@) =~= Seq::<Seq<char>>::empty());
            reply(false, v, CombatFollowUp::Insert(parts[1].clone()))
        } else {
            stay(literal_line("Usage: insert <combatant_name>"))
        }
    } else if str_eq(c, "remove") {
        if parts.len() >= 2 {
            let ghost t0 = *t;
            let name = parts[1].as_str();
            let removed = t.remove_combatant(name);
            assert(combatant_removed(t0, ws[1], removed, *t));
            if removed {
                let mut l = String::from_str("✅ Removed ");
                l.append(name);
                l.append(" from combat");
                let mut v = one_line(l);
                let order = t.initiative_order_lines();
                push_all(&mut v, order);
                stay(v)
            } else {
                let mut l = String::from_str("❌ Could not find ");
                l.append(name);
                l.append(" in combat");
                stay(one_line(l))
            }
        } else {
            stay(literal_line("Usage: remove <name>"))
        }
    } else if str_eq(c, "save") {
        if parts.len() >= 2 {
            let word = to_lowercase(parts[1].as_str());
            if ability_word(word.as_str()) {
                let named: Result<String, String> = if parts.len() >= 3 {
                    Ok(parts[2].clone())
                } else if t.current_turn < t.combatants.len() {
                    Ok(t.combatants[t.current_turn].name.clone())
                } else {
                    Err(String::from_str("❌ No current combatant for saving throw"))
                };
                let target = match named {
                    Err(m) => Err(m),
                    Ok(n) => resolve_status_target(t, n.as_str()),
                };
                match target {
                    Err(m) => stay(one_line(m)),
                    Ok(n) => {
                        let line = save_throw_line(t, n.as_str(), parts[1].as_str());
                        stay(one_line(line))
                    },
                }
            } else {
                let v: Vec<String> = Vec::new();
                assert(views(v@) =~= Seq::<Seq<char>>::empty());
                reply(false, v, CombatFollowUp::SaveNpc(parts[1].clone()))
            }
        } else {
            let mut v: Vec<String> = Vec::new();
            v.push(String::from_str("Usage: save [ability] [self|name] for saving throws, or save <npc_name> for NPC saving"));
            v.push(String::from_str("Examples: save wis Gandalf, save dex self, save Orc"));
            assert(views(v@) =~= seq![
                "Usage: save [ability] [self|name] for saving throws, or save <npc_name> for NPC saving"@,
                "Examples: save wis Gandalf, save dex self, save Orc"@,
            ]);
            stay(v)
        }
    } else if str_eq(c, "show") || str_eq(c, "list") {
        stay(t.initiative_order_lines())
    } else if str_eq(c, "quit") || str_eq(c, "q") {
        reply(false, literal_line("💀 Exiting combat mode..."), CombatFollowUp::Quit)
    } else if str_eq(c, "help") || str_eq(c, "h") {
        stay(combat_cli_help_lines())
    } else {
        let mut l = String::from_str("❌ Unknown command '");
        l.append(first.as_str());
        l.append("'. Type 'help' for available commands.");
        stay(one_line(l))
    }
}

/// Whether a (lower-case) word names an ability for a saving throw.
fn ability_word(w: &str) -> (r: bool)
    ensures
        r == (ability_keyword(w@) is Some),
{
    str_eq(w, "str") || str_eq(w, "strength") || str_eq(w, "dex") || str_eq(w, "dexterity") || str_eq(w, "con")
        || str_eq(w, "constitution") || str_eq(w, "wis") || str_eq(w, "wisdom") || str_eq(w, "int")
        || str_eq(w, "intelligence") || str_eq(w, "cha") || str_eq(w, "charisma")
}

/// What beginning the fight prints: the banner, then the first turn.
pub open spec fn start_reply(t0: CombatTracker, t1: CombatTracker, lines: Seq<Seq<char>>) -> bool {
    exists|who: Option<Combatant>| #[trigger] turn_taken(t0, t1, who)
        && lines == combat_banner() + round_lines(t0, t1) + match who {
            Some(c) => seq![""@, "🎯 Starting combat with "@ + c.name@] + stats_card(c),
            None => seq![],
        }
}

/// Begins the fight: the banner, then the turn passes to the first
/// combatant who is not skipped (see `start_reply`).
pub fn start_combat(t: &mut CombatTracker) -> (lines: Vec<String>)
    requires
        fight_ready(*old(t)),
    ensures
        start_reply(*old(t), *final(t), views(lines@)),
{
    let ghost t0 = *t;
    let mut v = combat_banner_lines();
    let ghost b = views(v@);
    let r0 = t.round_number;
    let ghost mut who: Option<Combatant> = None;
    let mut shown: Vec<String> = Vec::new();
    match t.next_turn() {
        Some(c) => {
            proof {
                who = Some(*c);
            }
            shown.push(String::from_str(""));
            let mut l = String::from_str("🎯 Starting combat with ");
            l.append(c.name.as_str());
            shown.push(l);
            let card = c.stats_card_lines();
            push_all(&mut shown, card);
        },
        None => {},
    }
    proof {
        if who is Some {
            assert(t.combatants@ =~= t0.combatants@);
        }
    }
    assert(turn_taken(t0, *t, who));
    let ghost body = views(shown@);
    assert(body == match who {
        Some(c) => seq![""@, "🎯 Starting combat with "@ + c.name@] + stats_card(c),
        None => seq![],
    }) by {
        reveal_strlit("");
    }
    if t.round_number > r0 {
        v.push(String::from_str(""));
        let mut l = String::from_str("🔄 Starting Round ");
        signed(&mut l, t.round_number);
        v.push(l);
        assert(views(v@) =~= b + round_lines(t0, *t)) by {
            reveal_strlit("");
        }
    } else {
        assert(views(v@) =~= b + round_lines(t0, *t));
    }
    push_all(&mut v, shown);
    v
}


/// `cb` is the combatant made from the sheet `c` with initiative `init`
/// (see `from_character`).
pub open spec fn made_from(c: Character, init: i32, cb: Combatant) -> bool {
    &&& cb.name == c.name
    &&& cb.character_data matches Some(d) && d.same_as(c)
    &&& cb.current_hp == (match c.hp { Some(h) => h, None => 10u8 }) as i32
    &&& cb.max_hp == (match c.max_hp { Some(m) => m, None => (match c.hp { Some(h) => h, None => 10u8 }) }) as i32
    &&& cb.temp_hp == (match c.temp_hp { Some(x) => x, None => 0u8 }) as i32
    &&& cb.ac == (match c.ac { Some(a) => a, None => 10u8 }) as i32
    &&& cb.initiative == init
    &&& cb.is_player
    &&& cb.status_effects@.len() == 0
}

/// `t1` is `t0` with `cb` added in initiative order, the turn back at the top.
pub open spec fn joined(t0: CombatTracker, cb: Combatant, t1: CombatTracker) -> bool {
    &&& stable_sorted_desc(t0.combatants@.push(cb), t1.combatants@)
    &&& t1.current_turn == 0
    &&& t1.round_number == t0.round_number
}

/// The prompt for a character's initiative, with their DEX modifier.
pub open spec fn initiative_prompt_text(c: Character) -> Seq<char> {
    "Initiative for "@ + c.name@ + " (DEX modifier: "@ + modifier_text(c.modifier_for(AbilityScore::Dexterity))
        + "): "@
}

/// The modifier with its sign, as prompts show it.
fn modifier_string(m: i8) -> (res: String)
    ensures
        res@ == modifier_text(m as int),
{
    let mut s = String::new();
    if m >= 0 {
        s.append("+");
        push_decimal(&mut s, m as u64);
        assert(s@ =~= seq!['+'] + decimal(m as nat)) by {
            reveal_strlit("+");
        }
    } else {
        push_signed_decimal(&mut s, m as i64);
        assert(s@ =~= seq!['-'] + decimal((-m) as nat));
    }
    s
}

/// The prompt for a character's initiative (see `initiative_prompt_text`).
pub fn initiative_prompt(c: &Character) -> (res: String)
    ensures
        res@ == initiative_prompt_text(*c),
{
    let m = c.get_dexterity_modifier();
    let mut s = String::from_str("Initiative for ");
    s.append(c.name.as_str());
    s.append(" (DEX modifier: ");
    let ms = modifier_string(m);
    s.append(ms.as_str());
    s.append("): ");
    s
}

/// The line confirming that a character joined with initiative `init`.
pub open spec fn joined_line(name: Seq<char>, init: int, mid_fight: bool) -> Seq<char> {
    if mid_fight {
        "✅ Added "@ + name + " to combat with initiative "@ + signed_decimal(init)
    } else {
        "✅ Added "@ + name + " with initiative "@ + signed_decimal(init)
    }
}

/// What answering a character's initiative prompt does: an empty answer
/// rolls a d20 and adds the DEX modifier; a number is the initiative (before
/// the fight, 0 or below skips the character); anything else is refused (and
/// asked again before the fight). `done` tells whether the prompt is over.
pub open spec fn initiative_reply(
    t0: CombatTracker,
    c: Character,
    input: Seq<char>,
    mid_fight: bool,
    t1: CombatTracker,
    lines: Seq<Seq<char>>,
    done: bool,
) -> bool {
    let v = trim(input);
    let m = c.modifier_for(AbilityScore::Dexterity);
    if v.len() == 0 {
        &&& done
        &&& exists|r: u8, cb: Combatant| {
            &&& 1 <= r <= 20
            &&& #[trigger] made_from(c, (r + m) as i32, cb)
            &&& joined(t0, cb, t1)
            &&& lines == seq![
                "🎲 Rolled "@ + signed_decimal(r + m) + " (d20: "@ + decimal(r as nat) + ", DEX: "@
                    + modifier_text(m) + ") = "@ + signed_decimal(r + m),
            ] + d20_crit(r) + seq![joined_line(c.name@, r + m, mid_fight)]
        }
    } else {
        match parse_i32_spec(v) {
            Some(i) => {
                &&& done
                &&& if mid_fight || i > 0 {
                    exists|cb: Combatant| #[trigger] made_from(c, i, cb) && joined(t0, cb, t1) && lines == seq![
                        joined_line(c.name@, i as int, mid_fight),
                    ]
                } else {
                    t1 == t0 && lines == seq!["⏭️  Skipping "@ + c.name@ + " (initiative 0)"@]
                }
            },
            None => {
                &&& t1 == t0
                &&& if mid_fight {
                    done && lines == seq!["❌ Invalid initiative value"@]
                } else {
                    !done && lines == seq!["❌ Invalid input. Please enter a number or press Enter to auto-roll."@]
                }
            },
        }
    }
}

fn joined_line_of(name: &str, init: i32, mid_fight: bool) -> (res: String)
    ensures
        res@ == joined_line(name@, init as int, mid_fight),
{
    let mut l = String::from_str("✅ Added ");
    l.append(name);
    if mid_fight {
        l.append(" to combat with initiative ");
    } else {
        l.append(" with initiative ");
    }
    signed(&mut l, init);
    l
}

/// Answers a character's initiative prompt (see `initiative_reply`); tells
/// whether the prompt is over.
pub fn initiative_answer(t: &mut CombatTracker, c: &Character, input: &str, mid_fight: bool) -> (res: (Vec<String>, bool))
    ensures
        initiative_reply(*old(t), *c, input@, mid_fight, *final(t), views(res.0@), res.1),
{
    let ghost t0 = *t;
    let v = trimmed(input);
    let m = c.get_dexterity_modifier();
    if v.unicode_len() == 0 {
        let (r, crit) = roll_d20();
        let init: i32 = r as i32 + m as i32;
        let mut l = String::from_str("🎲 Rolled ");
        signed(&mut l, init);
        l.append(" (d20: ");
        push_decimal(&mut l, r as u64);
        l.append(", DEX: ");
        let ms = modifier_string(m);
        l.append(ms.as_str());
        l.append(") = ");
        signed(&mut l, init);
        let ghost mv = c.modifier_for(AbilityScore::Dexterity);
        assert(l@ =~= "🎲 Rolled "@ + signed_decimal(r + mv) + " (d20: "@ + decimal(r as nat) + ", DEX: "@
            + modifier_text(mv) + ") = "@ + signed_decimal(r + mv));
        let mut lines = one_line(l);
        let ghost l1 = views(lines@);
        let ghost cv = views(crit@);
        push_all(&mut lines, crit);
        let cb = Combatant::from_character(c.clone(), init);
        let ghost cbv = cb;
        t.add_combatant(cb);
        let ghost before = views(lines@);
        lines.push(joined_line_of(c.name.as_str(), init, mid_fight));
        assert(views(lines@) =~= before.push(joined_line(c.name@, init as int, mid_fight)));
        assert(views(lines@) =~= l1 + cv + seq![joined_line(c.name@, r + mv, mid_fight)]);
        assert(made_from(*c, (r + mv) as i32, cbv) && joined(t0, cbv, *t));
        assert(1 <= r <= 20);
        (lines, true)
    } else {
        match parse_i32(v.as_str()) {
            Some(i) => {
                if mid_fight || i > 0 {
                    let cb = Combatant::from_character(c.clone(), i);
                    let ghost cbv = cb;
                    t.add_combatant(cb);
                    let lines = one_line(joined_line_of(c.name.as_str(), i, mid_fight));
                    assert(made_from(*c, i, cbv) && joined(t0, cbv, *t));
                    (lines, true)
                } else {
                    let mut l = String::from_str("⏭️  Skipping ");
                    l.append(c.name.as_str());
                    l.append(" (initiative 0)");
                    (one_line(l), true)
                }
            },
            None => {
                if mid_fight {
                    (literal_line("❌ Invalid initiative value"), true)
                } else {
                    (literal_line("❌ Invalid input. Please enter a number or press Enter to auto-roll."), false)
                }
            },
        }
    }
}

/// A number typed at a prompt, trimmed, or `default` when it does not read.
pub open spec fn number_or(input: Seq<char>, default: i32) -> i32 {
    match parse_i32_spec(trim(input)) {
        Some(v) => v,
        None => default,
    }
}

fn number_or_of(input: &str, default: i32) -> (res: i32)
    ensures
        res == number_or(input@, default),
{
    let v = trimmed(input);
    match parse_i32(v.as_str()) {
        Some(x) => x,
        None => default,
    }
}

/// `cb` is the NPC made from the answers: hit points (10 when the answer does
/// not read), armour class (10) and initiative (0).
pub open spec fn npc_from_answers(name: Seq<char>, hp: Seq<char>, ac: Seq<char>, init: Seq<char>, cb: Combatant) -> bool {
    &&& cb.name@ == name
    &&& cb.character_data is None
    &&& cb.current_hp == number_or(hp, 10) && cb.max_hp == number_or(hp, 10) && cb.temp_hp == 0
    &&& cb.ac == number_or(ac, 10) && cb.initiative == number_or(init, 0)
    &&& !cb.is_player
    &&& cb.status_effects@.len() == 0
}

/// Adds an NPC made from the typed answers and gives the confirmation
/// (worded for the fight or for its setup).
pub fn add_npc(t: &mut CombatTracker, name: &str, hp: &str, ac: &str, init: &str, mid_fight: bool) -> (lines: Vec<String>)
    ensures
        exists|cb: Combatant| #[trigger] npc_from_answers(name@, hp@, ac@, init@, cb) && joined(*old(t), cb, *final(t)),
        views(lines@) == seq![
            "✅ Added "@ + name@ + (if mid_fight { " to combat as NPC!"@ } else { " to combat tracker!"@ }),
        ],
{
    let h = number_or_of(hp, 10);
    let a = number_or_of(ac, 10);
    let i = number_or_of(init, 0);
    let cb = Combatant::new_npc(String::from_str(name), h, a, i);
    let ghost cbv = cb;
    t.add_combatant(cb);
    assert(npc_from_answers(name@, hp@, ac@, init@, cbv));
    let mut l = String::from_str("✅ Added ");
    l.append(name);
    l.append(if mid_fight { " to combat as NPC!" } else { " to combat tracker!" });
    one_line(l)
}

/// The position of the first sheet named `name`, ignoring ASCII case.
pub fn find_character(characters: &Vec<Character>, name: &str) -> (res: Option<usize>)
    ensures
        match res {
            Some(i) => i < characters@.len() && eq_ignore_ascii_case(characters@[i as int].name@, name@)
                && forall|j: int| 0 <= j < i ==> !eq_ignore_ascii_case(#[trigger] characters@[j].name@, name@),
            None => forall|j: int| 0 <= j < characters@.len() ==> !eq_ignore_ascii_case(#[trigger] characters@[j].name@, name@),
        },
{
    let mut i: usize = 0;
    while i < characters.len()
        invariant
            i <= characters@.len(),
            forall|j: int| 0 <= j < i ==> !eq_ignore_ascii_case(#[trigger] characters@[j].name@, name@),
        decreases characters@.len() - i,
    {
        if str_eq_ignore_ascii_case(characters[i].name.as_str(), name) {
            return Some(i);
        }
        i = i + 1;
    }
    None
}

/// What confirming the current hit points of the combatant at `i` does: a
/// number replaces them; anything else keeps them.
pub fn confirm_hp(t: &mut CombatTracker, i: usize, input: &str) -> (line: String)
    requires
        i < old(t).combatants@.len(),
    ensures
        match parse_i32_spec(trim(input@)) {
            Some(hp) => {
                &&& final(t).combatants@ == old(t).combatants@.update(i as int, Combatant { current_hp: hp, ..old(t).combatants@[i as int] })
                &&& line@ == "✅ Set "@ + old(t).combatants@[i as int].name@ + "'s HP to "@ + signed_decimal(hp as int)
            },
            None => {
                &&& final(t).combatants@ == old(t).combatants@
                &&& line@ == "Invalid input, keeping current HP: "@ + signed_decimal(old(t).combatants@[i as int].current_hp as int)
            },
        },
        final(t).current_turn == old(t).current_turn,
        final(t).round_number == old(t).round_number,
{
    let v = trimmed(input);
    match parse_i32(v.as_str()) {
        Some(hp) => {
            let mut c = t.combatants.remove(i);
            let ghost before = t.combatants@;
            c.current_hp = hp;
            let mut l = String::from_str("✅ Set ");
            l.append(c.name.as_str());
            l.append("'s HP to ");
            signed(&mut l, hp);
            t.combatants.insert(i, c);
            assert(t.combatants@ =~= old(t).combatants@.update(i as int, Combatant { current_hp: hp, ..old(t).combatants@[i as int] }));
            l
        },
        None => {
            let mut l = String::from_str("Invalid input, keeping current HP: ");
            signed(&mut l, t.combatants[i].current_hp);
            l
        },
    }
}

/// Whether an answer is yes: `y` or `yes` in any case, trimmed.
pub open spec fn yes(input: Seq<char>) -> bool {
    lowercase(trim(input)) == "y"@ || lowercase(trim(input)) == "yes"@
}

/// Whether an answer is no: `n` or `no` in any case, trimmed.
pub open spec fn no(input: Seq<char>) -> bool {
    lowercase(trim(input)) == "n"@ || lowercase(trim(input)) == "no"@
}

/// Reads a yes/no answer: `Some(true)` for yes, `Some(false)` for no,
/// nothing for anything else.
pub fn yes_no_answer(input: &str) -> (res: Option<bool>)
    ensures
        yes(input@) ==> res == Some(true),
        !yes(input@) && no(input@) ==> res == Some(false),
        !yes(input@) && !no(input@) ==> res is None,
{
    let v = trimmed(input);
    let low = to_lowercase(v.as_str());
    if str_eq(low.as_str(), "y") || str_eq(low.as_str(), "yes") {
        Some(true)
    } else if str_eq(low.as_str(), "n") || str_eq(low.as_str(), "no") {
        Some(false)
    } else {
        None
    }
}


/// Stepping back right after the turn passed to the combatant at the turn
/// position (one who is not skipped) restores the turn position and the
/// round number, as long as rounds are counted from 1.
pub proof fn law_back_undoes_next(t0: CombatTracker, t1: CombatTracker, c: Combatant, t2: CombatTracker)
    requires
        t0.turn_in_range(),
        t0.combatants@.len() > 0,
        t0.round_number >= 1,
        !skipped(t0.combatants@[t0.current_turn as int]),
        turn_taken(t0, t1, Some(c)),
        turn_back(t1, t2),
    ensures
        t2.current_turn == t0.current_turn,
        t2.round_number == t0.round_number,
        t2.combatants == t1.combatants,
        c == t0.combatants@[t0.current_turn as int],
{
    let s = t0.combatants@;
    let n = s.len() as int;
    let t = t0.current_turn as int;
    let after = t1.current_turn as int;
    let idx = if after == 0 { n - 1 } else { after - 1 };
    let k = if idx >= t { idx - t } else { idx + n - t };
    assert(first_active_offset(s, t, k));
    if k > 0 {
        assert(skipped(s[around(t + 0, n)]));
        assert(around(t + 0, n) == t);
    }
    assert(k == 0);
}

/// Adding an effect and then removing effects of its name leaves the other
/// effects as they were.
pub proof fn law_add_then_remove_status(s: Seq<StatusEffect>, e: StatusEffect)
    ensures
        without_status(without_status(s, e.name@).push(e), e.name@) == without_status(s, e.name@),
{
    let n = e.name@;
    let pred = crate::combat::not_named(n);
    let w = without_status(s, n);
    reveal(Seq::filter);
    w.lemma_filter_push(e, pred);
    assert(!pred(e));
    assert(w.push(e).filter(pred) == w.filter(pred));
    assert forall|i: int| 0 <= i < w.len() implies pred(#[trigger] w[i]) by {
        s.filter_lemma(pred);
    }
    lemma_filter_all(w, pred);
}

/// Filtering a sequence whose elements all pass leaves it as it is.
proof fn lemma_filter_all(w: Seq<StatusEffect>, pred: spec_fn(StatusEffect) -> bool)
    requires
        forall|i: int| 0 <= i < w.len() ==> pred(#[trigger] w[i]),
    ensures
        w.filter(pred) == w,
    decreases w.len(),
{
    reveal(Seq::filter);
    if w.len() == 0 {
        assert(w.filter(pred) =~= w);
    } else {
        let p = w.drop_last();
        assert forall|i: int| 0 <= i < p.len() implies pred(#[trigger] p[i]) by {
            assert(p[i] == w[i]);
        }
        lemma_filter_all(p, pred);
        p.lemma_filter_push(w.last(), pred);
        assert(p.push(w.last()) =~= w);
    }
}

} // verus!
