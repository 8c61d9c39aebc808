//! The combat tracker's terminal: what each command typed during a fight
//! does to the state.
use vstd::prelude::*;
use crate::combat::{CombatTracker, Combatant, StatusEffect, is_first_named, none_named, name_matches,
    without_status, has_status};
use crate::text::{trim, decimal, signed_decimal, push_decimal, push_signed_decimal, str_eq, parse_i32_spec,
    parse_i32, lowercase, to_lowercase, str_chars, string_from_range};
use crate::words::{words, views, push_line, push_all, split_words, join_from};
use crate::dice::{dice_fits, roll_dice_with_crits, dice_expression_fits, dice_request, dice_modifier,
    total_of, crit_text};
use crate::tui::{App, Screen, Fight, AppMode, print, command_word, words_after, d20_crit, list_text, fight_of,
    opt_view, searching, roll_d20, list_text_of, lemma_space, parse_command};
use vstd::arithmetic::div_mod::{lemma_add_mod_noop, lemma_mod_twice};

verus! {

/// The answer when a fight command finds no fight.
pub open spec fn no_combat() -> Seq<char> {
    "No combat initialized. Use 'init' to start combat."@
}

/// The shorter answer of the same kind.
pub open spec fn no_combat_short() -> Seq<char> {
    "No combat initialized."@
}

/// The position of the first combatant whose name matches `n` (ignoring
/// ASCII case).
pub open spec fn first_named(s: Seq<Combatant>, n: Seq<char>) -> Option<int> {
    if exists|i: int| is_first_named(s, n, i) {
        Some(choose|i: int| is_first_named(s, n, i))
    } else {
        None
    }
}

/// The answer when no combatant has the name `n`.
pub open spec fn combatant_missing(n: Seq<char>) -> Seq<char> {
    "❌ Combatant '"@ + n + "' not found"@
}

/// `hp - damage` kept at 0 and above (and within `i32`).
pub open spec fn lowered(hp: i32, damage: i32) -> i32 {
    let x = hp - damage;
    if x < 0 {
        0
    } else if x > i32::MAX {
        i32::MAX
    } else {
        x as i32
    }
}

/// `hp + amount` kept at `max_hp` and below (and within `i32`).
pub open spec fn healed(hp: i32, amount: i32, max_hp: i32) -> i32 {
    let x = hp + amount;
    let y = if x < max_hp { x } else { max_hp as int };
    if y < i32::MIN {
        i32::MIN
    } else {
        y as i32
    }
}

/// The fight with the combatant at `i` replaced.
pub open spec fn with_combatant(f: Fight, i: int, c: Combatant) -> Fight {
    Fight { combatants: f.combatants.update(i, c), ..f }
}

/// `s` holding the fight `f`.
pub open spec fn with_fight(s: Screen, f: Fight) -> Screen {
    Screen { fight: Some(f), ..s }
}

/// Damage dealt to `target` (`direct` for the `hit` form): the combatant's
/// hit points drop, never below 0, and the report follows, with a note when
/// the combatant is down.
pub open spec fn hit(a: Screen, target: Seq<char>, damage: i32, direct: bool) -> Screen {
    match a.fight {
        None => print(a, seq![no_combat_short()]),
        Some(f) => match first_named(f.combatants, target) {
            None => print(a, seq![combatant_missing(target)]),
            Some(i) => {
                let c = f.combatants[i];
                let hp = lowered(c.current_hp, damage);
                print(
                    with_fight(a, with_combatant(f, i, Combatant { current_hp: hp, ..c })),
                    seq![
                        "⚔️ "@ + c.name@ + " takes "@ + signed_decimal(damage as int) + (if direct {
                            " damage directly! HP: "@
                        } else {
                            " damage! HP: "@
                        }) + signed_decimal(c.current_hp as int) + " → "@ + signed_decimal(hp as int),
                    ] + if hp <= 0 {
                        seq!["💀 "@ + c.name@ + " is unconscious/dead!"@]
                    } else {
                        seq![]
                    },
                )
            },
        },
    }
}

/// Healing of `target`: hit points rise, never above the maximum.
pub open spec fn heal(a: Screen, target: Seq<char>, amount: i32) -> Screen {
    match a.fight {
        None => print(a, seq![no_combat_short()]),
        Some(f) => match first_named(f.combatants, target) {
            None => print(a, seq![combatant_missing(target)]),
            Some(i) => {
                let c = f.combatants[i];
                let hp = healed(c.current_hp, amount, c.max_hp);
                print(
                    with_fight(a, with_combatant(f, i, Combatant { current_hp: hp, ..c })),
                    seq![
                        "💚 "@ + c.name@ + " heals "@ + signed_decimal(amount as int) + " HP! HP: "@
                            + signed_decimal(c.current_hp as int) + " → "@ + signed_decimal(hp as int),
                    ],
                )
            },
        },
    }
}

/// The names of a combatant's status effects, joined with commas.
pub open spec fn status_names(s: Seq<StatusEffect>) -> Seq<char>
    decreases s.len(),
{
    if s.len() == 0 {
        seq![]
    } else if s.len() == 1 {
        s[0].name@
    } else {
        status_names(s.drop_last()) + ", "@ + s.last().name@
    }
}

/// A combatant's line in the initiative order: a marker on the one whose
/// turn it is, the place, initiative, hit points, armour class and effects.
pub open spec fn order_line(f: Fight, i: int) -> Seq<char> {
    let c = f.combatants[i];
    (if i == f.current_turn { "►"@ } else { " "@ }) + " "@ + decimal((i + 1) as nat) + ". "@ + c.name@
        + " (Init: "@ + signed_decimal(c.initiative as int) + ", HP: "@ + signed_decimal(c.current_hp as int)
        + "/"@ + signed_decimal(c.max_hp as int) + ", AC: "@ + signed_decimal(c.ac as int) + ")"@ + if c.status_effects@.len() == 0 {
        seq![]
    } else {
        " ["@ + status_names(c.status_effects@) + "]"@
    }
}

/// How long an effect lasts, as the stats view shows it.
pub open spec fn duration_text(d: Option<i32>) -> Seq<char> {
    match d {
        Some(n) => " ("@ + signed_decimal(n as int) + " rounds)"@,
        None => " (permanent)"@,
    }
}

/// The stats view of a combatant.
pub open spec fn stats_lines(c: Combatant) -> Seq<Seq<char>> {
    seq![
        "📊 Stats for "@ + c.name@,
        "  HP: "@ + signed_decimal(c.current_hp as int) + "/"@ + signed_decimal(c.max_hp as int) + " ("@ + (if c.current_hp > 0 {
            "Alive"@
        } else {
            "Unconscious/Dead"@
        }) + ")"@,
        "  AC: "@ + signed_decimal(c.ac as int),
        "  Initiative: "@ + signed_decimal(c.initiative as int),
        "  Type: "@ + if c.is_player { "Player"@ } else { "NPC"@ },
    ] + if c.status_effects@.len() == 0 {
        seq![]
    } else {
        seq!["  Status Effects:"@] + Seq::new(
            c.status_effects@.len(),
            |j: int| "    - "@ + c.status_effects@[j].name@ + duration_text(c.status_effects@[j].duration),
        )
    }
}

/// What `show` prints.
pub open spec fn show_lines(f: Option<Fight>) -> Seq<Seq<char>> {
    match f {
        None => seq![no_combat()],
        Some(f) => seq!["Initiative Order:"@] + Seq::new(f.combatants.len(), |i: int| order_line(f, i)),
    }
}

/// What `next` does: the turn passes to the next place, a new round starts
/// when it wraps to the top, and the combatant whose turn it is is named.
pub open spec fn next_effect(a: Screen) -> Screen {
    match a.fight {
        None => print(a, seq![no_combat()]),
        Some(f) => {
            let n = f.combatants.len();
            if n == 0 {
                print(a, seq!["❌ No combatants in combat."@])
            } else {
                let t = ((f.current_turn + 1) % (n as int)) as usize;
                let r = if t == 0 && f.round_number < i32::MAX {
                    (f.round_number + 1) as i32
                } else {
                    f.round_number
                };
                let c = f.combatants[t as int];
                print(
                    with_fight(a, Fight { current_turn: t, round_number: r, ..f }),
                    (if t == 0 { seq!["🔄 Starting Round "@ + signed_decimal(r as int)] } else { seq![] }) + seq![
                        "🎯 It's "@ + c.name@ + "'s turn! (Initiative: "@ + signed_decimal(c.initiative as int)
                            + ", HP: "@ + signed_decimal(c.current_hp as int) + "/"@ + signed_decimal(
                            c.max_hp as int,
                        ) + ")"@,
                    ],
                )
            }
        },
    }
}

/// What `stats` prints: the named combatant's view, or without a name the
/// current combatant's hit points and armour class.
pub open spec fn stats_for(a: Screen, name: Option<Seq<char>>) -> Screen {
    match a.fight {
        None => print(a, seq![no_combat()]),
        Some(f) => if name is Some {
            let n = name->0;
            match first_named(f.combatants, n) {
                Some(i) => print(a, stats_lines(f.combatants[i])),
                None => print(a, seq![combatant_missing(n)]),
            }
        } else if f.current_turn < f.combatants.len() {
            let c = f.combatants[f.current_turn as int];
            print(
                a,
                seq![
                    "📊 Current Turn: "@ + c.name@,
                    "  HP: "@ + signed_decimal(c.current_hp as int) + "/"@ + signed_decimal(c.max_hp as int),
                    "  AC: "@ + signed_decimal(c.ac as int),
                ],
            )
        } else {
            print(a, seq!["❌ No current combatant"@])
        },
    }
}

/// The lines of an attack roll `r` against armour class `ac`.
pub open spec fn attack_lines(r: u8, ac: i32) -> Seq<Seq<char>> {
    seq!["⚔️  Attack Roll: "@ + decimal(r as nat) + " (d20: "@ + decimal(r as nat) + ")"@] + d20_crit(r) + seq![
        "🎯 Target AC: "@ + signed_decimal(ac as int),
    ] + if r >= ac {
        seq!["💥 HIT! The attack connects!"@, "🎲 Enter damage (e.g., '2d6+3' or just '8'):"@]
    } else {
        seq!["🛡️  MISS! The attack fails to connect."@]
    }
}

/// `b` shows the attack roll `r` against `target` (armour class `ac`); on a
/// hit the terminal waits for the damage.
pub open spec fn attack_shown(a: Screen, target: Seq<char>, ac: i32, r: u8, b: Screen) -> bool {
    &&& 1 <= r <= 20
    &&& b == if r >= ac {
        Screen {
            current_state: "Waiting for damage against "@ + target,
            waiting_for: Some("damage_for_"@ + target),
            ..print(a, attack_lines(r, ac))
        }
    } else {
        print(a, attack_lines(r, ac))
    }
}

/// What `attack <target>` does: a d20 against the target's armour class.
pub open spec fn attack_effect(a: Screen, target: Seq<char>, b: Screen) -> bool {
    match a.fight {
        None => b == print(a, seq![no_combat()]),
        Some(f) => match first_named(f.combatants, target) {
            None => b == print(a, seq!["❌ Target '"@ + target + "' not found in combat"@]),
            Some(i) => exists|r: u8| #[trigger] attack_shown(a, target, f.combatants[i].ac, r, b),
        },
    }
}

/// The ability a saving throw names by its short form.
pub open spec fn ability_full(s: Seq<char>) -> Option<Seq<char>> {
    if s == "str"@ {
        Some("Strength"@)
    } else if s == "dex"@ {
        Some("Dexterity"@)
    } else if s == "con"@ {
        Some("Constitution"@)
    } else if s == "int"@ {
        Some("Intelligence"@)
    } else if s == "wis"@ {
        Some("Wisdom"@)
    } else if s == "cha"@ {
        Some("Charisma"@)
    } else {
        None
    }
}

/// The combatant a command means by `target`: `self` is the one whose turn
/// it is; otherwise the name as typed. An error message when `self` cannot
/// be resolved.
pub open spec fn resolved_target(a: Screen, target: Seq<char>) -> Result<Seq<char>, Seq<char>> {
    if target == "self"@ {
        match a.fight {
            None => Err(no_combat_short()),
            Some(f) => if f.current_turn < f.combatants.len() {
                Ok(f.combatants[f.current_turn as int].name@)
            } else {
                Err("❌ No current combatant"@)
            },
        }
    } else {
        Ok(target)
    }
}

/// `b` shows a saving throw `r` of the ability `full` for `name`.
pub open spec fn save_shown(a: Screen, full: Seq<char>, name: Seq<char>, r: u8, b: Screen) -> bool {
    &&& 1 <= r <= 20
    &&& b == print(
        a,
        seq!["🎲 "@ + full + " saving throw for "@ + name + ": "@ + decimal(r as nat) + " (d20: "@ + decimal(r as nat) + ")"@]
            + d20_crit(r),
    )
}

/// What `save <ability> <target>` does: a d20 saving throw.
pub open spec fn save_effect(a: Screen, ability: Seq<char>, target: Seq<char>, b: Screen) -> bool {
    match ability_full(ability) {
        None => b == print(a, seq!["❌ Invalid ability. Use: str, dex, con, int, wis, cha"@]),
        Some(full) => match resolved_target(a, target) {
            Err(m) => b == print(a, seq![m]),
            Ok(name) => match a.fight {
                None => b == print(a, seq![no_combat_short()]),
                Some(f) => match first_named(f.combatants, name) {
                    None => b == print(a, seq![combatant_missing(name)]),
                    Some(_) => exists|r: u8| #[trigger] save_shown(a, full, name, r, b),
                },
            },
        },
    }
}

/// `c2` is `c` with the effect `n` added (replacing one of the same name).
pub open spec fn status_added(c: Combatant, n: Seq<char>, rounds: Option<i32>, c2: Combatant) -> bool {
    &&& c2 == Combatant { status_effects: c2.status_effects, ..c }
    &&& c2.status_effects@.len() > 0
    &&& c2.status_effects@.drop_last() == without_status(c.status_effects@, n)
    &&& c2.status_effects@.last().name@ == n
    &&& c2.status_effects@.last().description is None
    &&& c2.status_effects@.last().duration == rounds
}

/// `c2` is `c` without the effects named `n`.
pub open spec fn status_removed(c: Combatant, n: Seq<char>, c2: Combatant) -> bool {
    &&& c2 == Combatant { status_effects: c2.status_effects, ..c }
    &&& c2.status_effects@ == without_status(c.status_effects@, n)
}

/// How long an added effect lasts, as the confirmation says it.
pub open spec fn duration_phrase(rounds: Option<i32>) -> Seq<char> {
    match rounds {
        Some(r) => " for "@ + signed_decimal(r as int) + " rounds"@,
        None => " (permanent)"@,
    }
}

/// The confirmation of a removal, or the note that there was nothing to
/// remove.
pub open spec fn removal_line(c: Combatant, status: Seq<char>, name: Seq<char>) -> Seq<char> {
    if has_status(c.status_effects@, status) {
        "✅ Removed status '"@ + status + "' from "@ + name
    } else {
        "❌ Status '"@ + status + "' not found on "@ + name
    }
}

/// `b` shows the status change `c2` of the combatant at `i`, with `line`.
pub open spec fn status_changed(a: Screen, f: Fight, i: int, c2: Combatant, line: Seq<char>, b: Screen) -> bool {
    b == print(with_fight(a, with_combatant(f, i, c2)), seq![line])
}

/// What `status <target> <action> <status> [rounds]` does.
pub open spec fn status_effect(
    a: Screen,
    target: Seq<char>,
    action: Seq<char>,
    status: Seq<char>,
    rounds: Option<i32>,
    b: Screen,
) -> bool {
    match resolved_target(a, target) {
        Err(m) => b == print(a, seq![m]),
        Ok(name) => match a.fight {
            None => b == print(a, seq![no_combat_short()]),
            Some(f) => match first_named(f.combatants, name) {
                None => b == print(a, seq![combatant_missing(name)]),
                Some(i) => {
                    let c = f.combatants[i];
                    if action == "add"@ {
                        exists|c2: Combatant|
                            status_added(c, status, rounds, c2) && #[trigger] status_changed(
                                a,
                                f,
                                i,
                                c2,
                                "✅ Added status '"@ + status + "' to "@ + name + duration_phrase(rounds),
                                b,
                            )
                    } else if action == "remove"@ {
                        exists|c2: Combatant|
                            status_removed(c, status, c2) && #[trigger] status_changed(
                                a,
                                f,
                                i,
                                c2,
                                removal_line(c, status, name),
                                b,
                            )
                    } else {
                        b == print(a, seq!["❌ Invalid action. Use 'add' or 'remove'"@])
                    }
                },
            },
        },
    }
}

/// The sample fight `init` sets up: a fighter (30 HP, AC 16, initiative 15)
/// and a goblin (7 HP, AC 13, initiative 12), fighter first, round 1.
pub open spec fn is_sample_fight(f: Fight) -> bool {
    &&& f.combatants.len() == 2
    &&& f.current_turn == 0
    &&& f.round_number == 1
    &&& sample_combatant(f.combatants[0], "Fighter"@, 30, 16, 15)
    &&& sample_combatant(f.combatants[1], "Goblin"@, 7, 13, 12)
}

/// A non-player combatant at full health with no effects.
pub open spec fn sample_combatant(c: Combatant, name: Seq<char>, hp: i32, ac: i32, init: i32) -> bool {
    &&& c.name@ == name
    &&& c.character_data is None
    &&& c.current_hp == hp && c.max_hp == hp && c.temp_hp == 0
    &&& c.ac == ac && c.initiative == init
    &&& !c.is_player
    &&& c.status_effects@.len() == 0
}

/// The terminal waits for the damage of a hit (the awaited entry starts with
/// `damage_for_`).
pub open spec fn awaits_damage(w: Option<Seq<char>>) -> bool {
    w matches Some(t) && t.len() >= 11 && t.take(11) == "damage_for_"@
}

/// The answer to damage that is neither a number nor a dice expression.
pub open spec fn invalid_damage() -> Seq<char> {
    "❌ Invalid damage input. Enter a number or dice expression (e.g., 2d6+3)"@
}

/// `b` shows a damage roll of `expr` with `rolls` and applies it to `target`.
pub open spec fn damage_rolled(a: Screen, expr: Seq<char>, target: Seq<char>, rolls: Seq<u8>, b: Screen) -> bool {
    match dice_request(expr) {
        Err(_) => false,
        Ok((n, sd)) => {
            let total = total_of(rolls, dice_modifier(expr));
            &&& rolls.len() == n
            &&& forall|i: int| 0 <= i < rolls.len() ==> 1 <= #[trigger] rolls[i] <= sd
            &&& b == Screen {
                waiting_for: None,
                current_state: "Combat Ready"@,
                ..hit(
                    print(
                        a,
                        seq!["🎲 Damage roll: "@ + decimal(total as nat) + " (dice: "@ + list_text(rolls) + ")"@]
                            + match crit_text(expr, rolls) {
                            Some(m) => seq![m],
                            None => seq![],
                        },
                    ),
                    target,
                    total as i32,
                    true,
                )
            }
        },
    }
}

/// What a line typed while the terminal waits for damage does: a number is
/// dealt as damage, a dice expression is rolled and dealt; anything else is
/// refused and the terminal keeps waiting.
pub open spec fn damage_entry_effect(a: Screen, cmd: Seq<char>, b: Screen) -> bool {
    let target = a.waiting_for->0.skip(11);
    let t = trim(cmd);
    match parse_i32_spec(t) {
        Some(d) => b == Screen { waiting_for: None, current_state: "Combat Ready"@, ..hit(a, target, d, true) },
        None => if dice_expression_fits(t) && dice_request(t) is Ok {
            exists|rolls: Seq<u8>| #[trigger] damage_rolled(a, t, target, rolls, b)
        } else {
            b == print(a, seq![invalid_damage()])
        },
    }
}

/// Whether the command leaves the combat terminal (`quit`, `exit` or `q`,
/// when no damage is awaited).
pub open spec fn combat_quits(a: Screen, cmd: Seq<char>) -> bool {
    let w = command_word(cmd);
    &&& !awaits_damage(a.waiting_for)
    &&& words(cmd).len() > 0
    &&& (w == "quit"@ || w == "exit"@ || w == "q"@)
}

/// What a command does in the combat terminal.
pub open spec fn combat_effect(a: Screen, cmd: Seq<char>, b: Screen) -> bool {
    let ws = words(cmd);
    let w = command_word(cmd);
    if awaits_damage(a.waiting_for) {
        damage_entry_effect(a, cmd, b)
    } else if ws.len() == 0 {
        b == a
    } else if w == "help"@ || w == "h"@ {
        b == print(a, combat_help())
    } else if w == "init"@ || w == "initialize"@ {
        &&& b == Screen { fight: b.fight, ..print(a, combat_start()) }
        &&& b.fight matches Some(f) && is_sample_fight(f)
    } else if w == "search"@ {
        if ws.len() >= 2 {
            searching(a, words_after(cmd, 1), true, b)
        } else {
            b == print(a, combat_search_usage())
        }
    } else if w == "quit"@ || w == "exit"@ || w == "q"@ {
        b == (Screen { mode: AppMode::ToolsMenu, selected_index: 0, output: seq![], scroll_offset: 0, fight: None, ..a })
    } else if w == "show"@ || w == "list"@ {
        b == print(a, show_lines(a.fight))
    } else if w == "next"@ || w == "continue"@ {
        b == next_effect(a)
    } else if w == "stats"@ {
        b == stats_for(a, if ws.len() >= 2 { Some(ws[1]) } else { None })
    } else if w == "attack"@ {
        if ws.len() >= 2 {
            attack_effect(a, ws[1], b)
        } else {
            b == print(a, attack_usage())
        }
    } else if w == "save"@ {
        if ws.len() >= 2 {
            save_effect(a, lowercase(ws[1]), if ws.len() >= 3 { ws[2] } else { "self"@ }, b)
        } else {
            b == print(a, save_usage())
        }
    } else if w == "hit"@ {
        if ws.len() >= 3 {
            match parse_i32_spec(ws[2]) {
                Some(d) => b == hit(a, ws[1], d, true),
                None => b == print(a, seq!["❌ Invalid damage amount"@]),
            }
        } else {
            b == print(a, hit_usage())
        }
    } else if w == "status"@ {
        if ws.len() >= 4 {
            status_effect(
                a,
                ws[1],
                lowercase(ws[2]),
                ws[3],
                if ws.len() >= 5 { parse_i32_spec(ws[4]) } else { None },
                b,
            )
        } else {
            b == print(a, status_usage())
        }
    } else if w == "damage"@ {
        if ws.len() >= 3 {
            match parse_i32_spec(ws[2]) {
                Some(d) => b == hit(a, ws[1], d, false),
                None => b == print(a, seq!["❌ Invalid damage amount"@]),
            }
        } else {
            b == print(a, seq!["Usage: damage <target> <amount>"@])
        }
    } else if w == "heal"@ {
        if ws.len() >= 3 {
            match parse_i32_spec(ws[2]) {
                Some(h) => b == heal(a, ws[1], h),
                None => b == print(a, seq!["❌ Invalid heal amount"@]),
            }
        } else {
            b == print(a, seq!["Usage: heal <target> <amount>"@])
        }
    } else if a.fight is Some {
        b == print(a, seq!["Unknown command '"@ + w + "'. Type 'help' for available commands."@])
    } else {
        b == print(a, seq![no_combat()])
    }
}

/// The first match is unique.
pub(crate) proof fn lemma_first_unique(s: Seq<Combatant>, n: Seq<char>, i: int)
    requires
        is_first_named(s, n, i),
    ensures
        first_named(s, n) == Some(i),
{
    let j = choose|j: int| is_first_named(s, n, j);
    assert(j == i) by {
        if j < i {
            assert(!name_matches(s[j], n));
        } else if j > i {
            assert(!name_matches(s[i], n));
        }
    }
}

/// With no match there is no first match.
pub(crate) proof fn lemma_first_none(s: Seq<Combatant>, n: Seq<char>)
    requires
        none_named(s, n),
    ensures
        first_named(s, n) is None,
{
    if exists|i: int| is_first_named(s, n, i) {
        let i = choose|i: int| is_first_named(s, n, i);
        assert(!name_matches(s[i], n));
    }
}

/// The position of the first combatant named `name`, ignoring ASCII case.
pub(crate) fn first_combatant(t: &CombatTracker, name: &str) -> (res: Option<usize>)
    ensures
        match first_named(t.combatants@, name@) {
            Some(i) => res == Some(i as usize) && 0 <= i < t.combatants@.len(),
            None => res is None,
        },
        res matches Some(k) ==> first_named(t.combatants@, name@) == Some(k as int) && k < t.combatants@.len(),
{
    let r = t.find_combatant(name);
    proof {
        match r {
            Some(i) => lemma_first_unique(t.combatants@, name@, i as int),
            None => lemma_first_none(t.combatants@, name@),
        }
    }
    r
}

pub(crate) fn signed(s: &mut String, n: i32)
    ensures
        final(s)@ == old(s)@ + signed_decimal(n as int),
{
    push_signed_decimal(s, n as i64);
}

fn missing_combatant(name: &str) -> (res: String)
    ensures
        res@ == combatant_missing(name@),
{
    let mut s = String::from_str("❌ Combatant '");
    s.append(name);
    s.append("' not found");
    s
}

/// Replaces the combatant at `i`.
pub(crate) fn replace_at(t: &mut CombatTracker, i: usize, c: Combatant)
    requires
        i < old(t).combatants@.len(),
    ensures
        final(t).combatants@ == old(t).combatants@.update(i as int, c),
        final(t).current_turn == old(t).current_turn,
        final(t).round_number == old(t).round_number,
{
    let ghost before = t.combatants@;
    t.combatants.remove(i);
    t.combatants.insert(i, c);
    assert(t.combatants@ =~= before.update(i as int, c));
}

/// The names of status effects joined with commas.
pub(crate) fn status_names_of(s: &Vec<StatusEffect>) -> (res: String)
    ensures
        res@ == status_names(s@),
{
    let mut out = String::new();
    let mut i: usize = 0;
    while i < s.len()
        invariant
            i <= s@.len(),
            out@ == status_names(s@.take(i as int)),
        decreases s@.len() - i,
    {
        assert(s@.take(i + 1).drop_last() =~= s@.take(i as int));
        if i > 0 {
            out.append(", ");
        }
        out.append(s[i].name.as_str());
        i = i + 1;
    }
    assert(s@.take(s@.len() as int) =~= s@);
    out
}

fn order_line_of(t: &CombatTracker, i: usize) -> (res: String)
    requires
        i < t.combatants@.len(),
    ensures
        res@ == order_line(fight_of(Some(*t))->0, i as int),
{
    let n = t.combatants.len();
    let c = &t.combatants[i];
    let mut s = if i == t.current_turn { String::from_str("►") } else { String::from_str(" ") };
    s.append(" ");
    push_decimal(&mut s, (i + 1) as u64);
    s.append(". ");
    s.append(c.name.as_str());
    s.append(" (Init: ");
    signed(&mut s, c.initiative);
    s.append(", HP: ");
    signed(&mut s, c.current_hp);
    s.append("/");
    signed(&mut s, c.max_hp);
    s.append(", AC: ");
    signed(&mut s, c.ac);
    s.append(")");
    if c.status_effects.len() > 0 {
        s.append(" [");
        let names = status_names_of(&c.status_effects);
        s.append(names.as_str());
        s.append("]");
    } else {
        assert(s@ + Seq::<char>::empty() =~= s@);
    }
    s
}

fn show_lines_of(t: &Option<CombatTracker>) -> (res: Vec<String>)
    ensures
        views(res@) == show_lines(fight_of(*t)),
{
    let mut v: Vec<String> = Vec::new();
    match t {
        None => {
            push_line(&mut v, String::from_str("No combat initialized. Use 'init' to start combat."));
        },
        Some(tr) => {
            push_line(&mut v, String::from_str("Initiative Order:"));
            let ghost f = fight_of(Some(*tr))->0;
            let mut i: usize = 0;
            while i < tr.combatants.len()
                invariant
                    i <= tr.combatants@.len(),
                    f == fight_of(Some(*tr))->0,
                    views(v@) == seq!["Initiative Order:"@] + Seq::new(i as nat, |k: int| order_line(f, k)),
                decreases tr.combatants@.len() - i,
            {
                let line = order_line_of(tr, i);
                push_line(&mut v, line);
                assert(views(v@) =~= seq!["Initiative Order:"@] + Seq::new(
                    (i + 1) as nat,
                    |k: int| order_line(f, k),
                ));
                i = i + 1;
            }
        },
    }
    v
}

fn stats_lines_of(c: &Combatant) -> (res: Vec<String>)
    ensures
        views(res@) == stats_lines(*c),
{
    let mut v: Vec<String> = Vec::new();
    let mut l1 = String::from_str("📊 Stats for ");
    l1.append(c.name.as_str());
    v.push(l1);
    let mut l2 = String::from_str("  HP: ");
    signed(&mut l2, c.current_hp);
    l2.append("/");
    signed(&mut l2, c.max_hp);
    l2.append(" (");
    if c.current_hp > 0 {
        l2.append("Alive");
    } else {
        l2.append("Unconscious/Dead");
    }
    l2.append(")");
    v.push(l2);
    let mut l3 = String::from_str("  AC: ");
    signed(&mut l3, c.ac);
    v.push(l3);
    let mut l4 = String::from_str("  Initiative: ");
    signed(&mut l4, c.initiative);
    v.push(l4);
    let mut l5 = String::from_str("  Type: ");
    if c.is_player {
        l5.append("Player");
    } else {
        l5.append("NPC");
    }
    v.push(l5);
    let ghost head = views(v@);
    assert(head =~= stats_lines(*c).take(5));
    if c.status_effects.len() > 0 {
        push_line(&mut v, String::from_str("  Status Effects:"));
        let n = c.status_effects.len();
        let mut j: usize = 0;
        while j < n
            invariant
                n == c.status_effects@.len(),
                j <= n,
                views(v@) == head + seq!["  Status Effects:"@] + Seq::new(
                    j as nat,
                    |k: int| "    - "@ + c.status_effects@[k].name@ + duration_text(c.status_effects@[k].duration),
                ),
            decreases n - j,
        {
            let e = &c.status_effects[j];
            let mut s = String::from_str("    - ");
            s.append(e.name.as_str());
            match e.duration {
                Some(d) => {
                    s.append(" (");
                    signed(&mut s, d);
                    s.append(" rounds)");
                },
                None => {
                    s.append(" (permanent)");
                },
            }
            assert(s@ =~= "    - "@ + e.name@ + duration_text(e.duration));
            push_line(&mut v, s);
            assert(views(v@) =~= head + seq!["  Status Effects:"@] + Seq::new(
                (j + 1) as nat,
                |k: int| "    - "@ + c.status_effects@[k].name@ + duration_text(c.status_effects@[k].duration),
            ));
            j = j + 1;
        }
    }
    assert(views(v@) =~= stats_lines(*c));
    v
}

/// Whether the terminal waits for damage.
fn awaiting_damage(w: &Option<String>) -> (r: bool)
    ensures
        r == awaits_damage(opt_view(*w)),
{
    match w {
        None => false,
        Some(s) => {
            let v = str_chars(s.as_str());
            proof {
                reveal_strlit("damage_for_");
            }
            assert("damage_for_"@.len() == 11);
            if v.len() < 11 {
                return false;
            }
            let head = string_from_range(&v, 0, 11);
            assert(v@.subrange(0, 11) == v@.take(11));
            str_eq(head.as_str(), "damage_for_")
        },
    }
}

/// The ability a saving throw names by its short form.
fn ability_full_of(ability: &str) -> (res: Option<&'static str>)
    ensures
        match ability_full(ability@) {
            Some(f) => res matches Some(s) && s@ == f,
            None => res is None,
        },
{
    if str_eq(ability, "str") {
        Some("Strength")
    } else if str_eq(ability, "dex") {
        Some("Dexterity")
    } else if str_eq(ability, "con") {
        Some("Constitution")
    } else if str_eq(ability, "int") {
        Some("Intelligence")
    } else if str_eq(ability, "wis") {
        Some("Wisdom")
    } else if str_eq(ability, "cha") {
        Some("Charisma")
    } else {
        None
    }
}

impl App {
    /// Deals damage to a combatant of the fight (see [`hit`]).
    fn apply_hit(&mut self, target: &str, damage: i32, direct: bool)
        ensures
            final(self).screen() == hit(old(self).screen(), target@, damage, direct),
            final(self).input_buffer@ == old(self).input_buffer@,
            final(self).command_history == old(self).command_history,
            final(self).history_index == old(self).history_index,
    {
        match self.combat_tracker.take() {
            None => {
                self.add_output(String::from_str("No combat initialized."));
            },
            Some(mut t) => {
                match first_combatant(&t, target) {
                    None => {
                        self.combat_tracker = Some(t);
                        self.add_output(missing_combatant(target));
                    },
                    Some(i) => {
                        let ghost orig = t.combatants@;
                        let mut c = t.combatants.remove(i);
                        let x: i64 = c.current_hp as i64 - damage as i64;
                        let hp: i32 = if x < 0 {
                            0
                        } else if x > 0x7fff_ffff {
                            0x7fff_ffff
                        } else {
                            x as i32
                        };
                        let old_hp = c.current_hp;
                        c.current_hp = hp;
                        let mut line = String::from_str("⚔️ ");
                        line.append(c.name.as_str());
                        line.append(" takes ");
                        signed(&mut line, damage);
                        if direct {
                            line.append(" damage directly! HP: ");
                        } else {
                            line.append(" damage! HP: ");
                        }
                        signed(&mut line, old_hp);
                        line.append(" → ");
                        signed(&mut line, hp);
                        let mut lines: Vec<String> = Vec::new();
                        push_line(&mut lines, line);
                        if hp <= 0 {
                            let mut dead = String::from_str("💀 ");
                            dead.append(c.name.as_str());
                            dead.append(" is unconscious/dead!");
                            push_line(&mut lines, dead);
                        } else {
                            assert(views(lines@) + Seq::<Seq<char>>::empty() =~= views(lines@));
                        }
                        let ghost newc = c;
                        t.combatants.insert(i, c);
                        assert(t.combatants@ =~= orig.update(i as int, newc));
                        self.combat_tracker = Some(t);
                        self.emit(lines);
                    },
                }
            },
        }
    }

    /// Heals a combatant of the fight (see [`heal`]).
    fn apply_heal(&mut self, target: &str, amount: i32)
        ensures
            final(self).screen() == heal(old(self).screen(), target@, amount),
            final(self).input_buffer@ == old(self).input_buffer@,
            final(self).command_history == old(self).command_history,
            final(self).history_index == old(self).history_index,
    {
        match self.combat_tracker.take() {
            None => {
                self.add_output(String::from_str("No combat initialized."));
            },
            Some(mut t) => {
                match first_combatant(&t, target) {
                    None => {
                        self.combat_tracker = Some(t);
                        self.add_output(missing_combatant(target));
                    },
                    Some(i) => {
                        let ghost orig = t.combatants@;
                        let mut c = t.combatants.remove(i);
                        let x: i64 = c.current_hp as i64 + amount as i64;
                        let y: i64 = if x < c.max_hp as i64 { x } else { c.max_hp as i64 };
                        let hp: i32 = if y < -0x8000_0000 { -0x8000_0000 } else { y as i32 };
                        let old_hp = c.current_hp;
                        c.current_hp = hp;
                        let mut line = String::from_str("💚 ");
                        line.append(c.name.as_str());
                        line.append(" heals ");
                        signed(&mut line, amount);
                        line.append(" HP! HP: ");
                        signed(&mut line, old_hp);
                        line.append(" → ");
                        signed(&mut line, hp);
                        let ghost newc = c;
                        t.combatants.insert(i, c);
                        assert(t.combatants@ =~= orig.update(i as int, newc));
                        self.combat_tracker = Some(t);
                        self.add_output(line);
                    },
                }
            },
        }
    }

    /// Passes the turn (see [`next_effect`]).
    fn advance_turn(&mut self)
        ensures
            final(self).screen() == next_effect(old(self).screen()),
            final(self).input_buffer@ == old(self).input_buffer@,
            final(self).command_history == old(self).command_history,
            final(self).history_index == old(self).history_index,
    {
        match self.combat_tracker.take() {
            None => {
                self.add_output(String::from_str("No combat initialized. Use 'init' to start combat."));
            },
            Some(mut t) => {
                let n = t.combatants.len();
                if n == 0 {
                    self.combat_tracker = Some(t);
                    self.add_output(String::from_str("❌ No combatants in combat."));
                } else {
                    let i = t.current_turn;
                    proof {
                        lemma_mod_twice(i as int, n as int);
                        lemma_add_mod_noop((i % n) as int, 1, n as int);
                        lemma_add_mod_noop(i as int, 1, n as int);
                    }
                    let turn = (i % n + 1) % n;
                    t.current_turn = turn;
                    let mut lines: Vec<String> = Vec::new();
                    if turn == 0 {
                        if t.round_number < 0x7fff_ffff {
                            t.round_number = t.round_number + 1;
                        }
                        let mut s = String::from_str("🔄 Starting Round ");
                        signed(&mut s, t.round_number);
                        push_line(&mut lines, s);
                    }
                    let ghost head = views(lines@);
                    let c = &t.combatants[turn];
                    let mut s = String::from_str("🎯 It's ");
                    s.append(c.name.as_str());
                    s.append("'s turn! (Initiative: ");
                    signed(&mut s, c.initiative);
                    s.append(", HP: ");
                    signed(&mut s, c.current_hp);
                    s.append("/");
                    signed(&mut s, c.max_hp);
                    s.append(")");
                    push_line(&mut lines, s);
                    self.combat_tracker = Some(t);
                    if turn != 0 {
                        assert(head =~= Seq::<Seq<char>>::empty());
                    }
                    self.emit(lines);
                }
            },
        }
    }

    /// Shows a combatant's stats (see [`stats_for`]).
    fn show_stats(&mut self, name: Option<&str>)
        ensures
            final(self).screen() == stats_for(
                old(self).screen(),
                match name {
                    Some(n) => Some(n@),
                    None => None,
                },
            ),
            final(self).input_buffer@ == old(self).input_buffer@,
            final(self).command_history == old(self).command_history,
            final(self).history_index == old(self).history_index,
    {
        let lines: Vec<String> = match &self.combat_tracker {
            None => {
                let mut v: Vec<String> = Vec::new();
                push_line(&mut v, String::from_str("No combat initialized. Use 'init' to start combat."));
                v
            },
            Some(t) => {
                match name {
                    Some(n) => {
                        match first_combatant(t, n) {
                            Some(i) => stats_lines_of(&t.combatants[i]),
                            None => {
                                let mut v: Vec<String> = Vec::new();
                                push_line(&mut v, missing_combatant(n));
                                v
                            },
                        }
                    },
                    None => {
                        let mut v: Vec<String> = Vec::new();
                        if t.current_turn < t.combatants.len() {
                            let c = &t.combatants[t.current_turn];
                            let mut l1 = String::from_str("📊 Current Turn: ");
                            l1.append(c.name.as_str());
                            let mut l2 = String::from_str("  HP: ");
                            signed(&mut l2, c.current_hp);
                            l2.append("/");
                            signed(&mut l2, c.max_hp);
                            let mut l3 = String::from_str("  AC: ");
                            signed(&mut l3, c.ac);
                            v.push(l1);
                            v.push(l2);
                            v.push(l3);
                            assert(views(v@) =~= seq![
                                "📊 Current Turn: "@ + c.name@,
                                "  HP: "@ + signed_decimal(c.current_hp as int) + "/"@ + signed_decimal(c.max_hp as int),
                                "  AC: "@ + signed_decimal(c.ac as int),
                            ]);
                        } else {
                            push_line(&mut v, String::from_str("❌ No current combatant"));
                        }
                        v
                    },
                }
            },
        };
        self.emit(lines);
    }

    /// Rolls an attack against `target` (see [`attack_effect`]).
    fn attack(&mut self, target: &str)
        ensures
            attack_effect(old(self).screen(), target@, final(self).screen()),
            final(self).input_buffer@ == old(self).input_buffer@,
            final(self).command_history == old(self).command_history,
            final(self).history_index == old(self).history_index,
    {
        let found: Option<Option<i32>> = match &self.combat_tracker {
            None => None,
            Some(t) => Some(
                match first_combatant(t, target) {
                    Some(i) => Some(t.combatants[i].ac),
                    None => None,
                },
            ),
        };
        match found {
            None => {
                self.add_output(String::from_str("No combat initialized. Use 'init' to start combat."));
            },
            Some(None) => {
                let mut s = String::from_str("❌ Target '");
                s.append(target);
                s.append("' not found in combat");
                self.add_output(s);
            },
            Some(Some(ac)) => {
                let ghost a = self.screen();
                let (r, crit) = roll_d20();
                let mut l1 = String::from_str("⚔️  Attack Roll: ");
                push_decimal(&mut l1, r as u64);
                l1.append(" (d20: ");
                push_decimal(&mut l1, r as u64);
                l1.append(")");
                let mut lines: Vec<String> = Vec::new();
                push_line(&mut lines, l1);
                push_all(&mut lines, crit);
                let mut l2 = String::from_str("🎯 Target AC: ");
                signed(&mut l2, ac);
                push_line(&mut lines, l2);
                let hit = r as i32 >= ac;
                if hit {
                    push_line(&mut lines, String::from_str("💥 HIT! The attack connects!"));
                    push_line(&mut lines, String::from_str("🎲 Enter damage (e.g., '2d6+3' or just '8'):"));
                } else {
                    push_line(&mut lines, String::from_str("🛡️  MISS! The attack fails to connect."));
                }
                assert(views(lines@) =~= attack_lines(r, ac));
                self.emit(lines);
                if hit {
                    let mut state = String::from_str("Waiting for damage against ");
                    state.append(target);
                    self.current_state = state;
                    let mut w = String::from_str("damage_for_");
                    w.append(target);
                    self.waiting_for = Some(w);
                }
                assert(attack_shown(a, target@, ac, r, self.screen()));
            },
        }
    }

    /// Resolves `self` to the current combatant's name.
    fn resolve_target(&self, target: &str) -> (res: Result<String, String>)
        ensures
            match resolved_target(self.screen(), target@) {
                Ok(n) => res matches Ok(s) && s@ == n,
                Err(m) => res matches Err(e) && e@ == m,
            },
    {
        if str_eq(target, "self") {
            match &self.combat_tracker {
                None => Err(String::from_str("No combat initialized.")),
                Some(t) => {
                    if t.current_turn < t.combatants.len() {
                        Ok(t.combatants[t.current_turn].name.clone())
                    } else {
                        Err(String::from_str("❌ No current combatant"))
                    }
                },
            }
        } else {
            Ok(String::from_str(target))
        }
    }

    /// Rolls a saving throw (see [`save_effect`]).
    fn saving_throw(&mut self, ability: &str, target: &str)
        ensures
            save_effect(old(self).screen(), ability@, target@, final(self).screen()),
            final(self).input_buffer@ == old(self).input_buffer@,
            final(self).command_history == old(self).command_history,
            final(self).history_index == old(self).history_index,
    {
        let full: &str = match ability_full_of(ability) {
            Some(f) => f,
            None => {
                self.add_output(String::from_str("❌ Invalid ability. Use: str, dex, con, int, wis, cha"));
                return;
            },
        };
        let name = match self.resolve_target(target) {
            Ok(n) => n,
            Err(m) => {
                self.add_output(m);
                return;
            },
        };
        let found: Option<bool> = match &self.combat_tracker {
            None => None,
            Some(t) => Some(first_combatant(t, name.as_str()).is_some()),
        };
        match found {
            None => {
                self.add_output(String::from_str("No combat initialized."));
            },
            Some(false) => {
                self.add_output(missing_combatant(name.as_str()));
            },
            Some(true) => {
                let ghost a = self.screen();
                let (r, crit) = roll_d20();
                let mut l = String::from_str("🎲 ");
                l.append(full);
                l.append(" saving throw for ");
                l.append(name.as_str());
                l.append(": ");
                push_decimal(&mut l, r as u64);
                l.append(" (d20: ");
                push_decimal(&mut l, r as u64);
                l.append(")");
                let mut lines: Vec<String> = Vec::new();
                assert(l@ =~= "🎲 "@ + full@ + " saving throw for "@ + name@ + ": "@ + decimal(r as nat) + " (d20: "@
                    + decimal(r as nat) + ")"@);
                push_line(&mut lines, l);
                push_all(&mut lines, crit);
                self.emit(lines);
                assert(save_shown(a, full@, name@, r, self.screen()));
            },
        }
    }

    /// Adds or removes a status effect (see [`status_effect`]).
    fn change_status(&mut self, target: &str, action: &str, status: &str, rounds: Option<i32>)
        ensures
            status_effect(old(self).screen(), target@, action@, status@, rounds, final(self).screen()),
            final(self).input_buffer@ == old(self).input_buffer@,
            final(self).command_history == old(self).command_history,
            final(self).history_index == old(self).history_index,
    {
        let name = match self.resolve_target(target) {
            Ok(n) => n,
            Err(m) => {
                self.add_output(m);
                return;
            },
        };
        let ghost a = self.screen();
        match self.combat_tracker.take() {
            None => {
                self.add_output(String::from_str("No combat initialized."));
            },
            Some(mut t) => {
                match first_combatant(&t, name.as_str()) {
                    None => {
                        self.combat_tracker = Some(t);
                        self.add_output(missing_combatant(name.as_str()));
                    },
                    Some(i) => {
                        let ghost f = fight_of(Some(t))->0;
                        if str_eq(action, "add") {
                            let mut c = t.combatants.remove(i);
                            let ghost old_c = c;
                            c.add_status(StatusEffect { name: String::from_str(status), description: None, duration: rounds });
                            let ghost newc = c;
                            replace_back(&mut t, i, c, Ghost(f.combatants));
                            self.combat_tracker = Some(t);
                            let mut l = String::from_str("✅ Added status '");
                            l.append(status);
                            l.append("' to ");
                            l.append(name.as_str());
                            match rounds {
                                Some(r) => {
                                    l.append(" for ");
                                    signed(&mut l, r);
                                    l.append(" rounds");
                                },
                                None => {
                                    l.append(" (permanent)");
                                },
                            }
                            assert(l@ =~= "✅ Added status '"@ + status@ + "' to "@ + name@ + duration_phrase(rounds));
                            self.add_output(l);
                            assert(newc.status_effects@.drop_last() =~= without_status(old_c.status_effects@, status@));
                            assert(status_added(old_c, status@, rounds, newc));
                            assert(status_changed(
                                a,
                                f,
                                i as int,
                                newc,
                                "✅ Added status '"@ + status@ + "' to "@ + name@ + duration_phrase(rounds),
                                self.screen(),
                            ));
                            assert(status_effect(a, target@, action@, status@, rounds, self.screen()));
                        } else if str_eq(action, "remove") {
                            let mut c = t.combatants.remove(i);
                            let ghost old_c = c;
                            let had = c.remove_status(status);
                            let ghost newc = c;
                            replace_back(&mut t, i, c, Ghost(f.combatants));
                            self.combat_tracker = Some(t);
                            let mut l: String;
                            if had {
                                l = String::from_str("✅ Removed status '");
                                l.append(status);
                                l.append("' from ");
                                l.append(name.as_str());
                            } else {
                                l = String::from_str("❌ Status '");
                                l.append(status);
                                l.append("' not found on ");
                                l.append(name.as_str());
                            }
                            let ghost line = l@;
                            self.add_output(l);
                            assert(status_removed(old_c, status@, newc));
                            assert(line == removal_line(old_c, status@, name@));
                            assert(status_changed(a, f, i as int, newc, line, self.screen()));
                            assert(status_effect(a, target@, action@, status@, rounds, self.screen()));
                        } else {
                            self.combat_tracker = Some(t);
                            self.add_output(String::from_str("❌ Invalid action. Use 'add' or 'remove'"));
                            assert(status_effect(a, target@, action@, status@, rounds, self.screen()));
                        }
                    },
                }
            },
        }
    }

    /// Sets up the sample fight.
    fn initialize_combat(&mut self)
        ensures
            final(self).screen() == (Screen { fight: final(self).screen().fight, ..print(old(self).screen(), combat_start()) }),
            final(self).screen().fight matches Some(f) && is_sample_fight(f),
            final(self).input_buffer@ == old(self).input_buffer@,
            final(self).command_history == old(self).command_history,
            final(self).history_index == old(self).history_index,
    {
        let mut t = CombatTracker::new();
        // The two samples are pushed in initiative order, highest first.
        t.combatants.push(Combatant::new_npc(String::from_str("Fighter"), 30, 16, 15));
        t.combatants.push(Combatant::new_npc(String::from_str("Goblin"), 7, 13, 12));
        self.emit(combat_start_lines());
        self.combat_tracker = Some(t);
    }

    /// Reads the damage of a hit while the terminal waits for it (see
    /// [`damage_entry_effect`]).
    fn enter_damage(&mut self, command: &str)
        requires
            awaits_damage(old(self).screen().waiting_for),
        ensures
            damage_entry_effect(old(self).screen(), command@, final(self).screen()),
            final(self).input_buffer@ == old(self).input_buffer@,
            final(self).command_history == old(self).command_history,
            final(self).history_index == old(self).history_index,
    {
        let ghost a = self.screen();
        let target: String = match &self.waiting_for {
            Some(w) => {
                let v = str_chars(w.as_str());
                string_from_range(&v, 11, v.len())
            },
            None => String::new(),
        };
        assert(target@ =~= a.waiting_for->0.skip(11));
        let t = crate::text::trimmed(command);
        match parse_i32(t.as_str()) {
            Some(d) => {
                self.apply_hit(target.as_str(), d, true);
                self.waiting_for = None;
                self.current_state = String::from_str("Combat Ready");
            },
            None => {
                if dice_fits(t.as_str()) {
                    match roll_dice_with_crits(t.as_str()) {
                        Ok((rolls, total, crit)) => {
                            let mut l = String::from_str("🎲 Damage roll: ");
                            push_decimal(&mut l, total as u64);
                            l.append(" (dice: ");
                            let listed = list_text_of(&rolls);
                            l.append(listed.as_str());
                            l.append(")");
                            let mut lines: Vec<String> = Vec::new();
                            push_line(&mut lines, l);
                            match crit {
                                Some(m) => push_line(&mut lines, m),
                                None => {
                                    assert(views(lines@) + Seq::<Seq<char>>::empty() =~= views(lines@));
                                },
                            }
                            self.emit(lines);
                            self.apply_hit(target.as_str(), total as i32, true);
                            self.waiting_for = None;
                            self.current_state = String::from_str("Combat Ready");
                            assert(damage_rolled(a, t@, target@, rolls@, self.screen()));
                        },
                        Err(_) => {
                            self.add_output(String::from_str(
                                "❌ Invalid damage input. Enter a number or dice expression (e.g., 2d6+3)",
                            ));
                        },
                    }
                } else {
                    self.add_output(String::from_str(
                        "❌ Invalid damage input. Enter a number or dice expression (e.g., 2d6+3)",
                    ));
                }
            },
        }
    }

    /// Runs a command in the combat terminal (see [`combat_effect`]).
    pub(crate) fn process_combat_command(&mut self, command: String)
        ensures
            combat_effect(old(self).screen(), command@, final(self).screen()),
            final(self).input_buffer@ == if combat_quits(old(self).screen(), command@) {
                Seq::<char>::empty()
            } else {
                old(self).input_buffer@
            },
            final(self).command_history == old(self).command_history,
            final(self).history_index == old(self).history_index,
    {
        if awaiting_damage(&self.waiting_for) {
            self.enter_damage(command.as_str());
            return;
        }
        let (parts, w) = parse_command(command.as_str());
        if parts.len() == 0 {
            return;
        }
        proof {
            assert(views(parts@).len() == parts@.len());
            assert(forall|k: int| 0 <= k < parts@.len() ==> #[trigger] views(parts@)[k] == parts@[k]@);
            reveal_strlit("help");
            reveal_strlit("h");
            reveal_strlit("init");
            reveal_strlit("initialize");
            reveal_strlit("search");
            reveal_strlit("quit");
            reveal_strlit("exit");
            reveal_strlit("q");
            assert("help"@[0] == 'h' && "h"@[0] == 'h' && "init"@[0] == 'i' && "initialize"@[0] == 'i');
            assert("search"@[0] == 's' && "quit"@[0] == 'q' && "exit"@[0] == 'e' && "q"@[0] == 'q');
        }
        if str_eq(w.as_str(), "help") || str_eq(w.as_str(), "h") {
            self.emit(combat_help_lines());
        } else if str_eq(w.as_str(), "init") || str_eq(w.as_str(), "initialize") {
            self.initialize_combat();
        } else if str_eq(w.as_str(), "search") {
            if parts.len() >= 2 {
                let query = join_from(&parts, 1, " ");
                proof {
                    lemma_space();
                }
                assert(query@ == words_after(command@, 1));
                self.start_search(query, true);
            } else {
                self.emit(combat_search_usage_lines());
            }
        } else if str_eq(w.as_str(), "quit") || str_eq(w.as_str(), "exit") || str_eq(w.as_str(), "q") {
            self.add_output(String::from_str("Exiting combat mode..."));
            self.mode = AppMode::ToolsMenu;
            self.selected_index = 0;
            self.input_buffer = String::new();
            self.output_history = Vec::new();
            self.scroll_offset = 0;
            self.combat_tracker = None;
            assert(views(self.output_history@) =~= Seq::<Seq<char>>::empty());
        } else if str_eq(w.as_str(), "show") || str_eq(w.as_str(), "list") {
            let lines = show_lines_of(&self.combat_tracker);
            self.emit(lines);
        } else if str_eq(w.as_str(), "next") || str_eq(w.as_str(), "continue") {
            self.advance_turn();
        } else if str_eq(w.as_str(), "stats") {
            if parts.len() >= 2 {
                self.show_stats(Some(parts[1].as_str()));
            } else {
                self.show_stats(None);
            }
        } else if str_eq(w.as_str(), "attack") {
            if parts.len() >= 2 {
                self.attack(parts[1].as_str());
            } else {
                self.emit(attack_usage_lines());
            }
        } else if str_eq(w.as_str(), "save") {
            if parts.len() >= 2 {
                let ability = to_lowercase(parts[1].as_str());
                if parts.len() >= 3 {
                    self.saving_throw(ability.as_str(), parts[2].as_str());
                } else {
                    self.saving_throw(ability.as_str(), "self");
                }
            } else {
                self.emit(save_usage_lines());
            }
        } else if str_eq(w.as_str(), "hit") {
            if parts.len() >= 3 {
                match parse_i32(parts[2].as_str()) {
                    Some(d) => self.apply_hit(parts[1].as_str(), d, true),
                    None => self.add_output(String::from_str("❌ Invalid damage amount")),
                }
            } else {
                self.emit(hit_usage_lines());
            }
        } else if str_eq(w.as_str(), "status") {
            if parts.len() >= 4 {
                let action = to_lowercase(parts[2].as_str());
                let rounds: Option<i32> = if parts.len() >= 5 {
                    parse_i32(parts[4].as_str())
                } else {
                    None
                };
                self.change_status(parts[1].as_str(), action.as_str(), parts[3].as_str(), rounds);
            } else {
                self.emit(status_usage_lines());
            }
        } else if str_eq(w.as_str(), "damage") {
            if parts.len() >= 3 {
                match parse_i32(parts[2].as_str()) {
                    Some(d) => self.apply_hit(parts[1].as_str(), d, false),
                    None => self.add_output(String::from_str("❌ Invalid damage amount")),
                }
            } else {
                self.add_output(String::from_str("Usage: damage <target> <amount>"));
            }
        } else if str_eq(w.as_str(), "heal") {
            if parts.len() >= 3 {
                match parse_i32(parts[2].as_str()) {
                    Some(h) => self.apply_heal(parts[1].as_str(), h),
                    None => self.add_output(String::from_str("❌ Invalid heal amount")),
                }
            } else {
                self.add_output(String::from_str("Usage: heal <target> <amount>"));
            }
        } else if self.combat_tracker.is_some() {
            let mut s = String::from_str("Unknown command '");
            s.append(w.as_str());
            s.append("'. Type 'help' for available commands.");
            self.add_output(s);
        } else {
            self.add_output(String::from_str("No combat initialized. Use 'init' to start combat."));
        }
    }
}

/// Puts a changed combatant back at `i`.
fn replace_back(t: &mut CombatTracker, i: usize, c: Combatant, Ghost(orig): Ghost<Seq<Combatant>>)
    requires
        i <= old(t).combatants@.len(),
        old(t).combatants@ == orig.remove(i as int),
        i < orig.len(),
    ensures
        final(t).combatants@ == orig.update(i as int, c),
        final(t).current_turn == old(t).current_turn,
        final(t).round_number == old(t).round_number,
{
    t.combatants.insert(i, c);
    assert(t.combatants@ =~= orig.update(i as int, c));
}

/// The combat terminal's help.
pub open spec fn combat_help() -> Seq<Seq<char>> {
    seq![
        "Combat Mode Commands:"@,
        "  init - Initialize combat tracker"@,
        "  stats [name] - Show character stats"@,
        "  attack <target> - Roll attack against target's AC"@,
        "  save <stat> [target] - Make saving throw (str/dex/con/int/wis/cha)"@,
        "  hit <target> <amount> - Deal direct damage"@,
        "  damage <name> <amount> - Apply damage"@,
        "  heal <name> <amount> - Heal character"@,
        "  status <target> add <status> [rounds] - Add status effect"@,
        "  status <target> remove <status> - Remove status effect"@,
        "  next|continue - Advance to next combatant"@,
        "  search <query> - Search D&D 5e API"@,
        "  show|list - Display current initiative order"@,
        "  quit|exit - Exit combat mode"@,
        ""@,
        "Examples:"@,
        "  attack goblin"@,
        "  save wis fighter"@,
        "  hit goblin 8"@,
        "  status goblin add poisoned 3"@,
    ]
}

fn combat_help_lines() -> (res: Vec<String>)
    ensures
        views(res@) == combat_help(),
{
    let mut v: Vec<String> = Vec::new();
    v.push(String::from_str("Combat Mode Commands:"));
    v.push(String::from_str("  init - Initialize combat tracker"));
    v.push(String::from_str("  stats [name] - Show character stats"));
    v.push(String::from_str("  attack <target> - Roll attack against target's AC"));
    v.push(String::from_str("  save <stat> [target] - Make saving throw (str/dex/con/int/wis/cha)"));
    v.push(String::from_str("  hit <target> <amount> - Deal direct damage"));
    v.push(String::from_str("  damage <name> <amount> - Apply damage"));
    v.push(String::from_str("  heal <name> <amount> - Heal character"));
    v.push(String::from_str("  status <target> add <status> [rounds] - Add status effect"));
    v.push(String::from_str("  status <target> remove <status> - Remove status effect"));
    v.push(String::from_str("  next|continue - Advance to next combatant"));
    v.push(String::from_str("  search <query> - Search D&D 5e API"));
    v.push(String::from_str("  show|list - Display current initiative order"));
    v.push(String::from_str("  quit|exit - Exit combat mode"));
    v.push(String::from_str(""));
    v.push(String::from_str("Examples:"));
    v.push(String::from_str("  attack goblin"));
    v.push(String::from_str("  save wis fighter"));
    v.push(String::from_str("  hit goblin 8"));
    v.push(String::from_str("  status goblin add poisoned 3"));
    assert(views(v@) =~= combat_help());
    v
}

/// The lines shown when a fight is set up.
pub open spec fn combat_start() -> Seq<Seq<char>> {
    seq![
        "⚔️ Enhanced Combat Tracker ⚔️"@,
        "Initializing combat setup..."@,
        "Combat initialized with sample characters!"@,
        ""@,
        "Combatants added:"@,
        "  • Fighter (HP: 30, AC: 16, Init: 15)"@,
        "  • Goblin (HP: 7, AC: 13, Init: 12)"@,
        ""@,
        "Type 'show' to see initiative order, or 'next' to start combat!"@,
    ]
}

fn combat_start_lines() -> (res: Vec<String>)
    ensures
        views(res@) == combat_start(),
{
    let mut v: Vec<String> = Vec::new();
    v.push(String::from_str("⚔️ Enhanced Combat Tracker ⚔️"));
    v.push(String::from_str("Initializing combat setup..."));
    v.push(String::from_str("Combat initialized with sample characters!"));
    v.push(String::from_str(""));
    v.push(String::from_str("Combatants added:"));
    v.push(String::from_str("  • Fighter (HP: 30, AC: 16, Init: 15)"));
    v.push(String::from_str("  • Goblin (HP: 7, AC: 13, Init: 12)"));
    v.push(String::from_str(""));
    v.push(String::from_str("Type 'show' to see initiative order, or 'next' to start combat!"));
    assert(views(v@) =~= combat_start());
    v
}

/// How to use `search` in a fight.
pub open spec fn combat_search_usage() -> Seq<Seq<char>> {
    seq![
        "Usage: search <query>"@,
        "Example: search fireball"@,
    ]
}

fn combat_search_usage_lines() -> (res: Vec<String>)
    ensures
        views(res@) == combat_search_usage(),
{
    let mut v: Vec<String> = Vec::new();
    v.push(String::from_str("Usage: search <query>"));
    v.push(String::from_str("Example: search fireball"));
    assert(views(v@) =~= combat_search_usage());
    v
}

/// How to use `attack`.
pub open spec fn attack_usage() -> Seq<Seq<char>> {
    seq![
        "Usage: attack <target>"@,
        "Example: attack goblin"@,
    ]
}

fn attack_usage_lines() -> (res: Vec<String>)
    ensures
        views(res@) == attack_usage(),
{
    let mut v: Vec<String> = Vec::new();
    v.push(String::from_str("Usage: attack <target>"));
    v.push(String::from_str("Example: attack goblin"));
    assert(views(v@) =~= attack_usage());
    v
}

/// How to use `save`.
pub open spec fn save_usage() -> Seq<Seq<char>> {
    seq![
        "Usage: save <ability> [target]"@,
        "Abilities: str, dex, con, int, wis, cha"@,
        "Example: save wis goblin"@,
    ]
}

fn save_usage_lines() -> (res: Vec<String>)
    ensures
        views(res@) == save_usage(),
{
    let mut v: Vec<String> = Vec::new();
    v.push(String::from_str("Usage: save <ability> [target]"));
    v.push(String::from_str("Abilities: str, dex, con, int, wis, cha"));
    v.push(String::from_str("Example: save wis goblin"));
    assert(views(v@) =~= save_usage());
    v
}

/// How to use `hit`.
pub open spec fn hit_usage() -> Seq<Seq<char>> {
    seq![
        "Usage: hit <target> <amount>"@,
        "Example: hit goblin 8"@,
    ]
}

fn hit_usage_lines() -> (res: Vec<String>)
    ensures
        views(res@) == hit_usage(),
{
    let mut v: Vec<String> = Vec::new();
    v.push(String::from_str("Usage: hit <target> <amount>"));
    v.push(String::from_str("Example: hit goblin 8"));
    assert(views(v@) =~= hit_usage());
    v
}

/// How to use `status`.
pub open spec fn status_usage() -> Seq<Seq<char>> {
    seq![
        "Usage: status <target> <add|remove> <status> [rounds]"@,
        "Example: status goblin add poisoned 3"@,
        "Example: status fighter remove stunned"@,
    ]
}

fn status_usage_lines() -> (res: Vec<String>)
    ensures
        views(res@) == status_usage(),
{
    let mut v: Vec<String> = Vec::new();
    v.push(String::from_str("Usage: status <target> <add|remove> <status> [rounds]"));
    v.push(String::from_str("Example: status goblin add poisoned 3"));
    v.push(String::from_str("Example: status fighter remove stunned"));
    assert(views(v@) =~= status_usage());
    v
}

} // verus!

verus! {

/// Every combatant of the fight has hit points between 0 and its maximum.
pub open spec fn hit_points_in_range(f: Fight) -> bool {
    forall|k: int|
        0 <= k < f.combatants.len() ==> 0 <= #[trigger] f.combatants[k].current_hp
            <= f.combatants[k].max_hp
}

/// `g` is the fight `f` with at most the hit points of the combatant at `i`
/// changed (of none when `i` is `None`): same order, turn and round, and
/// every other field as it was.
pub open spec fn only_hit_points_of(f: Fight, g: Fight, i: Option<int>) -> bool {
    &&& g.current_turn == f.current_turn
    &&& g.round_number == f.round_number
    &&& g.combatants.len() == f.combatants.len()
    &&& forall|k: int| 0 <= k < f.combatants.len() && i != Some(k) ==> #[trigger] g.combatants[k] == f.combatants[k]
    &&& i matches Some(j) ==> g.combatants[j] == Combatant { current_hp: g.combatants[j].current_hp, ..f.combatants[j] }
}

proof fn lemma_hit_keeps_range(a: Screen, target: Seq<char>, damage: i32, direct: bool)
    requires
        a.fight matches Some(f) && hit_points_in_range(f),
        damage >= 0,
    ensures
        hit(a, target, damage, direct).fight matches Some(g) && hit_points_in_range(g)
            && only_hit_points_of(a.fight->0, g, first_named(a.fight->0.combatants, target)),
{
    let f = a.fight->0;
    match first_named(f.combatants, target) {
        None => {},
        Some(i) => {
            let i = choose|i: int| is_first_named(f.combatants, target, i);
            assert(0 <= i < f.combatants.len());
        },
    }
}

proof fn lemma_heal_keeps_range(a: Screen, target: Seq<char>, amount: i32)
    requires
        a.fight matches Some(f) && hit_points_in_range(f),
        amount >= 0,
    ensures
        heal(a, target, amount).fight matches Some(g) && hit_points_in_range(g)
            && only_hit_points_of(a.fight->0, g, first_named(a.fight->0.combatants, target)),
{
    let f = a.fight->0;
    match first_named(f.combatants, target) {
        None => {},
        Some(i) => {
            let i = choose|i: int| is_first_named(f.combatants, target, i);
            assert(0 <= i < f.combatants.len());
        },
    }
}

/// Law: `hit`, `damage` and `heal` with an amount of 0 or more keep every
/// combatant's hit points between 0 and its maximum, and change nothing of
/// the fight but the hit points of the first combatant whose name matches
/// the target (ignoring ASCII case): the order, the turn, the round and all
/// other fields stay as they were.
pub proof fn law_hit_and_heal_keep_hit_points(a: Screen, cmd: Seq<char>, b: Screen)
    requires
        a.fight matches Some(f) && hit_points_in_range(f),
        !awaits_damage(a.waiting_for),
        command_word(cmd) == "hit"@ || command_word(cmd) == "damage"@ || command_word(cmd) == "heal"@,
        words(cmd).len() >= 3,
        parse_i32_spec(words(cmd)[2]) matches Some(n) && n >= 0,
        combat_effect(a, cmd, b),
    ensures
        b.fight matches Some(g) && hit_points_in_range(g)
            && only_hit_points_of(a.fight->0, g, first_named(a.fight->0.combatants, words(cmd)[1])),
{
    reveal_strlit("help");
    reveal_strlit("h");
    reveal_strlit("init");
    reveal_strlit("initialize");
    reveal_strlit("search");
    reveal_strlit("quit");
    reveal_strlit("exit");
    reveal_strlit("q");
    reveal_strlit("show");
    reveal_strlit("list");
    reveal_strlit("next");
    reveal_strlit("continue");
    reveal_strlit("stats");
    reveal_strlit("attack");
    reveal_strlit("save");
    reveal_strlit("hit");
    reveal_strlit("status");
    reveal_strlit("damage");
    reveal_strlit("heal");
    let ws = words(cmd);
    let w = command_word(cmd);
    let n = parse_i32_spec(ws[2])->0;
    if w == "heal"@ {
        assert(w[0] == 'h' && w[2] == 'a');
        assert("help"@[2] == 'l' && "init"@[0] == 'i' && "quit"@[0] == 'q' && "exit"@[0] == 'e');
        assert("show"@[0] == 's' && "list"@[0] == 'l' && "next"@[0] == 'n' && "save"@[0] == 's');
        assert(w != "help"@ && w != "h"@ && w != "init"@ && w != "initialize"@ && w != "search"@);
        assert(w != "quit"@ && w != "exit"@ && w != "q"@ && w != "show"@ && w != "list"@);
        assert(w != "next"@ && w != "continue"@ && w != "stats"@ && w != "attack"@ && w != "save"@);
        assert(w != "hit"@ && w != "status"@ && w != "damage"@);
        lemma_heal_keeps_range(a, ws[1], n);
    } else if w == "damage"@ {
        assert(w[0] == 'd');
        assert("search"@[0] == 's' && "attack"@[0] == 'a' && "status"@[0] == 's');
        assert(w != "help"@ && w != "h"@ && w != "init"@ && w != "initialize"@ && w != "search"@);
        assert(w != "quit"@ && w != "exit"@ && w != "q"@ && w != "show"@ && w != "list"@);
        assert(w != "next"@ && w != "continue"@ && w != "stats"@ && w != "attack"@ && w != "save"@);
        assert(w != "hit"@ && w != "status"@);
        lemma_hit_keeps_range(a, ws[1], n, false);
    } else {
        assert(w != "help"@ && w != "h"@ && w != "init"@ && w != "initialize"@ && w != "search"@);
        assert(w != "quit"@ && w != "exit"@ && w != "q"@ && w != "show"@ && w != "list"@);
        assert(w != "next"@ && w != "continue"@ && w != "stats"@ && w != "attack"@ && w != "save"@);
        lemma_hit_keeps_range(a, ws[1], n, true);
    }
}

/// Law: healing adds the amount to the hit points of the first combatant
/// whose name matches, up to its maximum: they become
/// `min(hp + amount, max_hp)`, so a heal that stays below the maximum raises
/// them by exactly the amount. Nothing else of that combatant changes, and
/// the other combatants stay as they were.
pub proof fn law_heal_adds_up_to_maximum(a: Screen, target: Seq<char>, amount: i32)
    requires
        a.fight matches Some(f) && first_named(f.combatants, target) is Some,
        amount >= 0,
    ensures
        ({
            let f = a.fight->0;
            let i = first_named(f.combatants, target)->0;
            let c = f.combatants[i];
            let g = heal(a, target, amount).fight->0;
            &&& heal(a, target, amount).fight is Some
            &&& g.combatants.len() == f.combatants.len()
            &&& g.combatants[i].current_hp == (if c.current_hp + amount < c.max_hp {
                c.current_hp + amount
            } else {
                c.max_hp as int
            })
            &&& c.current_hp + amount < c.max_hp ==> g.combatants[i].current_hp - c.current_hp == amount
            &&& g.combatants[i] == (Combatant { current_hp: g.combatants[i].current_hp, ..c })
            &&& forall|k: int| 0 <= k < f.combatants.len() && k != i ==> #[trigger] g.combatants[k] == f.combatants[k]
        }),
{
    let f = a.fight->0;
    let i = choose|i: int| is_first_named(f.combatants, target, i);
    assert(0 <= i < f.combatants.len());
}

} // verus!
