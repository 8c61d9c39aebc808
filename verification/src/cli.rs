//! The line-by-line interface: what each typed line does to the tool it is
//! typed into, and the lines printed in answer. Reading the lines and
//! printing the answers is left to the caller.
use vstd::prelude::*;
use crate::text::{trim, trimmed, uppercase, to_uppercase, lowercase, to_lowercase, str_eq, parse_i32_spec, parse_i32,
    decimal, signed_decimal, push_decimal, push_signed_decimal, str_chars};
use crate::words::{words, views, split_words, push_line, push_all};
use crate::initiative::{InitiativeTracker, InitiativeEntry, removal, order_lines};
use crate::order::stable_sorted_desc;
use crate::dice::{dice_fits, roll_dice_with_crits, dice_expression_fits, dice_request, dice_modifier, total_of,
    crit_text, dice_art, dice_color, get_dice_ascii_art, get_dice_color_code, reset_color, shown_sides, dice_sides_of};
use crate::tui::{list_text, list_text_of, opt_view, npc_stats, boxed, npc_stats_from, stats_from_draws};
use crate::words::{pad, padded, replaced, replace_char};
use crate::text::{parse_u8_spec, parse_u8, decimal_string, first_index, find_char, string_from_range, parse_usize_spec, parse_usize};
use crate::dice::random_byte;
use crate::races_classes::{race_names, class_names, get_random_race, get_random_class};
use crate::character::Character;
use crate::search::{SearchCategory, category_for};
use crate::words::{join_from, join_with};
use crate::error_handling::{numeric_check, validate_numeric_input};

verus! {

/// Whether a line asks to leave the program from any prompt: `EXIT` or
/// `QUIT` in any letter case, with spaces around allowed.
pub open spec fn universal_exit(input: Seq<char>) -> bool {
    uppercase(trim(input)) == "EXIT"@ || uppercase(trim(input)) == "QUIT"@
}

/// Whether a line is the command that leaves the program from any prompt.
pub fn is_universal_exit(input: &str) -> (r: bool)
    ensures
        r == universal_exit(input@),
{
    let t = trimmed(input);
    let u = to_uppercase(t.as_str());
    str_eq(u.as_str(), "EXIT") || str_eq(u.as_str(), "QUIT")
}

/// The first word of a line, or nothing.
pub open spec fn first_word(ws: Seq<Seq<char>>) -> Seq<char> {
    if ws.len() == 0 { seq![] } else { ws[0] }
}

/// The help of the initiative tracker.
pub open spec fn initiative_help() -> Seq<Seq<char>> {
    seq![
        "Commands:"@,
        "  add <name> <initiative> [player|npc] - Add entry to tracker"@,
        "  remove <name> - Remove entry from tracker"@,
        "  next - Advance to next turn"@,
        "  display - Show current initiative order"@,
        "  clear - Clear all entries"@,
        "  quit - Exit initiative tracker"@,
    ]
}

/// Whether an added entry is a player: unless a fourth word says otherwise
/// than `player`.
pub open spec fn player_flag(ws: Seq<Seq<char>>) -> bool {
    ws.len() < 4 || ws[3] == "player"@
}

/// The answer to `add <name> <initiative> [player|npc]` (words `ws`).
pub open spec fn add_reply(e0: Seq<InitiativeEntry>, t0: int, ws: Seq<Seq<char>>, e1: Seq<InitiativeEntry>, t1: int, lines: Seq<Seq<char>>) -> bool {
    if ws.len() >= 3 {
        match parse_i32_spec(ws[2]) {
            Some(init) => {
                &&& exists|name: String| name@ == ws[1] && #[trigger] stable_sorted_desc(
                    e0.push(InitiativeEntry { name, initiative: init, is_player: player_flag(ws) }),
                    e1,
                )
                &&& t1 == 0
                &&& lines == seq!["Added to initiative tracker!"@] + order_lines(e1, t1)
            },
            None => e1 == e0 && t1 == t0 && lines == seq!["Invalid initiative value. Please enter a number."@],
        }
    } else {
        e1 == e0 && t1 == t0 && lines == seq!["Usage: add <name> <initiative> [player|npc]"@, "Example: add Gandalf 18 player"@]
    }
}

/// The answer to `remove <name>` (words `ws`).
pub open spec fn remove_reply(e0: Seq<InitiativeEntry>, t0: int, ws: Seq<Seq<char>>, e1: Seq<InitiativeEntry>, t1: int, lines: Seq<Seq<char>>) -> bool {
    if ws.len() >= 2 {
        exists|res: bool| #[trigger] removal(e0, t0, ws[1], res, e1, t1) && lines == (if res {
            seq!["Removed "@ + ws[1] + " from initiative tracker"@] + order_lines(e1, t1)
        } else {
            seq!["Could not find "@ + ws[1] + " in initiative tracker"@]
        })
    } else {
        e1 == e0 && t1 == t0 && lines == seq!["Usage: remove <name>"@]
    }
}

/// The answer to `next`: the entry whose turn it is, then the order.
pub open spec fn next_reply(e0: Seq<InitiativeEntry>, t0: int, e1: Seq<InitiativeEntry>, t1: int, lines: Seq<Seq<char>>) -> bool {
    &&& e1 == e0
    &&& if e0.len() == 0 {
        t1 == t0 && lines == seq!["No entries in initiative tracker. Use 'add' to add some!"@]
    } else {
        &&& t1 == (if t0 + 1 == e0.len() { 0 } else { t0 + 1 })
        &&& lines == seq![
            "Current turn: "@ + e0[t0].name@ + " (Initiative: "@ + signed_decimal(e0[t0].initiative as int) + ")"@,
        ] + order_lines(e1, t1)
    }
}

/// What a line typed into the initiative tracker does. The line is read in
/// lower case, split into words. `e0`/`t0` are the entries and next turn
/// before, `e1`/`t1` after; `lines` is the answer and `done` tells whether
/// the tracker is left.
pub open spec fn initiative_reply(
    e0: Seq<InitiativeEntry>,
    t0: int,
    input: Seq<char>,
    e1: Seq<InitiativeEntry>,
    t1: int,
    lines: Seq<Seq<char>>,
    done: bool,
) -> bool {
    let ws = words(lowercase(input));
    let cmd = first_word(ws);
    if cmd == "add"@ {
        !done && add_reply(e0, t0, ws, e1, t1, lines)
    } else if cmd == "remove"@ {
        !done && remove_reply(e0, t0, ws, e1, t1, lines)
    } else if cmd == "next"@ {
        !done && next_reply(e0, t0, e1, t1, lines)
    } else if cmd == "display"@ {
        !done && e1 == e0 && t1 == t0 && lines == order_lines(e0, t0)
    } else if cmd == "clear"@ {
        !done && e1.len() == 0 && t1 == 0 && lines == seq!["Initiative tracker cleared!"@]
    } else if cmd == "quit"@ || cmd == "q"@ {
        done && e1 == e0 && t1 == t0 && lines.len() == 0
    } else if cmd == "help"@ || cmd == "h"@ {
        !done && e1 == e0 && t1 == t0 && lines == initiative_help()
    } else {
        !done && e1 == e0 && t1 == t0 && lines == seq!["Unknown command. Type 'help' for available commands."@]
    }
}

fn initiative_help_lines() -> (res: Vec<String>)
    ensures
        views(res@) == initiative_help(),
{
    let mut v: Vec<String> = Vec::new();
    v.push(String::from_str("Commands:"));
    v.push(String::from_str("  add <name> <initiative> [player|npc] - Add entry to tracker"));
    v.push(String::from_str("  remove <name> - Remove entry from tracker"));
    v.push(String::from_str("  next - Advance to next turn"));
    v.push(String::from_str("  display - Show current initiative order"));
    v.push(String::from_str("  clear - Clear all entries"));
    v.push(String::from_str("  quit - Exit initiative tracker"));
    assert(views(v@) =~= initiative_help());
    v
}

fn line_of(s: &str) -> (res: Vec<String>)
    ensures
        views(res@) == seq![s@],
{
    let mut v: Vec<String> = Vec::new();
    v.push(String::from_str(s));
    assert(views(v@) =~= seq![s@]);
    v
}

/// `head` followed by the lines of the tracker's order.
fn with_order(head: String, t: &InitiativeTracker) -> (res: Vec<String>)
    ensures
        views(res@) == seq![head@] + order_lines(t.entries_seq(), t.turn()),
{
    let mut v: Vec<String> = Vec::new();
    v.push(head);
    let shown = t.display_lines();
    let ghost rest = views(shown@);
    assert(rest == order_lines(t.entries_seq(), t.turn()));
    push_all(&mut v, shown);
    v
}

impl InitiativeTracker {
    /// Carries out one line typed into the initiative tracker (see
    /// `initiative_reply`): gives the answer and whether the tracker is left.
    pub fn run_command(&mut self, input: &str) -> (res: (Vec<String>, bool))
        ensures
            initiative_reply(
                old(self).entries_seq(),
                old(self).turn(),
                input@,
                final(self).entries_seq(),
                final(self).turn(),
                views(res.0@),
                res.1,
            ),
    {
        let low = to_lowercase(input);
        let parts = split_words(low.as_str());
        assert(views(parts@) == words(lowercase(input@)));
        let ghost ws = views(parts@);
        assert(ws.len() == parts@.len());
        if parts.len() > 0 {
            assert(ws[0] == parts@[0]@);
        }
        if parts.len() == 0 {
            proof {
                reveal_strlit("add");
                reveal_strlit("remove");
                reveal_strlit("next");
                reveal_strlit("display");
                reveal_strlit("clear");
                reveal_strlit("quit");
                reveal_strlit("q");
                reveal_strlit("help");
                reveal_strlit("h");
                let c = first_word(ws);
                assert(c.len() == 0);
                assert(c != "add"@ && c != "remove"@ && c != "next"@ && c != "display"@ && c != "clear"@);
                assert(c != "quit"@ && c != "q"@ && c != "help"@ && c != "h"@);
            }
            return (line_of("Unknown command. Type 'help' for available commands."), false);
        }
        let cmd = parts[0].as_str();
        if str_eq(cmd, "add") {
            if parts.len() >= 3 {
                assert(ws[1] == parts@[1]@ && ws[2] == parts@[2]@);
                match parse_i32(parts[2].as_str()) {
                    Some(init) => {
                        if parts.len() >= 4 {
                            assert(ws[3] == parts@[3]@);
                        }
                        let is_player = parts.len() < 4 || str_eq(parts[3].as_str(), "player");
                        assert(is_player == player_flag(ws));
                        assert(parse_i32_spec(ws[2]) == Some(init));
                        let name = parts[1].clone();
                        let ghost nm = name;
                        assert(nm@ == ws[1]);
                        let ghost e0 = self.entries_seq();
                        let ghost t0 = self.turn();
                        self.add_entry(name, init, is_player);
                        let lines = with_order(String::from_str("Added to initiative tracker!"), self);
                        assert(stable_sorted_desc(
                            e0.push(InitiativeEntry { name: nm, initiative: init, is_player }),
                            self.entries_seq(),
                        ));
                        assert(add_reply(e0, t0, ws, self.entries_seq(), self.turn(), views(lines@)));
                        (lines, false)
                    },
                    None => (line_of("Invalid initiative value. Please enter a number."), false),
                }
            } else {
                let mut v: Vec<String> = Vec::new();
                v.push(String::from_str("Usage: add <name> <initiative> [player|npc]"));
                v.push(String::from_str("Example: add Gandalf 18 player"));
                assert(views(v@) =~= seq!["Usage: add <name> <initiative> [player|npc]"@, "Example: add Gandalf 18 player"@]);
                (v, false)
            }
        } else if str_eq(cmd, "remove") {
            if parts.len() >= 2 {
                assert(ws[1] == parts@[1]@);
                let name = parts[1].as_str();
                let ghost e0 = self.entries_seq();
                let ghost t0 = self.turn();
                let removed = self.remove_entry(name);
                assert(removal(e0, t0, ws[1], removed, self.entries_seq(), self.turn()));
                if removed {
                    let mut head = String::from_str("Removed ");
                    head.append(name);
                    head.append(" from initiative tracker");
                    let lines = with_order(head, self);
                    (lines, false)
                } else {
                    let mut head = String::from_str("Could not find ");
                    head.append(name);
                    head.append(" in initiative tracker");
                    let mut v: Vec<String> = Vec::new();
                    v.push(head);
                    assert(views(v@) =~= seq!["Could not find "@ + ws[1] + " in initiative tracker"@]);
                    (v, false)
                }
            } else {
                (line_of("Usage: remove <name>"), false)
            }
        } else if str_eq(cmd, "next") {
            let head = match self.next_turn() {
                Some(current) => {
                    let mut h = String::from_str("Current turn: ");
                    h.append(current.name.as_str());
                    h.append(" (Initiative: ");
                    push_signed_decimal(&mut h, current.initiative as i64);
                    h.append(")");
                    Some(h)
                },
                None => None,
            };
            match head {
                Some(h) => (with_order(h, self), false),
                None => (line_of("No entries in initiative tracker. Use 'add' to add some!"), false),
            }
        } else if str_eq(cmd, "display") {
            let lines = self.display_lines();
            (lines, false)
        } else if str_eq(cmd, "clear") {
            *self = InitiativeTracker::new();
            (line_of("Initiative tracker cleared!"), false)
        } else if str_eq(cmd, "quit") || str_eq(cmd, "q") {
            let v: Vec<String> = Vec::new();
            assert(views(v@) =~= Seq::<Seq<char>>::empty());
            (v, true)
        } else if str_eq(cmd, "help") || str_eq(cmd, "h") {
            (initiative_help_lines(), false)
        } else {
            (line_of("Unknown command. Type 'help' for available commands."), false)
        }
    }
}

/// A rule of forty `═`.
pub open spec fn rule40() -> Seq<char> {
    "════════════════════════════════════════"@
}

/// The picture of one die, numbered `number`, in the colour of its value.
pub open spec fn die_block(sides: u8, value: u8, number: nat) -> Seq<Seq<char>> {
    seq![""@, "Die #"@ + decimal(number) + " (d"@ + decimal(sides as nat) + "):"@]
        + dice_art(sides, value).map_values(|l: Seq<char>| dice_color(value, sides) + l + "\x1b[0m"@)
}

/// The pictures of all dice rolled, in order.
pub open spec fn die_blocks(sides: u8, rolls: Seq<u8>) -> Seq<Seq<char>>
    decreases rolls.len(),
{
    if rolls.len() == 0 {
        seq![]
    } else {
        die_blocks(sides, rolls.drop_last()) + die_block(sides, rolls.last(), rolls.len())
    }
}

/// The report of a roll in the dice tool: a heading, a picture per die,
/// the single rolls and the total, and the critical-result message if any.
pub open spec fn roll_report(expr: Seq<char>, rolls: Seq<u8>, total: int, crit: Option<Seq<char>>) -> Seq<Seq<char>> {
    seq![""@, "🎲 DICE ROLL RESULTS 🎲"@, rule40()] + die_blocks(shown_sides(expr), rolls) + seq![
        ""@,
        "📊 Summary:"@,
        "   Individual Rolls: "@ + list_text(rolls),
        "   TOTAL: "@ + decimal(total as nat),
    ] + match crit {
        Some(m) => seq![""@, "🌟 "@ + m],
        None => seq![],
    } + seq![rule40()]
}

/// `lines` report `rolls`, a valid roll of `n` dice of `sd` sides for `expr`.
pub open spec fn dice_tool_rolled(expr: Seq<char>, n: u8, sd: u8, rolls: Seq<u8>, lines: Seq<Seq<char>>) -> bool {
    &&& rolls.len() == n
    &&& forall|i: int| 0 <= i < rolls.len() ==> 1 <= #[trigger] rolls[i] <= sd
    &&& lines == roll_report(expr, rolls, total_of(rolls, dice_modifier(expr)), crit_text(expr, rolls))
}

/// The help of the dice tool.
pub open spec fn dice_tool_help() -> Seq<Seq<char>> {
    seq![
        ""@,
        "🎯 DICE ROLLING COMMANDS:"@,
        "  r<num>d<sides>         - Roll dice (e.g., r3d6 rolls 3 six-sided dice)"@,
        "  r<num>d<sides>+<mod>   - Roll with positive modifier (e.g., r1d20+5)"@,
        "  r<num>d<sides>-<mod>   - Roll with negative modifier (e.g., r2d6-2)"@,
        "  q                      - Quit dice mode"@,
        "  h or ?                 - Show this help"@,
        ""@,
        "🎨 COLOR CODING:"@,
        "  🔴 Red: Low rolls (bottom 33%)"@,
        "  🟡 Yellow: Medium rolls (middle 33%)"@,
        "  🟢 Green: High rolls (top 33%)"@,
        "  ⚫ Black: Natural 1"@,
        "  🟨 Gold: Natural 20"@,
    ]
}

/// What a line typed into the dice tool does, by its first character after
/// trimming: `r` rolls the expression (the whole trimmed line), `q` leaves,
/// `h` or `?` shows the help. An expression whose total could overflow is
/// refused as out of range.
pub open spec fn dice_tool_reply(input: Seq<char>, lines: Seq<Seq<char>>, done: bool) -> bool {
    let t = trim(input);
    if t.len() > 0 && t[0] == 'r' {
        &&& !done
        &&& if !dice_expression_fits(t) {
            lines == seq!["❌ Error: Dice expression out of range"@]
        } else {
            match dice_request(t) {
                Err(m) => lines == seq!["❌ Error: "@ + m],
                Ok((n, sd)) => exists|rolls: Seq<u8>| #[trigger] dice_tool_rolled(t, n, sd, rolls, lines),
            }
        }
    } else if t.len() > 0 && t[0] == 'q' {
        done && lines.len() == 0
    } else if t.len() > 0 && (t[0] == 'h' || t[0] == '?') {
        !done && lines == dice_tool_help()
    } else {
        !done && lines == seq!["❌ Invalid command. Type 'h' for help."@]
    }
}

fn dice_tool_help_lines() -> (res: Vec<String>)
    ensures
        views(res@) == dice_tool_help(),
{
    let mut v: Vec<String> = Vec::new();
    v.push(String::from_str(""));
    v.push(String::from_str("🎯 DICE ROLLING COMMANDS:"));
    v.push(String::from_str("  r<num>d<sides>         - Roll dice (e.g., r3d6 rolls 3 six-sided dice)"));
    v.push(String::from_str("  r<num>d<sides>+<mod>   - Roll with positive modifier (e.g., r1d20+5)"));
    v.push(String::from_str("  r<num>d<sides>-<mod>   - Roll with negative modifier (e.g., r2d6-2)"));
    v.push(String::from_str("  q                      - Quit dice mode"));
    v.push(String::from_str("  h or ?                 - Show this help"));
    v.push(String::from_str(""));
    v.push(String::from_str("🎨 COLOR CODING:"));
    v.push(String::from_str("  🔴 Red: Low rolls (bottom 33%)"));
    v.push(String::from_str("  🟡 Yellow: Medium rolls (middle 33%)"));
    v.push(String::from_str("  🟢 Green: High rolls (top 33%)"));
    v.push(String::from_str("  ⚫ Black: Natural 1"));
    v.push(String::from_str("  🟨 Gold: Natural 20"));
    assert(views(v@) =~= dice_tool_help());
    v
}

/// The picture of one die (see `die_block`).
fn die_block_lines(sides: u8, value: u8, number: u64) -> (res: Vec<String>)
    ensures
        views(res@) == die_block(sides, value, number as nat),
{
    let mut v: Vec<String> = Vec::new();
    v.push(String::from_str(""));
    let mut head = String::from_str("Die #");
    push_decimal(&mut head, number);
    head.append(" (d");
    push_decimal(&mut head, sides as u64);
    head.append("):");
    v.push(head);
    assert(views(v@) =~= seq![""@, "Die #"@ + decimal(number as nat) + " (d"@ + decimal(sides as nat) + "):"@]) by {
        reveal_strlit("");
    }
    let color = get_dice_color_code(value, sides);
    let reset = reset_color();
    let art = get_dice_ascii_art(sides, value);
    let ghost head_part = views(v@);
    let ghost painted = dice_art(sides, value).map_values(|l: Seq<char>| dice_color(value, sides) + l + "\x1b[0m"@);
    let mut i: usize = 0;
    while i < art.len()
        invariant
            i <= art@.len(),
            art@.map_values(|l: String| l@) == dice_art(sides, value),
            color@ == dice_color(value, sides),
            reset@ == "\x1b[0m"@,
            views(v@) == head_part + painted.take(i as int),
            painted == dice_art(sides, value).map_values(|l: Seq<char>| dice_color(value, sides) + l + "\x1b[0m"@),
        decreases art@.len() - i,
    {
        let mut line = String::from_str(color);
        line.append(art[i].as_str());
        line.append(reset);
        let ghost before = views(v@);
        v.push(line);
        assert(art@.map_values(|l: String| l@)[i as int] == art@[i as int]@);
        assert(views(v@) =~= before.push(painted[i as int]));
        assert(painted.take(i + 1) =~= painted.take(i as int).push(painted[i as int]));
        i = i + 1;
    }
    assert(painted.take(i as int) =~= painted);
    v
}

/// The report of a roll in the dice tool (see `roll_report`).
fn roll_report_lines(expr: &str, rolls: &Vec<u8>, total: u32, crit: Option<String>) -> (res: Vec<String>)
    ensures
        views(res@) == roll_report(expr@, rolls@, total as int, opt_view(crit)),
{
    let mut v: Vec<String> = Vec::new();
    v.push(String::from_str(""));
    v.push(String::from_str("🎲 DICE ROLL RESULTS 🎲"));
    v.push(String::from_str("════════════════════════════════════════"));
    let ghost head = views(v@);
    assert(head =~= seq![""@, "🎲 DICE ROLL RESULTS 🎲"@, rule40()]);
    let sides = dice_sides_of(expr);
    let mut i: usize = 0;
    while i < rolls.len()
        invariant
            i <= rolls@.len(),
            sides == shown_sides(expr@),
            views(v@) == head + die_blocks(sides, rolls@.take(i as int)),
        decreases rolls@.len() - i,
    {
        let block = die_block_lines(sides, rolls[i], (i + 1) as u64);
        let ghost before = views(v@);
        let ghost b = views(block@);
        push_all(&mut v, block);
        assert(rolls@.take(i + 1).drop_last() =~= rolls@.take(i as int));
        assert(views(v@) =~= before + b);
        i = i + 1;
    }
    assert(rolls@.take(i as int) =~= rolls@);
    let ghost mid = views(v@);
    v.push(String::from_str(""));
    v.push(String::from_str("📊 Summary:"));
    let mut l1 = String::from_str("   Individual Rolls: ");
    let lt = list_text_of(rolls);
    l1.append(lt.as_str());
    v.push(l1);
    let mut l2 = String::from_str("   TOTAL: ");
    push_decimal(&mut l2, total as u64);
    v.push(l2);
    let ghost summary = seq![
        ""@,
        "📊 Summary:"@,
        "   Individual Rolls: "@ + list_text(rolls@),
        "   TOTAL: "@ + decimal(total as nat),
    ];
    assert(views(v@) =~= mid + summary);
    let ghost mid2 = views(v@);
    match crit {
        Some(m) => {
            v.push(String::from_str(""));
            let mut l = String::from_str("🌟 ");
            l.append(m.as_str());
            v.push(l);
            assert(views(v@) =~= mid2 + seq![""@, "🌟 "@ + m@]);
        },
        None => {
            assert(views(v@) =~= mid2 + Seq::<Seq<char>>::empty());
        },
    }
    let ghost mid3 = views(v@);
    v.push(String::from_str("════════════════════════════════════════"));
    assert(views(v@) =~= mid3 + seq![rule40()]);
    v
}

/// Carries out one line typed into the dice tool (see `dice_tool_reply`):
/// gives the answer and whether the tool is left.
pub fn dice_tool_command(input: &str) -> (res: (Vec<String>, bool))
    ensures
        dice_tool_reply(input@, views(res.0@), res.1),
{
    let t = trimmed(input);
    let cs = str_chars(t.as_str());
    if cs.len() > 0 && cs[0] == 'r' {
        if !dice_fits(t.as_str()) {
            return (line_of("❌ Error: Dice expression out of range"), false);
        }
        match roll_dice_with_crits(t.as_str()) {
            Ok((rolls, total, crit)) => {
                let ghost cv = opt_view(crit);
                let lines = roll_report_lines(t.as_str(), &rolls, total, crit);
                proof {
                    match dice_request(t@) {
                        Ok((n, sd)) => {
                            assert(cv == crit_text(t@, rolls@));
                            assert(dice_tool_rolled(t@, n, sd, rolls@, views(lines@)));
                        },
                        Err(_) => {},
                    }
                }
                (lines, false)
            },
            Err(e) => {
                let mut l = String::from_str("❌ Error: ");
                l.append(e.as_str());
                let mut v: Vec<String> = Vec::new();
                v.push(l);
                assert(views(v@) =~= seq!["❌ Error: "@ + e@]);
                (v, false)
            },
        }
    } else if cs.len() > 0 && cs[0] == 'q' {
        let v: Vec<String> = Vec::new();
        assert(views(v@) =~= Seq::<Seq<char>>::empty());
        (v, true)
    } else if cs.len() > 0 && (cs[0] == 'h' || cs[0] == '?') {
        (dice_tool_help_lines(), false)
    } else {
        (line_of("❌ Invalid command. Type 'h' for help."), false)
    }
}

/// An NPC made by the NPC generator: race, class, armour class, hit points,
/// speed and the six ability scores.
#[derive(Debug)]
pub struct NpcSheet {
    pub race: String,
    pub class: String,
    pub ac: u8,
    pub hp: u8,
    pub speed: u8,
    pub strength: u8,
    pub dexterity: u8,
    pub constitution: u8,
    pub intelligence: u8,
    pub wisdom: u8,
    pub charisma: u8,
}

/// A score in the range of three six-sided dice.
pub open spec fn three_d6_range(v: u8) -> bool {
    3 <= v <= 18
}

/// The sum of three six-sided dice read from three drawn bytes: each die
/// shows `byte % 6 + 1`.
pub open spec fn three_d6_of(a: u8, b: u8, c: u8) -> u8 {
    ((a % 6 + 1) + (b % 6 + 1) + (c % 6 + 1)) as u8
}

/// Three six-sided dice read from three drawn bytes, added (see
/// `three_d6_of`).
pub fn three_d6_from(a: u8, b: u8, c: u8) -> (res: u8)
    ensures
        res == three_d6_of(a, b, c),
        three_d6_range(res),
{
    (a % 6 + 1) + (b % 6 + 1) + (c % 6 + 1)
}

/// Rolls three six-sided dice and adds them: three random bytes taken by
/// `three_d6_from`.
pub fn roll_3d6() -> (res: u8)
    ensures
        exists|a: u8, b: u8, c: u8| res == #[trigger] three_d6_of(a, b, c),
        three_d6_range(res),
{
    let a = random_byte();
    let b = random_byte();
    let c = random_byte();
    three_d6_from(a, b, c)
}

/// `n` random bytes.
pub(crate) fn draw_bytes(n: usize) -> (res: Vec<u8>)
    ensures
        res@.len() == n,
{
    let mut v: Vec<u8> = Vec::new();
    let mut i: usize = 0;
    while i < n
        invariant
            i <= n,
            v@.len() == i,
        decreases n - i,
    {
        v.push(random_byte());
        i = i + 1;
    }
    v
}

/// `n` is the NPC of race `race` and class `class` that the 21 drawn bytes
/// `d` give: armour class, hit points and speed from the first three (see
/// `stats_from_draws`), then strength, dexterity, constitution,
/// intelligence, wisdom and charisma each from the next three (see
/// `three_d6_of`).
pub open spec fn npc_drawn(n: NpcSheet, race: String, class: String, d: Seq<u8>) -> bool {
    &&& d.len() == 21
    &&& n.race == race
    &&& n.class == class
    &&& (n.ac, n.hp, n.speed) == stats_from_draws(d[0], d[1], d[2])
    &&& n.strength == three_d6_of(d[3], d[4], d[5])
    &&& n.dexterity == three_d6_of(d[6], d[7], d[8])
    &&& n.constitution == three_d6_of(d[9], d[10], d[11])
    &&& n.intelligence == three_d6_of(d[12], d[13], d[14])
    &&& n.wisdom == three_d6_of(d[15], d[16], d[17])
    &&& n.charisma == three_d6_of(d[18], d[19], d[20])
}

/// The framed line `<label><value padded to w> ║`.
pub open spec fn card_row(label: Seq<char>, value: Seq<char>, w: nat) -> Seq<char> {
    label + pad(value, w) + " ║"@
}

/// The full card of an NPC under a title line, with its name when given.
pub open spec fn npc_sheet_card(n: NpcSheet, title: Seq<char>, name: Option<Seq<char>>) -> Seq<Seq<char>> {
    seq![""@, "╔═══════════════════════════════════════╗"@, title, "╠═══════════════════════════════════════╣"@]
        + match name {
        Some(nm) => seq![card_row("║ Name: "@, nm, 31)],
        None => seq![],
    } + seq![
        card_row("║ Race: "@, n.race@, 31),
        card_row("║ Class: "@, n.class@, 30),
        card_row("║ AC: "@, decimal(n.ac as nat), 33),
        card_row("║ HP: "@, decimal(n.hp as nat), 33),
        "║ Speed: "@ + decimal(n.speed as nat) + " feet"@ + pad(seq![], 21) + " ║"@,
        "║                                       ║"@,
        "║ Ability Scores:                       ║"@,
        card_row("║   STR: "@, decimal(n.strength as nat), 29),
        card_row("║   DEX: "@, decimal(n.dexterity as nat), 29),
        card_row("║   CON: "@, decimal(n.constitution as nat), 29),
        card_row("║   INT: "@, decimal(n.intelligence as nat), 29),
        card_row("║   WIS: "@, decimal(n.wisdom as nat), 29),
        card_row("║   CHA: "@, decimal(n.charisma as nat), 29),
        "╚═══════════════════════════════════════╝"@,
    ]
}

/// The text an NPC is saved as, one `Label: value` line per stat.
pub open spec fn npc_sheet_text(n: NpcSheet, name: Seq<char>) -> Seq<char> {
    "Name: "@ + name + "\nRace: "@ + n.race@ + "\nClass: "@ + n.class@ + "\nAC: "@ + decimal(n.ac as nat)
        + "\nHP: "@ + decimal(n.hp as nat) + "\nSpeed: "@ + decimal(n.speed as nat) + "\nSTR: "@
        + decimal(n.strength as nat) + "\nDEX: "@ + decimal(n.dexterity as nat) + "\nCON: "@
        + decimal(n.constitution as nat) + "\nINT: "@ + decimal(n.intelligence as nat) + "\nWIS: "@
        + decimal(n.wisdom as nat) + "\nCHA: "@ + decimal(n.charisma as nat)
}

/// The file an NPC named `name` is saved to.
pub open spec fn npc_path(name: Seq<char>) -> Seq<char> {
    "npcs/"@ + name + ".txt"@
}

impl NpcSheet {
    /// An NPC of the given race and class with random stats: armour class 10
    /// to 20, hit points 10 to 50, speed 20 to 80 feet in steps of 10, and
    /// each ability score the sum of three six-sided dice.
    pub fn roll(race: String, class: String) -> (res: NpcSheet)
        ensures
            exists|d: Seq<u8>| #[trigger] npc_drawn(res, race, class, d),
            res.race == race,
            res.class == class,
            npc_stats(res.ac, res.hp, res.speed),
            three_d6_range(res.strength),
            three_d6_range(res.dexterity),
            three_d6_range(res.constitution),
            three_d6_range(res.intelligence),
            three_d6_range(res.wisdom),
            three_d6_range(res.charisma),
    {
        let d = draw_bytes(21);
        let ghost ds = d@;
        let ghost rc = race;
        let ghost cc = class;
        let res = NpcSheet::from_draws(race, class, &d);
        assert(npc_drawn(res, rc, cc, ds));
        res
    }

    /// The NPC of the given race and class that 21 drawn bytes give (see
    /// `npc_drawn`).
    pub fn from_draws(race: String, class: String, d: &Vec<u8>) -> (res: NpcSheet)
        requires
            d@.len() == 21,
        ensures
            npc_drawn(res, race, class, d@),
            npc_stats(res.ac, res.hp, res.speed),
            three_d6_range(res.strength),
            three_d6_range(res.dexterity),
            three_d6_range(res.constitution),
            three_d6_range(res.intelligence),
            three_d6_range(res.wisdom),
            three_d6_range(res.charisma),
    {
        let (ac, hp, speed) = npc_stats_from(d[0], d[1], d[2]);
        let strength = three_d6_from(d[3], d[4], d[5]);
        let dexterity = three_d6_from(d[6], d[7], d[8]);
        let constitution = three_d6_from(d[9], d[10], d[11]);
        let intelligence = three_d6_from(d[12], d[13], d[14]);
        let wisdom = three_d6_from(d[15], d[16], d[17]);
        let charisma = three_d6_from(d[18], d[19], d[20]);
        NpcSheet { race, class, ac, hp, speed, strength, dexterity, constitution, intelligence, wisdom, charisma }
    }

    /// The framed card of the NPC under `title`, with its name when given.
    pub fn card_lines(&self, title: &str, name: Option<&str>) -> (res: Vec<String>)
        ensures
            views(res@) == npc_sheet_card(*self, title@, match name { Some(s) => Some(s@), None => None }),
    {
        let mut v: Vec<String> = Vec::new();
        v.push(String::from_str(""));
        v.push(String::from_str("╔═══════════════════════════════════════╗"));
        v.push(String::from_str(title));
        v.push(String::from_str("╠═══════════════════════════════════════╣"));
        let ghost head = views(v@);
        match name {
            Some(nm) => {
                v.push(boxed("║ Name: ", nm, 31, " ║"));
                assert(views(v@) =~= head + seq![card_row("║ Name: "@, nm@, 31)]);
            },
            None => {
                assert(views(v@) =~= head + Seq::<Seq<char>>::empty());
            },
        }
        let ghost mid = views(v@);
        v.push(boxed("║ Race: ", self.race.as_str(), 31, " ║"));
        v.push(boxed("║ Class: ", self.class.as_str(), 30, " ║"));
        let ac = decimal_string(self.ac as u64);
        v.push(boxed("║ AC: ", ac.as_str(), 33, " ║"));
        let hp = decimal_string(self.hp as u64);
        v.push(boxed("║ HP: ", hp.as_str(), 33, " ║"));
        let mut sp = String::from_str("║ Speed: ");
        push_decimal(&mut sp, self.speed as u64);
        sp.append(" feet");
        let gap = padded("", 21);
        sp.append(gap.as_str());
        sp.append(" ║");
        v.push(sp);
        v.push(String::from_str("║                                       ║"));
        v.push(String::from_str("║ Ability Scores:                       ║"));
        let s1 = decimal_string(self.strength as u64);
        v.push(boxed("║   STR: ", s1.as_str(), 29, " ║"));
        let s2 = decimal_string(self.dexterity as u64);
        v.push(boxed("║   DEX: ", s2.as_str(), 29, " ║"));
        let s3 = decimal_string(self.constitution as u64);
        v.push(boxed("║   CON: ", s3.as_str(), 29, " ║"));
        let s4 = decimal_string(self.intelligence as u64);
        v.push(boxed("║   INT: ", s4.as_str(), 29, " ║"));
        let s5 = decimal_string(self.wisdom as u64);
        v.push(boxed("║   WIS: ", s5.as_str(), 29, " ║"));
        let s6 = decimal_string(self.charisma as u64);
        v.push(boxed("║   CHA: ", s6.as_str(), 29, " ║"));
        v.push(String::from_str("╚═══════════════════════════════════════╝"));
        proof {
            reveal_strlit("");
            assert(""@ =~= Seq::<char>::empty());
        }
        assert(views(v@) =~= npc_sheet_card(*self, title@, match name { Some(s) => Some(s@), None => None }));
        v
    }

    /// The text the NPC is saved as under `name` (see `npc_sheet_text`).
    pub fn file_text(&self, name: &str) -> (res: String)
        ensures
            res@ == npc_sheet_text(*self, name@),
    {
        let mut t = String::from_str("Name: ");
        t.append(name);
        t.append("\nRace: ");
        t.append(self.race.as_str());
        t.append("\nClass: ");
        t.append(self.class.as_str());
        t.append("\nAC: ");
        push_decimal(&mut t, self.ac as u64);
        t.append("\nHP: ");
        push_decimal(&mut t, self.hp as u64);
        t.append("\nSpeed: ");
        push_decimal(&mut t, self.speed as u64);
        t.append("\nSTR: ");
        push_decimal(&mut t, self.strength as u64);
        t.append("\nDEX: ");
        push_decimal(&mut t, self.dexterity as u64);
        t.append("\nCON: ");
        push_decimal(&mut t, self.constitution as u64);
        t.append("\nINT: ");
        push_decimal(&mut t, self.intelligence as u64);
        t.append("\nWIS: ");
        push_decimal(&mut t, self.wisdom as u64);
        t.append("\nCHA: ");
        push_decimal(&mut t, self.charisma as u64);
        t
    }
}

/// The file an NPC named `name` is saved to: `npcs/<name>.txt`.
pub fn npc_file_path(name: &str) -> (res: String)
    ensures
        res@ == npc_path(name@),
{
    let mut p = String::from_str("npcs/");
    p.append(name);
    p.append(".txt");
    p
}

/// A number typed at a prompt, trimmed: the value when it reads as a byte
/// within `min..=max`.
pub open spec fn bounded_answer(input: Seq<char>, min: u8, max: u8) -> Option<u8> {
    match parse_u8_spec(trim(input)) {
        Some(v) => if min <= v && v <= max { Some(v) } else { None },
        None => None,
    }
}

/// Reads a number typed at a prompt (see `bounded_answer`).
pub fn number_answer(input: &str, min: u8, max: u8) -> (res: Option<u8>)
    ensures
        res == bounded_answer(input@, min, max),
{
    let t = trimmed(input);
    match parse_u8(t.as_str()) {
        Some(v) => if min <= v && v <= max { Some(v) } else { None },
        None => None,
    }
}

/// The numbers asked for a hand-made NPC.
#[derive(Debug, Clone, Copy, PartialEq, Eq, Structural)]
pub enum NpcNumber {
    ArmorClass,
    HitPoints,
    Speed,
}

/// The question, the range and the value used when no number in the range
/// is typed, for each number of a hand-made NPC.
pub open spec fn npc_number_rule(k: NpcNumber) -> (Seq<char>, u8, u8, u8) {
    match k {
        NpcNumber::ArmorClass => ("AC (10-25)"@, 10, 25, 12),
        NpcNumber::HitPoints => ("HP (1-200)"@, 1, 200, 20),
        NpcNumber::Speed => ("Speed (10-120)"@, 10, 120, 30),
    }
}

/// The prompt printed for a number of a hand-made NPC: the question, then
/// its range.
pub fn npc_number_question(k: NpcNumber) -> (res: String)
    ensures
        res@ == npc_number_rule(k).0 + " ("@ + decimal(npc_number_rule(k).1 as nat) + "-"@
            + decimal(npc_number_rule(k).2 as nat) + "): "@,
{
    let (q, lo, hi): (&str, u8, u8) = match k {
        NpcNumber::ArmorClass => ("AC (10-25)", 10, 25),
        NpcNumber::HitPoints => ("HP (1-200)", 1, 200),
        NpcNumber::Speed => ("Speed (10-120)", 10, 120),
    };
    let mut s = String::from_str(q);
    s.append(" (");
    push_decimal(&mut s, lo as u64);
    s.append("-");
    push_decimal(&mut s, hi as u64);
    s.append("): ");
    s
}

/// The value of a number of a hand-made NPC from the line typed (`None`
/// when no line could be read): the number when it is within the range,
/// else the default.
pub fn npc_number_answer(k: NpcNumber, input: Option<&str>) -> (res: u8)
    ensures
        res == match input {
            Some(t) => match bounded_answer(t@, npc_number_rule(k).1, npc_number_rule(k).2) {
                Some(v) => v,
                None => npc_number_rule(k).3,
            },
            None => npc_number_rule(k).3,
        },
{
    let (lo, hi, default): (u8, u8, u8) = match k {
        NpcNumber::ArmorClass => (10, 25, 12),
        NpcNumber::HitPoints => (1, 200, 20),
        NpcNumber::Speed => (10, 120, 30),
    };
    match input {
        Some(t) => match number_answer(t, lo, hi) {
            Some(v) => v,
            None => default,
        },
        None => default,
    }
}

/// Reads an ability score typed at a prompt: 3 to 18; anything else,
/// including an empty line, gives nothing (and the caller rolls 3d6).
pub fn ability_score_answer(input: &str) -> (res: Option<u8>)
    ensures
        res == bounded_answer(input@, 3, 18),
{
    number_answer(input, 3, 18)
}

/// The race typed at a prompt, trimmed, or a random one for an empty line.
pub fn race_answer(input: &str) -> (res: String)
    ensures
        trim(input@).len() > 0 ==> res@ == trim(input@),
        trim(input@).len() == 0 ==> race_names().contains(res@),
{
    let t = trimmed(input);
    if t.unicode_len() == 0 { get_random_race() } else { t }
}

/// The class typed at a prompt, trimmed, or a random one for an empty line.
pub fn class_answer(input: &str) -> (res: String)
    ensures
        trim(input@).len() > 0 ==> res@ == trim(input@),
        trim(input@).len() == 0 ==> class_names().contains(res@),
{
    let t = trimmed(input);
    if t.unicode_len() == 0 { get_random_class() } else { t }
}

/// The file a character sheet is saved to: `characters/<name>.txt`.
pub open spec fn character_path(name: Seq<char>) -> Seq<char> {
    "characters/"@ + name + ".txt"@
}

/// Where each character is saved: the sheets in order, each with the path
/// of its file.
pub fn save_characters(characters: Vec<Character>) -> (res: Vec<(String, Character)>)
    ensures
        res@.len() == characters@.len(),
        forall|i: int| 0 <= i < res@.len() ==> {
            &&& (#[trigger] res@[i]).0@ == character_path(characters@[i].name@)
            &&& res@[i].1 == characters@[i]
        },
{
    let mut out: Vec<(String, Character)> = Vec::new();
    let mut rest = characters;
    let ghost all = rest@;
    let n = rest.len();
    let mut i: usize = 0;
    while i < n
        invariant
            n == all.len(),
            i <= n,
            rest@ == all.subrange(i as int, n as int),
            out@.len() == i,
            forall|k: int| 0 <= k < i ==> {
                &&& (#[trigger] out@[k]).0@ == character_path(all[k].name@)
                &&& out@[k].1 == all[k]
            },
        decreases n - i,
    {
        let c = rest.remove(0);
        assert(c == all[i as int]);
        assert(rest@ =~= all.subrange(i + 1, n as int));
        let mut p = String::from_str("characters/");
        p.append(c.name.as_str());
        p.append(".txt");
        out.push((p, c));
        i = i + 1;
    }
    out
}

/// The key a stat line is changed under: the text before its first `:`, in
/// lower case, with spaces as `_` (`Max HP: 12` gives `max_hp`).
pub open spec fn stat_key(stat: Seq<char>) -> Option<Seq<char>> {
    match first_index(stat, ':') {
        Some(p) => Some(replaced(lowercase(stat.subrange(0, p)), ' ', "_"@)),
        None => None,
    }
}

/// The range a numeric stat must lie in, by its key; `None` for the stats
/// that take any text.
pub open spec fn stat_range(key: Seq<char>) -> Option<(u8, u8)> {
    if key == "level"@ {
        Some((1u8, 20u8))
    } else if key == "ac"@ {
        Some((1u8, 30u8))
    } else if key == "hp"@ || key == "max_hp"@ || key == "temp_hp"@ {
        Some((0u8, 255u8))
    } else if key == "speed"@ {
        Some((0u8, 100u8))
    } else if key == "intelligence"@ || key == "wisdom"@ || key == "charisma"@ || key == "strength"@
        || key == "dexterity"@ || key == "constitution"@ {
        Some((1u8, 30u8))
    } else if key == "passive_perception"@ || key == "initiative"@ || key == "proficiency_bonus"@ {
        Some((0u8, 50u8))
    } else {
        None
    }
}

/// What one answer during data entry does to a stat.
#[derive(Debug, PartialEq, Eq)]
pub enum EntryChange {
    /// Nothing typed (or a stat line without `:`): the value stays.
    Keep,
    /// The value is out of the stat's range: it stays, with a warning.
    Invalid,
    /// The stat's key and its new value.
    Change(String, String),
}

/// What typing `value` (trimmed) for the stat line `stat` does: an empty
/// answer keeps the value; otherwise the stat's key gets the answer when it
/// lies in the stat's range (or the stat takes any text).
pub open spec fn entry_effect(stat: Seq<char>, value: Seq<char>, res: EntryChange) -> bool {
    let v = trim(value);
    if v.len() == 0 {
        res == EntryChange::Keep
    } else {
        match stat_key(stat) {
            None => res == EntryChange::Keep,
            Some(key) => {
                let ok = match stat_range(key) {
                    Some((lo, hi)) => numeric_check(v, key, Some(lo), Some(hi)) is Ok,
                    None => true,
                };
                if ok {
                    res matches EntryChange::Change(k, nv) && k@ == key && nv@ == v
                } else {
                    res == EntryChange::Invalid
                }
            },
        }
    }
}

/// Decides what typing `value` for the stat line `stat` does during data
/// entry (see `entry_effect`).
pub fn entry_change(stat: &str, value: &str) -> (res: EntryChange)
    ensures
        entry_effect(stat@, value@, res),
{
    let v = trimmed(value);
    if v.unicode_len() == 0 {
        return EntryChange::Keep;
    }
    let cs = str_chars(stat);
    let n = cs.len();
    match find_char(&cs, 0, n, ':') {
        None => {
            assert(cs@.subrange(0, n as int) =~= cs@);
            EntryChange::Keep
        },
        Some(p) => {
            assert(cs@.subrange(0, n as int) =~= cs@);
            let head = string_from_range(&cs, 0, p);
            let low = to_lowercase(head.as_str());
            let key = replace_char(low.as_str(), ' ', "_");
            proof {
                reveal_strlit("_");
            }
            let range: Option<(u8, u8)> = if str_eq(key.as_str(), "level") {
                Some((1u8, 20u8))
            } else if str_eq(key.as_str(), "ac") {
                Some((1u8, 30u8))
            } else if str_eq(key.as_str(), "hp") || str_eq(key.as_str(), "max_hp") || str_eq(key.as_str(), "temp_hp") {
                Some((0u8, 255u8))
            } else if str_eq(key.as_str(), "speed") {
                Some((0u8, 100u8))
            } else if str_eq(key.as_str(), "intelligence") || str_eq(key.as_str(), "wisdom")
                || str_eq(key.as_str(), "charisma") || str_eq(key.as_str(), "strength")
                || str_eq(key.as_str(), "dexterity") || str_eq(key.as_str(), "constitution") {
                Some((1u8, 30u8))
            } else if str_eq(key.as_str(), "passive_perception") || str_eq(key.as_str(), "initiative")
                || str_eq(key.as_str(), "proficiency_bonus") {
                Some((0u8, 50u8))
            } else {
                None
            };
            assert(range == stat_range(key@));
            let ok = match range {
                Some((lo, hi)) => validate_numeric_input(v.as_str(), key.as_str(), Some(lo), Some(hi)).is_ok(),
                None => true,
            };
            if ok {
                EntryChange::Change(key, v)
            } else {
                EntryChange::Invalid
            }
        },
    }
}

/// What a line typed into the search tool asks for.
#[derive(Debug, PartialEq, Eq)]
pub enum SearchRequest {
    /// An empty line: nothing.
    Nothing,
    /// `search` without a query: its usage.
    Usage,
    /// Look up `query`, in `category` when one is given.
    Find { category: Option<SearchCategory>, query: String },
    /// The list of categories.
    Categories,
    /// The help.
    Help,
    /// Back to the tools menu.
    Back,
}

/// What a line typed into the search tool asks for: `search <query>` or
/// `search <category> <query>` (a second word that names no category is
/// part of the query), `categories`, `help`, `back` (commands in any case);
/// any other line is itself the query.
pub open spec fn search_request_of(input: Seq<char>, r: SearchRequest) -> bool {
    let t = trim(input);
    let ws = words(t);
    if t.len() == 0 {
        r == SearchRequest::Nothing
    } else {
        let cmd = lowercase(first_word(ws));
        if cmd == "search"@ {
            if ws.len() < 2 {
                r == SearchRequest::Usage
            } else if ws.len() == 2 {
                r matches SearchRequest::Find { category, query } && category is None && query@ == ws[1]
            } else {
                match category_for(lowercase(ws[1])) {
                    Some(c) => r matches SearchRequest::Find { category, query } && category == Some(c)
                        && query@ == join_with(ws.skip(2), seq![' ']),
                    None => r matches SearchRequest::Find { category, query } && category is None
                        && query@ == join_with(ws.skip(1), seq![' ']),
                }
            }
        } else if cmd == "categories"@ {
            r == SearchRequest::Categories
        } else if cmd == "help"@ {
            r == SearchRequest::Help
        } else if cmd == "back"@ {
            r == SearchRequest::Back
        } else {
            r matches SearchRequest::Find { category, query } && category is None && query@ == t
        }
    }
}

/// Reads a line typed into the search tool (see `search_request_of`).
pub fn search_request(input: &str) -> (res: SearchRequest)
    ensures
        search_request_of(input@, res),
{
    let t = trimmed(input);
    if t.unicode_len() == 0 {
        return SearchRequest::Nothing;
    }
    let parts = split_words(t.as_str());
    let ghost ws = views(parts@);
    assert(ws.len() == parts@.len());
    let first: String = if parts.len() > 0 { parts[0].clone() } else { String::new() };
    assert(first@ == first_word(ws)) by {
        if parts.len() > 0 {
            assert(ws[0] == parts@[0]@);
        } else {
            assert(first@ =~= Seq::<char>::empty());
        }
    }
    let cmd = to_lowercase(first.as_str());
    let c = cmd.as_str();
    proof {
        reveal_strlit(" ");
        assert(" "@ =~= seq![' ']);
    }
    if str_eq(c, "search") {
        if parts.len() < 2 {
            SearchRequest::Usage
        } else if parts.len() == 2 {
            assert(ws[1] == parts@[1]@);
            SearchRequest::Find { category: None, query: parts[1].clone() }
        } else {
            assert(ws[1] == parts@[1]@);
            match SearchCategory::from_str(parts[1].as_str()) {
                Some(cat) => SearchRequest::Find { category: Some(cat), query: join_from(&parts, 2, " ") },
                None => SearchRequest::Find { category: None, query: join_from(&parts, 1, " ") },
            }
        }
    } else if str_eq(c, "categories") {
        SearchRequest::Categories
    } else if str_eq(c, "help") {
        SearchRequest::Help
    } else if str_eq(c, "back") {
        SearchRequest::Back
    } else {
        SearchRequest::Find { category: None, query: t }
    }
}

/// What a line typed to pick one of `n` numbered items says.
#[derive(Debug, PartialEq, Eq)]
pub enum Choice {
    /// Nothing typed.
    Empty,
    /// The item at this position (counted from 0).
    Picked(usize),
    /// A number that names no item.
    OutOfRange,
    /// Something that is not a number.
    NotANumber,
}

/// What picking from `n` numbered items (numbered from 1) with the trimmed
/// line `input` gives.
pub open spec fn choice_of(input: Seq<char>, n: usize) -> Choice {
    let t = trim(input);
    if t.len() == 0 {
        Choice::Empty
    } else {
        match parse_usize_spec(t) {
            Some(k) => if 1 <= k && k <= n { Choice::Picked((k - 1) as usize) } else { Choice::OutOfRange },
            None => Choice::NotANumber,
        }
    }
}

/// Reads a pick from `n` numbered items (see `choice_of`).
pub fn numbered_choice(input: &str, n: usize) -> (res: Choice)
    ensures
        res == choice_of(input@, n),
{
    let t = trimmed(input);
    if t.unicode_len() == 0 {
        return Choice::Empty;
    }
    match parse_usize(t.as_str()) {
        Some(k) => if 1 <= k && k <= n { Choice::Picked(k - 1) } else { Choice::OutOfRange },
        None => Choice::NotANumber,
    }
}

} // verus!
