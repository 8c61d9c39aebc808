//! What the command-line combat tracker prints: a combatant's stat card,
//! the initiative order, an NPC's record, and the sheets saved when a fight
//! ends.
use vstd::prelude::*;
use crate::character::{Character, AbilityScore, modifier_text};
use crate::combat::{Combatant, CombatTracker, StatusEffect};
use crate::text::{decimal, signed_decimal, push_decimal, push_signed_decimal};
use crate::words::{views, pad, padded, push_line};

verus! {

fn signed(s: &mut String, n: i32)
    ensures
        final(s)@ == old(s)@ + signed_decimal(n as int),
{
    push_signed_decimal(s, n as i64);
}

fn signed_text(n: i32) -> (res: String)
    ensures
        res@ == signed_decimal(n as int),
{
    let mut s = String::new();
    signed(&mut s, n);
    s
}

fn decimal_text(n: u8) -> (res: String)
    ensures
        res@ == decimal(n as nat),
{
    crate::text::decimal_string(n as u64)
}

/// A present number, or `d` when missing.
pub open spec fn or_default(o: Option<u8>, d: u8) -> u8 {
    match o {
        Some(v) => v,
        None => d,
    }
}

/// The card's line for one ability: score (10 when missing) and modifier,
/// then the two other columns.
pub open spec fn ability_row(label: Seq<char>, score: Option<u8>, m: int, rest: Seq<char>) -> Seq<char> {
    "║ "@ + label + ": "@ + decimal(or_default(score, 10) as nat) + " ("@ + modifier_text(m) + ")       │"@ + rest
}

/// How long an effect lasts, as the card shows it.
pub open spec fn card_duration(d: Option<i32>) -> Seq<char> {
    match d {
        Some(n) => "("@ + signed_decimal(n as int) + " rounds)"@,
        None => "(permanent)"@,
    }
}

/// The card rows of a player's sheet: abilities with modifiers,
/// proficiency bonus (2 when missing), level (1), passive perception
/// (computed when missing) and speed (30).
pub open spec fn sheet_rows(ch: Character) -> Seq<Seq<char>> {
    let blank = " │                       │                    ║"@;
    seq![
        "║                       │                       │                    ║"@,
        "║ Ability Scores        │ Saves & Skills        │ Other              ║"@,
        ability_row("STR"@, ch.stre, ch.modifier_for(AbilityScore::Strength),
            " Prof Bonus: "@ + pad(decimal(or_default(ch.prof_bonus, 2) as nat), 10) + " │ Level: "@ + pad(
            decimal(or_default(ch.level, 1) as nat), 12) + " ║"@),
        ability_row("DEX"@, ch.dext, ch.modifier_for(AbilityScore::Dexterity),
            " Passive Perc: "@ + pad(decimal(match ch.passive_perception {
                Some(p) => p as nat,
                None => ch.passive_perception_value() as nat,
            }), 8) + " │ Speed: "@ + pad(decimal(or_default(ch.speed, 30) as nat), 12) + " ║"@),
        ability_row("CON"@, ch.cons, ch.modifier_for(AbilityScore::Constitution), blank),
        ability_row("WIS"@, ch.wisd, ch.modifier_for(AbilityScore::Wisdom), blank),
        ability_row("INT"@, ch.intl, ch.modifier_for(AbilityScore::Intelligence), blank),
        ability_row("CHA"@, ch.chas, ch.modifier_for(AbilityScore::Charisma), blank),
    ]
}

/// The stat card of a combatant: name and side, armour class, hit points,
/// initiative and temporary hit points, the sheet's rows for a player, and
/// the status effects.
pub open spec fn stats_card(c: Combatant) -> Seq<Seq<char>> {
    seq![
        ""@,
        "╔═══════════════════════════════════════════════════════════════╗"@,
        "║                    "@ + pad(c.name@, 25) + " ("@ + (if c.is_player { "Player"@ } else { "NPC"@ }) + ")"@,
        "╠═══════════════════════════════════════════════════════════════╣"@,
        "║ Combat Stats          │ Health Stats          │ Other Stats        ║"@,
        "║ AC: "@ + pad(signed_decimal(c.ac as int), 17) + " │ HP: "@ + signed_decimal(c.current_hp as int) + "/"@
            + pad(signed_decimal(c.max_hp as int), 13) + " │                    ║"@,
        "║ Initiative: "@ + pad(signed_decimal(c.initiative as int), 10) + " │ Temp HP: "@ + pad(
            signed_decimal(c.temp_hp as int),
            12,
        ) + " │                    ║"@,
    ] + (match c.character_data {
        Some(ch) => sheet_rows(ch),
        None => seq![],
    }) + (if c.status_effects@.len() > 0 {
        seq![
            "║                       │                       │                    ║"@,
            "║ Status Effects:                                                   ║"@,
        ] + Seq::new(
            c.status_effects@.len(),
            |j: int| "║ • "@ + pad(c.status_effects@[j].name@, 20) + " "@ + pad(
                card_duration(c.status_effects@[j].duration),
                35,
            ) + " ║"@,
        )
    } else {
        seq![]
    }) + seq!["╚═══════════════════════════════════════════════════════════════╝"@]
}

/// A card can be drawn: a player's missing passive perception can be
/// computed.
pub open spec fn card_drawable(c: Combatant) -> bool {
    c.character_data matches Some(ch) ==> (ch.passive_perception is None ==> ch.passive_perception_computable())
}

fn ability_row_of(label: &str, score: Option<u8>, m: i8, rest: &str) -> (res: String)
    ensures
        res@ == ability_row(label@, score, m as int, rest@),
{
    let mut s = String::from_str("║ ");
    s.append(label);
    s.append(": ");
    let v: u8 = match score {
        Some(x) => x,
        None => 10,
    };
    push_decimal(&mut s, v as u64);
    s.append(" (");
    if m >= 0 {
        s.append("+");
        push_decimal(&mut s, m as u64);
    } else {
        s.append("-");
        push_decimal(&mut s, (0 - (m as i64)) as u64);
    }
    s.append(")       │");
    s.append(rest);
    proof {
        reveal_strlit("+");
        reveal_strlit("-");
        assert("+"@ =~= seq!['+']);
        assert("-"@ =~= seq!['-']);
    }
    assert(s@ =~= ability_row(label@, score, m as int, rest@));
    s
}

fn sheet_rows_of(ch: &Character) -> (res: Vec<String>)
    requires
        ch.passive_perception is None ==> ch.passive_perception_computable(),
    ensures
        views(res@) == sheet_rows(*ch),
{
    let blank = " │                       │                    ║";
    let mut v: Vec<String> = Vec::new();
    v.push(String::from_str("║                       │                       │                    ║"));
    v.push(String::from_str("║ Ability Scores        │ Saves & Skills        │ Other              ║"));
    let prof = decimal_text(match ch.prof_bonus {
        Some(p) => p,
        None => 2,
    });
    let level = decimal_text(match ch.level {
        Some(l) => l,
        None => 1,
    });
    let mut r1 = String::from_str(" Prof Bonus: ");
    r1.append(padded(prof.as_str(), 10).as_str());
    r1.append(" │ Level: ");
    r1.append(padded(level.as_str(), 12).as_str());
    r1.append(" ║");
    v.push(ability_row_of("STR", ch.stre, ch.get_strength_modifier(), r1.as_str()));
    let pp: u8 = match ch.passive_perception {
        Some(p) => p,
        None => ch.calculate_passive_perception(),
    };
    let speed = decimal_text(match ch.speed {
        Some(s) => s,
        None => 30,
    });
    let mut r2 = String::from_str(" Passive Perc: ");
    r2.append(padded(decimal_text(pp).as_str(), 8).as_str());
    r2.append(" │ Speed: ");
    r2.append(padded(speed.as_str(), 12).as_str());
    r2.append(" ║");
    v.push(ability_row_of("DEX", ch.dext, ch.get_dexterity_modifier(), r2.as_str()));
    v.push(ability_row_of("CON", ch.cons, ch.get_constitution_modifier(), blank));
    v.push(ability_row_of("WIS", ch.wisd, ch.get_wisdom_modifier(), blank));
    v.push(ability_row_of("INT", ch.intl, ch.get_intelligence_modifier(), blank));
    v.push(ability_row_of("CHA", ch.chas, ch.get_charisma_modifier(), blank));
    assert(views(v@) =~= sheet_rows(*ch));
    v
}

impl Combatant {
    /// The lines of the combatant's stat card (see [`stats_card`]).
    pub fn stats_card_lines(&self) -> (res: Vec<String>)
        requires
            card_drawable(*self),
        ensures
            views(res@) == stats_card(*self),
    {
        let mut v: Vec<String> = Vec::new();
        v.push(String::from_str(""));
        v.push(String::from_str("╔═══════════════════════════════════════════════════════════════╗"));
        let mut l3 = String::from_str("║                    ");
        l3.append(padded(self.name.as_str(), 25).as_str());
        l3.append(" (");
        if self.is_player {
            l3.append("Player");
        } else {
            l3.append("NPC");
        }
        l3.append(")");
        v.push(l3);
        v.push(String::from_str("╠═══════════════════════════════════════════════════════════════╣"));
        v.push(String::from_str("║ Combat Stats          │ Health Stats          │ Other Stats        ║"));
        let mut l6 = String::from_str("║ AC: ");
        l6.append(padded(signed_text(self.ac).as_str(), 17).as_str());
        l6.append(" │ HP: ");
        signed(&mut l6, self.current_hp);
        l6.append("/");
        l6.append(padded(signed_text(self.max_hp).as_str(), 13).as_str());
        l6.append(" │                    ║");
        v.push(l6);
        let mut l7 = String::from_str("║ Initiative: ");
        l7.append(padded(signed_text(self.initiative).as_str(), 10).as_str());
        l7.append(" │ Temp HP: ");
        l7.append(padded(signed_text(self.temp_hp).as_str(), 12).as_str());
        l7.append(" │                    ║");
        v.push(l7);
        let ghost head = views(v@);
        match &self.character_data {
            Some(ch) => {
                let rows = sheet_rows_of(ch);
                let ghost before = views(v@);
                let mut rows = rows;
                let ghost r = rows@;
                v.append(&mut rows);
                assert(views(v@) =~= before + views(r));
            },
            None => {},
        }
        let ghost mid = views(v@);
        let n = self.status_effects.len();
        if n > 0 {
            push_line(&mut v, String::from_str("║                       │                       │                    ║"));
            push_line(&mut v, String::from_str("║ Status Effects:                                                   ║"));
            let ghost top = views(v@);
            let mut j: usize = 0;
            while j < n
                invariant
                    n == self.status_effects@.len(),
                    j <= n,
                    views(v@) == top + Seq::new(
                        j as nat,
                        |k: int| "║ • "@ + pad(self.status_effects@[k].name@, 20) + " "@ + pad(
                            card_duration(self.status_effects@[k].duration),
                            35,
                        ) + " ║"@,
                    ),
                decreases n - j,
            {
                let e = &self.status_effects[j];
                let dur = match e.duration {
                    Some(d) => {
                        let mut t = String::from_str("(");
                        signed(&mut t, d);
                        t.append(" rounds)");
                        t
                    },
                    None => String::from_str("(permanent)"),
                };
                let mut l = String::from_str("║ • ");
                l.append(padded(e.name.as_str(), 20).as_str());
                l.append(" ");
                l.append(padded(dur.as_str(), 35).as_str());
                l.append(" ║");
                push_line(&mut v, l);
                assert(views(v@) =~= top + Seq::new(
                    (j + 1) as nat,
                    |k: int| "║ • "@ + pad(self.status_effects@[k].name@, 20) + " "@ + pad(
                        card_duration(self.status_effects@[k].duration),
                        35,
                    ) + " ║"@,
                ));
                j = j + 1;
            }
        }
        push_line(&mut v, String::from_str("╚═══════════════════════════════════════════════════════════════╝"));
        assert(views(v@) =~= stats_card(*self));
        v
    }
}

/// The names of status effects joined with commas.
pub open spec fn effect_names(s: Seq<StatusEffect>) -> Seq<char>
    decreases s.len(),
{
    if s.len() == 0 {
        seq![]
    } else if s.len() == 1 {
        s[0].name@
    } else {
        effect_names(s.drop_last()) + ", "@ + s.last().name@
    }
}

/// A combatant's line in the printed initiative order: a marker on the
/// current turn, player or monster, initiative, name, a note when skipped
/// (initiative 0), armour class, hit points and effects.
pub open spec fn order_entry(t: CombatTracker, i: int) -> Seq<char> {
    let c = t.combatants@[i];
    (if i == t.current_turn { ">>> "@ } else { "    "@ }) + (if c.is_player { "🧙"@ } else { "👹"@ }) + "Init "@
        + signed_decimal(c.initiative as int) + ": "@ + c.name@ + " "@ + (if c.initiative == 0 {
        "(SKIPPED)"@
    } else {
        seq![]
    }) + " (AC: "@ + signed_decimal(c.ac as int) + ", HP: "@ + signed_decimal(c.current_hp as int) + "/"@
        + signed_decimal(c.max_hp as int) + ")"@ + if c.status_effects@.len() == 0 {
        seq![]
    } else {
        " ["@ + effect_names(c.status_effects@) + "]"@
    }
}

/// The printed initiative order: its heading with the round, a rule, a line
/// per combatant, and a closing rule.
pub open spec fn initiative_order(t: CombatTracker) -> Seq<Seq<char>> {
    seq![
        ""@,
        "📋 Initiative Order (Round "@ + signed_decimal(t.round_number as int) + "):"@,
        "═══════════════════════════════════════════════════════════"@,
    ] + Seq::new(t.combatants@.len(), |i: int| order_entry(t, i)) + seq![
        "═══════════════════════════════════════════════════════════"@,
    ]
}

fn effect_names_of(s: &Vec<StatusEffect>) -> (res: String)
    ensures
        res@ == effect_names(s@),
{
    let mut out = String::new();
    let mut i: usize = 0;
    while i < s.len()
        invariant
            i <= s@.len(),
            out@ == effect_names(s@.take(i as int)),
        decreases s@.len() - i,
    {
        assert(s@.take(i + 1).drop_last() =~= s@.take(i as int));
        if i > 0 {
            out.append(", ");
        }
        out.append(s[i].name.as_str());
        i = i + 1;
    }
    assert(s@.take(s@.len() as int) =~= s@);
    out
}

/// One line of an NPC's record, in the order they are written.
pub open spec fn npc_record(c: Combatant) -> Seq<Seq<char>> {
    seq![
        "Name: "@ + c.name@,
        "HP: "@ + signed_decimal(c.current_hp as int) + "/"@ + signed_decimal(c.max_hp as int),
        "AC: "@ + signed_decimal(c.ac as int),
        "Initiative: "@ + signed_decimal(c.initiative as int),
        "Type: "@ + if c.is_player { "Player"@ } else { "NPC"@ },
    ] + if c.status_effects@.len() == 0 {
        seq![]
    } else {
        seq!["Status Effects:"@] + Seq::new(
            c.status_effects@.len(),
            |j: int| "  - "@ + c.status_effects@[j].name@ + match c.status_effects@[j].duration {
                Some(d) => " ("@ + signed_decimal(d as int) + " rounds)"@,
                None => seq![],
            },
        )
    }
}

/// The sheet saved for a player when a fight ends: the sheet with the
/// fight's hit points and temporary hit points (as bytes).
pub open spec fn saved_sheet(c: Combatant, out: Character) -> bool {
    c.character_data matches Some(ch) && out.same_as(
        Character { hp: Some(c.current_hp as u8), temp_hp: Some(c.temp_hp as u8), ..ch },
    )
}

/// The players of `s` that carry a sheet.
pub open spec fn players_with_sheets(s: Seq<Combatant>) -> Seq<Combatant>
    decreases s.len(),
{
    if s.len() == 0 {
        seq![]
    } else {
        players_with_sheets(s.drop_last()) + if s.last().is_player && s.last().character_data is Some {
            seq![s.last()]
        } else {
            seq![]
        }
    }
}

impl CombatTracker {
    /// The lines of the printed initiative order.
    pub fn initiative_order_lines(&self) -> (res: Vec<String>)
        ensures
            views(res@) == initiative_order(*self),
    {
        let mut v: Vec<String> = Vec::new();
        v.push(String::from_str(""));
        let mut h = String::from_str("📋 Initiative Order (Round ");
        signed(&mut h, self.round_number);
        h.append("):");
        v.push(h);
        v.push(String::from_str("═══════════════════════════════════════════════════════════"));
        let ghost head = views(v@);
        assert(head =~= initiative_order(*self).take(3));
        let n = self.combatants.len();
        let mut i: usize = 0;
        while i < n
            invariant
                n == self.combatants@.len(),
                i <= n,
                views(v@) == head + Seq::new(i as nat, |k: int| order_entry(*self, k)),
            decreases n - i,
        {
            let c = &self.combatants[i];
            let mut l = if i == self.current_turn { String::from_str(">>> ") } else { String::from_str("    ") };
            if c.is_player {
                l.append("🧙");
            } else {
                l.append("👹");
            }
            l.append("Init ");
            signed(&mut l, c.initiative);
            l.append(": ");
            l.append(c.name.as_str());
            l.append(" ");
            if c.initiative == 0 {
                l.append("(SKIPPED)");
            }
            l.append(" (AC: ");
            signed(&mut l, c.ac);
            l.append(", HP: ");
            signed(&mut l, c.current_hp);
            l.append("/");
            signed(&mut l, c.max_hp);
            l.append(")");
            if c.status_effects.len() > 0 {
                l.append(" [");
                l.append(effect_names_of(&c.status_effects).as_str());
                l.append("]");
            }
            assert(l@ =~= order_entry(*self, i as int));
            push_line(&mut v, l);
            assert(views(v@) =~= head + Seq::new((i + 1) as nat, |k: int| order_entry(*self, k)));
            i = i + 1;
        }
        push_line(&mut v, String::from_str("═══════════════════════════════════════════════════════════"));
        assert(views(v@) =~= initiative_order(*self));
        v
    }

    /// The record written for the first combatant named `npc_name`
    /// (ignoring ASCII case), or `None` when there is none.
    pub fn npc_record_lines(&self, npc_name: &str) -> (res: Option<Vec<String>>)
        ensures
            match res {
                Some(v) => exists|i: int|
                    crate::combat::is_first_named(self.combatants@, npc_name@, i) && views(v@) == npc_record(
                        self.combatants@[i],
                    ),
                None => crate::combat::none_named(self.combatants@, npc_name@),
            },
    {
        match self.find_combatant(npc_name) {
            None => None,
            Some(i) => {
                let c = &self.combatants[i];
                let mut v: Vec<String> = Vec::new();
                let mut l1 = String::from_str("Name: ");
                l1.append(c.name.as_str());
                v.push(l1);
                let mut l2 = String::from_str("HP: ");
                signed(&mut l2, c.current_hp);
                l2.append("/");
                signed(&mut l2, c.max_hp);
                v.push(l2);
                let mut l3 = String::from_str("AC: ");
                signed(&mut l3, c.ac);
                v.push(l3);
                let mut l4 = String::from_str("Initiative: ");
                signed(&mut l4, c.initiative);
                v.push(l4);
                let mut l5 = String::from_str("Type: ");
                if c.is_player {
                    l5.append("Player");
                } else {
                    l5.append("NPC");
                }
                v.push(l5);
                let ghost head = views(v@);
                let n = c.status_effects.len();
                if n > 0 {
                    push_line(&mut v, String::from_str("Status Effects:"));
                    let ghost top = views(v@);
                    let mut j: usize = 0;
                    while j < n
                        invariant
                            n == c.status_effects@.len(),
                            j <= n,
                            views(v@) == top + Seq::new(
                                j as nat,
                                |k: int| "  - "@ + c.status_effects@[k].name@ + match c.status_effects@[k].duration {
                                    Some(d) => " ("@ + signed_decimal(d as int) + " rounds)"@,
                                    None => seq![],
                                },
                            ),
                        decreases n - j,
                    {
                        let e = &c.status_effects[j];
                        let mut l = String::from_str("  - ");
                        l.append(e.name.as_str());
                        match e.duration {
                            Some(d) => {
                                l.append(" (");
                                signed(&mut l, d);
                                l.append(" rounds)");
                            },
                            None => {},
                        }
                        assert(l@ =~= "  - "@ + e.name@ + match e.duration {
                            Some(d) => " ("@ + signed_decimal(d as int) + " rounds)"@,
                            None => seq![],
                        });
                        push_line(&mut v, l);
                        assert(views(v@) =~= top + Seq::new(
                            (j + 1) as nat,
                            |k: int| "  - "@ + c.status_effects@[k].name@ + match c.status_effects@[k].duration {
                                Some(d) => " ("@ + signed_decimal(d as int) + " rounds)"@,
                                None => seq![],
                            },
                        ));
                        j = j + 1;
                    }
                }
                assert(views(v@) =~= npc_record(*c));
                Some(v)
            },
        }
    }

    /// The sheets to save when a fight ends: for each player with a sheet,
    /// in order, the sheet with the fight's hit points and temporary hit
    /// points.
    pub fn characters_to_save(&self) -> (res: Vec<Character>)
        ensures
            res@.len() == players_with_sheets(self.combatants@).len(),
            forall|k: int| 0 <= k < res@.len() ==> saved_sheet(players_with_sheets(self.combatants@)[k], #[trigger] res@[k]),
    {
        let mut out: Vec<Character> = Vec::new();
        let n = self.combatants.len();
        let mut i: usize = 0;
        while i < n
            invariant
                n == self.combatants@.len(),
                i <= n,
                out@.len() == players_with_sheets(self.combatants@.take(i as int)).len(),
                forall|k: int| 0 <= k < out@.len() ==> saved_sheet(players_with_sheets(self.combatants@.take(i as int))[k], #[trigger] out@[k]),
            decreases n - i,
        {
            let ghost prev = players_with_sheets(self.combatants@.take(i as int));
            assert(self.combatants@.take(i + 1).drop_last() =~= self.combatants@.take(i as int));
            let c = &self.combatants[i];
            if c.is_player {
                match &c.character_data {
                    Some(ch) => {
                        let mut updated = ch.clone();
                        updated.hp = Some(c.current_hp as u8);
                        updated.temp_hp = Some(c.temp_hp as u8);
                        out.push(updated);
                        let ghost next = players_with_sheets(self.combatants@.take(i + 1));
                        assert(next =~= prev.push(*c));
                    },
                    None => {
                        assert(players_with_sheets(self.combatants@.take(i + 1)) =~= prev);
                    },
                }
            } else {
                assert(players_with_sheets(self.combatants@.take(i + 1)) =~= prev);
            }
            i = i + 1;
        }
        assert(self.combatants@.take(n as int) =~= self.combatants@);
        out
    }
}

} // verus!
