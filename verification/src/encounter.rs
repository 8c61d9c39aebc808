//! Creatures for random encounters. A creature's challenge rating puts it in
//! one of eighteen stat tiers (base hit points, armour class and proficiency
//! bonus) and one of six ability-bonus bands; which tier and band a
//! fractional rating falls in is decided by the caller. The stats are then
//! rolled around the tier's values.
use vstd::prelude::*;
use crate::text::{decimal, signed_decimal, push_decimal, trim, trimmed, parse_usize_spec, parse_usize};
use crate::words::{views, push_line, pad, padded, join_with};
use crate::tui::boxed;
use crate::text::decimal_string;
use crate::cli::{three_d6_range, three_d6_of, three_d6_from, draw_bytes};
use crate::dice::random_byte;
use crate::tui_combat::signed;

verus! {

/// A random 32-bit integer, every value possible (`rand::random::<i32>`).
#[verifier::external_body]
fn random_i32() -> (r: i32) {
    rand::random::<i32>()
}

/// The base hit points, armour class and proficiency bonus of a stat tier,
/// from the weakest (below CR 1/4) to the strongest (CR 21 and up).
pub open spec fn tier_base(tier: u8) -> (int, int, int) {
    if tier == 0 {
        (7, 11, 2)
    } else if tier == 1 {
        (22, 12, 2)
    } else if tier == 2 {
        (32, 13, 2)
    } else if tier == 3 {
        (58, 13, 2)
    } else if tier == 4 {
        (71, 13, 2)
    } else if tier == 5 {
        (84, 14, 2)
    } else if tier == 6 {
        (97, 14, 2)
    } else if tier == 7 {
        (110, 15, 3)
    } else if tier == 8 {
        (123, 15, 3)
    } else if tier == 9 {
        (136, 15, 3)
    } else if tier == 10 {
        (149, 16, 3)
    } else if tier == 11 {
        (162, 16, 4)
    } else if tier == 12 {
        (175, 17, 4)
    } else if tier == 13 {
        (195, 17, 4)
    } else if tier == 14 {
        (225, 18, 5)
    } else if tier == 15 {
        (255, 18, 5)
    } else if tier == 16 {
        (285, 19, 6)
    } else {
        (400, 20, 7)
    }
}

fn tier_values(tier: u8) -> (res: (i32, i32, i32))
    ensures
        res.0 == tier_base(tier).0,
        res.1 == tier_base(tier).1,
        res.2 == tier_base(tier).2,
{
    if tier == 0 {
        (7, 11, 2)
    } else if tier == 1 {
        (22, 12, 2)
    } else if tier == 2 {
        (32, 13, 2)
    } else if tier == 3 {
        (58, 13, 2)
    } else if tier == 4 {
        (71, 13, 2)
    } else if tier == 5 {
        (84, 14, 2)
    } else if tier == 6 {
        (97, 14, 2)
    } else if tier == 7 {
        (110, 15, 3)
    } else if tier == 8 {
        (123, 15, 3)
    } else if tier == 9 {
        (136, 15, 3)
    } else if tier == 10 {
        (149, 16, 3)
    } else if tier == 11 {
        (162, 16, 4)
    } else if tier == 12 {
        (175, 17, 4)
    } else if tier == 13 {
        (195, 17, 4)
    } else if tier == 14 {
        (225, 18, 5)
    } else if tier == 15 {
        (255, 18, 5)
    } else if tier == 16 {
        (285, 19, 6)
    } else {
        (400, 20, 7)
    }
}

/// The remainder of `r` by a positive `m` with the sign of `r` (Rust's `%`).
pub open spec fn rem_toward_zero(r: int, m: int) -> int {
    if r >= 0 {
        r % m
    } else {
        -((-r) % m)
    }
}

fn rem_i32(r: i32, m: i32) -> (res: i32)
    requires
        m > 0,
    ensures
        res == rem_toward_zero(r as int, m as int),
        -m < res < m,
{
    let x = r as i64;
    let y = m as i64;
    if x >= 0 {
        (x % y) as i32
    } else {
        (-((-x) % y)) as i32
    }
}

/// How far the hit points of a tier spread: a fifth of its base.
pub open spec fn hp_spread(tier: u8) -> int {
    tier_base(tier).0 / 5
}

/// How far the armour class of a tier spreads: 1 below AC 15, else 2.
pub open spec fn ac_spread(tier: u8) -> int {
    if tier_base(tier).1 < 15 { 1 } else { 2 }
}

/// A value, at least 1.
pub open spec fn at_least_one(x: int) -> int {
    if x < 1 { 1 } else { x }
}

/// A score with a bonus, at most 20.
pub open spec fn capped(d: u8, bonus: u8) -> int {
    if d + bonus > 20 { 20 } else { d + bonus }
}

/// `base` moved by `d - v`.
pub open spec fn moved(base: int, v: int, d: int) -> int {
    base + d - v
}

/// `base` moved by the draw `r`: `base + r % (2 v + 1) - v`, with Rust's
/// remainder (which takes the sign of `r`).
pub open spec fn spread_by(base: int, v: int, r: int) -> int {
    base + rem_toward_zero(r, 2 * v + 1) - v
}

/// `base` moved by the drawn integer `r` (see `spread_by`).
pub fn spread_of(base: i32, v: i32, r: i32) -> (res: i32)
    requires
        0 <= v <= 100,
        0 <= base <= 1000,
    ensures
        res == spread_by(base as int, v as int, r as int),
        exists|d: int| -2 * v <= d <= 2 * v && res == #[trigger] moved(base as int, v as int, d),
{
    let d = rem_i32(r, 2 * v + 1);
    let res = base + d - v;
    assert(res == moved(base as int, v as int, d as int));
    res
}

/// A creature of an encounter.
#[derive(Debug)]
pub struct EncounterCreature {
    pub name: String,
    pub race: String,
    pub class: String,
    pub hp: i32,
    pub ac: i32,
    pub speed: i32,
    pub strength: u8,
    pub dexterity: u8,
    pub constitution: u8,
    pub intelligence: u8,
    pub wisdom: u8,
    pub charisma: u8,
    pub proficiency_bonus: i32,
}

/// An ability score of a creature: three six-sided dice plus the band's
/// bonus, at most 20.
pub open spec fn creature_score(v: u8, bonus: u8) -> bool {
    exists|d: u8| three_d6_range(d) && v == #[trigger] capped(d, bonus)
}

/// The name of the `number`-th creature of a race and class.
pub open spec fn creature_name(race: Seq<char>, class: Seq<char>, number: nat) -> Seq<char> {
    race + " "@ + class + " #"@ + decimal(number)
}

/// An ability score from three drawn bytes: 3d6 (see `three_d6_of`) plus
/// the band's bonus, at most 20.
pub fn score_from(bonus: u8, a: u8, b: u8, c: u8) -> (res: u8)
    requires
        bonus <= 5,
    ensures
        res == capped(three_d6_of(a, b, c), bonus),
        creature_score(res, bonus),
{
    let d = three_d6_from(a, b, c);
    let s = d + bonus;
    let r = if s > 20 { 20 } else { s };
    assert(r == capped(d, bonus));
    r
}

/// `c` is the `number`-th creature of race `race` and class `class` in stat
/// tier `tier` and bonus band `bonus` that the draws give: hit points from
/// the drawn integer `hr` (see `spread_by`, at least 1), armour class from
/// the drawn integer `ar`, speed `(s % 4 + 3) * 10` from the drawn byte
/// `s`, and the six ability scores, in order, each from the next three of
/// the 18 drawn bytes `d` (see `score_from`).
pub open spec fn creature_drawn(
    c: EncounterCreature,
    race: String,
    class: String,
    number: u64,
    tier: u8,
    bonus: u8,
    hr: i32,
    ar: i32,
    s: u8,
    d: Seq<u8>,
) -> bool {
    &&& d.len() == 18
    &&& c.name@ == creature_name(race@, class@, number as nat)
    &&& c.race == race
    &&& c.class == class
    &&& c.hp == at_least_one(spread_by(tier_base(tier).0, hp_spread(tier), hr as int))
    &&& c.ac == spread_by(tier_base(tier).1, ac_spread(tier), ar as int)
    &&& c.speed == (s % 4 + 3) * 10
    &&& c.strength == capped(three_d6_of(d[0], d[1], d[2]), bonus)
    &&& c.dexterity == capped(three_d6_of(d[3], d[4], d[5]), bonus)
    &&& c.constitution == capped(three_d6_of(d[6], d[7], d[8]), bonus)
    &&& c.intelligence == capped(three_d6_of(d[9], d[10], d[11]), bonus)
    &&& c.wisdom == capped(three_d6_of(d[12], d[13], d[14]), bonus)
    &&& c.charisma == capped(three_d6_of(d[15], d[16], d[17]), bonus)
    &&& c.proficiency_bonus == tier_base(tier).2
}

impl EncounterCreature {
    /// Rolls the `number`-th creature of an encounter, of the given race
    /// and class, in stat tier `tier` (0 to 17) and ability-bonus band
    /// `bonus` (0 to 5): hit points are the tier's, moved by a random
    /// amount from `-3v` to `+v` with `v` a fifth of them (at least 1); the
    /// armour class is the tier's moved by `-2w` to `+w` with `w` 1 below
    /// AC 15, else 2; speed is 30 to 60 feet in steps of 10; each ability
    /// score is 3d6 plus the bonus, at most 20.
    pub fn roll(race: String, class: String, number: u64, tier: u8, bonus: u8) -> (res: EncounterCreature)
        requires
            tier <= 17,
            bonus <= 5,
        ensures
            exists|hr: i32, ar: i32, s: u8, d: Seq<u8>|
                #[trigger] creature_drawn(res, race, class, number, tier, bonus, hr, ar, s, d),
            res.name@ == creature_name(race@, class@, number as nat),
            res.race == race,
            res.class == class,
            exists|d: int| -2 * hp_spread(tier) <= d <= 2 * hp_spread(tier)
                && res.hp == at_least_one(#[trigger] moved(tier_base(tier).0, hp_spread(tier), d)),
            exists|d: int| -2 * ac_spread(tier) <= d <= 2 * ac_spread(tier)
                && res.ac == #[trigger] moved(tier_base(tier).1, ac_spread(tier), d),
            res.proficiency_bonus == tier_base(tier).2,
            30 <= res.speed <= 60,
            res.speed % 10 == 0,
            creature_score(res.strength, bonus),
            creature_score(res.dexterity, bonus),
            creature_score(res.constitution, bonus),
            creature_score(res.intelligence, bonus),
            creature_score(res.wisdom, bonus),
            creature_score(res.charisma, bonus),
    {
        let hr = random_i32();
        let ar = random_i32();
        let s = random_byte();
        let d = draw_bytes(18);
        let ghost rc = race;
        let ghost cc = class;
        let res = EncounterCreature::from_draws(race, class, number, tier, bonus, hr, ar, s, &d);
        assert(creature_drawn(res, rc, cc, number, tier, bonus, hr, ar, s, d@));
        res
    }

    /// The `number`-th creature of the given race and class, in stat tier
    /// `tier` (0 to 17) and bonus band `bonus` (0 to 5), that the draws
    /// give (see `creature_drawn`).
    pub fn from_draws(
        race: String,
        class: String,
        number: u64,
        tier: u8,
        bonus: u8,
        hr: i32,
        ar: i32,
        s: u8,
        d: &Vec<u8>,
    ) -> (res: EncounterCreature)
        requires
            tier <= 17,
            bonus <= 5,
            d@.len() == 18,
        ensures
            creature_drawn(res, race, class, number, tier, bonus, hr, ar, s, d@),
            exists|d: int| -2 * hp_spread(tier) <= d <= 2 * hp_spread(tier)
                && res.hp == at_least_one(#[trigger] moved(tier_base(tier).0, hp_spread(tier), d)),
            exists|d: int| -2 * ac_spread(tier) <= d <= 2 * ac_spread(tier)
                && res.ac == #[trigger] moved(tier_base(tier).1, ac_spread(tier), d),
            30 <= res.speed <= 60,
            res.speed % 10 == 0,
            creature_score(res.strength, bonus),
            creature_score(res.dexterity, bonus),
            creature_score(res.constitution, bonus),
            creature_score(res.intelligence, bonus),
            creature_score(res.wisdom, bonus),
            creature_score(res.charisma, bonus),
    {
        let mut name = race.clone();
        name.append(" ");
        name.append(class.as_str());
        name.append(" #");
        push_decimal(&mut name, number);
        let (bh, ba, bp) = tier_values(tier);
        let v = bh / 5;
        let raw = spread_of(bh, v, hr);
        let hp = if raw < 1 { 1 } else { raw };
        proof {
            let dd = choose|dd: int| -2 * v <= dd <= 2 * v && raw == #[trigger] moved(bh as int, v as int, dd);
            assert(hp_spread(tier) == v);
            assert(hp == at_least_one(moved(tier_base(tier).0, hp_spread(tier), dd)));
        }
        let w: i32 = if ba < 15 { 1 } else { 2 };
        let ac = spread_of(ba, w, ar);
        proof {
            let dd = choose|dd: int| -2 * w <= dd <= 2 * w && ac == #[trigger] moved(ba as int, w as int, dd);
            assert(ac_spread(tier) == w);
            assert(ac == moved(tier_base(tier).1, ac_spread(tier), dd));
        }
        let speed = ((s % 4 + 3) as i32) * 10;
        let strength = score_from(bonus, d[0], d[1], d[2]);
        let dexterity = score_from(bonus, d[3], d[4], d[5]);
        let constitution = score_from(bonus, d[6], d[7], d[8]);
        let intelligence = score_from(bonus, d[9], d[10], d[11]);
        let wisdom = score_from(bonus, d[12], d[13], d[14]);
        let charisma = score_from(bonus, d[15], d[16], d[17]);
        EncounterCreature {
            name,
            race,
            class,
            hp,
            ac,
            speed,
            strength,
            dexterity,
            constitution,
            intelligence,
            wisdom,
            charisma,
            proficiency_bonus: bp,
        }
    }

    /// The lines that show the creature in the full-screen interface, its
    /// challenge rating written as `cr`.
    pub fn summary_lines(&self, cr: &str) -> (res: Vec<String>)
        ensures
            views(res@) == creature_summary(*self, cr@),
    {
        let mut v: Vec<String> = Vec::new();
        let mut l1 = String::from_str("═══ ");
        l1.append(self.name.as_str());
        l1.append(" ═══");
        v.push(l1);
        let mut l2 = String::from_str("CR: ");
        l2.append(cr);
        l2.append(" | Race: ");
        l2.append(self.race.as_str());
        l2.append(" | Class: ");
        l2.append(self.class.as_str());
        v.push(l2);
        let mut l3 = String::from_str("HP: ");
        signed(&mut l3, self.hp);
        l3.append(" | AC: ");
        signed(&mut l3, self.ac);
        l3.append(" | Speed: ");
        signed(&mut l3, self.speed);
        l3.append(" ft | Prof: +");
        signed(&mut l3, self.proficiency_bonus);
        v.push(l3);
        let mut l4 = String::from_str("STR: ");
        push_decimal(&mut l4, self.strength as u64);
        l4.append(" | DEX: ");
        push_decimal(&mut l4, self.dexterity as u64);
        l4.append(" | CON: ");
        push_decimal(&mut l4, self.constitution as u64);
        l4.append(" | INT: ");
        push_decimal(&mut l4, self.intelligence as u64);
        l4.append(" | WIS: ");
        push_decimal(&mut l4, self.wisdom as u64);
        l4.append(" | CHA: ");
        push_decimal(&mut l4, self.charisma as u64);
        v.push(l4);
        v.push(String::new());
        assert(views(v@) =~= creature_summary(*self, cr@));
        v
    }

    /// The record of the `index`-th creature in a saved encounter, its
    /// challenge rating written as `cr`.
    pub fn record_text(&self, index: u64, cr: &str) -> (res: String)
        ensures
            res@ == creature_record(*self, index as nat, cr@),
    {
        let mut t = String::from_str("=== Creature ");
        push_decimal(&mut t, index);
        t.append(" ===\nName: ");
        t.append(self.name.as_str());
        t.append("\nCR: ");
        t.append(cr);
        t.append("\nRace: ");
        t.append(self.race.as_str());
        t.append("\nClass: ");
        t.append(self.class.as_str());
        t.append("\nHP: ");
        signed(&mut t, self.hp);
        t.append("\nAC: ");
        signed(&mut t, self.ac);
        t.append("\nSpeed: ");
        signed(&mut t, self.speed);
        t.append("\nProficiency: +");
        signed(&mut t, self.proficiency_bonus);
        t.append("\nSTR: ");
        push_decimal(&mut t, self.strength as u64);
        t.append("\nDEX: ");
        push_decimal(&mut t, self.dexterity as u64);
        t.append("\nCON: ");
        push_decimal(&mut t, self.constitution as u64);
        t.append("\nINT: ");
        push_decimal(&mut t, self.intelligence as u64);
        t.append("\nWIS: ");
        push_decimal(&mut t, self.wisdom as u64);
        t.append("\nCHA: ");
        push_decimal(&mut t, self.charisma as u64);
        t.append("\n\n");
        t
    }
}

/// The lines that show a creature in the full-screen interface.
pub open spec fn creature_summary(c: EncounterCreature, cr: Seq<char>) -> Seq<Seq<char>> {
    seq![
        "═══ "@ + c.name@ + " ═══"@,
        "CR: "@ + cr + " | Race: "@ + c.race@ + " | Class: "@ + c.class@,
        "HP: "@ + signed_decimal(c.hp as int) + " | AC: "@ + signed_decimal(c.ac as int) + " | Speed: "@
            + signed_decimal(c.speed as int) + " ft | Prof: +"@ + signed_decimal(c.proficiency_bonus as int),
        "STR: "@ + decimal(c.strength as nat) + " | DEX: "@ + decimal(c.dexterity as nat) + " | CON: "@
            + decimal(c.constitution as nat) + " | INT: "@ + decimal(c.intelligence as nat) + " | WIS: "@
            + decimal(c.wisdom as nat) + " | CHA: "@ + decimal(c.charisma as nat),
        seq![],
    ]
}

/// The record of a creature in a saved encounter.
pub open spec fn creature_record(c: EncounterCreature, index: nat, cr: Seq<char>) -> Seq<char> {
    "=== Creature "@ + decimal(index) + " ===\nName: "@ + c.name@ + "\nCR: "@ + cr + "\nRace: "@ + c.race@
        + "\nClass: "@ + c.class@ + "\nHP: "@ + signed_decimal(c.hp as int) + "\nAC: "@ + signed_decimal(c.ac as int)
        + "\nSpeed: "@ + signed_decimal(c.speed as int) + "\nProficiency: +"@ + signed_decimal(
        c.proficiency_bonus as int,
    ) + "\nSTR: "@ + decimal(c.strength as nat) + "\nDEX: "@ + decimal(c.dexterity as nat) + "\nCON: "@
        + decimal(c.constitution as nat) + "\nINT: "@ + decimal(c.intelligence as nat) + "\nWIS: "@
        + decimal(c.wisdom as nat) + "\nCHA: "@ + decimal(c.charisma as nat) + "\n\n"@
}

/// The number of creatures typed at the prompt: 1 to 8, else 1.
pub open spec fn creature_count(input: Seq<char>) -> usize {
    match parse_usize_spec(trim(input)) {
        Some(n) => if 1 <= n && n <= 8 { n } else { 1 },
        None => 1,
    }
}

/// Reads the number of creatures typed at the prompt (see
/// `creature_count`).
pub fn creature_count_answer(input: &str) -> (res: usize)
    ensures
        res == creature_count(input@),
{
    let t = trimmed(input);
    match parse_usize(t.as_str()) {
        Some(n) => if 1 <= n && n <= 8 { n } else { 1 },
        None => 1,
    }
}

/// The framed card of a creature in the line-by-line interface.
pub open spec fn creature_card(c: EncounterCreature, cr: Seq<char>) -> Seq<Seq<char>> {
    seq![
        "╔═══════════════════════════════════════╗"@,
        "║ "@ + pad(c.name@, 37) + " ║"@,
        "╠═══════════════════════════════════════╣"@,
        "║ CR: "@ + pad(cr, 33) + " ║"@,
        "║ Race: "@ + pad(c.race@, 31) + " ║"@,
        "║ Class: "@ + pad(c.class@, 30) + " ║"@,
        "║ HP: "@ + pad(signed_decimal(c.hp as int), 33) + " ║"@,
        "║ AC: "@ + pad(signed_decimal(c.ac as int), 33) + " ║"@,
        "║ Speed: "@ + signed_decimal(c.speed as int) + " feet"@ + pad(seq![], 21) + " ║"@,
        "║ Proficiency: +"@ + pad(signed_decimal(c.proficiency_bonus as int), 26) + " ║"@,
        "║                                       ║"@,
        "║ Ability Scores:                       ║"@,
        "║   STR: "@ + pad(decimal(c.strength as nat), 29) + " ║"@,
        "║   DEX: "@ + pad(decimal(c.dexterity as nat), 29) + " ║"@,
        "║   CON: "@ + pad(decimal(c.constitution as nat), 29) + " ║"@,
        "║   INT: "@ + pad(decimal(c.intelligence as nat), 29) + " ║"@,
        "║   WIS: "@ + pad(decimal(c.wisdom as nat), 29) + " ║"@,
        "║   CHA: "@ + pad(decimal(c.charisma as nat), 29) + " ║"@,
        "╚═══════════════════════════════════════╝"@,
    ]
}

impl EncounterCreature {
    /// The framed card of the creature (see `creature_card`).
    pub fn card_lines(&self, cr: &str) -> (res: Vec<String>)
        ensures
            views(res@) == creature_card(*self, cr@),
    {
        let mut v: Vec<String> = Vec::new();
        v.push(String::from_str("╔═══════════════════════════════════════╗"));
        v.push(boxed("║ ", self.name.as_str(), 37, " ║"));
        v.push(String::from_str("╠═══════════════════════════════════════╣"));
        v.push(boxed("║ CR: ", cr, 33, " ║"));
        v.push(boxed("║ Race: ", self.race.as_str(), 31, " ║"));
        v.push(boxed("║ Class: ", self.class.as_str(), 30, " ║"));
        let mut hp = String::new();
        signed(&mut hp, self.hp);
        v.push(boxed("║ HP: ", hp.as_str(), 33, " ║"));
        let mut ac = String::new();
        signed(&mut ac, self.ac);
        v.push(boxed("║ AC: ", ac.as_str(), 33, " ║"));
        let mut sp = String::from_str("║ Speed: ");
        signed(&mut sp, self.speed);
        sp.append(" feet");
        let gap = padded("", 21);
        sp.append(gap.as_str());
        sp.append(" ║");
        v.push(sp);
        let mut pb = String::new();
        signed(&mut pb, self.proficiency_bonus);
        v.push(boxed("║ Proficiency: +", pb.as_str(), 26, " ║"));
        v.push(String::from_str("║                                       ║"));
        v.push(String::from_str("║ Ability Scores:                       ║"));
        let s1 = decimal_string(self.strength as u64);
        v.push(boxed("║   STR: ", s1.as_str(), 29, " ║"));
        let s2 = decimal_string(self.dexterity as u64);
        v.push(boxed("║   DEX: ", s2.as_str(), 29, " ║"));
        let s3 = decimal_string(self.constitution as u64);
        v.push(boxed("║   CON: ", s3.as_str(), 29, " ║"));
        let s4 = decimal_string(self.intelligence as u64);
        v.push(boxed("║   INT: ", s4.as_str(), 29, " ║"));
        let s5 = decimal_string(self.wisdom as u64);
        v.push(boxed("║   WIS: ", s5.as_str(), 29, " ║"));
        let s6 = decimal_string(self.charisma as u64);
        v.push(boxed("║   CHA: ", s6.as_str(), 29, " ║"));
        v.push(String::from_str("╚═══════════════════════════════════════╝"));
        proof {
            reveal_strlit("");
            assert(""@ =~= Seq::<char>::empty());
        }
        assert(views(v@) =~= creature_card(*self, cr@));
        v
    }
}

/// The text an encounter is saved as: its name, total challenge rating and
/// number of creatures, then each creature's record.
pub open spec fn encounter_text(name: Seq<char>, cr: Seq<char>, records: Seq<Seq<char>>) -> Seq<char> {
    "Encounter: "@ + name + "\nTotal CR: "@ + cr + "\nCreatures: "@ + decimal(records.len()) + "\n\n"@
        + join_with(records, seq![])
}

/// The file an encounter is saved to.
pub open spec fn encounter_path(name: Seq<char>, cr: Seq<char>) -> Seq<char> {
    "encounters/"@ + name + "_CR"@ + cr + ".txt"@
}

/// The text and the file an encounter named `name` with the total challenge
/// rating written as `cr` is saved as; each creature's own rating is written
/// as `creature_cr`.
pub fn encounter_file(name: &str, cr: &str, creatures: &Vec<EncounterCreature>, creature_cr: &str) -> (res: (String, String))
    ensures
        res.0@ == encounter_path(name@, cr@),
        res.1@ == encounter_text(
            name@,
            cr@,
            Seq::new(creatures@.len(), |i: int| creature_record(creatures@[i], (i + 1) as nat, creature_cr@)),
        ),
{
    let mut path = String::from_str("encounters/");
    path.append(name);
    path.append("_CR");
    path.append(cr);
    path.append(".txt");
    let mut text = String::from_str("Encounter: ");
    text.append(name);
    text.append("\nTotal CR: ");
    text.append(cr);
    text.append("\nCreatures: ");
    push_decimal(&mut text, creatures.len() as u64);
    text.append("\n\n");
    let ghost head = text@;
    let ghost recs = Seq::new(creatures@.len(), |i: int| creature_record(creatures@[i], (i + 1) as nat, creature_cr@));
    let mut i: usize = 0;
    while i < creatures.len()
        invariant
            i <= creatures@.len(),
            recs == Seq::new(creatures@.len(), |i: int| creature_record(creatures@[i], (i + 1) as nat, creature_cr@)),
            text@ == head + join_with(recs.take(i as int), seq![]),
        decreases creatures@.len() - i,
    {
        let r = creatures[i].record_text((i + 1) as u64, creature_cr);
        text.append(r.as_str());
        proof {
            lemma_join_empty_push(recs.take(i as int), recs[i as int]);
            assert(recs.take(i + 1) =~= recs.take(i as int).push(recs[i as int]));
        }
        i = i + 1;
    }
    assert(recs.take(i as int) =~= recs);
    (path, text)
}

/// Joining with nothing between, one more piece goes at the end.
proof fn lemma_join_empty_push(s: Seq<Seq<char>>, x: Seq<char>)
    ensures
        join_with(s.push(x), seq![]) == join_with(s, seq![]) + x,
{
    let t = s.push(x);
    assert(t.drop_last() =~= s);
    if s.len() == 0 {
        assert(join_with(s, seq![]) + x =~= x);
    } else {
        assert(join_with(s, seq![]) + seq![] + x =~= join_with(s, seq![]) + x);
    }
}

} // verus!
