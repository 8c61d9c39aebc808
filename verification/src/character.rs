//! Player characters: ability scores, modifiers, derived statistics and the
//! flat textual forms used by the editors.
use vstd::prelude::*;
use crate::text::{decimal, lemma_parse_decimal, parse_unsigned, decimal_string, labeled, push_decimal, push_char, str_eq, parse_u8, parse_u8_spec};
use crate::stat_map::StatMap;

verus! {

/// The six D&D ability scores, in the order used throughout the tools.
#[derive(Debug, Clone, Copy, PartialEq, Eq, Structural)]
pub enum AbilityScore {
    Strength,
    Dexterity,
    Constitution,
    Wisdom,
    Intelligence,
    Charisma,
}

/// The full name of an ability.
pub open spec fn ability_name(a: AbilityScore) -> Seq<char> {
    match a {
        AbilityScore::Strength => "Strength"@,
        AbilityScore::Dexterity => "Dexterity"@,
        AbilityScore::Constitution => "Constitution"@,
        AbilityScore::Wisdom => "Wisdom"@,
        AbilityScore::Intelligence => "Intelligence"@,
        AbilityScore::Charisma => "Charisma"@,
    }
}

/// The three-letter abbreviation of an ability.
pub open spec fn ability_short_name(a: AbilityScore) -> Seq<char> {
    match a {
        AbilityScore::Strength => "STR"@,
        AbilityScore::Dexterity => "DEX"@,
        AbilityScore::Constitution => "CON"@,
        AbilityScore::Wisdom => "WIS"@,
        AbilityScore::Intelligence => "INT"@,
        AbilityScore::Charisma => "CHA"@,
    }
}

/// The abilities in their standard listing order.
pub open spec fn ability_order() -> Seq<AbilityScore> {
    seq![
        AbilityScore::Strength,
        AbilityScore::Dexterity,
        AbilityScore::Constitution,
        AbilityScore::Wisdom,
        AbilityScore::Intelligence,
        AbilityScore::Charisma,
    ]
}

impl AbilityScore {
    /// All six abilities in standard order.
    pub fn all() -> (res: [AbilityScore; 6])
        ensures
            res@ == ability_order(),
    {
        let res = [
            AbilityScore::Strength,
            AbilityScore::Dexterity,
            AbilityScore::Constitution,
            AbilityScore::Wisdom,
            AbilityScore::Intelligence,
            AbilityScore::Charisma,
        ];
        assert(res@ =~= ability_order());
        res
    }

    /// The full name, e.g. `"Strength"`.
    pub fn name(&self) -> (res: &'static str)
        ensures
            res@ == ability_name(*self),
    {
        match self {
            AbilityScore::Strength => "Strength",
            AbilityScore::Dexterity => "Dexterity",
            AbilityScore::Constitution => "Constitution",
            AbilityScore::Wisdom => "Wisdom",
            AbilityScore::Intelligence => "Intelligence",
            AbilityScore::Charisma => "Charisma",
        }
    }

    /// The abbreviation, e.g. `"STR"`.
    pub fn short_name(&self) -> (res: &'static str)
        ensures
            res@ == ability_short_name(*self),
    {
        match self {
            AbilityScore::Strength => "STR",
            AbilityScore::Dexterity => "DEX",
            AbilityScore::Constitution => "CON",
            AbilityScore::Wisdom => "WIS",
            AbilityScore::Intelligence => "INT",
            AbilityScore::Charisma => "CHA",
        }
    }
}

/// A playing-card suit.
#[derive(Debug, PartialEq, Eq, Structural)]
pub enum Suit {
    Hearts,
    Diamonds,
    Clubs,
    Spades,
}

impl Clone for Suit {
    fn clone(&self) -> (res: Self)
        ensures
            res == *self,
    {
        match self {
            Suit::Hearts => Suit::Hearts,
            Suit::Diamonds => Suit::Diamonds,
            Suit::Clubs => Suit::Clubs,
            Suit::Spades => Suit::Spades,
        }
    }
}

/// A card held by a character.
#[derive(Debug, PartialEq, Eq)]
pub struct Cards {
    pub suit: Suit,
    pub rank: u8,
    pub desc: String,
}

impl Clone for Cards {
    fn clone(&self) -> (res: Self)
        ensures
            res == *self,
    {
        Cards { suit: self.suit.clone(), rank: self.rank, desc: self.desc.clone() }
    }
}

/// A character sheet. Every statistic but the name may be missing.
#[derive(Debug, PartialEq, Eq)]
pub struct Character {
    pub name: String,
    pub race: Option<String>,
    pub class: Option<String>,
    pub level: Option<u8>,
    pub desc: Option<String>,
    pub ac: Option<u8>,
    pub hp: Option<u8>,
    pub max_hp: Option<u8>,
    pub temp_hp: Option<u8>,
    pub speed: Option<u8>,
    pub intl: Option<u8>,
    pub wisd: Option<u8>,
    pub chas: Option<u8>,
    pub stre: Option<u8>,
    pub dext: Option<u8>,
    pub cons: Option<u8>,
    pub passive_perception: Option<u8>,
    pub initiative: Option<u8>,
    pub prof_bonus: Option<u8>,
    pub inventory: Vec<String>,
    pub cards: Vec<Cards>,
    pub spells: Vec<String>,
}

fn clone_opt_string(o: &Option<String>) -> (res: Option<String>)
    ensures
        res == *o,
{
    match o {
        Some(s) => Some(s.clone()),
        None => None,
    }
}

fn clone_strings(v: &Vec<String>) -> (res: Vec<String>)
    ensures
        res@ == v@,
{
    let mut out: Vec<String> = Vec::new();
    let mut i: usize = 0;
    while i < v.len()
        invariant
            i <= v@.len(),
            out@ == v@.subrange(0, i as int),
        decreases v@.len() - i,
    {
        out.push(v[i].clone());
        assert(out@ =~= v@.subrange(0, i + 1));
        i = i + 1;
    }
    assert(v@.subrange(0, v@.len() as int) =~= v@);
    out
}

fn clone_cards(v: &Vec<Cards>) -> (res: Vec<Cards>)
    ensures
        res@ == v@,
{
    let mut out: Vec<Cards> = Vec::new();
    let mut i: usize = 0;
    while i < v.len()
        invariant
            i <= v@.len(),
            out@ == v@.subrange(0, i as int),
        decreases v@.len() - i,
    {
        out.push(v[i].clone());
        assert(out@ =~= v@.subrange(0, i + 1));
        i = i + 1;
    }
    assert(v@.subrange(0, v@.len() as int) =~= v@);
    out
}

impl Clone for Character {
    fn clone(&self) -> (res: Self)
        ensures
            res.same_as(*self),
    {
        Character {
            name: self.name.clone(),
            race: clone_opt_string(&self.race),
            class: clone_opt_string(&self.class),
            level: self.level,
            desc: clone_opt_string(&self.desc),
            ac: self.ac,
            hp: self.hp,
            max_hp: self.max_hp,
            temp_hp: self.temp_hp,
            speed: self.speed,
            intl: self.intl,
            wisd: self.wisd,
            chas: self.chas,
            stre: self.stre,
            dext: self.dext,
            cons: self.cons,
            passive_perception: self.passive_perception,
            initiative: self.initiative,
            prof_bonus: self.prof_bonus,
            inventory: clone_strings(&self.inventory),
            cards: clone_cards(&self.cards),
            spells: clone_strings(&self.spells),
        }
    }
}

/// The ability modifier for a score: subtract 10, halve, round down.
pub open spec fn modifier_of(score: int) -> int {
    (score - 10) / 2
}

/// Law: the ability modifier is `(score - 10) / 2` rounded down: twice the
/// modifier is at most `score - 10` and more than `score - 12`. So it is
/// negative for every score below 10, 0 at 10 and 11, and never falls as the
/// score rises.
pub proof fn law_modifier_rounds_down(score: int, other: int)
    ensures
        2 * modifier_of(score) <= score - 10 < 2 * modifier_of(score) + 2,
        score < 10 ==> modifier_of(score) < 0,
        score == 10 || score == 11 ==> modifier_of(score) == 0,
        score <= other ==> modifier_of(score) <= modifier_of(other),
{
}

/// The value a `u8` takes when reinterpreted as an `i8` (`as i8`).
pub open spec fn u8_as_i8(x: u8) -> int {
    if x < 128 {
        x as int
    } else {
        x - 256
    }
}

impl Character {
    /// Equal sheets: every field equal, the list fields compared by contents.
    pub open spec fn same_as(self, other: Character) -> bool {
        &&& self.name == other.name && self.race == other.race && self.class == other.class
        &&& self.level == other.level && self.desc == other.desc && self.ac == other.ac
        &&& self.hp == other.hp && self.max_hp == other.max_hp && self.temp_hp == other.temp_hp
        &&& self.speed == other.speed && self.intl == other.intl && self.wisd == other.wisd
        &&& self.chas == other.chas && self.stre == other.stre && self.dext == other.dext
        &&& self.cons == other.cons && self.passive_perception == other.passive_perception
        &&& self.initiative == other.initiative && self.prof_bonus == other.prof_bonus
        &&& self.inventory@ == other.inventory@ && self.cards@ == other.cards@
        &&& self.spells@ == other.spells@
    }

    /// The score stored for an ability.
    pub open spec fn score_of(self, ability: AbilityScore) -> Option<u8> {
        match ability {
            AbilityScore::Strength => self.stre,
            AbilityScore::Dexterity => self.dext,
            AbilityScore::Constitution => self.cons,
            AbilityScore::Wisdom => self.wisd,
            AbilityScore::Intelligence => self.intl,
            AbilityScore::Charisma => self.chas,
        }
    }

    /// The modifier for an ability; 0 when the score is missing.
    pub open spec fn modifier_for(self, ability: AbilityScore) -> int {
        match self.score_of(ability) {
            Some(s) => modifier_of(s as int),
            None => 0,
        }
    }

    /// `10 + wisdom modifier + proficiency bonus` before the floor of 1; a
    /// missing bonus counts as 2, and the bonus is read as a signed byte.
    pub open spec fn raw_passive_perception(self) -> int {
        let pb = match self.prof_bonus {
            Some(p) => p,
            None => 2u8,
        };
        10 + self.modifier_for(AbilityScore::Wisdom) + u8_as_i8(pb)
    }

    /// Whether the passive-perception sum, added up left to right in signed
    /// bytes, stays within their range, as the computation requires.
    pub open spec fn passive_perception_computable(self) -> bool {
        &&& 10 + self.modifier_for(AbilityScore::Wisdom) <= 127
        &&& -128 <= self.raw_passive_perception() <= 127
    }

    /// Passive perception: the sum above, at least 1.
    pub open spec fn passive_perception_value(self) -> int {
        if self.raw_passive_perception() < 1 {
            1
        } else {
            self.raw_passive_perception()
        }
    }

    /// The number of essential statistics that are missing.
    pub open spec fn missing_essential(self) -> int {
        (if self.race is None { 1int } else { 0 }) + (if self.class is None { 1int } else { 0 })
            + (if self.level is None { 1int } else { 0 }) + (if self.stre is None { 1int } else { 0 })
            + (if self.dext is None { 1int } else { 0 }) + (if self.cons is None { 1int } else { 0 })
            + (if self.wisd is None { 1int } else { 0 }) + (if self.intl is None { 1int } else { 0 })
            + (if self.chas is None { 1int } else { 0 }) + (if self.ac is None { 1int } else { 0 })
            + (if self.max_hp is None { 1int } else { 0 }) + (if self.speed is None { 1int } else { 0 })
    }

    /// A character with the given name and nothing else filled in.
    pub fn new(name: &str) -> (res: Character)
        ensures
            res.name@ == name@,
            res.race is None && res.class is None && res.level is None && res.desc is None,
            res.ac is None && res.hp is None && res.max_hp is None && res.temp_hp is None,
            res.speed is None && res.intl is None && res.wisd is None && res.chas is None,
            res.stre is None && res.dext is None && res.cons is None,
            res.passive_perception is None && res.initiative is None && res.prof_bonus is None,
            res.inventory@.len() == 0 && res.cards@.len() == 0 && res.spells@.len() == 0,
    {
        Character {
            name: String::from_str(name),
            race: None,
            class: None,
            level: None,
            desc: None,
            ac: None,
            hp: None,
            max_hp: None,
            temp_hp: None,
            speed: None,
            intl: None,
            wisd: None,
            chas: None,
            stre: None,
            dext: None,
            cons: None,
            passive_perception: None,
            initiative: None,
            prof_bonus: None,
            inventory: Vec::new(),
            cards: Vec::new(),
            spells: Vec::new(),
        }
    }

    /// Ability modifier from ability score using D&D rules: take the ability
    /// score and subtract 10, divide the result by 2 and round down.
    pub fn calculate_modifier(ability_score: u8) -> (res: i8)
        ensures
            res as int == modifier_of(ability_score as int),
            2 * res <= ability_score - 10 < 2 * res + 2,
    {
        if ability_score >= 10 {
            ((ability_score - 10) / 2) as i8
        } else {
            let m: u8 = (11 - ability_score) / 2;
            assert(-(m as int) == modifier_of(ability_score as int));
            0 - (m as i8)
        }
    }

    /// The stored score for an ability.
    pub fn get_ability_score(&self, ability: AbilityScore) -> (res: Option<u8>)
        ensures
            res == self.score_of(ability),
    {
        match ability {
            AbilityScore::Strength => self.stre,
            AbilityScore::Dexterity => self.dext,
            AbilityScore::Constitution => self.cons,
            AbilityScore::Wisdom => self.wisd,
            AbilityScore::Intelligence => self.intl,
            AbilityScore::Charisma => self.chas,
        }
    }

    /// The modifier for an ability, 0 for a missing score.
    pub fn get_ability_modifier(&self, ability: AbilityScore) -> (res: i8)
        ensures
            res as int == self.modifier_for(ability),
    {
        if let Some(score) = self.get_ability_score(ability) {
            Self::calculate_modifier(score)
        } else {
            0
        }
    }

    pub fn get_strength_modifier(&self) -> (res: i8)
        ensures
            res as int == self.modifier_for(AbilityScore::Strength),
    {
        self.get_ability_modifier(AbilityScore::Strength)
    }

    pub fn get_dexterity_modifier(&self) -> (res: i8)
        ensures
            res as int == self.modifier_for(AbilityScore::Dexterity),
    {
        self.get_ability_modifier(AbilityScore::Dexterity)
    }

    pub fn get_constitution_modifier(&self) -> (res: i8)
        ensures
            res as int == self.modifier_for(AbilityScore::Constitution),
    {
        self.get_ability_modifier(AbilityScore::Constitution)
    }

    pub fn get_wisdom_modifier(&self) -> (res: i8)
        ensures
            res as int == self.modifier_for(AbilityScore::Wisdom),
    {
        self.get_ability_modifier(AbilityScore::Wisdom)
    }

    pub fn get_intelligence_modifier(&self) -> (res: i8)
        ensures
            res as int == self.modifier_for(AbilityScore::Intelligence),
    {
        self.get_ability_modifier(AbilityScore::Intelligence)
    }

    pub fn get_charisma_modifier(&self) -> (res: i8)
        ensures
            res as int == self.modifier_for(AbilityScore::Charisma),
    {
        self.get_ability_modifier(AbilityScore::Charisma)
    }

    /// Passive perception: 10 + Wisdom modifier + proficiency bonus (2 when
    /// missing), at least 1.
    pub fn calculate_passive_perception(&self) -> (res: u8)
        requires
            self.passive_perception_computable(),
        ensures
            res as int == self.passive_perception_value(),
    {
        let wisdom_mod = self.get_wisdom_modifier();
        let pb: u8 = match self.prof_bonus {
            Some(p) => p,
            None => 2,
        };
        let prof_bonus: i8 = if pb < 128 {
            pb as i8
        } else {
            (pb as i16 - 256) as i8
        };
        let total: i8 = 10 + wisdom_mod + prof_bonus;
        if total < 1 {
            1
        } else {
            total as u8
        }
    }

    /// Stores the freshly computed passive perception.
    pub fn update_passive_perception(&mut self)
        requires
            old(self).passive_perception_computable(),
        ensures
            *final(self) == (Character {
                passive_perception: Some(old(self).passive_perception_value() as u8),
                ..*old(self)
            }),
    {
        let pp = self.calculate_passive_perception();
        self.passive_perception = Some(pp);
    }

    /// How many of the essential statistics (race, class, level, the six
    /// scores, AC, max HP, speed) are missing.
    pub fn count_missing_essential_data(&self) -> (res: i32)
        ensures
            res as int == self.missing_essential(),
            0 <= res <= 12,
    {
        let mut missing: i32 = 0;
        if self.race.is_none() { missing += 1; }
        if self.class.is_none() { missing += 1; }
        if self.level.is_none() { missing += 1; }
        if self.stre.is_none() { missing += 1; }
        if self.dext.is_none() { missing += 1; }
        if self.cons.is_none() { missing += 1; }
        if self.wisd.is_none() { missing += 1; }
        if self.intl.is_none() { missing += 1; }
        if self.chas.is_none() { missing += 1; }
        if self.ac.is_none() { missing += 1; }
        if self.max_hp.is_none() { missing += 1; }
        if self.speed.is_none() { missing += 1; }
        missing
    }
}


/// The decimal text of an optional statistic, 0 when missing.
pub open spec fn num_text(o: Option<u8>) -> Seq<char> {
    match o {
        Some(v) => decimal(v as nat),
        None => decimal(0),
    }
}

/// The text of an optional string, `d` when missing.
pub open spec fn text_or(o: Option<String>, d: Seq<char>) -> Seq<char> {
    match o {
        Some(s) => s@,
        None => d,
    }
}

/// A modifier as shown on a sheet: `+N` for zero and up, `-N` below zero.
pub open spec fn modifier_text(m: int) -> Seq<char> {
    if m >= 0 {
        seq!['+'] + decimal(m as nat)
    } else {
        seq!['-'] + decimal((-m) as nat)
    }
}

/// The statistic keys, in the order of the flat list form.
pub open spec fn stat_keys() -> Seq<Seq<char>> {
    seq![
        "name"@,
        "level"@,
        "desc"@,
        "ac"@,
        "hp"@,
        "max_hp"@,
        "temp_hp"@,
        "speed"@,
        "intl"@,
        "wisd"@,
        "chas"@,
        "stre"@,
        "dext"@,
        "cons"@,
        "passive_perception"@,
        "initiative"@,
        "prof_bonus"@,
    ]
}

/// The numeric statistics of a sheet, in the order of `stat_keys` (the
/// positions 1 and 3 to 16 of the flat list form).
pub open spec fn numeric_stats(c: Character) -> Seq<Option<u8>> {
    seq![
        c.level, c.ac, c.hp, c.max_hp, c.temp_hp, c.speed, c.intl, c.wisd, c.chas, c.stre,
        c.dext, c.cons, c.passive_perception, c.initiative, c.prof_bonus,
    ]
}

/// Whether position `i` of the flat list form holds a number.
pub open spec fn is_numeric_position(i: int) -> bool {
    i == 1 || (3 <= i < 17)
}

/// The flat list form of a sheet: name, level, description, AC, HP, max HP,
/// temp HP, speed, INT, WIS, CHA, STR, DEX, CON, passive perception,
/// initiative, proficiency bonus; missing numbers as `0`, a missing
/// description as the empty text.
pub open spec fn sheet_values(c: Character) -> Seq<Seq<char>> {
    seq![
        c.name@,
        num_text(c.level),
        text_or(c.desc, Seq::empty()),
        num_text(c.ac),
        num_text(c.hp),
        num_text(c.max_hp),
        num_text(c.temp_hp),
        num_text(c.speed),
        num_text(c.intl),
        num_text(c.wisd),
        num_text(c.chas),
        num_text(c.stre),
        num_text(c.dext),
        num_text(c.cons),
        num_text(c.passive_perception),
        num_text(c.initiative),
        num_text(c.prof_bonus),
    ]
}

/// The value that `get_value` gives for a key.
pub open spec fn stat_value(c: Character, key: Seq<char>) -> Seq<char> {
    if key == "name"@ {
        c.name@
    } else if key == "race"@ {
        text_or(c.race, "Unknown"@)
    } else if key == "class"@ {
        text_or(c.class, "Unknown"@)
    } else if key == "level"@ {
        num_text(c.level)
    } else if key == "desc"@ {
        text_or(c.desc, Seq::empty())
    } else if key == "ac"@ {
        num_text(c.ac)
    } else if key == "hp"@ {
        num_text(c.hp)
    } else if key == "max_hp"@ {
        num_text(c.max_hp)
    } else if key == "temp_hp"@ {
        num_text(c.temp_hp)
    } else if key == "speed"@ {
        num_text(c.speed)
    } else if key == "intl"@ {
        num_text(c.intl)
    } else if key == "wisd"@ {
        num_text(c.wisd)
    } else if key == "chas"@ {
        num_text(c.chas)
    } else if key == "stre"@ {
        num_text(c.stre)
    } else if key == "dext"@ {
        num_text(c.dext)
    } else if key == "cons"@ {
        num_text(c.cons)
    } else if key == "passive_perception"@ {
        num_text(c.passive_perception)
    } else if key == "initiative"@ {
        num_text(c.initiative)
    } else if key == "prof_bonus"@ {
        num_text(c.prof_bonus)
    } else {
        Seq::empty()
    }
}

/// The line for one ability on a sheet: `Name: score (modifier)`, a missing
/// score shown as 10.
pub open spec fn ability_line(c: Character, a: AbilityScore) -> Seq<char> {
    let score: nat = match c.score_of(a) {
        Some(v) => v as nat,
        None => 10,
    };
    ability_name(a) + ": "@ + decimal(score) + " ("@ + modifier_text(modifier_of(score as int))
        + ")"@
}

/// The passive perception shown on a sheet: the stored one, else computed.
pub open spec fn shown_passive_perception(c: Character) -> nat {
    match c.passive_perception {
        Some(v) => v as nat,
        None => c.passive_perception_value() as nat,
    }
}

/// The display lines of a sheet, in order.
pub open spec fn ordered_stats(c: Character) -> Seq<Seq<char>> {
    seq![
        "Name: "@ + c.name@,
        "Race: "@ + text_or(c.race, "Unknown"@),
        "Class: "@ + text_or(c.class, "Unknown"@),
        "Level: "@ + num_text(c.level),
        "Description: "@ + text_or(c.desc, Seq::empty()),
        "AC: "@ + num_text(c.ac),
        "HP: "@ + num_text(c.hp),
        "Max HP: "@ + num_text(c.max_hp),
        "Temp HP: "@ + num_text(c.temp_hp),
        "Speed: "@ + num_text(c.speed),
        ability_line(c, AbilityScore::Strength),
        ability_line(c, AbilityScore::Dexterity),
        ability_line(c, AbilityScore::Constitution),
        ability_line(c, AbilityScore::Wisdom),
        ability_line(c, AbilityScore::Intelligence),
        ability_line(c, AbilityScore::Charisma),
        "Passive Perception: "@ + decimal(shown_passive_perception(c)),
        "Initiative: "@ + num_text(c.initiative),
        "Proficiency Bonus: "@ + num_text(c.prof_bonus),
    ]
}

/// The views of a list of strings.
pub open spec fn string_views(v: Seq<String>) -> Seq<Seq<char>> {
    v.map_values(|s: String| s@)
}

/// The default proficiency bonus for a level: 2 up to level 4, then one
/// more every four levels, 6 from level 17 (and for level 0).
pub open spec fn default_proficiency(level: u8) -> u8 {
    if 1 <= level <= 4 {
        2
    } else if 5 <= level <= 8 {
        3
    } else if 9 <= level <= 12 {
        4
    } else if 13 <= level <= 16 {
        5
    } else {
        6
    }
}

/// `s` holds exactly the text `t`.
pub open spec fn holds_text(s: Option<String>, t: Seq<char>) -> bool {
    s matches Some(v) && v@ == t
}

fn num_string(o: Option<u8>) -> (res: String)
    ensures
        res@ == num_text(o),
{
    match o {
        Some(v) => decimal_string(v as u64),
        None => decimal_string(0),
    }
}

fn text_or_string(o: &Option<String>, d: &str) -> (res: String)
    ensures
        res@ == text_or(*o, d@),
{
    match o {
        Some(s) => s.clone(),
        None => String::from_str(d),
    }
}

fn text_or_empty_string(o: &Option<String>) -> (res: String)
    ensures
        res@ == text_or(*o, Seq::empty()),
{
    match o {
        Some(s) => s.clone(),
        None => String::new(),
    }
}

fn or_u8(o: Option<u8>, d: u8) -> (res: u8)
    ensures
        res == (match o { Some(v) => v, None => d }),
{
    match o {
        Some(v) => v,
        None => d,
    }
}

fn or_text(o: Option<String>, d: &str) -> (res: Option<String>)
    ensures
        match o { Some(r) => res == Some(r), None => holds_text(res, d@) },
{
    match o {
        Some(v) => Some(v),
        None => Some(String::from_str(d)),
    }
}

fn labeled_num(label: &str, o: Option<u8>) -> (res: String)
    ensures
        res@ == label@ + num_text(o),
{
    let mut s = String::from_str(label);
    match o {
        Some(v) => push_decimal(&mut s, v as u64),
        None => push_decimal(&mut s, 0),
    }
    s
}

fn labeled_text_or(label: &str, o: &Option<String>, d: &str) -> (res: String)
    ensures
        res@ == label@ + text_or(*o, d@),
{
    let mut s = String::from_str(label);
    match o {
        Some(v) => s.append(v.as_str()),
        None => s.append(d),
    }
    s
}

/// The default proficiency bonus for a character level.
pub fn default_proficiency_bonus(level: u8) -> (res: u8)
    ensures
        res == default_proficiency(level),
{
    if 1 <= level && level <= 4 {
        2
    } else if 5 <= level && level <= 8 {
        3
    } else if 9 <= level && level <= 12 {
        4
    } else if 13 <= level && level <= 16 {
        5
    } else {
        6
    }
}

impl Character {
    /// Fills every missing statistic with its default: Human Fighter of level
    /// 1, proficiency 2, STR 13, DEX 12, CON 14, WIS 12, INT 10, CHA 11, AC 16,
    /// max HP 12, HP equal to max HP, speed 30; then stores passive perception.
    pub fn autofill_missing_stats(&mut self)
        requires
            (Character {
                wisd: Some(match old(self).wisd { Some(w) => w, None => 12u8 }),
                prof_bonus: Some(match old(self).prof_bonus { Some(p) => p, None => 2u8 }),
                ..*old(self)
            }).passive_perception_computable(),
        ensures
            match old(self).race { Some(r) => final(self).race == Some(r), None => holds_text(final(self).race, "Human"@) },
            match old(self).class { Some(r) => final(self).class == Some(r), None => holds_text(final(self).class, "Fighter"@) },
            final(self).level == Some(match old(self).level { Some(v) => v, None => 1u8 }),
            final(self).prof_bonus == Some(match old(self).prof_bonus { Some(v) => v, None => 2u8 }),
            final(self).stre == Some(match old(self).stre { Some(v) => v, None => 13u8 }),
            final(self).dext == Some(match old(self).dext { Some(v) => v, None => 12u8 }),
            final(self).cons == Some(match old(self).cons { Some(v) => v, None => 14u8 }),
            final(self).wisd == Some(match old(self).wisd { Some(v) => v, None => 12u8 }),
            final(self).intl == Some(match old(self).intl { Some(v) => v, None => 10u8 }),
            final(self).chas == Some(match old(self).chas { Some(v) => v, None => 11u8 }),
            final(self).ac == Some(match old(self).ac { Some(v) => v, None => 16u8 }),
            final(self).max_hp == Some(match old(self).max_hp { Some(v) => v, None => 12u8 }),
            final(self).hp == (match old(self).hp { Some(v) => Some(v), None => final(self).max_hp }),
            final(self).speed == Some(match old(self).speed { Some(v) => v, None => 30u8 }),
            final(self).passive_perception == Some(final(self).passive_perception_value() as u8),
            final(self).name == old(self).name && final(self).desc == old(self).desc,
            final(self).temp_hp == old(self).temp_hp && final(self).initiative == old(self).initiative,
            final(self).inventory == old(self).inventory && final(self).cards == old(self).cards,
            final(self).spells == old(self).spells,
    {
        let race = self.race.take();
        self.race = or_text(race, "Human");
        let class = self.class.take();
        self.class = or_text(class, "Fighter");
        self.level = Some(or_u8(self.level, 1));
        self.prof_bonus = Some(or_u8(self.prof_bonus, 2));
        self.stre = Some(or_u8(self.stre, 13));
        self.dext = Some(or_u8(self.dext, 12));
        self.cons = Some(or_u8(self.cons, 14));
        self.wisd = Some(or_u8(self.wisd, 12));
        self.intl = Some(or_u8(self.intl, 10));
        self.chas = Some(or_u8(self.chas, 11));
        self.ac = Some(or_u8(self.ac, 16));
        self.max_hp = Some(or_u8(self.max_hp, 12));
        if self.hp.is_none() {
            self.hp = self.max_hp;
        }
        self.speed = Some(or_u8(self.speed, 30));
        self.update_passive_perception();
    }

    /// The text of one statistic by key (`"name"`, `"race"`, `"class"`,
    /// `"level"`, `"desc"`, ...); unknown keys give the empty text.
    pub fn get_value(&self, key: String) -> (res: String)
        ensures
            res@ == stat_value(*self, key@),
    {
        let k = key.as_str();
        if str_eq(k, "name") {
            self.name.clone()
        } else if str_eq(k, "race") {
            text_or_string(&self.race, "Unknown")
        } else if str_eq(k, "class") {
            text_or_string(&self.class, "Unknown")
        } else if str_eq(k, "level") {
            num_string(self.level)
        } else if str_eq(k, "desc") {
            text_or_empty_string(&self.desc)
        } else if str_eq(k, "ac") {
            num_string(self.ac)
        } else if str_eq(k, "hp") {
            num_string(self.hp)
        } else if str_eq(k, "max_hp") {
            num_string(self.max_hp)
        } else if str_eq(k, "temp_hp") {
            num_string(self.temp_hp)
        } else if str_eq(k, "speed") {
            num_string(self.speed)
        } else if str_eq(k, "intl") {
            num_string(self.intl)
        } else if str_eq(k, "wisd") {
            num_string(self.wisd)
        } else if str_eq(k, "chas") {
            num_string(self.chas)
        } else if str_eq(k, "stre") {
            num_string(self.stre)
        } else if str_eq(k, "dext") {
            num_string(self.dext)
        } else if str_eq(k, "cons") {
            num_string(self.cons)
        } else if str_eq(k, "passive_perception") {
            num_string(self.passive_perception)
        } else if str_eq(k, "initiative") {
            num_string(self.initiative)
        } else if str_eq(k, "prof_bonus") {
            num_string(self.prof_bonus)
        } else {
            String::new()
        }
    }

    fn ability_line_string(&self, ability: AbilityScore) -> (res: String)
        ensures
            res@ == ability_line(*self, ability),
    {
        let score: u8 = match self.get_ability_score(ability) {
            Some(v) => v,
            None => 10,
        };
        let modifier = Self::calculate_modifier(score);
        let mut s = String::from_str(ability.name());
        s.append(": ");
        push_decimal(&mut s, score as u64);
        s.append(" (");
        if modifier >= 0 {
            push_char(&mut s, '+');
            push_decimal(&mut s, modifier as u64);
        } else {
            push_char(&mut s, '-');
            push_decimal(&mut s, (0 - modifier) as u64);
        }
        s.append(")");
        assert(s@ =~= ability_line(*self, ability));
        s
    }

    /// The display lines of the sheet (see `ordered_stats`).
    pub fn get_ordered_stats(&self) -> (res: Vec<String>)
        requires
            self.passive_perception is None ==> self.passive_perception_computable(),
        ensures
            string_views(res@) == ordered_stats(*self),
    {
        let mut stats: Vec<String> = Vec::new();
        stats.push(labeled("Name: ", self.name.as_str()));
        stats.push(labeled_text_or("Race: ", &self.race, "Unknown"));
        stats.push(labeled_text_or("Class: ", &self.class, "Unknown"));
        stats.push(labeled_num("Level: ", self.level));
        let mut desc_line = String::from_str("Description: ");
        desc_line.append(text_or_empty_string(&self.desc).as_str());
        stats.push(desc_line);
        stats.push(labeled_num("AC: ", self.ac));
        stats.push(labeled_num("HP: ", self.hp));
        stats.push(labeled_num("Max HP: ", self.max_hp));
        stats.push(labeled_num("Temp HP: ", self.temp_hp));
        stats.push(labeled_num("Speed: ", self.speed));
        let abilities = AbilityScore::all();
        let mut i: usize = 0;
        while i < 6
            invariant
                abilities@ == ability_order(),
                i <= 6,
                stats@.len() == 10 + i,
                forall|k: int| 0 <= k < 10 + i ==> #[trigger] stats@[k]@ == ordered_stats(*self)[k],
            decreases 6 - i,
        {
            let line = self.ability_line_string(abilities[i]);
            stats.push(line);
            i = i + 1;
        }
        let pp: u8 = match self.passive_perception {
            Some(v) => v,
            None => self.calculate_passive_perception(),
        };
        stats.push(labeled_num("Passive Perception: ", Some(pp)));
        stats.push(labeled_num("Initiative: ", self.initiative));
        stats.push(labeled_num("Proficiency Bonus: ", self.prof_bonus));
        assert(string_views(stats@) =~= ordered_stats(*self));
        stats
    }

    /// The flat list form of the sheet (see `sheet_values`).
    pub fn as_vec(&self) -> (res: Vec<String>)
        ensures
            string_views(res@) == sheet_values(*self),
    {
        let mut vec: Vec<String> = Vec::new();
        vec.push(self.name.clone());
        vec.push(num_string(self.level));
        vec.push(text_or_empty_string(&self.desc));
        vec.push(num_string(self.ac));
        vec.push(num_string(self.hp));
        vec.push(num_string(self.max_hp));
        vec.push(num_string(self.temp_hp));
        vec.push(num_string(self.speed));
        vec.push(num_string(self.intl));
        vec.push(num_string(self.wisd));
        vec.push(num_string(self.chas));
        vec.push(num_string(self.stre));
        vec.push(num_string(self.dext));
        vec.push(num_string(self.cons));
        vec.push(num_string(self.passive_perception));
        vec.push(num_string(self.initiative));
        vec.push(num_string(self.prof_bonus));
        assert(string_views(vec@) =~= sheet_values(*self));
        vec
    }
}


/// The keyed form of a sheet: each key of `stat_keys` bound to the matching
/// entry of `sheet_values`.
pub open spec fn sheet_map(c: Character) -> Map<Seq<char>, Seq<char>> {
    let v = sheet_values(c);
    Map::empty().insert("name"@, v[0]).insert("level"@, v[1]).insert("desc"@, v[2]).insert(
        "ac"@,
        v[3],
    ).insert("hp"@, v[4]).insert("max_hp"@, v[5]).insert("temp_hp"@, v[6]).insert(
        "speed"@,
        v[7],
    ).insert("intl"@, v[8]).insert("wisd"@, v[9]).insert("chas"@, v[10]).insert(
        "stre"@,
        v[11],
    ).insert("dext"@, v[12]).insert("cons"@, v[13]).insert("passive_perception"@, v[14]).insert(
        "initiative"@,
        v[15],
    ).insert("prof_bonus"@, v[16])
}

/// A numeric statistic after applying keyed changes: the parsed new value
/// when the key is present, else the old one.
pub open spec fn changed_num(m: Map<Seq<char>, Seq<char>>, k: Seq<char>, cur: Option<u8>) -> Option<u8> {
    if m.contains_key(k) {
        parse_u8_spec(m[k])
    } else {
        cur
    }
}

/// A present key's value reads as a `u8`.
pub open spec fn parses_if_present(m: Map<Seq<char>, Seq<char>>, k: Seq<char>) -> bool {
    m.contains_key(k) ==> parse_u8_spec(m[k]) is Some
}

/// Every numeric statistic that the changes name has a `u8` value.
pub open spec fn numeric_changes_parse(m: Map<Seq<char>, Seq<char>>) -> bool {
    &&& parses_if_present(m, "level"@)
    &&& parses_if_present(m, "ac"@)
    &&& parses_if_present(m, "hp"@)
    &&& parses_if_present(m, "max_hp"@)
    &&& parses_if_present(m, "temp_hp"@)
    &&& parses_if_present(m, "speed"@)
    &&& parses_if_present(m, "intl"@)
    &&& parses_if_present(m, "wisd"@)
    &&& parses_if_present(m, "chas"@)
    &&& parses_if_present(m, "stre"@)
    &&& parses_if_present(m, "dext"@)
    &&& parses_if_present(m, "cons"@)
    &&& parses_if_present(m, "passive_perception"@)
    &&& parses_if_present(m, "initiative"@)
    &&& parses_if_present(m, "prof_bonus"@)
}

fn key_parses(m: &StatMap, k: &str) -> (r: bool)
    ensures
        r == parses_if_present(m@, k@),
{
    match m.get(k) {
        Some(v) => parse_u8(v.as_str()).is_some(),
        None => true,
    }
}

/// Whether every numeric statistic that the changes name reads as a `u8`
/// (see `numeric_changes_parse`).
pub fn changes_parse(m: &StatMap) -> (r: bool)
    ensures
        r == numeric_changes_parse(m@),
{
    key_parses(m, "level") && key_parses(m, "ac") && key_parses(m, "hp") && key_parses(m, "max_hp")
        && key_parses(m, "temp_hp") && key_parses(m, "speed") && key_parses(m, "intl") && key_parses(m, "wisd")
        && key_parses(m, "chas") && key_parses(m, "stre") && key_parses(m, "dext") && key_parses(m, "cons")
        && key_parses(m, "passive_perception") && key_parses(m, "initiative") && key_parses(m, "prof_bonus")
}

/// Every numeric position of a flat list reads as a `u8`.
pub open spec fn numeric_values_parse(v: Seq<Seq<char>>) -> bool {
    v.len() >= 17 && forall|i: int| is_numeric_position(i) ==> (#[trigger] parse_u8_spec(v[i])) is Some
}

fn changed_num_value(changes: &StatMap, key: &str, cur: Option<u8>) -> (res: Option<u8>)
    requires
        parses_if_present(changes@, key@),
    ensures
        res == changed_num(changes@, key@, cur),
{
    match changes.get(key) {
        Some(v) => parse_u8(v.as_str()),
        None => cur,
    }
}

fn parsed_at(changes: &Vec<String>, i: usize) -> (res: u8)
    requires
        i < changes@.len(),
        parse_u8_spec(changes@[i as int]@) is Some,
    ensures
        Some(res) == parse_u8_spec(changes@[i as int]@),
{
    match parse_u8(changes[i].as_str()) {
        Some(v) => v,
        None => 0,
    }
}

impl Character {
    /// The keyed form of the sheet (see `sheet_map`).
    pub fn as_hashmap(&self) -> (res: StatMap)
        ensures
            res@ == sheet_map(*self),
    {
        let mut map = StatMap::new();
        map.insert(String::from_str("name"), self.name.clone());
        map.insert(String::from_str("level"), num_string(self.level));
        map.insert(String::from_str("desc"), text_or_empty_string(&self.desc));
        map.insert(String::from_str("ac"), num_string(self.ac));
        map.insert(String::from_str("hp"), num_string(self.hp));
        map.insert(String::from_str("max_hp"), num_string(self.max_hp));
        map.insert(String::from_str("temp_hp"), num_string(self.temp_hp));
        map.insert(String::from_str("speed"), num_string(self.speed));
        map.insert(String::from_str("intl"), num_string(self.intl));
        map.insert(String::from_str("wisd"), num_string(self.wisd));
        map.insert(String::from_str("chas"), num_string(self.chas));
        map.insert(String::from_str("stre"), num_string(self.stre));
        map.insert(String::from_str("dext"), num_string(self.dext));
        map.insert(String::from_str("cons"), num_string(self.cons));
        map.insert(String::from_str("passive_perception"), num_string(self.passive_perception));
        map.insert(String::from_str("initiative"), num_string(self.initiative));
        map.insert(String::from_str("prof_bonus"), num_string(self.prof_bonus));
        map
    }

    /// A copy of the sheet with the keyed changes applied: `name`, `desc` and
    /// the numeric statistics named by `stat_keys` take the new values; other
    /// keys are ignored. The sheet itself is left as it is.
    pub fn apply_hash_changes(&mut self, changes: StatMap) -> (res: Character)
        requires
            numeric_changes_parse(changes@),
        ensures
            *final(self) == *old(self),
            res.name@ == (if changes@.contains_key("name"@) { changes@["name"@] } else { old(self).name@ }),
            if changes@.contains_key("desc"@) { holds_text(res.desc, changes@["desc"@]) } else { res.desc == old(self).desc },
            res.level == changed_num(changes@, "level"@, old(self).level),
            res.ac == changed_num(changes@, "ac"@, old(self).ac),
            res.hp == changed_num(changes@, "hp"@, old(self).hp),
            res.max_hp == changed_num(changes@, "max_hp"@, old(self).max_hp),
            res.temp_hp == changed_num(changes@, "temp_hp"@, old(self).temp_hp),
            res.speed == changed_num(changes@, "speed"@, old(self).speed),
            res.intl == changed_num(changes@, "intl"@, old(self).intl),
            res.wisd == changed_num(changes@, "wisd"@, old(self).wisd),
            res.chas == changed_num(changes@, "chas"@, old(self).chas),
            res.stre == changed_num(changes@, "stre"@, old(self).stre),
            res.dext == changed_num(changes@, "dext"@, old(self).dext),
            res.cons == changed_num(changes@, "cons"@, old(self).cons),
            res.passive_perception == changed_num(changes@, "passive_perception"@, old(self).passive_perception),
            res.initiative == changed_num(changes@, "initiative"@, old(self).initiative),
            res.prof_bonus == changed_num(changes@, "prof_bonus"@, old(self).prof_bonus),
            res.race == old(self).race && res.class == old(self).class,
            res.inventory@ == old(self).inventory@ && res.cards@ == old(self).cards@,
            res.spells@ == old(self).spells@,
    {
        let mut c = self.clone();
        match changes.get("name") {
            Some(v) => { c.name = v.clone(); },
            None => {},
        }
        match changes.get("desc") {
            Some(v) => { c.desc = Some(v.clone()); },
            None => {},
        }
        c.level = changed_num_value(&changes, "level", c.level);
        c.ac = changed_num_value(&changes, "ac", c.ac);
        c.hp = changed_num_value(&changes, "hp", c.hp);
        c.max_hp = changed_num_value(&changes, "max_hp", c.max_hp);
        c.temp_hp = changed_num_value(&changes, "temp_hp", c.temp_hp);
        c.speed = changed_num_value(&changes, "speed", c.speed);
        c.intl = changed_num_value(&changes, "intl", c.intl);
        c.wisd = changed_num_value(&changes, "wisd", c.wisd);
        c.chas = changed_num_value(&changes, "chas", c.chas);
        c.stre = changed_num_value(&changes, "stre", c.stre);
        c.dext = changed_num_value(&changes, "dext", c.dext);
        c.cons = changed_num_value(&changes, "cons", c.cons);
        c.passive_perception = changed_num_value(&changes, "passive_perception", c.passive_perception);
        c.initiative = changed_num_value(&changes, "initiative", c.initiative);
        c.prof_bonus = changed_num_value(&changes, "prof_bonus", c.prof_bonus);
        c
    }

    /// The sheet with the flat list form `changes` applied (see
    /// `sheet_values` for the positions): every listed statistic is replaced,
    /// the rest is kept.
    pub fn apply_vec_changes(self, changes: Vec<String>) -> (res: Character)
        requires
            numeric_values_parse(string_views(changes@)),
        ensures
            res.name@ == changes@[0]@,
            holds_text(res.desc, changes@[2]@),
            forall|i: int| #![trigger numeric_stats(res)[i]]
                0 <= i < 15 ==> Some(numeric_stats(res)[i]->0) == parse_u8_spec(changes@[if i == 0 { 1 } else { i + 2 }]@)
                    && numeric_stats(res)[i] is Some,
            res.race == self.race && res.class == self.class,
            res.inventory == self.inventory && res.cards == self.cards,
            res.spells == self.spells,
    {
        let ghost v = string_views(changes@);
        assert(forall|i: int| 0 <= i < changes@.len() ==> #[trigger] v[i] == changes@[i]@);
        assert(parse_u8_spec(v[1]) is Some);
        assert(parse_u8_spec(v[3]) is Some);
        assert(parse_u8_spec(v[4]) is Some);
        assert(parse_u8_spec(v[5]) is Some);
        assert(parse_u8_spec(v[6]) is Some);
        assert(parse_u8_spec(v[7]) is Some);
        assert(parse_u8_spec(v[8]) is Some);
        assert(parse_u8_spec(v[9]) is Some);
        assert(parse_u8_spec(v[10]) is Some);
        assert(parse_u8_spec(v[11]) is Some);
        assert(parse_u8_spec(v[12]) is Some);
        assert(parse_u8_spec(v[13]) is Some);
        assert(parse_u8_spec(v[14]) is Some);
        assert(parse_u8_spec(v[15]) is Some);
        assert(parse_u8_spec(v[16]) is Some);
        let mut c = self;
        c.name = changes[0].clone();
        c.level = Some(parsed_at(&changes, 1));
        c.desc = Some(changes[2].clone());
        c.ac = Some(parsed_at(&changes, 3));
        c.hp = Some(parsed_at(&changes, 4));
        c.max_hp = Some(parsed_at(&changes, 5));
        c.temp_hp = Some(parsed_at(&changes, 6));
        c.speed = Some(parsed_at(&changes, 7));
        c.intl = Some(parsed_at(&changes, 8));
        c.wisd = Some(parsed_at(&changes, 9));
        c.chas = Some(parsed_at(&changes, 10));
        c.stre = Some(parsed_at(&changes, 11));
        c.dext = Some(parsed_at(&changes, 12));
        c.cons = Some(parsed_at(&changes, 13));
        c.passive_perception = Some(parsed_at(&changes, 14));
        c.initiative = Some(parsed_at(&changes, 15));
        c.prof_bonus = Some(parsed_at(&changes, 16));
        c
    }
}


/// Every numeric statistic of the sheet is filled in, as is the description.
pub open spec fn fully_filled(c: Character) -> bool {
    c.desc is Some && forall|i: int| 0 <= i < 15 ==> (#[trigger] numeric_stats(c)[i]) is Some
}

/// Law: the flat list form reads back as the sheet. For a sheet whose
/// description and numeric statistics are all filled in, every numeric
/// position of `sheet_values` parses to the stored number, so
/// `apply_vec_changes(as_vec())` restores each field.
pub proof fn law_flat_list_round_trip(c: Character)
    requires
        fully_filled(c),
    ensures
        numeric_values_parse(sheet_values(c)),
        forall|i: int| #![trigger numeric_stats(c)[i]]
            0 <= i < 15 ==> parse_u8_spec(sheet_values(c)[if i == 0 { 1 } else { i + 2 }])
                == numeric_stats(c)[i],
        sheet_values(c)[0] == c.name@,
        sheet_values(c)[2] == c.desc->0@,
{
    let v = sheet_values(c);
    let n = numeric_stats(c);
    assert forall|i: int| 0 <= i < 15 implies parse_u8_spec(v[if i == 0 { 1 } else { i + 2 }]) == #[trigger] n[i] by {
        let x = n[i]->0;
        assert(n[i] is Some);
        lemma_parse_decimal(x as nat, 255);
        assert(v[if i == 0 { 1 } else { i + 2 }] == num_text(n[i]));
    }
    assert forall|i: int| is_numeric_position(i) implies (#[trigger] parse_u8_spec(v[i])) is Some by {
        let j = if i == 1 { 0 } else { i - 2 };
        assert(parse_u8_spec(v[if j == 0 { 1 } else { j + 2 }]) == n[j]);
    }
}

/// The statistic keys (and `race`, `class`) are pairwise different texts.
proof fn lemma_distinct_keys()
    ensures
        "name"@ != "level"@,
        "name"@ != "desc"@,
        "name"@ != "ac"@,
        "name"@ != "hp"@,
        "name"@ != "max_hp"@,
        "name"@ != "temp_hp"@,
        "name"@ != "speed"@,
        "name"@ != "intl"@,
        "name"@ != "wisd"@,
        "name"@ != "chas"@,
        "name"@ != "stre"@,
        "name"@ != "dext"@,
        "name"@ != "cons"@,
        "name"@ != "passive_perception"@,
        "name"@ != "initiative"@,
        "name"@ != "prof_bonus"@,
        "name"@ != "race"@,
        "name"@ != "class"@,
        "level"@ != "desc"@,
        "level"@ != "ac"@,
        "level"@ != "hp"@,
        "level"@ != "max_hp"@,
        "level"@ != "temp_hp"@,
        "level"@ != "speed"@,
        "level"@ != "intl"@,
        "level"@ != "wisd"@,
        "level"@ != "chas"@,
        "level"@ != "stre"@,
        "level"@ != "dext"@,
        "level"@ != "cons"@,
        "level"@ != "passive_perception"@,
        "level"@ != "initiative"@,
        "level"@ != "prof_bonus"@,
        "level"@ != "race"@,
        "level"@ != "class"@,
        "desc"@ != "ac"@,
        "desc"@ != "hp"@,
        "desc"@ != "max_hp"@,
        "desc"@ != "temp_hp"@,
        "desc"@ != "speed"@,
        "desc"@ != "intl"@,
        "desc"@ != "wisd"@,
        "desc"@ != "chas"@,
        "desc"@ != "stre"@,
        "desc"@ != "dext"@,
        "desc"@ != "cons"@,
        "desc"@ != "passive_perception"@,
        "desc"@ != "initiative"@,
        "desc"@ != "prof_bonus"@,
        "desc"@ != "race"@,
        "desc"@ != "class"@,
        "ac"@ != "hp"@,
        "ac"@ != "max_hp"@,
        "ac"@ != "temp_hp"@,
        "ac"@ != "speed"@,
        "ac"@ != "intl"@,
        "ac"@ != "wisd"@,
        "ac"@ != "chas"@,
        "ac"@ != "stre"@,
        "ac"@ != "dext"@,
        "ac"@ != "cons"@,
        "ac"@ != "passive_perception"@,
        "ac"@ != "initiative"@,
        "ac"@ != "prof_bonus"@,
        "ac"@ != "race"@,
        "ac"@ != "class"@,
        "hp"@ != "max_hp"@,
        "hp"@ != "temp_hp"@,
        "hp"@ != "speed"@,
        "hp"@ != "intl"@,
        "hp"@ != "wisd"@,
        "hp"@ != "chas"@,
        "hp"@ != "stre"@,
        "hp"@ != "dext"@,
        "hp"@ != "cons"@,
        "hp"@ != "passive_perception"@,
        "hp"@ != "initiative"@,
        "hp"@ != "prof_bonus"@,
        "hp"@ != "race"@,
        "hp"@ != "class"@,
        "max_hp"@ != "temp_hp"@,
        "max_hp"@ != "speed"@,
        "max_hp"@ != "intl"@,
        "max_hp"@ != "wisd"@,
        "max_hp"@ != "chas"@,
        "max_hp"@ != "stre"@,
        "max_hp"@ != "dext"@,
        "max_hp"@ != "cons"@,
        "max_hp"@ != "passive_perception"@,
        "max_hp"@ != "initiative"@,
        "max_hp"@ != "prof_bonus"@,
        "max_hp"@ != "race"@,
        "max_hp"@ != "class"@,
        "temp_hp"@ != "speed"@,
        "temp_hp"@ != "intl"@,
        "temp_hp"@ != "wisd"@,
        "temp_hp"@ != "chas"@,
        "temp_hp"@ != "stre"@,
        "temp_hp"@ != "dext"@,
        "temp_hp"@ != "cons"@,
        "temp_hp"@ != "passive_perception"@,
        "temp_hp"@ != "initiative"@,
        "temp_hp"@ != "prof_bonus"@,
        "temp_hp"@ != "race"@,
        "temp_hp"@ != "class"@,
        "speed"@ != "intl"@,
        "speed"@ != "wisd"@,
        "speed"@ != "chas"@,
        "speed"@ != "stre"@,
        "speed"@ != "dext"@,
        "speed"@ != "cons"@,
        "speed"@ != "passive_perception"@,
        "speed"@ != "initiative"@,
        "speed"@ != "prof_bonus"@,
        "speed"@ != "race"@,
        "speed"@ != "class"@,
        "intl"@ != "wisd"@,
        "intl"@ != "chas"@,
        "intl"@ != "stre"@,
        "intl"@ != "dext"@,
        "intl"@ != "cons"@,
        "intl"@ != "passive_perception"@,
        "intl"@ != "initiative"@,
        "intl"@ != "prof_bonus"@,
        "intl"@ != "race"@,
        "intl"@ != "class"@,
        "wisd"@ != "chas"@,
        "wisd"@ != "stre"@,
        "wisd"@ != "dext"@,
        "wisd"@ != "cons"@,
        "wisd"@ != "passive_perception"@,
        "wisd"@ != "initiative"@,
        "wisd"@ != "prof_bonus"@,
        "wisd"@ != "race"@,
        "wisd"@ != "class"@,
        "chas"@ != "stre"@,
        "chas"@ != "dext"@,
        "chas"@ != "cons"@,
        "chas"@ != "passive_perception"@,
        "chas"@ != "initiative"@,
        "chas"@ != "prof_bonus"@,
        "chas"@ != "race"@,
        "chas"@ != "class"@,
        "stre"@ != "dext"@,
        "stre"@ != "cons"@,
        "stre"@ != "passive_perception"@,
        "stre"@ != "initiative"@,
        "stre"@ != "prof_bonus"@,
        "stre"@ != "race"@,
        "stre"@ != "class"@,
        "dext"@ != "cons"@,
        "dext"@ != "passive_perception"@,
        "dext"@ != "initiative"@,
        "dext"@ != "prof_bonus"@,
        "dext"@ != "race"@,
        "dext"@ != "class"@,
        "cons"@ != "passive_perception"@,
        "cons"@ != "initiative"@,
        "cons"@ != "prof_bonus"@,
        "cons"@ != "race"@,
        "cons"@ != "class"@,
        "passive_perception"@ != "initiative"@,
        "passive_perception"@ != "prof_bonus"@,
        "passive_perception"@ != "race"@,
        "passive_perception"@ != "class"@,
        "initiative"@ != "prof_bonus"@,
        "initiative"@ != "race"@,
        "initiative"@ != "class"@,
        "prof_bonus"@ != "race"@,
        "prof_bonus"@ != "class"@,
        "race"@ != "class"@,
{
    reveal_strlit("name");
    reveal_strlit("level");
    reveal_strlit("desc");
    reveal_strlit("ac");
    reveal_strlit("hp");
    reveal_strlit("max_hp");
    reveal_strlit("temp_hp");
    reveal_strlit("speed");
    reveal_strlit("intl");
    reveal_strlit("wisd");
    reveal_strlit("chas");
    reveal_strlit("stre");
    reveal_strlit("dext");
    reveal_strlit("cons");
    reveal_strlit("passive_perception");
    reveal_strlit("initiative");
    reveal_strlit("prof_bonus");
    reveal_strlit("race");
    reveal_strlit("class");
    assert("name"@.len() != "level"@.len());
    assert("name"@[0] != "desc"@[0]);
    assert("name"@.len() != "ac"@.len());
    assert("name"@.len() != "hp"@.len());
    assert("name"@.len() != "max_hp"@.len());
    assert("name"@.len() != "temp_hp"@.len());
    assert("name"@.len() != "speed"@.len());
    assert("name"@[0] != "intl"@[0]);
    assert("name"@[0] != "wisd"@[0]);
    assert("name"@[0] != "chas"@[0]);
    assert("name"@[0] != "stre"@[0]);
    assert("name"@[0] != "dext"@[0]);
    assert("name"@[0] != "cons"@[0]);
    assert("name"@.len() != "passive_perception"@.len());
    assert("name"@.len() != "initiative"@.len());
    assert("name"@.len() != "prof_bonus"@.len());
    assert("name"@[0] != "race"@[0]);
    assert("name"@.len() != "class"@.len());
    assert("level"@.len() != "desc"@.len());
    assert("level"@.len() != "ac"@.len());
    assert("level"@.len() != "hp"@.len());
    assert("level"@.len() != "max_hp"@.len());
    assert("level"@.len() != "temp_hp"@.len());
    assert("level"@[0] != "speed"@[0]);
    assert("level"@.len() != "intl"@.len());
    assert("level"@.len() != "wisd"@.len());
    assert("level"@.len() != "chas"@.len());
    assert("level"@.len() != "stre"@.len());
    assert("level"@.len() != "dext"@.len());
    assert("level"@.len() != "cons"@.len());
    assert("level"@.len() != "passive_perception"@.len());
    assert("level"@.len() != "initiative"@.len());
    assert("level"@.len() != "prof_bonus"@.len());
    assert("level"@.len() != "race"@.len());
    assert("level"@[0] != "class"@[0]);
    assert("desc"@.len() != "ac"@.len());
    assert("desc"@.len() != "hp"@.len());
    assert("desc"@.len() != "max_hp"@.len());
    assert("desc"@.len() != "temp_hp"@.len());
    assert("desc"@.len() != "speed"@.len());
    assert("desc"@[0] != "intl"@[0]);
    assert("desc"@[0] != "wisd"@[0]);
    assert("desc"@[0] != "chas"@[0]);
    assert("desc"@[0] != "stre"@[0]);
    assert("desc"@[2] != "dext"@[2]);
    assert("desc"@[0] != "cons"@[0]);
    assert("desc"@.len() != "passive_perception"@.len());
    assert("desc"@.len() != "initiative"@.len());
    assert("desc"@.len() != "prof_bonus"@.len());
    assert("desc"@[0] != "race"@[0]);
    assert("desc"@.len() != "class"@.len());
    assert("ac"@[0] != "hp"@[0]);
    assert("ac"@.len() != "max_hp"@.len());
    assert("ac"@.len() != "temp_hp"@.len());
    assert("ac"@.len() != "speed"@.len());
    assert("ac"@.len() != "intl"@.len());
    assert("ac"@.len() != "wisd"@.len());
    assert("ac"@.len() != "chas"@.len());
    assert("ac"@.len() != "stre"@.len());
    assert("ac"@.len() != "dext"@.len());
    assert("ac"@.len() != "cons"@.len());
    assert("ac"@.len() != "passive_perception"@.len());
    assert("ac"@.len() != "initiative"@.len());
    assert("ac"@.len() != "prof_bonus"@.len());
    assert("ac"@.len() != "race"@.len());
    assert("ac"@.len() != "class"@.len());
    assert("hp"@.len() != "max_hp"@.len());
    assert("hp"@.len() != "temp_hp"@.len());
    assert("hp"@.len() != "speed"@.len());
    assert("hp"@.len() != "intl"@.len());
    assert("hp"@.len() != "wisd"@.len());
    assert("hp"@.len() != "chas"@.len());
    assert("hp"@.len() != "stre"@.len());
    assert("hp"@.len() != "dext"@.len());
    assert("hp"@.len() != "cons"@.len());
    assert("hp"@.len() != "passive_perception"@.len());
    assert("hp"@.len() != "initiative"@.len());
    assert("hp"@.len() != "prof_bonus"@.len());
    assert("hp"@.len() != "race"@.len());
    assert("hp"@.len() != "class"@.len());
    assert("max_hp"@.len() != "temp_hp"@.len());
    assert("max_hp"@.len() != "speed"@.len());
    assert("max_hp"@.len() != "intl"@.len());
    assert("max_hp"@.len() != "wisd"@.len());
    assert("max_hp"@.len() != "chas"@.len());
    assert("max_hp"@.len() != "stre"@.len());
    assert("max_hp"@.len() != "dext"@.len());
    assert("max_hp"@.len() != "cons"@.len());
    assert("max_hp"@.len() != "passive_perception"@.len());
    assert("max_hp"@.len() != "initiative"@.len());
    assert("max_hp"@.len() != "prof_bonus"@.len());
    assert("max_hp"@.len() != "race"@.len());
    assert("max_hp"@.len() != "class"@.len());
    assert("temp_hp"@.len() != "speed"@.len());
    assert("temp_hp"@.len() != "intl"@.len());
    assert("temp_hp"@.len() != "wisd"@.len());
    assert("temp_hp"@.len() != "chas"@.len());
    assert("temp_hp"@.len() != "stre"@.len());
    assert("temp_hp"@.len() != "dext"@.len());
    assert("temp_hp"@.len() != "cons"@.len());
    assert("temp_hp"@.len() != "passive_perception"@.len());
    assert("temp_hp"@.len() != "initiative"@.len());
    assert("temp_hp"@.len() != "prof_bonus"@.len());
    assert("temp_hp"@.len() != "race"@.len());
    assert("temp_hp"@.len() != "class"@.len());
    assert("speed"@.len() != "intl"@.len());
    assert("speed"@.len() != "wisd"@.len());
    assert("speed"@.len() != "chas"@.len());
    assert("speed"@.len() != "stre"@.len());
    assert("speed"@.len() != "dext"@.len());
    assert("speed"@.len() != "cons"@.len());
    assert("speed"@.len() != "passive_perception"@.len());
    assert("speed"@.len() != "initiative"@.len());
    assert("speed"@.len() != "prof_bonus"@.len());
    assert("speed"@.len() != "race"@.len());
    assert("speed"@[0] != "class"@[0]);
    assert("intl"@[0] != "wisd"@[0]);
    assert("intl"@[0] != "chas"@[0]);
    assert("intl"@[0] != "stre"@[0]);
    assert("intl"@[0] != "dext"@[0]);
    assert("intl"@[0] != "cons"@[0]);
    assert("intl"@.len() != "passive_perception"@.len());
    assert("intl"@.len() != "initiative"@.len());
    assert("intl"@.len() != "prof_bonus"@.len());
    assert("intl"@[0] != "race"@[0]);
    assert("intl"@.len() != "class"@.len());
    assert("wisd"@[0] != "chas"@[0]);
    assert("wisd"@[0] != "stre"@[0]);
    assert("wisd"@[0] != "dext"@[0]);
    assert("wisd"@[0] != "cons"@[0]);
    assert("wisd"@.len() != "passive_perception"@.len());
    assert("wisd"@.len() != "initiative"@.len());
    assert("wisd"@.len() != "prof_bonus"@.len());
    assert("wisd"@[0] != "race"@[0]);
    assert("wisd"@.len() != "class"@.len());
    assert("chas"@[0] != "stre"@[0]);
    assert("chas"@[0] != "dext"@[0]);
    assert("chas"@[1] != "cons"@[1]);
    assert("chas"@.len() != "passive_perception"@.len());
    assert("chas"@.len() != "initiative"@.len());
    assert("chas"@.len() != "prof_bonus"@.len());
    assert("chas"@[0] != "race"@[0]);
    assert("chas"@.len() != "class"@.len());
    assert("stre"@[0] != "dext"@[0]);
    assert("stre"@[0] != "cons"@[0]);
    assert("stre"@.len() != "passive_perception"@.len());
    assert("stre"@.len() != "initiative"@.len());
    assert("stre"@.len() != "prof_bonus"@.len());
    assert("stre"@[0] != "race"@[0]);
    assert("stre"@.len() != "class"@.len());
    assert("dext"@[0] != "cons"@[0]);
    assert("dext"@.len() != "passive_perception"@.len());
    assert("dext"@.len() != "initiative"@.len());
    assert("dext"@.len() != "prof_bonus"@.len());
    assert("dext"@[0] != "race"@[0]);
    assert("dext"@.len() != "class"@.len());
    assert("cons"@.len() != "passive_perception"@.len());
    assert("cons"@.len() != "initiative"@.len());
    assert("cons"@.len() != "prof_bonus"@.len());
    assert("cons"@[0] != "race"@[0]);
    assert("cons"@.len() != "class"@.len());
    assert("passive_perception"@.len() != "initiative"@.len());
    assert("passive_perception"@.len() != "prof_bonus"@.len());
    assert("passive_perception"@.len() != "race"@.len());
    assert("passive_perception"@.len() != "class"@.len());
    assert("initiative"@[0] != "prof_bonus"@[0]);
    assert("initiative"@.len() != "race"@.len());
    assert("initiative"@.len() != "class"@.len());
    assert("prof_bonus"@.len() != "race"@.len());
    assert("prof_bonus"@.len() != "class"@.len());
    assert("race"@.len() != "class"@.len());
}

/// Law: `get_value` and the flat list agree: looking up the `i`-th key of
/// `stat_keys` gives the `i`-th entry of `sheet_values`, and the keyed form
/// binds the same keys to the same entries.
pub proof fn law_get_value_matches_flat_list(c: Character, i: int)
    requires
        0 <= i < 17,
    ensures
        stat_value(c, stat_keys()[i]) == sheet_values(c)[i],
        sheet_map(c).contains_key(stat_keys()[i]),
        sheet_map(c)[stat_keys()[i]] == sheet_values(c)[i],
{
    if i == 0 {
        assert(stat_keys()[0] == "name"@);
        lemma_distinct_keys();
    } else if i == 1 {
        assert(stat_keys()[1] == "level"@);
        lemma_distinct_keys();
    } else if i == 2 {
        assert(stat_keys()[2] == "desc"@);
        lemma_distinct_keys();
    } else if i == 3 {
        assert(stat_keys()[3] == "ac"@);
        lemma_distinct_keys();
    } else if i == 4 {
        assert(stat_keys()[4] == "hp"@);
        lemma_distinct_keys();
    } else if i == 5 {
        assert(stat_keys()[5] == "max_hp"@);
        lemma_distinct_keys();
    } else if i == 6 {
        assert(stat_keys()[6] == "temp_hp"@);
        lemma_distinct_keys();
    } else if i == 7 {
        assert(stat_keys()[7] == "speed"@);
        lemma_distinct_keys();
    } else if i == 8 {
        assert(stat_keys()[8] == "intl"@);
        lemma_distinct_keys();
    } else if i == 9 {
        assert(stat_keys()[9] == "wisd"@);
        lemma_distinct_keys();
    } else if i == 10 {
        assert(stat_keys()[10] == "chas"@);
        lemma_distinct_keys();
    } else if i == 11 {
        assert(stat_keys()[11] == "stre"@);
        lemma_distinct_keys();
    } else if i == 12 {
        assert(stat_keys()[12] == "dext"@);
        lemma_distinct_keys();
    } else if i == 13 {
        assert(stat_keys()[13] == "cons"@);
        lemma_distinct_keys();
    } else if i == 14 {
        assert(stat_keys()[14] == "passive_perception"@);
        lemma_distinct_keys();
    } else if i == 15 {
        assert(stat_keys()[15] == "initiative"@);
        lemma_distinct_keys();
    } else if i == 16 {
        assert(stat_keys()[16] == "prof_bonus"@);
        lemma_distinct_keys();
    }
}

/// Law: the keyed form reads back as the sheet. For a filled-in sheet,
/// `apply_hash_changes(as_hashmap())` meets its precondition and restores
/// every numeric statistic, the name and the description.
#[verifier::rlimit(40)]
pub proof fn law_keyed_round_trip(c: Character)
    requires
        fully_filled(c),
    ensures
        numeric_changes_parse(sheet_map(c)),
        sheet_map(c).contains_key("name"@) && sheet_map(c)["name"@] == c.name@,
        sheet_map(c).contains_key("desc"@) && sheet_map(c)["desc"@] == c.desc->0@,
        changed_num(sheet_map(c), "level"@, c.level) == c.level,
        changed_num(sheet_map(c), "ac"@, c.ac) == c.ac,
        changed_num(sheet_map(c), "hp"@, c.hp) == c.hp,
        changed_num(sheet_map(c), "max_hp"@, c.max_hp) == c.max_hp,
        changed_num(sheet_map(c), "temp_hp"@, c.temp_hp) == c.temp_hp,
        changed_num(sheet_map(c), "speed"@, c.speed) == c.speed,
        changed_num(sheet_map(c), "intl"@, c.intl) == c.intl,
        changed_num(sheet_map(c), "wisd"@, c.wisd) == c.wisd,
        changed_num(sheet_map(c), "chas"@, c.chas) == c.chas,
        changed_num(sheet_map(c), "stre"@, c.stre) == c.stre,
        changed_num(sheet_map(c), "dext"@, c.dext) == c.dext,
        changed_num(sheet_map(c), "cons"@, c.cons) == c.cons,
        changed_num(sheet_map(c), "passive_perception"@, c.passive_perception) == c.passive_perception,
        changed_num(sheet_map(c), "initiative"@, c.initiative) == c.initiative,
        changed_num(sheet_map(c), "prof_bonus"@, c.prof_bonus) == c.prof_bonus,
{
    law_flat_list_round_trip(c);
    law_get_value_matches_flat_list(c, 0);
    assert(stat_keys()[0] == "name"@);
    law_get_value_matches_flat_list(c, 1);
    assert(stat_keys()[1] == "level"@);
    law_get_value_matches_flat_list(c, 2);
    assert(stat_keys()[2] == "desc"@);
    law_get_value_matches_flat_list(c, 3);
    assert(stat_keys()[3] == "ac"@);
    law_get_value_matches_flat_list(c, 4);
    assert(stat_keys()[4] == "hp"@);
    law_get_value_matches_flat_list(c, 5);
    assert(stat_keys()[5] == "max_hp"@);
    law_get_value_matches_flat_list(c, 6);
    assert(stat_keys()[6] == "temp_hp"@);
    law_get_value_matches_flat_list(c, 7);
    assert(stat_keys()[7] == "speed"@);
    law_get_value_matches_flat_list(c, 8);
    assert(stat_keys()[8] == "intl"@);
    law_get_value_matches_flat_list(c, 9);
    assert(stat_keys()[9] == "wisd"@);
    law_get_value_matches_flat_list(c, 10);
    assert(stat_keys()[10] == "chas"@);
    law_get_value_matches_flat_list(c, 11);
    assert(stat_keys()[11] == "stre"@);
    law_get_value_matches_flat_list(c, 12);
    assert(stat_keys()[12] == "dext"@);
    law_get_value_matches_flat_list(c, 13);
    assert(stat_keys()[13] == "cons"@);
    law_get_value_matches_flat_list(c, 14);
    assert(stat_keys()[14] == "passive_perception"@);
    law_get_value_matches_flat_list(c, 15);
    assert(stat_keys()[15] == "initiative"@);
    law_get_value_matches_flat_list(c, 16);
    assert(stat_keys()[16] == "prof_bonus"@);
}

} // verus!
