//! Completing a character sheet before a fight: the missing statistics are
//! asked for one at a time, each with a default that an empty answer takes.
use vstd::prelude::*;
use crate::character::{Character, AbilityScore, default_proficiency, default_proficiency_bonus, u8_as_i8};
use crate::text::{trim, trimmed, decimal, parse_u8_spec, parse_u8, push_decimal};

verus! {

/// A statistic that completing a sheet asks for, in the order asked.
#[derive(Debug, Clone, Copy, PartialEq, Eq)]
pub enum MissingStat {
    Race,
    Class,
    Level,
    ProficiencyBonus,
    Strength,
    Dexterity,
    Constitution,
    Wisdom,
    Intelligence,
    Charisma,
    ArmorClass,
    MaxHp,
    Speed,
}

/// The place of a statistic in the order they are asked for.
pub open spec fn stat_rank(s: MissingStat) -> int {
    match s {
        MissingStat::Race => 0,
        MissingStat::Class => 1,
        MissingStat::Level => 2,
        MissingStat::ProficiencyBonus => 3,
        MissingStat::Strength => 4,
        MissingStat::Dexterity => 5,
        MissingStat::Constitution => 6,
        MissingStat::Wisdom => 7,
        MissingStat::Intelligence => 8,
        MissingStat::Charisma => 9,
        MissingStat::ArmorClass => 10,
        MissingStat::MaxHp => 11,
        MissingStat::Speed => 12,
    }
}

/// Whether the sheet lacks the statistic.
pub open spec fn lacks(c: Character, s: MissingStat) -> bool {
    match s {
        MissingStat::Race => c.race is None,
        MissingStat::Class => c.class is None,
        MissingStat::Level => c.level is None,
        MissingStat::ProficiencyBonus => c.prof_bonus is None,
        MissingStat::Strength => c.stre is None,
        MissingStat::Dexterity => c.dext is None,
        MissingStat::Constitution => c.cons is None,
        MissingStat::Wisdom => c.wisd is None,
        MissingStat::Intelligence => c.intl is None,
        MissingStat::Charisma => c.chas is None,
        MissingStat::ArmorClass => c.ac is None,
        MissingStat::MaxHp => c.max_hp is None,
        MissingStat::Speed => c.speed is None,
    }
}

/// How the statistic is called in the question.
pub open spec fn stat_label(s: MissingStat) -> Seq<char> {
    match s {
        MissingStat::Race => "Race"@,
        MissingStat::Class => "Class"@,
        MissingStat::Level => "Level"@,
        MissingStat::ProficiencyBonus => "Proficiency Bonus"@,
        MissingStat::Strength => "Strength"@,
        MissingStat::Dexterity => "Dexterity"@,
        MissingStat::Constitution => "Constitution"@,
        MissingStat::Wisdom => "Wisdom"@,
        MissingStat::Intelligence => "Intelligence"@,
        MissingStat::Charisma => "Charisma"@,
        MissingStat::ArmorClass => "Armor Class"@,
        MissingStat::MaxHp => "Max HP"@,
        MissingStat::Speed => "Speed"@,
    }
}

/// The default of a numeric statistic: level 1, proficiency bonus by level
/// (level 1 when unknown), scores, armour class and max HP 10, speed 30.
pub open spec fn numeric_default(c: Character, s: MissingStat) -> u8 {
    match s {
        MissingStat::Level => 1,
        MissingStat::ProficiencyBonus => default_proficiency(match c.level { Some(l) => l, None => 1u8 }),
        MissingStat::Speed => 30,
        _ => 10,
    }
}

/// The default of a statistic as the question shows it.
pub open spec fn stat_default(c: Character, s: MissingStat) -> Seq<char> {
    match s {
        MissingStat::Race => "Human"@,
        MissingStat::Class => "Fighter"@,
        _ => decimal(numeric_default(c, s) as nat),
    }
}

/// The question for a missing statistic.
pub open spec fn stat_question(c: Character, s: MissingStat) -> Seq<char> {
    stat_label(s) + " is missing for "@ + c.name@ + ". Enter "@ + stat_label(s) + " (default: "@ + stat_default(c, s)
        + "): "@
}

/// The text an answer stands for: the trimmed answer, or the default when
/// it is empty.
pub open spec fn answer_text(c: Character, s: MissingStat, input: Seq<char>) -> Seq<char> {
    if trim(input).len() == 0 {
        stat_default(c, s)
    } else {
        trim(input)
    }
}

/// The value a numeric answer gives: the answer read as a byte, else the
/// default.
pub open spec fn answer_value(c: Character, s: MissingStat, input: Seq<char>) -> u8 {
    match parse_u8_spec(answer_text(c, s, input)) {
        Some(v) => v,
        None => numeric_default(c, s),
    }
}

/// The sheet with a numeric statistic set to `v`.
pub open spec fn with_number(c: Character, s: MissingStat, v: u8) -> Character {
    match s {
        MissingStat::Level => Character { level: Some(v), ..c },
        MissingStat::ProficiencyBonus => Character { prof_bonus: Some(v), ..c },
        MissingStat::Strength => Character { stre: Some(v), ..c },
        MissingStat::Dexterity => Character { dext: Some(v), ..c },
        MissingStat::Constitution => Character { cons: Some(v), ..c },
        MissingStat::Wisdom => Character { wisd: Some(v), ..c },
        MissingStat::Intelligence => Character { intl: Some(v), ..c },
        MissingStat::Charisma => Character { chas: Some(v), ..c },
        MissingStat::ArmorClass => Character { ac: Some(v), ..c },
        MissingStat::MaxHp => Character { max_hp: Some(v), ..c },
        _ => Character { speed: Some(v), ..c },
    }
}

/// The sheet after completing: HP as max HP when missing, and the passive
/// perception computed afresh.
pub open spec fn completed(c: Character) -> Character {
    Character {
        hp: if c.hp is None { c.max_hp } else { c.hp },
        passive_perception: Some(c.passive_perception_value() as u8),
        ..c
    }
}

fn label_of(s: MissingStat) -> (res: &'static str)
    ensures
        res@ == stat_label(s),
{
    match s {
        MissingStat::Race => "Race",
        MissingStat::Class => "Class",
        MissingStat::Level => "Level",
        MissingStat::ProficiencyBonus => "Proficiency Bonus",
        MissingStat::Strength => "Strength",
        MissingStat::Dexterity => "Dexterity",
        MissingStat::Constitution => "Constitution",
        MissingStat::Wisdom => "Wisdom",
        MissingStat::Intelligence => "Intelligence",
        MissingStat::Charisma => "Charisma",
        MissingStat::ArmorClass => "Armor Class",
        MissingStat::MaxHp => "Max HP",
        MissingStat::Speed => "Speed",
    }
}

impl Character {
    /// Whether the sheet lacks the statistic (see `lacks`).
    pub fn lacks_stat(&self, s: MissingStat) -> (r: bool)
        ensures
            r == lacks(*self, s),
    {
        match s {
            MissingStat::Race => self.race.is_none(),
            MissingStat::Class => self.class.is_none(),
            MissingStat::Level => self.level.is_none(),
            MissingStat::ProficiencyBonus => self.prof_bonus.is_none(),
            MissingStat::Strength => self.stre.is_none(),
            MissingStat::Dexterity => self.dext.is_none(),
            MissingStat::Constitution => self.cons.is_none(),
            MissingStat::Wisdom => self.wisd.is_none(),
            MissingStat::Intelligence => self.intl.is_none(),
            MissingStat::Charisma => self.chas.is_none(),
            MissingStat::ArmorClass => self.ac.is_none(),
            MissingStat::MaxHp => self.max_hp.is_none(),
            MissingStat::Speed => self.speed.is_none(),
        }
    }

    /// The first statistic the sheet lacks, in the order they are asked for.
    pub fn next_missing_stat(&self) -> (res: Option<MissingStat>)
        ensures
            match res {
                Some(s) => lacks(*self, s) && forall|o: MissingStat| stat_rank(o) < stat_rank(s) ==> !lacks(*self, o),
                None => forall|o: MissingStat| !lacks(*self, o),
            },
    {
        let order = [
            MissingStat::Race,
            MissingStat::Class,
            MissingStat::Level,
            MissingStat::ProficiencyBonus,
            MissingStat::Strength,
            MissingStat::Dexterity,
            MissingStat::Constitution,
            MissingStat::Wisdom,
            MissingStat::Intelligence,
            MissingStat::Charisma,
            MissingStat::ArmorClass,
            MissingStat::MaxHp,
            MissingStat::Speed,
        ];
        let mut i: usize = 0;
        while i < 13
            invariant
                i <= 13,
                order@.len() == 13,
                forall|k: int| 0 <= k < 13 ==> stat_rank(#[trigger] order@[k]) == k,
                forall|o: MissingStat| stat_rank(o) < i ==> !lacks(*self, o),
            decreases 13 - i,
        {
            let s = order[i];
            if self.lacks_stat(s) {
                return Some(s);
            }
            assert forall|o: MissingStat| stat_rank(o) < i + 1 implies !lacks(*self, o) by {
                if stat_rank(o) == i {
                    assert(o == order@[i as int]);
                }
            }
            i = i + 1;
        }
        None
    }

    /// The question asked for a missing statistic (see `stat_question`).
    pub fn missing_stat_question(&self, s: MissingStat) -> (res: String)
        ensures
            res@ == stat_question(*self, s),
    {
        let label = label_of(s);
        let mut q = String::from_str(label);
        q.append(" is missing for ");
        q.append(self.name.as_str());
        q.append(". Enter ");
        q.append(label);
        q.append(" (default: ");
        match s {
            MissingStat::Race => q.append("Human"),
            MissingStat::Class => q.append("Fighter"),
            _ => push_decimal(&mut q, self.default_number(s) as u64),
        }
        q.append("): ");
        q
    }

    fn default_number(&self, s: MissingStat) -> (res: u8)
        ensures
            res == numeric_default(*self, s),
    {
        match s {
            MissingStat::Level => 1,
            MissingStat::ProficiencyBonus => default_proficiency_bonus(match self.level {
                Some(l) => l,
                None => 1,
            }),
            MissingStat::Speed => 30,
            _ => 10,
        }
    }

    /// Fills a statistic from the answer to its question: the trimmed answer
    /// (the default when empty) for race and class, else that text read as a
    /// byte (the default when it does not read).
    pub fn fill_missing_stat(&mut self, s: MissingStat, input: &str)
        ensures
            s == MissingStat::Race ==> (final(self).race matches Some(r) && r@ == answer_text(*old(self), s, input@))
                && *final(self) == (Character { race: final(self).race, ..*old(self) }),
            s == MissingStat::Class ==> (final(self).class matches Some(r) && r@ == answer_text(*old(self), s, input@))
                && *final(self) == (Character { class: final(self).class, ..*old(self) }),
            s != MissingStat::Race && s != MissingStat::Class ==> *final(self) == with_number(
                *old(self),
                s,
                answer_value(*old(self), s, input@),
            ),
    {
        let t = trimmed(input);
        let text: String = if t.unicode_len() == 0 {
            match s {
                MissingStat::Race => String::from_str("Human"),
                MissingStat::Class => String::from_str("Fighter"),
                _ => {
                    let mut d = String::new();
                    push_decimal(&mut d, self.default_number(s) as u64);
                    proof {
                        reveal_strlit("");
                        assert(""@ =~= Seq::<char>::empty());
                    }
                    d
                },
            }
        } else {
            t
        };
        assert(text@ == answer_text(*self, s, input@));
        match s {
            MissingStat::Race => {
                self.race = Some(text);
            },
            MissingStat::Class => {
                self.class = Some(text);
            },
            _ => {
                let v: u8 = match parse_u8(text.as_str()) {
                    Some(v) => v,
                    None => self.default_number(s),
                };
                match s {
                    MissingStat::Level => self.level = Some(v),
                    MissingStat::ProficiencyBonus => self.prof_bonus = Some(v),
                    MissingStat::Strength => self.stre = Some(v),
                    MissingStat::Dexterity => self.dext = Some(v),
                    MissingStat::Constitution => self.cons = Some(v),
                    MissingStat::Wisdom => self.wisd = Some(v),
                    MissingStat::Intelligence => self.intl = Some(v),
                    MissingStat::Charisma => self.chas = Some(v),
                    MissingStat::ArmorClass => self.ac = Some(v),
                    MissingStat::MaxHp => self.max_hp = Some(v),
                    _ => self.speed = Some(v),
                }
            },
        }
    }

    /// Ends completing the sheet: HP as max HP when missing, and the passive
    /// perception computed afresh.
    pub fn finish_completion(&mut self)
        requires
            old(self).passive_perception_computable(),
        ensures
            *final(self) == completed(*old(self)),
    {
        if self.hp.is_none() {
            self.hp = self.max_hp;
        }
        self.update_passive_perception();
    }
}

/// Whether `10 + m + pb`, with `pb` read as a signed byte, stays in the
/// range of signed bytes when added left to right.
fn sum_fits(m: i8, pb: u8) -> (r: bool)
    ensures
        r == (10 + m <= 127 && -128 <= 10 + m + u8_as_i8(pb) <= 127),
{
    let pbi: i32 = if pb < 128 { pb as i32 } else { pb as i32 - 256 };
    let s = 10 + m as i32;
    s <= 127 && -128 <= s + pbi && s + pbi <= 127
}

impl Character {
    /// Whether the passive perception of the sheet can be computed (see
    /// `passive_perception_computable`).
    pub fn passive_perception_fits(&self) -> (r: bool)
        ensures
            r == self.passive_perception_computable(),
    {
        let m = self.get_wisdom_modifier();
        let pb: u8 = match self.prof_bonus {
            Some(p) => p,
            None => 2,
        };
        sum_fits(m, pb)
    }

    /// Whether the passive perception can be computed once the defaults of
    /// `autofill_missing_stats` are in (wisdom 12, proficiency bonus 2).
    pub fn autofill_fits(&self) -> (r: bool)
        ensures
            r == (Character {
                wisd: Some(match self.wisd { Some(w) => w, None => 12u8 }),
                prof_bonus: Some(match self.prof_bonus { Some(p) => p, None => 2u8 }),
                ..*self
            }).passive_perception_computable(),
    {
        let w: u8 = match self.wisd {
            Some(w) => w,
            None => 12,
        };
        let m = Character::calculate_modifier(w);
        let pb: u8 = match self.prof_bonus {
            Some(p) => p,
            None => 2,
        };
        sum_fits(m, pb)
    }
}

} // verus!
