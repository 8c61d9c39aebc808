//! The playable races and classes offered when characters and NPCs are made.
use vstd::prelude::*;
use crate::words::views;
use rand::Rng;

verus! {

/// The races, in the order they are offered.
pub open spec fn race_names() -> Seq<Seq<char>> {
    seq![
        "Human"@, "Elf"@, "Dwarf"@, "Halfling"@, "Dragonborn"@, "Gnome"@,
        "Half-Elf"@, "Half-Orc"@, "Tiefling"@, "Aasimar"@, "Firbolg"@, "Goliath"@,
        "Kenku"@, "Lizardfolk"@, "Tabaxi"@, "Triton"@, "Bugbear"@, "Goblin"@,
        "Hobgoblin"@, "Kobold"@, "Orc"@, "Yuan-Ti"@, "Aarakocra"@, "Genasi"@,
        "Githyanki"@, "Githzerai"@, "Minotaur"@, "Centaur"@, "Loxodon"@, "Simic Hybrid"@,
        "Vedalken"@, "Verdan"@, "Warforged"@, "Changeling"@, "Kalashtar"@, "Shifter"@,
        "Eladrin"@, "Fairy"@, "Harengon"@, "Owlin"@, "Satyr"@, "Sea Elf"@,
        "Shadar-Kai"@, "Duergar"@, "Deep Gnome"@, "Drow"@,
    ]
}

/// The classes, in the order they are offered.
pub open spec fn class_names() -> Seq<Seq<char>> {
    seq![
        "Fighter"@, "Wizard"@, "Cleric"@, "Rogue"@, "Ranger"@, "Paladin"@,
        "Barbarian"@, "Bard"@, "Druid"@, "Monk"@, "Sorcerer"@, "Warlock"@,
        "Artificer"@, "Blood Hunter"@,
    ]
}

/// A uniformly random index below `n` from the thread's generator
/// (`rand::rng().random_range(0..n)`). Only the range of the result is
/// stated: which index comes out is chance.
#[verifier::external_body]
fn random_index(n: usize) -> (r: usize)
    requires
        n > 0,
    ensures
        r < n,
{
    rand::rng().random_range(0..n)
}

/// All races, in order.
pub fn list_races() -> (res: Vec<String>)
    ensures
        views(res@) == race_names(),
{
    let mut v: Vec<String> = Vec::new();
    v.push(String::from_str("Human"));
    v.push(String::from_str("Elf"));
    v.push(String::from_str("Dwarf"));
    v.push(String::from_str("Halfling"));
    v.push(String::from_str("Dragonborn"));
    v.push(String::from_str("Gnome"));
    v.push(String::from_str("Half-Elf"));
    v.push(String::from_str("Half-Orc"));
    v.push(String::from_str("Tiefling"));
    v.push(String::from_str("Aasimar"));
    v.push(String::from_str("Firbolg"));
    v.push(String::from_str("Goliath"));
    v.push(String::from_str("Kenku"));
    v.push(String::from_str("Lizardfolk"));
    v.push(String::from_str("Tabaxi"));
    v.push(String::from_str("Triton"));
    v.push(String::from_str("Bugbear"));
    v.push(String::from_str("Goblin"));
    v.push(String::from_str("Hobgoblin"));
    v.push(String::from_str("Kobold"));
    v.push(String::from_str("Orc"));
    v.push(String::from_str("Yuan-Ti"));
    v.push(String::from_str("Aarakocra"));
    v.push(String::from_str("Genasi"));
    v.push(String::from_str("Githyanki"));
    v.push(String::from_str("Githzerai"));
    v.push(String::from_str("Minotaur"));
    v.push(String::from_str("Centaur"));
    v.push(String::from_str("Loxodon"));
    v.push(String::from_str("Simic Hybrid"));
    v.push(String::from_str("Vedalken"));
    v.push(String::from_str("Verdan"));
    v.push(String::from_str("Warforged"));
    v.push(String::from_str("Changeling"));
    v.push(String::from_str("Kalashtar"));
    v.push(String::from_str("Shifter"));
    v.push(String::from_str("Eladrin"));
    v.push(String::from_str("Fairy"));
    v.push(String::from_str("Harengon"));
    v.push(String::from_str("Owlin"));
    v.push(String::from_str("Satyr"));
    v.push(String::from_str("Sea Elf"));
    v.push(String::from_str("Shadar-Kai"));
    v.push(String::from_str("Duergar"));
    v.push(String::from_str("Deep Gnome"));
    v.push(String::from_str("Drow"));
    assert(views(v@) =~= race_names());
    v
}

/// All classes, in order.
pub fn list_classes() -> (res: Vec<String>)
    ensures
        views(res@) == class_names(),
{
    let mut v: Vec<String> = Vec::new();
    v.push(String::from_str("Fighter"));
    v.push(String::from_str("Wizard"));
    v.push(String::from_str("Cleric"));
    v.push(String::from_str("Rogue"));
    v.push(String::from_str("Ranger"));
    v.push(String::from_str("Paladin"));
    v.push(String::from_str("Barbarian"));
    v.push(String::from_str("Bard"));
    v.push(String::from_str("Druid"));
    v.push(String::from_str("Monk"));
    v.push(String::from_str("Sorcerer"));
    v.push(String::from_str("Warlock"));
    v.push(String::from_str("Artificer"));
    v.push(String::from_str("Blood Hunter"));
    assert(views(v@) =~= class_names());
    v
}

/// The race at position `i` of the list (the one a drawn index `i` picks).
pub fn race_at(i: usize) -> (res: String)
    requires
        i < race_names().len(),
    ensures
        res@ == race_names()[i as int],
{
    let mut all = list_races();
    assert(views(all@).len() == all@.len());
    let r = all.swap_remove(i);
    assert(race_names()[i as int] == r@);
    r
}

/// The class at position `i` of the list (the one a drawn index `i` picks).
pub fn class_at(i: usize) -> (res: String)
    requires
        i < class_names().len(),
    ensures
        res@ == class_names()[i as int],
{
    let mut all = list_classes();
    assert(views(all@).len() == all@.len());
    let r = all.swap_remove(i);
    assert(class_names()[i as int] == r@);
    r
}

/// One of the races, picked at random: an index drawn uniformly below the
/// number of races, taken by `race_at`.
pub fn get_random_race() -> (res: String)
    ensures
        exists|i: int| 0 <= i < race_names().len() && res@ == #[trigger] race_names()[i],
        race_names().contains(res@),
{
    let i = random_index(46);
    race_at(i)
}

/// One of the classes, picked at random: an index drawn uniformly below the
/// number of classes, taken by `class_at`.
pub fn get_random_class() -> (res: String)
    ensures
        exists|i: int| 0 <= i < class_names().len() && res@ == #[trigger] class_names()[i],
        class_names().contains(res@),
{
    let i = random_index(14);
    class_at(i)
}

} // verus!
