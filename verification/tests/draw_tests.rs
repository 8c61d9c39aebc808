use dnd_tools::cli::{three_d6_from, NpcSheet};
use dnd_tools::encounter::{score_from, spread_of, EncounterCreature};
use dnd_tools::races_classes::{class_at, race_at};
use dnd_tools::tui::npc_stats_from;

#[test]
fn three_dice_read_from_drawn_bytes() {
    assert_eq!(three_d6_from(0, 0, 0), 3);
    assert_eq!(three_d6_from(5, 11, 255), 6 + 6 + 4);
    assert_eq!(three_d6_from(6, 7, 8), 1 + 2 + 3);
}

#[test]
fn npc_statistics_read_from_drawn_bytes() {
    assert_eq!(npc_stats_from(0, 0, 0), (10, 10, 20));
    assert_eq!(npc_stats_from(10, 40, 6), (20, 50, 80));
    assert_eq!(npc_stats_from(255, 255, 255), (255 % 11 + 10, 255 % 41 + 10, (255 % 7 + 2) * 10));
}

#[test]
fn npc_sheet_from_drawn_bytes() {
    let d: Vec<u8> = (0u8..21).collect();
    let n = NpcSheet::from_draws("Elf".to_string(), "Wizard".to_string(), &d);
    assert_eq!(n.race, "Elf");
    assert_eq!(n.class, "Wizard");
    assert_eq!((n.ac, n.hp, n.speed), (10, 11, 40));
    assert_eq!(n.strength, 4 + 5 + 6);
    assert_eq!(n.dexterity, 1 + 2 + 3);
    assert_eq!(n.constitution, 4 + 5 + 6);
    assert_eq!(n.intelligence, 1 + 2 + 3);
    assert_eq!(n.wisdom, 4 + 5 + 6);
    assert_eq!(n.charisma, 1 + 2 + 3);
    let rolled = NpcSheet::roll("Elf".to_string(), "Wizard".to_string());
    assert!((10..=20).contains(&rolled.ac) && (10..=50).contains(&rolled.hp));
}

#[test]
fn creature_from_draws() {
    assert_eq!(spread_of(100, 20, 0), 80);
    assert_eq!(spread_of(100, 20, 40), 120);
    assert_eq!(spread_of(100, 20, -1), 79);
    assert_eq!(spread_of(100, 20, 41), 80);
    assert_eq!(score_from(5, 5, 5, 5), 20);
    assert_eq!(score_from(2, 0, 0, 0), 5);

    let d: Vec<u8> = vec![0; 18];
    let c = EncounterCreature::from_draws("Orc".to_string(), "Fighter".to_string(), 2, 7, 1, 22, -3, 1, &d);
    assert_eq!(c.name, "Orc Fighter #2");
    // Tier 7: 110 hit points (spread 22), armour class 15 (spread 2), proficiency 3.
    assert_eq!(c.hp, 110 + 22 - 22);
    assert_eq!(c.ac, 15 - 3 - 2);
    assert_eq!(c.speed, 40);
    assert_eq!(c.strength, 4);
    assert_eq!(c.charisma, 4);
    assert_eq!(c.proficiency_bonus, 3);
    let low = EncounterCreature::from_draws("Rat".to_string(), "Beast".to_string(), 1, 0, 0, -1, 0, 3, &d);
    assert_eq!(low.hp, 7 - 1 - 1);
    assert_eq!(low.speed, 60);
}

#[test]
fn races_and_classes_by_drawn_index() {
    assert_eq!(race_at(0), "Human");
    assert_eq!(race_at(45), "Drow");
    assert_eq!(class_at(13), "Blood Hunter");
}
