use dnd_tools::character::{AbilityScore, Character};
use dnd_tools::cli::is_universal_exit;
use dnd_tools::combat::{CombatTracker, Combatant, StatusEffect};
use dnd_tools::dice::{roll_dice, roll_dice_with_crits};
use dnd_tools::events::Data;
use dnd_tools::initiative::InitiativeTracker;
use dnd_tools::races_classes::{get_random_class, get_random_race, list_classes, list_races};

#[test]
fn test_character_creation() {
    let character = Character::new("Test Character");
    assert_eq!(character.name, "Test Character");
    assert_eq!(character.level, None);
    assert_eq!(character.hp, None);
}

#[test]
fn test_character_as_vec() {
    let character = Character::new("Test");
    let vec = character.as_vec();
    assert_eq!(vec[0], "Test");
    assert_eq!(vec[1], "0");
}

#[test]
fn test_roll_dice_valid() {
    let result = roll_dice("r2d6");
    assert!(result.is_ok());
    let (rolls, total) = result.unwrap();
    assert_eq!(rolls.len(), 2);
    assert!(total >= 2 && total <= 12);
    for roll in rolls {
        assert!(roll >= 1 && roll <= 6);
    }
}

#[test]
fn test_roll_dice_invalid() {
    assert!(roll_dice("invalid").is_err());
    assert!(roll_dice("r0d6").is_err());
    assert!(roll_dice("r2d0").is_err());
    assert!(roll_dice("r101d6").is_err());
}

#[test]
fn test_initiative_tracker() {
    let mut tracker = InitiativeTracker::new();
    tracker.add_entry("Player1".to_string(), 15, true);
    tracker.add_entry("NPC1".to_string(), 10, false);

    let entries = tracker.get_entries();
    assert_eq!(entries[0].name, "Player1");
    assert_eq!(entries[1].name, "NPC1");

    let current = tracker.next_turn().unwrap();
    assert_eq!(current.name, "Player1");

    assert!(tracker.remove_entry("Player1"));
    assert!(!tracker.remove_entry("NonExistent"));
}

#[test]
fn test_data_creation() {
    let data = Data::new();
    assert!(data.data.is_empty());
}

#[test]
fn test_combatant_from_character() {
    let mut character = Character::new("TestFighter");
    character.hp = Some(25);
    character.max_hp = Some(25);
    character.ac = Some(16);

    let combatant = Combatant::from_character(character, 15);

    assert_eq!(combatant.name, "TestFighter");
    assert_eq!(combatant.current_hp, 25);
    assert_eq!(combatant.max_hp, 25);
    assert_eq!(combatant.ac, 16);
    assert_eq!(combatant.initiative, 15);
    assert_eq!(combatant.is_player, true);
    assert!(combatant.status_effects.is_empty());
}

#[test]
fn test_combatant_new_npc() {
    let combatant = Combatant::new_npc("Orc".to_string(), 15, 13, 10);

    assert_eq!(combatant.name, "Orc");
    assert_eq!(combatant.current_hp, 15);
    assert_eq!(combatant.max_hp, 15);
    assert_eq!(combatant.ac, 13);
    assert_eq!(combatant.initiative, 10);
    assert_eq!(combatant.is_player, false);
    assert!(combatant.status_effects.is_empty());
}

#[test]
fn test_status_effects() {
    let mut combatant = Combatant::new_npc("TestNPC".to_string(), 20, 14, 12);

    let poison_status = StatusEffect {
        name: "Poisoned".to_string(),
        description: Some("Taking poison damage".to_string()),
        duration: Some(3),
    };
    combatant.add_status(poison_status);
    assert_eq!(combatant.status_effects.len(), 1);
    assert_eq!(combatant.status_effects[0].name, "Poisoned");

    assert!(combatant.remove_status("Poisoned"));
    assert!(combatant.status_effects.is_empty());

    assert!(!combatant.remove_status("Charmed"));
}

#[test]
fn test_combat_tracker_basic() {
    let mut tracker = CombatTracker::new();

    let combatant1 = Combatant::new_npc("Fighter".to_string(), 30, 18, 20);
    let combatant2 = Combatant::new_npc("Wizard".to_string(), 15, 12, 15);

    tracker.add_combatant(combatant1);
    tracker.add_combatant(combatant2);

    assert_eq!(tracker.combatants[0].name, "Fighter");
    assert_eq!(tracker.combatants[1].name, "Wizard");

    let current = tracker.next_turn();
    assert!(current.is_some());
    assert_eq!(current.unwrap().name, "Fighter");
}

#[test]
fn test_combat_tracker_skip_zero_initiative() {
    let mut tracker = CombatTracker::new();

    let combatant1 = Combatant::new_npc("Active".to_string(), 20, 15, 10);
    let mut combatant2 = Combatant::new_npc("Inactive".to_string(), 20, 15, 0);
    combatant2.initiative = 0;

    tracker.add_combatant(combatant1);
    tracker.add_combatant(combatant2);

    let current = tracker.next_turn();
    assert!(current.is_some());
    assert_eq!(current.unwrap().name, "Active");

    let next = tracker.next_turn();
    assert!(next.is_some());
    assert_eq!(next.unwrap().name, "Active");

    assert_eq!(tracker.round_number, 2);
}

#[test]
fn test_combat_tracker_remove_combatant() {
    let mut tracker = CombatTracker::new();

    let combatant1 = Combatant::new_npc("Fighter".to_string(), 30, 18, 20);
    let combatant2 = Combatant::new_npc("Wizard".to_string(), 15, 12, 15);

    tracker.add_combatant(combatant1);
    tracker.add_combatant(combatant2);

    assert!(tracker.remove_combatant("Fighter"));
    assert_eq!(tracker.combatants.len(), 1);
    assert_eq!(tracker.combatants[0].name, "Wizard");

    assert!(!tracker.remove_combatant("NonExistent"));
}

#[test]
fn test_combatant_get_methods() {
    let mut tracker = CombatTracker::new();
    let combatant = Combatant::new_npc("TestNPC".to_string(), 20, 14, 12);
    tracker.add_combatant(combatant);

    let found = tracker.get_combatant("TestNPC");
    assert!(found.is_some());
    assert_eq!(found.unwrap().name, "TestNPC");

    let found_case = tracker.get_combatant("testnpc");
    assert!(found_case.is_some());

    let found_mut = tracker.get_combatant_mut("TestNPC");
    assert!(found_mut.is_some());

    let not_found = tracker.get_combatant("NotExist");
    assert!(not_found.is_none());
}

#[test]
fn test_roll_dice_with_crits_d20_critical_failure() {
    let result = roll_dice_with_crits("1d20");
    assert!(result.is_ok());
    let (rolls, total, crit_message) = result.unwrap();
    assert_eq!(rolls.len(), 1);
    assert!(total >= 1 && total <= 20);

    if rolls[0] == 1 {
        assert!(crit_message.is_some());
        assert!(crit_message.unwrap().contains("CRITICAL FAILURE"));
    } else if rolls[0] == 20 {
        assert!(crit_message.is_some());
        assert!(crit_message.unwrap().contains("CRITICAL SUCCESS"));
    } else {
        assert!(crit_message.is_none());
    }
}

#[test]
fn test_roll_dice_with_crits_non_d20() {
    let result = roll_dice_with_crits("2d6");
    assert!(result.is_ok());
    let (_rolls, _total, crit_message) = result.unwrap();
    assert!(crit_message.is_none());
}

#[test]
fn test_races_classes_lists() {
    let races = list_races();
    assert!(!races.is_empty());
    assert!(races.contains(&"Human".to_string()));
    assert!(races.contains(&"Elf".to_string()));
    assert!(races.contains(&"Dwarf".to_string()));

    let classes = list_classes();
    assert!(!classes.is_empty());
    assert!(classes.contains(&"Fighter".to_string()));
    assert!(classes.contains(&"Wizard".to_string()));
    assert!(classes.contains(&"Cleric".to_string()));
}

#[test]
fn test_random_race_and_class() {
    let race1 = get_random_race();
    let race2 = get_random_race();
    let class1 = get_random_class();
    let class2 = get_random_class();

    let races = list_races();
    let classes = list_classes();
    assert!(races.contains(&race1));
    assert!(races.contains(&race2));
    assert!(classes.contains(&class1));
    assert!(classes.contains(&class2));

    assert!(!race1.is_empty());
    assert!(!class1.is_empty());
}

#[test]
fn test_character_race_and_class_fields() {
    let mut character = Character::new("TestChar");

    character.race = Some("Elf".to_string());
    character.class = Some("Wizard".to_string());

    assert_eq!(character.race, Some("Elf".to_string()));
    assert_eq!(character.class, Some("Wizard".to_string()));
}

#[test]
fn test_ability_score_short_names() {
    assert_eq!(AbilityScore::Strength.short_name(), "STR");
    assert_eq!(AbilityScore::Dexterity.short_name(), "DEX");
    assert_eq!(AbilityScore::Constitution.short_name(), "CON");
    assert_eq!(AbilityScore::Intelligence.short_name(), "INT");
    assert_eq!(AbilityScore::Wisdom.short_name(), "WIS");
    assert_eq!(AbilityScore::Charisma.short_name(), "CHA");
}

#[test]
fn test_combat_tracker_back_functionality() {
    let mut tracker = CombatTracker::new();

    let combatant1 = Combatant::new_npc("Fighter".to_string(), 30, 18, 20);
    let combatant2 = Combatant::new_npc("Wizard".to_string(), 15, 12, 15);

    tracker.add_combatant(combatant1);
    tracker.add_combatant(combatant2);

    assert_eq!(tracker.current_turn, 0);
    assert_eq!(tracker.round_number, 1);

    let first = tracker.next_turn();
    assert!(first.is_some());
    assert_eq!(first.unwrap().name, "Fighter");
    assert_eq!(tracker.current_turn, 1);

    let second = tracker.next_turn();
    assert!(second.is_some());
    assert_eq!(second.unwrap().name, "Wizard");
    assert_eq!(tracker.current_turn, 0);
    assert_eq!(tracker.round_number, 2);

    let went_back = tracker.previous_turn();
    assert!(went_back);

    assert_eq!(tracker.current_turn, 1);
    assert_eq!(tracker.round_number, 1);
}

#[test]
fn test_status_effect_duration_tracking() {
    let mut combatant = Combatant::new_npc("TestNPC".to_string(), 20, 14, 12);

    let poison_status = StatusEffect {
        name: "Poisoned".to_string(),
        description: Some("Taking poison damage".to_string()),
        duration: Some(3),
    };
    combatant.add_status(poison_status);

    let charmed_status = StatusEffect {
        name: "Charmed".to_string(),
        description: Some("Charmed until dispelled".to_string()),
        duration: None,
    };
    combatant.add_status(charmed_status);

    assert_eq!(combatant.status_effects.len(), 2);

    let poison = combatant.status_effects.iter().find(|s| s.name == "Poisoned");
    assert!(poison.is_some());
    assert_eq!(poison.unwrap().duration, Some(3));

    let charmed = combatant.status_effects.iter().find(|s| s.name == "Charmed");
    assert!(charmed.is_some());
    assert_eq!(charmed.unwrap().duration, None);
}

#[test]
fn test_combatant_temp_hp() {
    let combatant = Combatant::new_npc("TestNPC".to_string(), 20, 14, 12);
    assert_eq!(combatant.temp_hp, 0);

    let mut character = Character::new("TestChar");
    character.hp = Some(25);
    character.max_hp = Some(25);
    character.temp_hp = Some(5);

    let combatant_from_char = Combatant::from_character(character, 15);
    assert_eq!(combatant_from_char.temp_hp, 5);
}

#[test]
fn test_combat_tracker_insert_combatant() {
    let mut tracker = CombatTracker::new();

    let combatant1 = Combatant::new_npc("Fighter".to_string(), 30, 18, 20);
    let combatant2 = Combatant::new_npc("Wizard".to_string(), 15, 12, 10);

    tracker.add_combatant(combatant1);
    tracker.add_combatant(combatant2);

    let new_combatant = Combatant::new_npc("Rogue".to_string(), 20, 15, 15);
    tracker.add_combatant(new_combatant);

    assert_eq!(tracker.combatants[0].name, "Fighter");
    assert_eq!(tracker.combatants[1].name, "Rogue");
    assert_eq!(tracker.combatants[2].name, "Wizard");
}

#[test]
fn test_character_missing_data_detection() {
    let mut character = Character::new("TestChar");

    assert!(character.hp.is_none());
    assert!(character.ac.is_none());
    assert!(character.level.is_none());

    character.hp = Some(20);
    assert!(character.hp.is_some());
    assert!(character.ac.is_none());
}

#[test]
fn test_character_as_vec_completeness() {
    let mut character = Character::new("TestChar");
    character.level = Some(5);
    character.hp = Some(45);
    character.max_hp = Some(45);
    character.ac = Some(16);
    character.race = Some("Elf".to_string());
    character.class = Some("Wizard".to_string());

    let vec = character.as_vec();

    assert_eq!(vec[0], "TestChar");
    assert_eq!(vec[1], "5");
    assert!(vec.len() > 2);
}

#[test]
fn test_combat_apply_damage() {
    let mut tracker = CombatTracker::new();
    let combatant = Combatant::new_npc("TestTarget".to_string(), 20, 14, 15);
    tracker.add_combatant(combatant);

    let result = tracker.apply_damage("TestTarget", 5);
    assert!(result.is_ok());
    let message = result.unwrap();
    assert!(message.contains("TestTarget takes 5 damage"));

    let target = tracker.get_combatant("TestTarget");
    assert!(target.is_some());
    assert_eq!(target.unwrap().current_hp, 15);

    let result = tracker.apply_damage("NonExistent", 10);
    assert!(result.is_err());
    assert!(result.unwrap_err().contains("not found"));
}

#[test]
fn test_combat_temp_hp_damage() {
    let mut tracker = CombatTracker::new();
    let mut combatant = Combatant::new_npc("TestTarget".to_string(), 20, 14, 15);
    combatant.temp_hp = 5;
    tracker.add_combatant(combatant);

    let result = tracker.apply_damage("TestTarget", 3);
    assert!(result.is_ok());
    let message = result.unwrap();
    assert!(message.contains("temporary HP"));

    let target = tracker.get_combatant("TestTarget");
    assert!(target.is_some());
    assert_eq!(target.unwrap().temp_hp, 2);
    assert_eq!(target.unwrap().current_hp, 20);
}

#[test]
fn test_saving_throw_functionality() {
    let mut tracker = CombatTracker::new();
    let combatant = Combatant::new_npc("TestSaver".to_string(), 20, 14, 15);
    tracker.add_combatant(combatant);

    let result = tracker.make_saving_throw("TestSaver", "dex");
    assert!(result.is_ok());
    let message = result.unwrap();
    assert!(message.contains("TestSaver makes a"));
    assert!(message.contains("saving throw"));

    let result = tracker.make_saving_throw("TestSaver", "invalid");
    assert!(result.is_err());
    assert!(result.unwrap_err().contains("Invalid ability score"));

    let result = tracker.make_saving_throw("NonExistent", "str");
    assert!(result.is_err());
    assert!(result.unwrap_err().contains("not found"));
}

#[test]
fn test_npc_save_functionality() {
    let mut tracker = CombatTracker::new();
    let combatant = Combatant::new_npc("TestNPC".to_string(), 20, 14, 15);
    tracker.add_combatant(combatant);

    let record = tracker.npc_record_lines("TestNPC");
    assert!(record.is_some());
    assert_eq!(record.unwrap()[0], "Name: TestNPC");

    let record = tracker.npc_record_lines("NonExistent");
    assert!(record.is_none());
}

#[test]
fn test_display_methods_no_panic() {
    let mut tracker = CombatTracker::new();
    let combatant = Combatant::new_npc("TestNPC".to_string(), 20, 14, 15);
    tracker.add_combatant(combatant);

    let order = tracker.initiative_order_lines();
    assert!(!order.is_empty());

    if let Some(combatant) = tracker.combatants.first() {
        let card = combatant.stats_card_lines();
        assert!(!card.is_empty());
    }

    assert!(true);
}

#[test]
fn test_exit_command_detection() {
    let exit_commands = vec!["EXIT", "exit", "Exit", "QUIT", "quit", "Quit"];
    for cmd in exit_commands {
        assert!(is_universal_exit(cmd));
    }

    let non_exit_commands = vec!["back", "help", "search", "quit game", "exit strategy", "", "q"];
    for cmd in non_exit_commands {
        assert_ne!(cmd.trim().to_uppercase(), "EXIT");
        assert_ne!(cmd.trim().to_uppercase(), "QUIT");
        assert!(!is_universal_exit(cmd));
    }
}

#[test]
fn test_exit_command_case_insensitive() {
    let exit_variations = vec![
        ("EXIT", true),
        ("exit", true),
        ("Exit", true),
        ("eXiT", true),
        ("QUIT", true),
        ("quit", true),
        ("Quit", true),
        ("qUiT", true),
        ("back", false),
        ("q", false),
        ("", false),
        ("EXIT NOW", false),
        ("QUIT GAME", false),
    ];

    for (cmd, should_exit) in exit_variations {
        let is_exit = is_universal_exit(cmd);
        assert_eq!(is_exit, should_exit, "Failed for command: '{}'", cmd);
    }
}

#[test]
fn test_universal_exit_help_text_integration() {
    let exit_mentioned_in_help = true;
    assert!(exit_mentioned_in_help);

    let supported_commands = vec!["EXIT", "QUIT"];
    for cmd in supported_commands {
        let is_supported = is_universal_exit(cmd);
        assert!(is_supported, "Command '{}' should be supported", cmd);
    }
}

#[test]
fn test_search_mode_exit_integration() {
    let search_inputs = vec!["search fireball", "categories", "help", "back", "EXIT", "QUIT"];

    for input in search_inputs {
        let would_exit = is_universal_exit(input);
        if input == "EXIT" || input == "QUIT" {
            assert!(would_exit);
        } else {
            assert!(!would_exit);
        }
    }
}

#[test]
fn test_field_mode_exit_integration() {
    let field_inputs = vec!["name", "description", "level", "q", "", "EXIT", "QUIT"];

    for input in field_inputs {
        let trimmed = input.trim();
        let would_exit = is_universal_exit(input);
        let would_continue_field_mode = !trimmed.is_empty()
            && trimmed.to_lowercase() != "q"
            && trimmed.to_lowercase() != "quit"
            && !would_exit;

        if would_exit {
            assert!(would_exit);
        } else if trimmed.is_empty() || trimmed.to_lowercase() == "q" {
            assert!(!would_continue_field_mode);
        } else {
            assert!(would_continue_field_mode);
        }
    }
}

#[test]
fn test_suggestion_selection_exit_integration() {
    let suggestion_inputs = vec!["1", "2", "3", "", "EXIT", "QUIT", "invalid"];

    for input in suggestion_inputs {
        let would_exit = is_universal_exit(input);
        if input == "EXIT" || input == "QUIT" {
            assert!(would_exit);
        } else {
            assert!(!would_exit);
        }
    }
}
