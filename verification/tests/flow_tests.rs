use dnd_tools::character::Character;
use dnd_tools::combat::{CombatTracker, Combatant};
use dnd_tools::encounter::{creature_count_answer, encounter_file, EncounterCreature};
use dnd_tools::search::{DndSearchClient, SearchCategory};
use dnd_tools::search_flow::{cache_key, kind_not_found, no_matches, search_categories};
use dnd_tools::tui::{App, AppMode, Key};
use dnd_tools::tui_view::{mode_help, mode_title};

fn fixed_creature() -> EncounterCreature {
    EncounterCreature {
        name: "Elf Wizard #1".to_string(),
        race: "Elf".to_string(),
        class: "Wizard".to_string(),
        hp: 30,
        ac: 13,
        speed: 40,
        strength: 9,
        dexterity: 14,
        constitution: 12,
        intelligence: 17,
        wisdom: 11,
        charisma: 10,
        proficiency_bonus: 2,
    }
}

#[test]
fn creatures_roll_within_their_tier() {
    for _ in 0..50 {
        let c = EncounterCreature::roll("Orc".to_string(), "Fighter".to_string(), 3, 3, 1);
        assert_eq!(c.name, "Orc Fighter #3");
        // tier 3: 58 hit points spread by 11, AC 13 spread by 1, proficiency +2
        assert!(c.hp >= 58 - 33 && c.hp <= 58 + 11);
        assert!(c.ac >= 13 - 3 && c.ac <= 13 + 1);
        assert_eq!(c.proficiency_bonus, 2);
        assert!(c.speed >= 30 && c.speed <= 60 && c.speed % 10 == 0);
        assert!(c.strength >= 4 && c.strength <= 19);
    }
    let strongest = EncounterCreature::roll("Dragonborn".to_string(), "Paladin".to_string(), 1, 17, 5);
    assert!(strongest.hp >= 400 - 240 && strongest.hp <= 480);
    assert_eq!(strongest.proficiency_bonus, 7);
    assert!(strongest.charisma >= 8 && strongest.charisma <= 20);
    let weakest = EncounterCreature::roll("Halfling".to_string(), "Rogue".to_string(), 2, 0, 0);
    assert!(weakest.hp >= 1 && weakest.hp <= 8);
}

#[test]
fn creature_lines_and_file() {
    let c = fixed_creature();
    let lines = c.summary_lines("1/2");
    assert_eq!(
        lines,
        vec![
            "═══ Elf Wizard #1 ═══".to_string(),
            "CR: 1/2 | Race: Elf | Class: Wizard".to_string(),
            "HP: 30 | AC: 13 | Speed: 40 ft | Prof: +2".to_string(),
            "STR: 9 | DEX: 14 | CON: 12 | INT: 17 | WIS: 11 | CHA: 10".to_string(),
            "".to_string(),
        ]
    );
    let card = c.card_lines("1/2");
    assert_eq!(card.len(), 19);
    assert_eq!(card[1], format!("║ {:<37} ║", "Elf Wizard #1"));
    assert_eq!(card[9], format!("║ Proficiency: +{:<26} ║", 2));
    assert_eq!(card[8], format!("║ Speed: {} feet{:<21} ║", 40, ""));

    let (path, text) = encounter_file("Ambush", "1", &vec![fixed_creature()], "1/2");
    assert_eq!(path, "encounters/Ambush_CR1.txt");
    assert!(text.starts_with("Encounter: Ambush\nTotal CR: 1\nCreatures: 1\n\n=== Creature 1 ===\nName: Elf Wizard #1\nCR: 1/2\n"));
    assert!(text.ends_with("CHA: 10\n\n"));

    assert_eq!(creature_count_answer(" 3 "), 3);
    assert_eq!(creature_count_answer("9"), 1);
    assert_eq!(creature_count_answer("x"), 1);
}

#[test]
fn search_flow_pieces() {
    assert_eq!(search_categories(Some(SearchCategory::Races)), vec![SearchCategory::Races]);
    assert_eq!(search_categories(None).len(), 5);
    assert_eq!(cache_key("spell", "fireball"), "spell:fireball");
    assert_eq!(kind_not_found("spell", "zap"), "spell 'zap' not found");
    assert_eq!(no_matches("zap"), "No matches found for 'zap'");

    let client = DndSearchClient::with_cache_dir("/tmp/none".to_string());
    let record = "TITLE:Fireball\nURL:http://dnd5e.wikidot.com/spell:fireball\nCONTENT:\nA bright streak.";
    let page = client.page_from_cache("Fire Ball", "spell", record).unwrap();
    assert_eq!(page.page.index, "fire-ball");
    assert_eq!(page.page.name, "Fireball");
    assert_eq!(page.page.content, "A bright streak.");
    assert_eq!(page.page.content_type, "spell");
    assert!(client.page_from_cache("x", "spell", "garbage").is_none());

    let html = "<html><head><title>Fireball - DND 5th Edition</title></head><body><div id=\"page-content\"><p>A bright streak flashes from your pointing finger.</p></div></body></html>";
    let (r, rec) = client
        .page_from_document("fireball", "spell", "http://dnd5e.wikidot.com/spell:fireball", html)
        .unwrap();
    assert_eq!(r.page.name, "Fireball");
    assert!(r.page.content.contains("bright streak"));
    assert!(rec.starts_with("TITLE:Fireball\nURL:http://dnd5e.wikidot.com/spell:fireball\nCONTENT:\n"));
    let missing = client.page_from_document("fireball", "spell", "u", "<html><body><p>x</p></body></html>");
    assert_eq!(missing.unwrap_err(), "Could not find page content");
}

#[test]
fn screen_titles_help_and_views() {
    assert_eq!(mode_title(AppMode::MainMenu), "🎲 D&D Tools - Main Menu 🎲");
    assert_eq!(mode_title(AppMode::Exit), "👋 Goodbye! 👋");
    assert_eq!(mode_help(AppMode::ToolsMenu), "↑↓ Navigate • Enter Select • Esc Back • Ctrl+Q Quit");
    assert_eq!(
        mode_help(AppMode::DiceTUI),
        "Type commands • Enter Execute • ↑↓ History • PgUp/PgDn Scroll • Esc Back • Ctrl+Q Quit"
    );
    assert_eq!(mode_help(AppMode::Dice), "Press any key to continue...");

    let mut app = App::new(vec![Character::new("Aria")]);
    let menu = app.menu_lines();
    assert_eq!(menu[0], "► Characters");
    assert_eq!(menu[1], "  Tools");

    app.mode = AppMode::DiceTUI;
    let view = app.output_lines(20);
    assert_eq!(view[0], "🎲 Dice Roller - Interactive Mode 🎲");
    assert!(app.after_key());
    assert_eq!(app.output_history.len(), 2);
    assert_eq!(app.current_state, "Dice Roller Ready");
    let view = app.output_lines(20);
    assert_eq!(view[0], "State: Dice Roller Ready ");
    assert_eq!(view[1], "");
    assert_eq!(view[2], "🎲 Dice Roller - Interactive Mode 🎲");
    assert!(app.after_key());
    assert_eq!(app.output_history.len(), 2);

    app.mode = AppMode::Exit;
    assert!(!app.after_key());
}

#[test]
fn completion_checks() {
    let mut c = Character::new("Aria");
    assert!(c.autofill_fits());
    c.autofill_missing_stats();
    assert_eq!(c.passive_perception, Some(13));
    assert!(c.passive_perception_fits());
    c.wisd = Some(255);
    assert!(!c.passive_perception_fits());
}

#[test]
fn fight_readiness() {
    let mut t = CombatTracker::new();
    t.add_combatant(Combatant::new_npc("A".to_string(), 5, 5, 5));
    assert!(dnd_tools::cli_combat::fight_is_ready(&t));
    let mut sheet = Character::new("B");
    sheet.wisd = Some(255);
    t.add_combatant(Combatant::from_character(sheet, 3));
    assert!(!dnd_tools::cli_combat::fight_is_ready(&t));
}

fn type_line(app: &mut App, line: &str) {
    for c in line.chars() {
        app.handle_key(Key::Char(c));
    }
    app.handle_key(Key::Enter);
}

#[test]
fn menus_lead_to_the_dice_terminal_and_back() {
    let mut app = App::new(Vec::new());
    app.handle_key(Key::Down);
    assert_eq!(app.selected_index, 1);
    app.handle_key(Key::Enter);
    assert_eq!(app.mode, AppMode::ToolsMenu);
    for _ in 0..2 {
        app.handle_key(Key::Down);
    }
    app.handle_key(Key::Enter);
    assert_eq!(app.mode, AppMode::DiceTUI);
    assert!(app.after_key());

    type_line(&mut app, "roll 1d6");
    assert!(app.output_history.iter().any(|l| l.contains("DICE ROLL!")));
    assert_eq!(app.command_history, vec!["roll 1d6".to_string()]);
    assert!(app.input_buffer.is_empty());

    type_line(&mut app, "roll 0d6");
    assert!(app.output_history.iter().any(|l| l.starts_with("❌ Error rolling dice: ")));

    app.handle_key(Key::Esc);
    assert_eq!(app.mode, AppMode::ToolsMenu);
    assert!(app.output_history.is_empty());
}

#[test]
fn combat_terminal_initialises_and_takes_turns() {
    let mut app = App::new(Vec::new());
    app.mode = AppMode::CombatTrackerTUI;
    assert!(app.after_key());
    type_line(&mut app, "init");
    assert!(app.combat_tracker.is_some());
    let before = app.combat_tracker.as_ref().unwrap().current_turn;
    type_line(&mut app, "next");
    let t = app.combat_tracker.as_ref().unwrap();
    assert_ne!(t.current_turn, before);
    assert!(app.output_history.iter().any(|l| l.starts_with("🎯 It's ")));
}

#[test]
fn tools_menu_lists_the_six_documented_entries() {
    let mut app = App::new(Vec::new());
    app.mode = AppMode::ToolsMenu;
    assert_eq!(
        app.get_menu_items(),
        vec!["Initiative tracker", "NPC randomizer", "Dice", "Combat tracker", "Search D&D 5e API", "Back to main menu"]
    );
    app.selected_index = 5;
    app.handle_key(Key::Down);
    assert_eq!(app.selected_index, 0);
    app.selected_index = 4;
    app.handle_key(Key::Enter);
    assert_eq!(app.mode, AppMode::SearchTUI);
}

#[test]
fn q_on_a_menu_quits_but_types_in_a_terminal() {
    let mut app = App::new(Vec::new());
    app.handle_key(Key::Char('q'));
    assert!(app.should_quit);
    assert!(!app.after_key());

    let mut app = App::new(Vec::new());
    app.mode = AppMode::DiceTUI;
    app.handle_key(Key::Char('q'));
    assert!(!app.should_quit);
    assert_eq!(app.input_buffer, "q");
}

#[test]
fn damage_and_heal_keep_hit_points_within_range() {
    let mut app = App::new(Vec::new());
    app.mode = AppMode::CombatTrackerTUI;
    type_line(&mut app, "init");
    let before: Vec<i32> = app.combat_tracker.as_ref().unwrap().combatants.iter().map(|c| c.current_hp).collect();
    type_line(&mut app, "damage goblin 1000");
    let t = app.combat_tracker.as_ref().unwrap();
    assert_eq!(t.combatants[1].current_hp, 0);
    assert_eq!(t.combatants[0].current_hp, before[0]);
    type_line(&mut app, "heal GOBLIN 1000");
    let t = app.combat_tracker.as_ref().unwrap();
    assert_eq!(t.combatants[1].current_hp, t.combatants[1].max_hp);
    type_line(&mut app, "hit fighter 3");
    let t = app.combat_tracker.as_ref().unwrap();
    assert_eq!(t.combatants[0].current_hp, before[0] - 3);
    assert_eq!(t.combatants.len(), before.len());
}

#[test]
fn down_then_up_returns_to_the_same_entry() {
    for mode in [AppMode::MainMenu, AppMode::CharactersMenu, AppMode::ToolsMenu] {
        let mut app = App::new(Vec::new());
        app.mode = mode;
        let n = app.get_menu_items().len();
        for i in 0..n {
            app.selected_index = i;
            app.handle_key(Key::Down);
            assert!(app.selected_index < n);
            app.handle_key(Key::Up);
            assert_eq!(app.selected_index, i);
        }
    }
}

#[test]
fn ability_names_are_read_whatever_their_case() {
    let mut t = CombatTracker::new();
    t.add_combatant(Combatant::new_npc("Saver".to_string(), 20, 14, 15));
    let upper = t.make_saving_throw("Saver", "STR").unwrap();
    assert!(upper.contains("Strength saving throw"));
    let mixed = t.make_saving_throw("Saver", "Dexterity").unwrap();
    assert!(mixed.contains("Dexterity saving throw"));
}

#[test]
fn next_item_then_previous_item_return_to_the_entry() {
    let mut app = App::new(Vec::new());
    app.mode = AppMode::CharactersMenu;
    let n = app.get_menu_items().len();
    for i in 0..n {
        app.selected_index = i;
        app.next_item();
        assert_eq!(app.selected_index, (i + 1) % n);
        app.previous_item();
        assert_eq!(app.selected_index, i);
    }
    app.mode = AppMode::DiceTUI;
    app.selected_index = 3;
    app.next_item();
    app.previous_item();
    assert_eq!(app.selected_index, 3);
}
