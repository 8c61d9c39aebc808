use dnd_tools::character::Character;
use dnd_tools::cli::{numbered_choice, Choice};
use dnd_tools::cli::{
    ability_score_answer, dice_tool_command, entry_change, npc_file_path, number_answer, race_answer, save_characters,
    search_request, EntryChange, NpcSheet, SearchRequest,
};
use dnd_tools::cli_combat::{
    add_npc, attack_command, combat_command, confirm_hp, damage_prompt, fight_is_ready, find_character,
    initiative_answer, initiative_prompt, start_combat, status_command, yes_no_answer, CombatFollowUp,
};
use dnd_tools::combat::{CombatTracker, Combatant, StatusEffect};
use dnd_tools::completion::MissingStat;
use dnd_tools::initiative::InitiativeTracker;
use dnd_tools::races_classes::{list_classes, list_races};
use dnd_tools::search::{SearchCategory, SearchResult, WikiPageContent};

fn two_fighters() -> CombatTracker {
    let mut t = CombatTracker::new();
    t.add_combatant(Combatant::new_npc("Fighter".to_string(), 30, 18, 20));
    t.add_combatant(Combatant::new_npc("Wizard".to_string(), 15, 12, 15));
    t
}

#[test]
fn initiative_tool_adds_lists_and_removes() {
    let mut t = InitiativeTracker::new();
    let (lines, done) = t.run_command("add Gandalf 18 player");
    assert!(!done);
    assert_eq!(lines[0], "Added to initiative tracker!");
    assert_eq!(lines[1], "Initiative Order:");
    assert_eq!(lines[2], ">>> Initiative 18: gandalf (Player)");

    let (lines, _) = t.run_command("add Orc 12 npc");
    assert_eq!(lines[3], "    Initiative 12: orc (NPC)");

    let (lines, _) = t.run_command("next");
    assert_eq!(lines[0], "Current turn: gandalf (Initiative: 18)");
    assert_eq!(lines[3], ">>> Initiative 12: orc (NPC)");

    let (lines, _) = t.run_command("remove orc");
    assert_eq!(lines[0], "Removed orc from initiative tracker");
    let (lines, _) = t.run_command("remove orc");
    assert_eq!(lines, vec!["Could not find orc in initiative tracker".to_string()]);

    let (lines, _) = t.run_command("add Bob x");
    assert_eq!(lines, vec!["Invalid initiative value. Please enter a number.".to_string()]);
    let (lines, _) = t.run_command("add Bob");
    assert_eq!(lines.len(), 2);
    let (lines, _) = t.run_command("clear");
    assert_eq!(lines, vec!["Initiative tracker cleared!".to_string()]);
    assert!(t.get_entries().is_empty());
    let (lines, _) = t.run_command("next");
    assert_eq!(lines, vec!["No entries in initiative tracker. Use 'add' to add some!".to_string()]);
    let (lines, _) = t.run_command("HELP");
    assert_eq!(lines.len(), 7);
    let (lines, _) = t.run_command("dance");
    assert_eq!(lines, vec!["Unknown command. Type 'help' for available commands.".to_string()]);
    let (lines, done) = t.run_command("q");
    assert!(lines.is_empty());
    assert!(done);
}

#[test]
fn dice_tool_rolls_and_answers() {
    let (lines, done) = dice_tool_command("r1d6");
    assert!(!done);
    assert_eq!(lines[1], "🎲 DICE ROLL RESULTS 🎲");
    assert_eq!(lines[4], "Die #1 (d6):");
    assert!(lines.iter().any(|l| l.starts_with("   TOTAL: ")));
    assert_eq!(lines.last().unwrap(), "════════════════════════════════════════");

    let (lines, _) = dice_tool_command("r0d6");
    assert_eq!(lines.len(), 1);
    assert!(lines[0].starts_with("❌ Error: "));

    let (lines, _) = dice_tool_command("h");
    assert_eq!(lines.len(), 14);
    let (lines, _) = dice_tool_command("?");
    assert_eq!(lines[1], "🎯 DICE ROLLING COMMANDS:");
    let (lines, _) = dice_tool_command("x");
    assert_eq!(lines, vec!["❌ Invalid command. Type 'h' for help.".to_string()]);
    let (lines, done) = dice_tool_command("  q ");
    assert!(lines.is_empty());
    assert!(done);
}

#[test]
fn npc_sheet_card_and_file() {
    let n = NpcSheet {
        race: "Elf".to_string(),
        class: "Wizard".to_string(),
        ac: 12,
        hp: 20,
        speed: 30,
        strength: 8,
        dexterity: 14,
        constitution: 12,
        intelligence: 17,
        wisdom: 13,
        charisma: 10,
    };
    let card = n.card_lines("║            Created NPC                ║", Some("Elrond"));
    assert_eq!(card.len(), 19);
    assert_eq!(card[4], format!("║ Name: {:<31} ║", "Elrond"));
    assert_eq!(card[5], format!("║ Race: {:<31} ║", "Elf"));
    assert_eq!(card[9], format!("║ Speed: {} feet{:<21} ║", 30, ""));
    assert_eq!(card[12], format!("║   STR: {:<29} ║", 8));
    let card = n.card_lines("║            Generated NPC              ║", None);
    assert_eq!(card.len(), 18);
    assert_eq!(
        n.file_text("Elrond"),
        "Name: Elrond\nRace: Elf\nClass: Wizard\nAC: 12\nHP: 20\nSpeed: 30\nSTR: 8\nDEX: 14\nCON: 12\nINT: 17\nWIS: 13\nCHA: 10"
    );
    assert_eq!(npc_file_path("Elrond"), "npcs/Elrond.txt");

    let r = NpcSheet::roll("Dwarf".to_string(), "Cleric".to_string());
    assert!(r.ac >= 10 && r.ac <= 20);
    assert!(r.hp >= 10 && r.hp <= 50);
    assert!(r.speed >= 20 && r.speed <= 80 && r.speed % 10 == 0);
    assert!(r.strength >= 3 && r.strength <= 18);
}

#[test]
fn prompt_answers() {
    assert_eq!(number_answer(" 15 ", 10, 25), Some(15));
    assert_eq!(number_answer("9", 10, 25), None);
    assert_eq!(number_answer("abc", 10, 25), None);
    assert_eq!(ability_score_answer(""), None);
    assert_eq!(ability_score_answer("18"), Some(18));
    assert_eq!(ability_score_answer("19"), None);
    assert_eq!(race_answer(" Elf "), "Elf");
    assert!(list_races().contains(&race_answer("")));
    assert!(list_classes().contains(&dnd_tools::cli::class_answer("  ")));
    assert_eq!(yes_no_answer(" Yes "), Some(true));
    assert_eq!(yes_no_answer("n"), Some(false));
    assert_eq!(yes_no_answer("maybe"), None);
}

#[test]
fn saving_plan_names_each_file() {
    let plan = save_characters(vec![Character::new("Aria"), Character::new("Borin")]);
    assert_eq!(plan.len(), 2);
    assert_eq!(plan[0].0, "characters/Aria.txt");
    assert_eq!(plan[1].0, "characters/Borin.txt");
    assert_eq!(plan[1].1.name, "Borin");
}

#[test]
fn data_entry_changes() {
    assert_eq!(entry_change("Level: 0", "5"), EntryChange::Change("level".to_string(), "5".to_string()));
    assert_eq!(entry_change("Level: 0", "25"), EntryChange::Invalid);
    assert_eq!(entry_change("Level: 0", "  "), EntryChange::Keep);
    assert_eq!(entry_change("Name: X", "Bob"), EntryChange::Change("name".to_string(), "Bob".to_string()));
    assert_eq!(entry_change("Max HP: 10", "300"), EntryChange::Invalid);
    assert_eq!(entry_change("Max HP: 10", "200"), EntryChange::Change("max_hp".to_string(), "200".to_string()));
    assert_eq!(entry_change("No colon here", "x"), EntryChange::Keep);
}

#[test]
fn search_requests() {
    assert_eq!(search_request(""), SearchRequest::Nothing);
    assert_eq!(search_request("search"), SearchRequest::Usage);
    assert_eq!(
        search_request("search fireball"),
        SearchRequest::Find { category: None, query: "fireball".to_string() }
    );
    assert_eq!(
        search_request("search spell magic missile"),
        SearchRequest::Find { category: Some(SearchCategory::Spells), query: "magic missile".to_string() }
    );
    assert_eq!(
        search_request("SEARCH magic missile"),
        SearchRequest::Find { category: None, query: "magic missile".to_string() }
    );
    assert_eq!(search_request("categories"), SearchRequest::Categories);
    assert_eq!(search_request("HELP"), SearchRequest::Help);
    assert_eq!(search_request(" back "), SearchRequest::Back);
    assert_eq!(
        search_request(" goblin "),
        SearchRequest::Find { category: None, query: "goblin".to_string() }
    );
}

#[test]
fn combat_commands_answer() {
    let mut t = two_fighters();
    assert!(fight_is_ready(&t));

    let start = start_combat(&mut t);
    assert_eq!(start[1], "⚔️  COMBAT MODE ACTIVATED ⚔️");
    assert!(start.contains(&"🎯 Starting combat with Fighter".to_string()));
    assert_eq!(t.current_turn, 1);

    let r = combat_command(&mut t, "stats wizard");
    assert_eq!(r.follow_up, CombatFollowUp::Stay);
    assert!(r.lines.iter().any(|l| l.contains("Wizard")));
    let r = combat_command(&mut t, "stats Nobody");
    assert_eq!(r.lines, vec!["❌ Combatant 'Nobody' not found".to_string()]);
    let r = combat_command(&mut t, "stats");
    assert_eq!(r.lines, vec!["Usage: stats <name>".to_string()]);

    let r = combat_command(&mut t, "search magic missile");
    assert_eq!(r.follow_up, CombatFollowUp::Search("magic missile".to_string()));
    assert!(r.lines.is_empty());

    let r = combat_command(&mut t, "attack Ghost");
    assert_eq!(r.lines, vec!["❌ Target 'Ghost' not found in combat".to_string()]);

    let r = combat_command(&mut t, "status add self Blessed");
    assert_eq!(r.lines, vec!["✅ Added status 'Blessed' to Wizard".to_string()]);
    assert_eq!(t.combatants[1].status_effects[0].name, "Blessed");
    assert_eq!(t.combatants[1].status_effects[0].duration, None);
    let r = combat_command(&mut t, "status list Wizard");
    assert_eq!(r.lines, vec!["📋 Status effects for Wizard:".to_string(), "  • Blessed (permanent)".to_string()]);
    let r = combat_command(&mut t, "status list");
    assert_eq!(r.lines, vec!["📋 Status Effects Summary:".to_string(), "  Wizard: Blessed".to_string()]);
    let r = combat_command(&mut t, "status remove Wizard Blessed");
    assert_eq!(r.lines, vec!["✅ Removed status 'Blessed' from Wizard".to_string()]);
    let r = combat_command(&mut t, "status remove Wizard Blessed");
    assert_eq!(r.lines, vec!["❌ Status 'Blessed' not found on Wizard".to_string()]);
    let r = combat_command(&mut t, "status poke Wizard x");
    assert_eq!(r.lines, vec!["❌ Invalid action 'poke'. Use 'add', 'remove', or 'list'".to_string()]);
    let r = combat_command(&mut t, "status");
    assert_eq!(r.lines.len(), 1);

    let r = combat_command(&mut t, "next");
    assert!(r.clear_first);
    assert!(r.lines.contains(&"🎯 It's Wizard's turn!".to_string()));
    assert_eq!(t.round_number, 2);
    assert!(r.lines.contains(&"🔄 Starting Round 2".to_string()));

    let r = combat_command(&mut t, "back");
    assert!(r.clear_first);
    assert!(r.lines.contains(&"⬅️  Going back to Wizard's turn!".to_string()));
    assert_eq!(t.current_turn, 1);
    assert_eq!(t.round_number, 1);

    let r = combat_command(&mut t, "save wis Wizard");
    assert_eq!(r.lines.len(), 1);
    assert!(r.lines[0].contains("Wizard makes a Wisdom saving throw"));
    let r = combat_command(&mut t, "save Orc");
    assert_eq!(r.follow_up, CombatFollowUp::SaveNpc("Orc".to_string()));
    let r = combat_command(&mut t, "save");
    assert_eq!(r.lines.len(), 2);

    let r = combat_command(&mut t, "insert Rogue");
    assert_eq!(r.follow_up, CombatFollowUp::Insert("Rogue".to_string()));

    let r = combat_command(&mut t, "remove wizard");
    assert_eq!(r.lines[0], "✅ Removed wizard from combat");
    assert_eq!(t.combatants.len(), 1);
    let r = combat_command(&mut t, "remove wizard");
    assert_eq!(r.lines, vec!["❌ Could not find wizard in combat".to_string()]);

    let r = combat_command(&mut t, "list");
    assert_eq!(r.lines[1], "📋 Initiative Order (Round 1):");
    let r = combat_command(&mut t, "HELP");
    assert_eq!(r.lines.len(), 13);
    let r = combat_command(&mut t, "Dance now");
    assert_eq!(r.lines, vec!["❌ Unknown command 'Dance'. Type 'help' for available commands.".to_string()]);
    let r = combat_command(&mut t, "quit");
    assert_eq!(r.follow_up, CombatFollowUp::Quit);
    assert_eq!(r.lines, vec!["💀 Exiting combat mode...".to_string()]);
}

#[test]
fn attack_and_damage() {
    let mut t = CombatTracker::new();
    t.add_combatant(Combatant::new_npc("Dummy".to_string(), 20, 1, 5));
    let (lines, hit) = attack_command(&t, "dummy");
    assert!(hit);
    assert_eq!(lines[0], "");
    assert!(lines[1].starts_with("⚔️  Attack Roll: "));
    assert!(lines.contains(&"🎯 Target AC: 1".to_string()));
    assert_eq!(lines.last().unwrap(), "🎲 Enter damage amount (or type 'roll' to use dice mode):");

    let (lines, again) = damage_prompt(&mut t, "dummy", " ROLL ");
    assert!(again);
    assert_eq!(lines.len(), 2);
    let (lines, again) = damage_prompt(&mut t, "dummy", "7");
    assert!(!again);
    assert_eq!(lines, vec!["❤️ dummy takes 7 damage. HP: 13/20 ".to_string()]);
    assert_eq!(t.combatants[0].current_hp, 13);
    let (lines, _) = damage_prompt(&mut t, "dummy", "lots");
    assert_eq!(lines, vec!["❌ Invalid damage amount".to_string()]);
    let (lines, _) = damage_prompt(&mut t, "dummy", "-2147483648");
    assert_eq!(lines, vec!["❌ Invalid damage amount".to_string()]);
}

#[test]
fn joining_the_fight() {
    let mut t = CombatTracker::new();
    let mut c = Character::new("Aria");
    c.dext = Some(14);
    assert_eq!(initiative_prompt(&c), "Initiative for Aria (DEX modifier: +2): ");

    let (lines, done) = initiative_answer(&mut t, &c, "abc", false);
    assert!(!done);
    assert_eq!(lines, vec!["❌ Invalid input. Please enter a number or press Enter to auto-roll.".to_string()]);
    let (lines, done) = initiative_answer(&mut t, &c, "abc", true);
    assert!(done);
    assert_eq!(lines, vec!["❌ Invalid initiative value".to_string()]);
    let (lines, done) = initiative_answer(&mut t, &c, "0", false);
    assert!(done);
    assert_eq!(lines, vec!["⏭️  Skipping Aria (initiative 0)".to_string()]);
    assert!(t.combatants.is_empty());
    let (lines, _) = initiative_answer(&mut t, &c, "12", false);
    assert_eq!(lines, vec!["✅ Added Aria with initiative 12".to_string()]);
    assert_eq!(t.combatants[0].initiative, 12);
    let (lines, _) = initiative_answer(&mut t, &c, "", true);
    assert!(lines[0].starts_with("🎲 Rolled "));
    assert!(lines.last().unwrap().starts_with("✅ Added Aria to combat with initiative "));
    assert!(t.combatants.iter().all(|x| x.name == "Aria"));
    let rolled = t.combatants.iter().map(|x| x.initiative).filter(|&i| i != 12).collect::<Vec<_>>();
    assert!(rolled.iter().all(|&i| i >= 3 && i <= 22));

    let lines = add_npc(&mut t, "Goblin", "7", "oops", "", true);
    assert_eq!(lines, vec!["✅ Added Goblin to combat as NPC!".to_string()]);
    let g = t.get_combatant("goblin").unwrap();
    assert_eq!((g.current_hp, g.max_hp, g.ac, g.initiative, g.is_player), (7, 7, 10, 0, false));

    let line = confirm_hp(&mut t, 0, "9");
    assert!(line.ends_with("'s HP to 9"));
    assert_eq!(t.combatants[0].current_hp, 9);
    let line = confirm_hp(&mut t, 0, "x");
    assert_eq!(line, "Invalid input, keeping current HP: 9");

    let chars = vec![Character::new("Aria"), Character::new("Borin")];
    assert_eq!(find_character(&chars, "BORIN"), Some(1));
    assert_eq!(find_character(&chars, "Cid"), None);
}

#[test]
fn status_command_over_words() {
    let mut t = two_fighters();
    let args = vec!["add".to_string(), "Fighter".to_string(), "Very".to_string(), "Tired".to_string()];
    let lines = status_command(&mut t, &args);
    assert_eq!(lines, vec!["✅ Added status 'Very Tired' to Fighter".to_string()]);
    let args = vec!["list".to_string(), "self".to_string()];
    let lines = status_command(&mut t, &args);
    assert_eq!(lines[0], "📋 Status effects for Fighter:");
}

#[test]
fn law_back_undoes_next_on_a_fight() {
    let mut t = two_fighters();
    let before = (t.current_turn, t.round_number);
    let _ = t.next_turn();
    assert!(t.previous_turn());
    assert_eq!((t.current_turn, t.round_number), before);
}

#[test]
fn law_add_then_remove_status_on_values() {
    let mut c = Combatant::new_npc("X".to_string(), 5, 5, 5);
    c.add_status(StatusEffect { name: "Prone".to_string(), description: None, duration: None });
    let kept: Vec<String> = c.status_effects.iter().map(|s| s.name.clone()).collect();
    c.add_status(StatusEffect { name: "Stunned".to_string(), description: None, duration: Some(1) });
    assert!(c.remove_status("Stunned"));
    let after: Vec<String> = c.status_effects.iter().map(|s| s.name.clone()).collect();
    assert_eq!(kept, after);
}

#[test]
fn completing_a_sheet() {
    let mut c = Character::new("Aria");
    assert_eq!(c.next_missing_stat(), Some(MissingStat::Race));
    assert_eq!(
        c.missing_stat_question(MissingStat::Race),
        "Race is missing for Aria. Enter Race (default: Human): "
    );
    c.fill_missing_stat(MissingStat::Race, "  ");
    assert_eq!(c.race, Some("Human".to_string()));
    c.fill_missing_stat(MissingStat::Class, " Bard ");
    assert_eq!(c.class, Some("Bard".to_string()));
    c.fill_missing_stat(MissingStat::Level, "abc");
    assert_eq!(c.level, Some(1));
    c.level = Some(9);
    assert_eq!(
        c.missing_stat_question(MissingStat::ProficiencyBonus),
        "Proficiency Bonus is missing for Aria. Enter Proficiency Bonus (default: 4): "
    );
    c.fill_missing_stat(MissingStat::ProficiencyBonus, "");
    assert_eq!(c.prof_bonus, Some(4));
    c.fill_missing_stat(MissingStat::Speed, "35");
    assert_eq!(c.speed, Some(35));
    assert_eq!(c.next_missing_stat(), Some(MissingStat::Strength));
    c.max_hp = Some(12);
    c.finish_completion();
    assert_eq!(c.hp, Some(12));
    assert_eq!(c.passive_perception, Some(14));
}

#[test]
fn page_display_lines() {
    let page = WikiPageContent {
        index: "fireball".to_string(),
        name: "Fireball".to_string(),
        url: "http://dnd5e.wikidot.com/spell:fireball".to_string(),
        content: "Fireball\nCasting Time: 1 action\n\nA bright streak flashes from your pointing finger to a point you choose within range and then blossoms with a low roar into an explosion of flame.".to_string(),
        content_type: "spell".to_string(),
    };
    let r = SearchResult { page };
    let lines = r.display_lines();
    assert_eq!(
        lines[2],
        format!("║ SPELL - Fireball{} ║", " ".repeat(69 - (5 + 8 + 3)))
    );
    assert_eq!(lines[4], format!("║ Source: http://dnd5e.wikidot.com/spell:fireball {} ║", " ".repeat(70 - (39 + 8))));
    assert_eq!(lines[7], "🔸 FIREBALL");
    assert_eq!(lines[8], "─".repeat(50));
    assert_eq!(lines[9], "  📊 Casting Time: 1 action");
    assert!(lines[10].starts_with("  A bright streak"));
    assert!(lines[10].len() <= 75);
    assert!(lines[11].starts_with("  "));
    assert_eq!(lines.last().unwrap(), "");
}

#[test]
fn numbered_choices() {
    assert_eq!(numbered_choice(" 2 ", 3), Choice::Picked(1));
    assert_eq!(numbered_choice("1", 3), Choice::Picked(0));
    assert_eq!(numbered_choice("0", 3), Choice::OutOfRange);
    assert_eq!(numbered_choice("4", 3), Choice::OutOfRange);
    assert_eq!(numbered_choice("", 3), Choice::Empty);
    assert_eq!(numbered_choice("two", 3), Choice::NotANumber);
}
