use dnd_tools::cli::{npc_number_answer, npc_number_question, NpcNumber};
use dnd_tools::cli_search::{search_outcome_reply, suggestion_choice_reply, suggestion_outcome_reply, OutcomeNext};
use dnd_tools::search::{DndSearchClient, SearchCategory, SearchResult, WikiPageContent};
use dnd_tools::search_flow::{
    can_vary, fetch_step, search_step, FetchAction, FetchEvent, FetchState, SearchStage, SearchState,
};

const PAGE: &str = "<html><head><title>Fireball - DND 5th Edition</title></head><body><div id=\"page-content\"><p>A bright streak flashes from your pointing finger.</p></div></body></html>";

fn client() -> DndSearchClient {
    DndSearchClient::with_cache_dir("/tmp/cache".to_string())
}

fn page(name: &str) -> SearchResult {
    SearchResult {
        page: WikiPageContent {
            index: name.to_lowercase(),
            name: name.to_string(),
            url: format!("http://dnd5e.wikidot.com/spell:{}", name.to_lowercase()),
            content: "text".to_string(),
            content_type: "spell".to_string(),
        },
    }
}

#[test]
fn fetch_reads_the_cache_first_and_uses_a_good_record() {
    let c = client();
    let (s, a) = fetch_step(&c, "fireball", "spell", FetchState::Start, FetchEvent::Begin);
    assert!(matches!(s, FetchState::ReadingCache));
    match a {
        FetchAction::ReadCache(p) => assert_eq!(p, "/tmp/cache/spell_fireball.txt"),
        other => panic!("unexpected {:?}", other),
    }
    let record = "TITLE:Fireball\nURL:http://dnd5e.wikidot.com/spell:fireball\nCONTENT:\nA bright streak.".to_string();
    let (s, a) = fetch_step(&c, "fireball", "spell", s, FetchEvent::Cache(Some(record)));
    assert!(matches!(s, FetchState::Done));
    match a {
        FetchAction::Finish(Ok(v)) => {
            assert_eq!(v.len(), 1);
            assert_eq!(v[0].page.name, "Fireball");
            assert_eq!(v[0].page.content, "A bright streak.");
        }
        other => panic!("unexpected {:?}", other),
    }
}

#[test]
fn fetch_tries_each_address_then_caches_the_page() {
    let c = client();
    let (s, a) = fetch_step(&c, "longsword", "equipment", FetchState::ReadingCache, FetchEvent::Cache(None));
    match a {
        FetchAction::Get(u) => assert_eq!(u, "http://dnd5e.wikidot.com/equipment:longsword"),
        other => panic!("unexpected {:?}", other),
    }
    let (s, a) = fetch_step(&c, "longsword", "equipment", s, FetchEvent::Response(false, Ok(String::new())));
    match a {
        FetchAction::Get(u) => assert_eq!(u, "http://dnd5e.wikidot.com/weapon:longsword"),
        other => panic!("unexpected {:?}", other),
    }
    let (s, a) = fetch_step(&c, "longsword", "equipment", s, FetchEvent::Response(true, Ok(PAGE.to_string())));
    assert!(matches!(s, FetchState::Found(_)));
    match a {
        FetchAction::WriteCache(p, rec) => {
            assert_eq!(p, "/tmp/cache/equipment_longsword.txt");
            assert!(rec.starts_with("TITLE:Fireball\nURL:http://dnd5e.wikidot.com/weapon:longsword\nCONTENT:\n"));
        }
        other => panic!("unexpected {:?}", other),
    }
    let (s, a) = fetch_step(&c, "longsword", "equipment", s, FetchEvent::Written);
    assert!(matches!(s, FetchState::Done));
    match a {
        FetchAction::Finish(Ok(v)) => assert_eq!(v[0].page.url, "http://dnd5e.wikidot.com/weapon:longsword"),
        other => panic!("unexpected {:?}", other),
    }
    let (_, a) = fetch_step(&c, "longsword", "equipment", FetchState::Done, FetchEvent::Begin);
    assert!(matches!(a, FetchAction::Idle));
}

#[test]
fn fetch_failures_end_with_their_messages() {
    let c = client();
    let (_, a) = fetch_step(&c, "troll", "monster", FetchState::Fetching(0), FetchEvent::SendFailed("timeout".to_string()));
    match a {
        FetchAction::Finish(Err(e)) => assert_eq!(e, "Network request failed: timeout"),
        other => panic!("unexpected {:?}", other),
    }
    let (_, a) = fetch_step(&c, "troll", "monster", FetchState::Fetching(0), FetchEvent::Response(true, Err("eof".to_string())));
    match a {
        FetchAction::Finish(Err(e)) => assert_eq!(e, "Failed to read response: eof"),
        other => panic!("unexpected {:?}", other),
    }
    let (_, a) = fetch_step(&c, "troll", "monster", FetchState::Fetching(0), FetchEvent::Response(false, Ok(String::new())));
    match a {
        FetchAction::Finish(Err(e)) => assert_eq!(e, "monster 'troll' not found"),
        other => panic!("unexpected {:?}", other),
    }
    let (_, a) = fetch_step(
        &c,
        "troll",
        "monster",
        FetchState::Fetching(0),
        FetchEvent::Response(true, Ok("<html><body><p>x</p></body></html>".to_string())),
    );
    match a {
        FetchAction::Finish(Err(e)) => assert_eq!(e, "Could not find page content"),
        other => panic!("unexpected {:?}", other),
    }
}

#[test]
fn search_falls_back_to_query_variations() {
    let c = client();
    let cat = Some(SearchCategory::Spells);
    let (s, a, w) = search_step(&c, "Magic Missile", cat, SearchState::start(), FetchEvent::Begin);
    assert!(w.is_none());
    match a {
        FetchAction::ReadCache(p) => assert_eq!(p, "/tmp/cache/spell_Magic Missile.txt"),
        other => panic!("unexpected {:?}", other),
    }
    let (s, a, _) = search_step(&c, "Magic Missile", cat, s, FetchEvent::Cache(None));
    assert!(matches!(a, FetchAction::Get(_)));
    let (s, a, w) = search_step(&c, "Magic Missile", cat, s, FetchEvent::Response(false, Ok(String::new())));
    assert_eq!(w, Some("Warning: Failed to search spells: spell 'Magic Missile' not found".to_string()));
    assert!(matches!(s.stage, SearchStage::Fuzzy(0, 0)));
    match a {
        FetchAction::ReadCache(p) => assert_eq!(p, "/tmp/cache/spell_Magic Missile.txt"),
        other => panic!("unexpected {:?}", other),
    }
    let (s, _, _) = search_step(&c, "Magic Missile", cat, s, FetchEvent::Cache(None));
    let (s, a, _) = search_step(&c, "Magic Missile", cat, s, FetchEvent::Response(false, Ok(String::new())));
    assert!(matches!(s.stage, SearchStage::Fuzzy(0, 1)));
    match a {
        FetchAction::ReadCache(p) => assert_eq!(p, "/tmp/cache/spell_Magic-Missile.txt"),
        other => panic!("unexpected {:?}", other),
    }
    let (s, _, _) = search_step(&c, "Magic Missile", cat, s, FetchEvent::Cache(None));
    let (_, a, _) = search_step(&c, "Magic Missile", cat, s, FetchEvent::Response(true, Ok(PAGE.to_string())));
    assert!(matches!(a, FetchAction::WriteCache(_, _)));
}

#[test]
fn search_gathers_every_category_and_stops_on_unspellable_queries() {
    let c = client();
    let record = "TITLE:Elf\nURL:u\nCONTENT:\nPointy ears.".to_string();
    let mut s = SearchState::start();
    let mut event = FetchEvent::Begin;
    let mut outcome = None;
    for _ in 0..30 {
        let (next, a, _) = search_step(&c, "elf", None, s, event);
        s = next;
        event = match a {
            FetchAction::ReadCache(p) => {
                if p.ends_with("race_elf.txt") {
                    FetchEvent::Cache(Some(record.clone()))
                } else {
                    FetchEvent::Cache(None)
                }
            }
            FetchAction::Get(_) => FetchEvent::Response(false, Ok(String::new())),
            FetchAction::WriteCache(_, _) => FetchEvent::Written,
            FetchAction::Finish(r) => {
                outcome = Some(r);
                break;
            }
            FetchAction::Idle => break,
        };
    }
    let found = outcome.unwrap().unwrap();
    assert_eq!(found.len(), 1);
    assert_eq!(found[0].page.name, "Elf");
    assert_eq!(found[0].page.content_type, "race");

    assert!(can_vary("magic missile"));
    assert!(can_vary("éclair"));
    assert!(!can_vary("magic éclair"));
    let s = SearchState { stage: SearchStage::Exact(1), found: Vec::new(), fetch: FetchState::Start };
    let (s, a, _) = search_step(&c, "magic éclair", Some(SearchCategory::Races), s, FetchEvent::Begin);
    assert!(matches!(s.stage, SearchStage::Unspellable));
    assert!(matches!(a, FetchAction::Idle));
}

#[test]
fn line_interface_falls_back_to_suggestions() {
    let none: Result<Vec<SearchResult>, String> = Ok(Vec::new());
    let sugg = vec!["fireball".to_string(), "fire-bolt".to_string()];
    let (lines, next) = search_outcome_reply(&none, "fire", false, &sugg);
    assert_eq!(next, OutcomeNext::AskChoice);
    assert_eq!(lines[0], "❌ No exact match found for 'fire'");
    assert_eq!(lines[4], "  1. fireball 📝");
    assert_eq!(lines[5], "  2. fire-bolt 📝");
    assert_eq!(lines[8], "   Enter the number of your choice (1-2), or press Enter to skip:");

    let (lines, next) = search_outcome_reply(&none, "zzz", false, &Vec::new());
    assert_eq!(next, OutcomeNext::Done);
    assert_eq!(lines[3], "   Example: search spell zzz");
    let (lines, _) = search_outcome_reply(&none, "zzz", true, &Vec::new());
    assert_eq!(lines[2], "💡 Try searching in a different category or check your spelling");

    let failed: Result<Vec<SearchResult>, String> = Err("offline".to_string());
    let (lines, next) = search_outcome_reply(&failed, "fire", false, &sugg);
    assert_eq!(next, OutcomeNext::Done);
    assert_eq!(lines[0], "❌ Search failed: offline");
    assert_eq!(lines[4], "  1. fireball");
    assert_eq!(lines[7], "Try searching for one of these when the network is available.");

    let found: Result<Vec<SearchResult>, String> = Ok(vec![page("Fireball")]);
    let (lines, next) = search_outcome_reply(&found, "fireball", false, &Vec::new());
    assert!(lines.is_empty());
    assert_eq!(next, OutcomeNext::ShowResults);
}

#[test]
fn picking_a_suggestion() {
    let sugg = vec!["fireball".to_string(), "fire-bolt".to_string()];
    let (lines, pick) = suggestion_choice_reply(" 2 ", &sugg);
    assert_eq!(lines, vec!["🔍 Searching for 'fire-bolt'...".to_string()]);
    assert_eq!(pick, Some("fire-bolt".to_string()));
    let (lines, pick) = suggestion_choice_reply("", &sugg);
    assert_eq!(lines, vec!["👍 Skipping suggestions.".to_string()]);
    assert!(pick.is_none());
    let (lines, _) = suggestion_choice_reply("3", &sugg);
    assert_eq!(lines, vec!["❌ Invalid choice. Please select a number between 1 and 2".to_string()]);
    let (lines, _) = suggestion_choice_reply("two", &sugg);
    assert_eq!(lines, vec!["❌ Invalid input. Please enter a number or press Enter to skip.".to_string()]);

    let none: Result<Vec<SearchResult>, String> = Ok(Vec::new());
    let (lines, next) = suggestion_outcome_reply(&none, "fire-bolt");
    assert_eq!(lines, vec!["❌ No detailed results found for 'fire-bolt'".to_string()]);
    assert_eq!(next, OutcomeNext::Done);
    let failed: Result<Vec<SearchResult>, String> = Err("offline".to_string());
    let (lines, _) = suggestion_outcome_reply(&failed, "fire-bolt");
    assert_eq!(lines, vec!["❌ Error searching for suggestion: offline".to_string()]);
}

#[test]
fn hand_made_npc_numbers_use_defaults() {
    assert_eq!(npc_number_question(NpcNumber::ArmorClass), "AC (10-25) (10-25): ");
    assert_eq!(npc_number_answer(NpcNumber::ArmorClass, Some("15\n")), 15);
    assert_eq!(npc_number_answer(NpcNumber::ArmorClass, Some("9")), 12);
    assert_eq!(npc_number_answer(NpcNumber::HitPoints, Some("")), 20);
    assert_eq!(npc_number_answer(NpcNumber::Speed, None), 30);
    assert_eq!(npc_number_answer(NpcNumber::Speed, Some("120")), 120);
}

#[test]
fn category_names_read_back_whatever_their_case() {
    for c in SearchCategory::all() {
        assert_eq!(SearchCategory::from_str(c.as_str()), Some(c));
        assert_eq!(SearchCategory::from_str(&c.as_str().to_ascii_uppercase()), Some(c));
    }
    assert_eq!(SearchCategory::from_str("CrEaTuReS"), Some(SearchCategory::Monsters));
    assert_eq!(SearchCategory::from_str("wand"), None);
}

#[test]
fn cache_records_read_back_unchanged() {
    let c = client();
    let content = "Line one\nCONTENT:\nline three\r\n";
    let record = format!("TITLE:{}\nURL:{}\nCONTENT:\n{}", "Cure Wounds", "http://dnd5e.wikidot.com/spell:cure-wounds", content);
    assert_eq!(
        c.parse_cached_content(&record),
        Some(("Cure Wounds".to_string(), "http://dnd5e.wikidot.com/spell:cure-wounds".to_string(), content.to_string()))
    );
}
