use dnd_tools::search::{DndSearchClient, SearchCategory, SearchResult, WikiPageContent};

#[test]
fn test_search_category_from_str() {
    assert_eq!(SearchCategory::from_str("spell"), Some(SearchCategory::Spells));
    assert_eq!(SearchCategory::from_str("spells"), Some(SearchCategory::Spells));
    assert_eq!(SearchCategory::from_str("class"), Some(SearchCategory::Classes));
    assert_eq!(SearchCategory::from_str("classes"), Some(SearchCategory::Classes));
    assert_eq!(SearchCategory::from_str("equipment"), Some(SearchCategory::Equipment));
    assert_eq!(SearchCategory::from_str("item"), Some(SearchCategory::Equipment));
    assert_eq!(SearchCategory::from_str("gear"), Some(SearchCategory::Equipment));
    assert_eq!(SearchCategory::from_str("monster"), Some(SearchCategory::Monsters));
    assert_eq!(SearchCategory::from_str("creatures"), Some(SearchCategory::Monsters));
    assert_eq!(SearchCategory::from_str("race"), Some(SearchCategory::Races));
    assert_eq!(SearchCategory::from_str("races"), Some(SearchCategory::Races));
    assert_eq!(SearchCategory::from_str("invalid"), None);
}

#[test]
fn test_search_category_as_str() {
    assert_eq!(SearchCategory::Spells.as_str(), "spells");
    assert_eq!(SearchCategory::Classes.as_str(), "classes");
    assert_eq!(SearchCategory::Equipment.as_str(), "equipment");
    assert_eq!(SearchCategory::Monsters.as_str(), "monsters");
    assert_eq!(SearchCategory::Races.as_str(), "races");
}

#[test]
fn test_wiki_page_content_creation() {
    let page = WikiPageContent {
        index: "fireball".to_string(),
        name: "Fireball".to_string(),
        url: "http://dnd5e.wikidot.com/spell:fireball".to_string(),
        content: "3rd-level evocation\nCasting Time: 1 action\nRange: 150 feet".to_string(),
        content_type: "spell".to_string(),
    };

    let result = SearchResult { page };
    assert_eq!(result.name(), "Fireball");
    assert_eq!(result.index(), "fireball");
    assert_eq!(result.content_type(), "spell");
}

#[test]
fn test_dnd_search_client_creation() {
    let client = DndSearchClient::new();
    assert_eq!(client.base_url, "http://dnd5e.wikidot.com");
}

#[test]
fn test_query_variations() {
    let client = DndSearchClient::new();
    let variations = client.generate_query_variations("Magic Missile");

    assert!(variations.contains(&"Magic Missile".to_string()));
    assert!(variations.contains(&"magic-missile".to_string()));
    assert!(variations.contains(&"magic missile".to_string()));
    assert!(variations.contains(&"Magic-Missile".to_string()));
}

#[test]
fn test_search_all_categories() {
    let all_categories = SearchCategory::all();
    assert_eq!(all_categories.len(), 5);
    assert!(all_categories.contains(&SearchCategory::Spells));
    assert!(all_categories.contains(&SearchCategory::Classes));
    assert!(all_categories.contains(&SearchCategory::Equipment));
    assert!(all_categories.contains(&SearchCategory::Monsters));
    assert!(all_categories.contains(&SearchCategory::Races));
}

#[test]
fn test_cache_functionality() {
    let client = DndSearchClient::new();

    // Test cache path generation
    let cache_path = client.get_cache_path("spell:fireball");
    assert!(cache_path.contains("spell_fireball.txt"));

    // Test safe slug conversion
    let cache_path2 = client.get_cache_path("monster:ancient-red-dragon");
    assert!(cache_path2.contains("monster_ancient-red-dragon.txt"));
}

#[test]
fn test_cached_content_parsing() {
    let client = DndSearchClient::new();

    let test_content = "TITLE:Fireball\nURL:http://dnd5e.wikidot.com/spell:fireball\nCONTENT:\nA bright streak flashes from your pointing finger.";

    let parsed = client.parse_cached_content(test_content);
    assert!(parsed.is_some());

    let (title, url, content) = parsed.unwrap();
    assert_eq!(title, "Fireball");
    assert_eq!(url, "http://dnd5e.wikidot.com/spell:fireball");
    assert!(content.contains("bright streak"));
}

#[test]
fn test_html2text_integration() {
    let client = DndSearchClient::new();

    let html = "<p>This is a <strong>test</strong> paragraph.</p><p>Another paragraph with <em>emphasis</em>.</p>";
    let result = client.html_to_readable_text(html);

    assert!(result.contains("test"));
    assert!(result.contains("paragraph"));
    assert!(!result.contains("<p>"));
    assert!(!result.contains("<strong>"));
}

#[test]
fn test_possible_urls_generation() {
    let client = DndSearchClient::new();

    let urls = client.generate_possible_urls("fireball", "spell");
    assert!(!urls.is_empty());
    assert!(urls.iter().any(|url| url.contains("spell:fireball")));

    let class_urls = client.generate_possible_urls("fighter", "class");
    assert!(class_urls.iter().any(|url| url.ends_with("/fighter")));
}

#[test]
fn test_get_suggestions() {
    let client = DndSearchClient::new();

    let suggestions = client.get_suggestions("fir", Some(SearchCategory::Spells));
    assert!(suggestions.iter().any(|s| s.contains("fire")));

    let suggestions = client.get_suggestions("fig", Some(SearchCategory::Classes));
    assert!(suggestions.iter().any(|s| s == "fighter"));
}
