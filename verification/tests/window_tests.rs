use cosmic_launcher::window_info::CosmicWindowManager;

#[test]
fn titles_match_is_case_insensitive_containment() {
    let manager = CosmicWindowManager::new();
    assert!(manager.titles_match("FIREFOX", "firefox - my page"));
    assert!(manager.titles_match("my page - firefox", "Firefox"));
    assert!(!manager.titles_match("editor", "terminal"));
}

#[test]
fn titles_match_knows_specific_applications() {
    let manager = CosmicWindowManager::new();
    assert!(manager.titles_match("Discord chat", "#general discord"));
    assert!(manager.titles_match("firefox session", "Mozilla window"));
    assert!(!manager.titles_match("discord", "mozilla"));
}

#[test]
fn app_specific_matches_requires_both_sides() {
    let manager = CosmicWindowManager::new();
    assert!(manager.app_specific_matches("open mattermost", "mattermost - team"));
    assert!(!manager.app_specific_matches("mattermost", "something else"));
    assert!(manager.app_specific_matches("a terminal here", "cosmic terminal"));
}

#[test]
fn exact_title_wins_over_fuzzy() {
    let mut manager = CosmicWindowManager::new();
    manager.update_window_geometry("Editor".to_string(), 0, 0, 100, 100);
    manager.update_window_geometry("Editor - scratch".to_string(), 10, 10, 200, 200);
    let g = manager.get_window_geometry("Editor - scratch").expect("geometry");
    assert_eq!(g.title, "Editor - scratch");
    assert_eq!(g.width, 200);
}

#[test]
fn fuzzy_lookup_serves_when_no_exact_title() {
    let mut manager = CosmicWindowManager::new();
    manager.update_window_geometry("Firefox - start page".to_string(), 5, 6, 800, 600);
    let g = manager.get_window_geometry("firefox").expect("fuzzy geometry");
    assert_eq!(g.title, "Firefox - start page");
    assert_eq!(g.x, 5);
    assert_eq!(g.y, 6);
}

#[test]
fn lookup_without_any_match_is_none() {
    let mut manager = CosmicWindowManager::new();
    manager.update_window_geometry("Files".to_string(), 0, 0, 1, 1);
    assert!(manager.get_window_geometry("calculator").is_none());
}

#[test]
fn update_replaces_the_entry_for_a_title() {
    let mut manager = CosmicWindowManager::new();
    manager.update_window_geometry("Editor".to_string(), 0, 0, 100, 100);
    manager.update_window_geometry("Editor".to_string(), 50, 60, 640, 480);
    let listed = manager.list_known_windows();
    assert_eq!(listed.len(), 1);
    assert_eq!(listed[0].x, 50);
    assert_eq!(listed[0].y, 60);
    assert_eq!(listed[0].width, 640);
    assert_eq!(listed[0].height, 480);
}

#[test]
fn list_and_clear() {
    let mut manager = CosmicWindowManager::new();
    manager.update_window_geometry("One".to_string(), 0, 0, 1, 1);
    manager.update_window_geometry("Two".to_string(), 1, 1, 2, 2);
    assert_eq!(manager.list_known_windows().len(), 2);
    manager.clear();
    assert_eq!(manager.list_known_windows().len(), 0);
}
