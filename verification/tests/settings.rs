use headlines::{ConfigInput, Headlines, HeadlinesConfig, Screen};

fn input(text: &str, lost_focus: bool, enter_pressed: bool) -> ConfigInput {
    ConfigInput { api_key: text.to_string(), lost_focus, enter_pressed }
}

#[test]
fn default_settings_are_light_theme_without_key() {
    let config = HeadlinesConfig::default();
    assert_eq!(config.dark_mode, false);
    assert_eq!(config.api_key, "");
}

#[test]
fn session_without_stored_settings_starts_from_defaults() {
    let headlines = Headlines::new(None);
    assert_eq!(headlines.config().dark_mode, false);
    assert_eq!(headlines.config().api_key, "");
    assert!(!headlines.api_key_initialized());
    assert!(!headlines.fetch_requested());
    assert!(!headlines.data_is_set());
    assert!(headlines.articles().is_empty());
}

#[test]
fn session_with_stored_settings_keeps_them() {
    let stored = HeadlinesConfig { dark_mode: true, api_key: "stored-key".to_string() };
    let headlines = Headlines::new(Some(stored));
    assert_eq!(headlines.config().dark_mode, true);
    assert_eq!(headlines.config().api_key, "stored-key");
    assert!(!headlines.api_key_initialized());
    assert!(!headlines.data_is_set());
    assert!(headlines.articles().is_empty());
}

#[test]
fn settings_clone_is_equal_field_by_field() {
    let config = HeadlinesConfig { dark_mode: true, api_key: "k".to_string() };
    let copy = config.clone();
    assert_eq!(copy.dark_mode, true);
    assert_eq!(copy.api_key, "k");
}

#[test]
fn committing_a_key_persists_it_and_opens_the_main_screen() {
    let mut headlines = Headlines::new(None);
    assert_eq!(headlines.update(Vec::new()).screen, Screen::KeyEntry);

    let persist = headlines.render_config(input("abc123", true, true));

    let persisted = persist.expect("a committed key is handed out for persisting");
    assert_eq!(persisted.api_key, "abc123");
    assert_eq!(persisted.dark_mode, false);
    assert!(headlines.api_key_initialized());
    assert_eq!(headlines.config().api_key, "abc123");
    assert_eq!(headlines.update(Vec::new()).screen, Screen::Main);
}

#[test]
fn committed_settings_carry_the_current_theme() {
    let stored = HeadlinesConfig { dark_mode: true, api_key: String::new() };
    let mut headlines = Headlines::new(Some(stored));
    let persisted = headlines.render_config(input("k", true, true)).unwrap();
    assert_eq!(persisted.dark_mode, true);
    assert_eq!(persisted.api_key, "k");
}

#[test]
fn typing_without_commit_persists_nothing() {
    let mut headlines = Headlines::new(None);
    assert!(headlines.render_config(input("a", false, false)).is_none());
    assert!(headlines.render_config(input("ab", false, true)).is_none());
    assert!(headlines.render_config(input("abc", true, false)).is_none());
    assert_eq!(headlines.config().api_key, "abc");
    assert!(!headlines.api_key_initialized());
    assert_eq!(headlines.update(Vec::new()).screen, Screen::KeyEntry);
}

#[test]
fn key_field_follows_the_text_input() {
    let mut headlines = Headlines::new(Some(HeadlinesConfig {
        dark_mode: false,
        api_key: "old".to_string(),
    }));
    headlines.render_config(input("", false, false));
    assert_eq!(headlines.config().api_key, "");
    headlines.render_config(input("new", false, false));
    assert_eq!(headlines.config().api_key, "new");
}

#[test]
fn committing_an_empty_key_opens_the_main_screen_without_a_fetch() {
    let mut headlines = Headlines::new(None);
    let persisted = headlines.render_config(input("", true, true)).unwrap();
    assert_eq!(persisted.api_key, "");
    assert!(headlines.api_key_initialized());
    assert_eq!(headlines.update(Vec::new()).screen, Screen::Main);
    assert!(headlines.post_rendering().is_none());
    assert!(!headlines.fetch_requested());
    headlines.fetch_started();
    assert!(!headlines.data_is_set());
}

#[test]
fn commit_stays_committed() {
    let mut headlines = Headlines::new(None);
    headlines.render_config(input("abc123", true, true));
    headlines.render_config(input("abc1234", false, false));
    headlines.post_rendering();
    headlines.fetch_started();
    headlines.update(Vec::new());
    assert!(headlines.api_key_initialized());
    assert_eq!(headlines.update(Vec::new()).screen, Screen::Main);
}
