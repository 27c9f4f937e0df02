use prosettings_tui::theme::{read_saved_theme, startup_theme_name, ThemeManager};

fn catalogue() -> ThemeManager {
    ThemeManager::with_themes(vec![
        "flexoki-dark".to_string(),
        "Nord".to_string(),
        "flexoki-light".to_string(),
    ])
}

#[test]
fn empty_filter_keeps_every_theme() {
    assert_eq!(catalogue().filter_themes(""), vec!["flexoki-dark", "Nord", "flexoki-light"]);
}

#[test]
fn filter_ignores_case() {
    assert_eq!(catalogue().filter_themes("FLEX"), vec!["flexoki-dark", "flexoki-light"]);
    assert_eq!(catalogue().filter_themes("nor"), vec!["Nord"]);
    assert!(catalogue().filter_themes("zzz").is_empty());
}

#[test]
fn saved_theme_is_trimmed_and_must_be_known() {
    assert_eq!(read_saved_theme(Some("  nord \n")), Some("nord".to_string()));
    assert_eq!(read_saved_theme(Some("no-such-theme")), None);
    assert_eq!(read_saved_theme(Some("   ")), None);
    assert_eq!(read_saved_theme(None), None);
}

#[test]
fn startup_theme_falls_back_to_flexoki_dark() {
    assert_eq!(startup_theme_name(Some("dracula")), "dracula");
    assert_eq!(startup_theme_name(Some("unknown")), "flexoki-dark");
    assert_eq!(startup_theme_name(None), "flexoki-dark");
}
