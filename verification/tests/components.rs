use prosettings_tui::ui::components::{
    cursor_visible, footer_text, searching_text, settings_rows, table_window, truncate_to_width,
    visible_items,
};
use prosettings_tui::models::{PlayerData, Tab};
use prosettings_tui::ui::app::AppState;

#[test]
fn visible_items_filters_missing_empty_and_dash_values() {
    let items = visible_items(&[
        ("DPI", Some("400")),
        ("Empty", Some("")),
        ("Whitespace", Some("   ")),
        ("Dash", Some("-")),
        ("Missing", None),
    ]);

    assert_eq!(items, vec![("DPI", "400")]);
}

#[test]
fn visible_items_keep_the_value_untrimmed() {
    let items = visible_items(&[("A", Some(" 1 ")), ("B", Some(" - ")), ("C", Some("--"))]);
    assert_eq!(items, vec![("A", " 1 "), ("C", "--")]);
}

#[test]
fn truncate_to_width_keeps_import_codes_inside_the_cell() {
    assert_eq!(truncate_to_width("CSGO-ABCDE", 20), "CSGO-ABCDE");
    assert_eq!(truncate_to_width("CSGO-ABCDE-FGHIJ", 10), "CSGO-AB...");
    assert_eq!(truncate_to_width("CSGO", 3), "...");
}

#[test]
fn truncate_to_width_keeps_long_commands_inside_the_cell() {
    let command = "cl_crosshaircolor 5; cl_crosshairalpha 255; cl_crosshairgap -3";

    assert_eq!(truncate_to_width(command, 24), "cl_crosshaircolor 5; ...");
}

#[test]
fn truncate_to_tiny_widths() {
    assert_eq!(truncate_to_width("abcdef", 0), "");
    assert_eq!(truncate_to_width("abcdef", 2), "..");
    assert_eq!(truncate_to_width("abcd", 4), "abcd");
    assert_eq!(truncate_to_width("abcde", 4), "a...");
}

#[test]
fn table_window_holds_the_offset_to_the_last_page() {
    let w = table_window(10, 5, 100);
    assert_eq!(w.visible_rows, 4);
    assert_eq!(w.content_height, 4);
    assert_eq!(w.offset, 6);
    assert!(w.needs_scroll);
    let w = table_window(3, 5, 2);
    assert_eq!(w.offset, 0);
    assert!(!w.needs_scroll);
    let w = table_window(3, 0, 7);
    assert_eq!(w.visible_rows, 0);
    assert_eq!(w.offset, 2);
    let w = table_window(10, 5, 3);
    assert_eq!(w.offset, 3);
}

#[test]
fn footer_text_narrow_and_wide() {
    assert_eq!(footer_text(60, false, "x"), "Tab switch | Ctrl+T theme | Esc/q");
    assert_eq!(footer_text(60, true, "x"), "Tab switch | CTRL+Y Copy | Ctrl+T theme | Esc/q");
    assert_eq!(
        footer_text(80, true, "nord"),
        " Tab/Shift+Tab: Tabs | CTRL+Y Copy | Ctrl+T: Themes (nord) | Esc: Back | q: Quit "
    );
}

#[test]
fn searching_text_names_the_query() {
    let mut state = AppState::new();
    state.search_query = "  donk ".to_string();
    assert_eq!(searching_text(&state, 0), "\u{280B} Searching donk...");
    state.loading_query = Some("s1mple".to_string());
    assert_eq!(searching_text(&state, 950), "\u{280F} Searching s1mple...");
    let state = AppState::new();
    assert_eq!(searching_text(&state, 1000), "\u{280B} Searching player settings...");
}

#[test]
fn cursor_blinks_every_half_second() {
    assert!(cursor_visible(0));
    assert!(cursor_visible(499));
    assert!(!cursor_visible(500));
    assert!(cursor_visible(1000));
}

#[test]
fn settings_rows_follow_the_tab() {
    let mut player = PlayerData::default();
    player.data.mouse.dpi = Some("400".to_string());
    player.data.mouse.hz = Some(" - ".to_string());
    player.data.hud.color = Some("3".to_string());
    player.data.launch_options = Some("-novid".to_string());
    let rows = settings_rows(Tab::Mouse, &player);
    assert_eq!(rows.len(), 6);
    assert_eq!(rows[0], ("DPI", Some("400")));
    assert_eq!(rows[4], ("Hz", Some(" - ")));
    assert_eq!(visible_items(&rows), vec![("DPI", "400")]);
    assert_eq!(settings_rows(Tab::Hud, &player), vec![("HUD Scaling", None), ("HUD Color", Some("3"))]);
    assert_eq!(settings_rows(Tab::LaunchOptions, &player), vec![("Launch Options", Some("-novid"))]);
    assert_eq!(settings_rows(Tab::Crosshair, &player).len(), 21);
    assert_eq!(settings_rows(Tab::Video, &player).len(), 20);
    assert_eq!(settings_rows(Tab::Radar, &player)[3].0, "HUD Scale");
    assert_eq!(settings_rows(Tab::Viewmodel, &player)[4].0, "Preset");
    assert!(settings_rows(Tab::Gear, &player).is_empty());
}
