use prosettings_tui::models::{PlayerData, Tab};
use prosettings_tui::ui::app::AppState;
use prosettings_tui::ui::input::{contains, handle_key, handle_wheel, Area, Effect, Key, KeyPress, Wheel};

fn press(key: Key) -> KeyPress {
    KeyPress { key, ctrl: false }
}

fn ctrl(c: char) -> KeyPress {
    KeyPress { key: Key::Char(c), ctrl: true }
}

fn type_text(state: &mut AppState, text: &str) {
    for c in text.chars() {
        assert!(matches!(handle_key(state, press(Key::Char(c))), Effect::Continue));
    }
}

#[test]
fn landing_enter_starts_a_lookup() {
    let mut state = AppState::new();
    type_text(&mut state, "Donk");
    assert_eq!(state.search_query, "Donk");
    match handle_key(&mut state, press(Key::Enter)) {
        Effect::StartLookup { request_id, slug } => {
            assert_eq!(request_id, 1);
            assert_eq!(slug, "donk");
        }
        other => panic!("unexpected {:?}", other),
    }
    assert!(!state.on_landing);
    assert!(state.is_loading);
}

#[test]
fn landing_quits_on_q_and_escape() {
    let mut state = AppState::new();
    assert!(matches!(handle_key(&mut state, press(Key::Char('q'))), Effect::Quit));
    assert!(matches!(handle_key(&mut state, press(Key::Esc)), Effect::Quit));
    assert!(matches!(handle_key(&mut state, ctrl('t')), Effect::OpenThemePicker));
    assert!(matches!(handle_key(&mut state, ctrl('a')), Effect::Continue));
    assert_eq!(state.search_query, "");
}

#[test]
fn landing_enter_with_an_empty_query_only_leaves_the_landing() {
    let mut state = AppState::new();
    assert!(matches!(handle_key(&mut state, press(Key::Enter)), Effect::Continue));
    assert!(!state.on_landing);
    assert!(!state.is_loading);
}

#[test]
fn loading_escape_cancels_and_typing_goes_on() {
    let mut state = AppState::new();
    type_text(&mut state, "ab");
    let _ = handle_key(&mut state, press(Key::Enter));
    type_text(&mut state, "c");
    assert_eq!(state.search_query, "abc");
    assert!(matches!(handle_key(&mut state, press(Key::Enter)), Effect::Continue));
    assert!(matches!(handle_key(&mut state, press(Key::Backspace)), Effect::Continue));
    assert_eq!(state.search_query, "ab");
    assert!(matches!(handle_key(&mut state, press(Key::Esc)), Effect::Continue));
    assert!(!state.is_loading);
    assert!(!state.on_landing);
    assert!(matches!(handle_key(&mut state, press(Key::Esc)), Effect::Continue));
    assert!(state.on_landing);
    assert_eq!(state.search_query, "");
}

#[test]
fn browse_keys() {
    let mut state = AppState::new();
    state.leave_landing();
    assert!(matches!(handle_key(&mut state, press(Key::Tab)), Effect::Continue));
    assert_eq!(state.current_tab, Tab::Crosshair);
    let _ = handle_key(&mut state, press(Key::BackTab));
    assert_eq!(state.current_tab, Tab::Mouse);
    assert!(matches!(handle_key(&mut state, ctrl('y')), Effect::CopyImportCode));
    assert!(matches!(handle_key(&mut state, press(Key::Char('t'))), Effect::OpenThemePicker));
    type_text(&mut state, "x");
    type_text(&mut state, "t");
    assert_eq!(state.search_query, "xt");
    assert!(matches!(handle_key(&mut state, press(Key::Char('Q'))), Effect::Continue));
    assert_eq!(state.search_query, "xtq");
    assert!(matches!(handle_key(&mut state, press(Key::Enter)), Effect::StartLookup { .. }));
}

#[test]
fn browse_quits_on_q_with_an_empty_query() {
    let mut state = AppState::new();
    state.leave_landing();
    assert!(matches!(handle_key(&mut state, press(Key::Char('q'))), Effect::Quit));
}

#[test]
fn scroll_keys_need_a_player() {
    let mut state = AppState::new();
    state.leave_landing();
    let _ = handle_key(&mut state, press(Key::Down));
    assert_eq!(state.scroll_offset, 0);
    state.player_data = Some(PlayerData::default());
    let _ = handle_key(&mut state, press(Key::Down));
    let _ = handle_key(&mut state, press(Key::Down));
    assert_eq!(state.scroll_offset, 2);
    let _ = handle_key(&mut state, press(Key::End));
    assert_eq!(state.scroll_offset, usize::MAX);
    let _ = handle_key(&mut state, press(Key::Home));
    assert_eq!(state.scroll_offset, 0);
}

#[test]
fn wheel_scrolls_only_over_the_table() {
    let mut state = AppState::new();
    state.player_data = Some(PlayerData::default());
    handle_wheel(&mut state, Wheel::Down, false);
    assert_eq!(state.scroll_offset, 0);
    handle_wheel(&mut state, Wheel::Down, true);
    assert_eq!(state.scroll_offset, 1);
    handle_wheel(&mut state, Wheel::Up, true);
    assert_eq!(state.scroll_offset, 0);
    state.is_loading = true;
    handle_wheel(&mut state, Wheel::Down, true);
    assert_eq!(state.scroll_offset, 0);
}

#[test]
fn area_contains_its_cells() {
    let area = Area { x: 2, y: 3, width: 4, height: 2 };
    assert!(contains(area, 2, 3));
    assert!(contains(area, 5, 4));
    assert!(!contains(area, 6, 4));
    assert!(!contains(area, 2, 5));
    assert!(!contains(area, 1, 3));
}

#[test]
fn landing_q_is_typed_when_a_query_is_there() {
    let mut state = AppState::new();
    type_text(&mut state, "s1m");
    assert!(matches!(handle_key(&mut state, press(Key::Char('q'))), Effect::Continue));
    assert_eq!(state.search_query, "s1mq");
    assert!(state.on_landing);
}

#[test]
fn landing_t_opens_the_theme_picker_on_an_empty_query() {
    let mut state = AppState::new();
    assert!(matches!(handle_key(&mut state, press(Key::Char('t'))), Effect::OpenThemePicker));
    assert_eq!(state.search_query, "");
    type_text(&mut state, "a");
    assert!(matches!(handle_key(&mut state, press(Key::Char('t'))), Effect::Continue));
    assert_eq!(state.search_query, "at");
}
