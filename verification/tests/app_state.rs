use prosettings_tui::models::{CrosshairSettings, PlayerData, PlayerSettings, Tab};
use prosettings_tui::ui::app::{toast_stays, AppState};

fn player_with_crosshair(crosshair: CrosshairSettings) -> PlayerData {
    PlayerData {
        player: "test".to_string(),
        slug: "test".to_string(),
        url: String::new(),
        data: PlayerSettings {
            crosshair,
            ..PlayerSettings::default()
        },
    }
}

#[test]
fn get_import_code_returns_import_code_only() {
    let mut state = AppState::new();
    state.player_data = Some(player_with_crosshair(CrosshairSettings {
        import_code: Some("CSGO-abcde-fghij-klmno-pqrst-uvwxy".to_string()),
        command: Some("cl_crosshairsize 2; cl_crosshairgap -3".to_string()),
        ..CrosshairSettings::default()
    }));

    assert_eq!(
        state.get_import_code(),
        Some("CSGO-abcde-fghij-klmno-pqrst-uvwxy".to_string())
    );
}

#[test]
fn get_import_code_filters_missing_and_empty_values() {
    let mut state = AppState::new();
    state.player_data = Some(player_with_crosshair(CrosshairSettings {
        import_code: Some("   ".to_string()),
        ..CrosshairSettings::default()
    }));

    assert_eq!(state.get_import_code(), None);
}

#[test]
fn copied_state_sets_and_clears() {
    let mut state = AppState::new();

    state.set_copied();
    assert!(state.copied);

    state.clear_copied();
    assert!(!state.copied);
}

#[test]
fn begin_search_sets_loading_and_resets_transient_state() {
    let mut state = AppState::new();
    state.error_message = Some("old error".to_string());
    state.copied = true;
    state.scroll_offset = 12;

    let request = state.begin_search("  XANTARES  ");

    assert_eq!(request, Some((1, "xantares".to_string())));
    assert!(state.is_loading);
    assert_eq!(state.loading_query.as_deref(), Some("XANTARES"));
    assert_eq!(state.error_message, None);
    assert!(!state.copied);
    assert_eq!(state.scroll_offset, 0);
}

#[test]
fn finish_search_applies_successful_current_result() {
    let mut state = AppState::new();
    let (request_id, _) = state.begin_search("test").unwrap();
    let player = player_with_crosshair(CrosshairSettings::default());

    assert!(state.finish_search(request_id, Ok(player)));

    assert!(!state.is_loading);
    assert_eq!(state.loading_query, None);
    assert_eq!(
        state.player_data.as_ref().map(|p| p.player.as_str()),
        Some("test")
    );
    assert_eq!(state.error_message, None);
}

#[test]
fn finish_search_applies_failed_current_result() {
    let mut state = AppState::new();
    let (request_id, _) = state.begin_search("test").unwrap();
    state.player_data = Some(player_with_crosshair(CrosshairSettings::default()));

    assert!(state.finish_search(request_id, Err("not found".to_string())));

    assert!(!state.is_loading);
    assert_eq!(state.loading_query, None);
    assert!(state.player_data.is_none());
    assert_eq!(state.error_message.as_deref(), Some("not found"));
}

#[test]
fn finish_search_ignores_stale_request_id() {
    let mut state = AppState::new();
    let (old_request_id, _) = state.begin_search("old").unwrap();
    state.cancel_search();
    let (current_request_id, _) = state.begin_search("current").unwrap();

    assert!(!state.finish_search(
        old_request_id,
        Ok(player_with_crosshair(CrosshairSettings::default()))
    ));

    assert!(state.is_loading);
    assert_eq!(state.request_id, current_request_id);
    assert!(state.player_data.is_none());
}

#[test]
fn cancel_search_ignores_later_result() {
    let mut state = AppState::new();
    let (request_id, _) = state.begin_search("test").unwrap();

    assert!(state.cancel_search());
    assert!(!state.is_loading);
    assert_eq!(state.loading_query, None);

    assert!(!state.finish_search(
        request_id,
        Ok(player_with_crosshair(CrosshairSettings::default()))
    ));
    assert!(state.player_data.is_none());
}

#[test]
fn begin_search_is_refused_while_loading_or_for_a_blank_query() {
    let mut state = AppState::new();
    assert_eq!(state.begin_search("   "), None);
    assert!(!state.is_loading);
    assert_eq!(state.request_id, 0);
    let _ = state.begin_search("a").unwrap();
    assert_eq!(state.begin_search("b"), None);
    assert_eq!(state.request_id, 1);
    assert_eq!(state.loading_query.as_deref(), Some("a"));
}

#[test]
fn request_numbers_wrap_around() {
    let mut state = AppState::new();
    state.request_id = u64::MAX;
    let (id, _) = state.begin_search("a").unwrap();
    assert_eq!(id, 0);
    assert!(state.cancel_search());
    assert_eq!(state.request_id, 1);
    assert!(!state.cancel_search());
    assert_eq!(state.request_id, 1);
}

#[test]
fn going_to_landing_resets_the_browser() {
    let mut state = AppState::new();
    state.leave_landing();
    assert!(!state.on_landing);
    state.search_query = "abc".to_string();
    let (_, _) = state.begin_search("abc").unwrap();
    state.next_tab();
    state.scroll_offset = 4;
    state.go_to_landing();
    assert!(state.on_landing);
    assert!(!state.is_loading);
    assert_eq!(state.search_query, "");
    assert_eq!(state.current_tab, Tab::Mouse);
    assert_eq!(state.scroll_offset, 0);
    assert_eq!(state.request_id, 2);
}

#[test]
fn clear_player_keeps_the_query_and_tab() {
    let mut state = AppState::new();
    state.player_data = Some(player_with_crosshair(CrosshairSettings::default()));
    state.search_query = "q".to_string();
    state.current_tab = Tab::Video;
    state.copied = true;
    state.clear_player();
    assert!(state.player_data.is_none());
    assert!(!state.copied);
    assert_eq!(state.search_query, "q");
    assert_eq!(state.current_tab, Tab::Video);
}

#[test]
fn scrolling_stops_at_both_ends() {
    let mut state = AppState::new();
    state.scroll_up();
    assert_eq!(state.scroll_offset, 0);
    state.scroll_down();
    state.scroll_down();
    assert_eq!(state.scroll_offset, 2);
    state.scroll_up();
    assert_eq!(state.scroll_offset, 1);
    state.scroll_by(-5);
    assert_eq!(state.scroll_offset, 0);
    state.scroll_by(7);
    assert_eq!(state.scroll_offset, 7);
    state.scroll_by(isize::MIN);
    assert_eq!(state.scroll_offset, 0);
    state.scroll_bottom();
    assert_eq!(state.scroll_offset, usize::MAX);
    state.scroll_down();
    assert_eq!(state.scroll_offset, usize::MAX);
    state.clamp_scroll_to(9);
    assert_eq!(state.scroll_offset, 9);
    state.clamp_scroll_to(20);
    assert_eq!(state.scroll_offset, 9);
    state.scroll_top();
    assert_eq!(state.scroll_offset, 0);
}

#[test]
fn page_scrolls_move_by_the_visible_rows() {
    let mut state = AppState::new();
    state.scroll_page_down();
    assert_eq!(state.scroll_offset, 1);
    state.visible_rows = 10;
    state.scroll_page_down();
    assert_eq!(state.scroll_offset, 11);
    state.scroll_page_up();
    assert_eq!(state.scroll_offset, 1);
    state.scroll_page_up();
    assert_eq!(state.scroll_offset, 0);
}

#[test]
fn tab_changes_scroll_to_the_top() {
    let mut state = AppState::new();
    state.scroll_offset = 3;
    state.next_tab();
    assert_eq!(state.current_tab, Tab::Crosshair);
    assert_eq!(state.scroll_offset, 0);
    state.scroll_offset = 3;
    state.prev_tab();
    state.prev_tab();
    assert_eq!(state.current_tab, Tab::LaunchOptions);
    assert_eq!(state.scroll_offset, 0);
}

#[test]
fn default_state_is_the_start_state() {
    let state = AppState::default();
    assert!(state.on_landing);
    assert!(!state.is_loading);
    assert_eq!(state.request_id, 0);
    assert_eq!(state.current_tab, Tab::Mouse);
    assert_eq!(state.search_query, "");
}

#[test]
fn toast_hides_after_two_seconds() {
    assert!(toast_stays(true, Some(0)));
    assert!(toast_stays(true, Some(1)));
    assert!(!toast_stays(true, Some(2)));
    assert!(!toast_stays(true, Some(30)));
    assert!(toast_stays(true, None));
    assert!(!toast_stays(false, Some(0)));
    assert!(!toast_stays(false, None));
}
