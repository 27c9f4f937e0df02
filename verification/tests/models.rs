use prosettings_tui::models::Tab;

#[test]
fn tab_index_and_from_index_share_the_same_order() {
    for (index, tab) in Tab::ALL.iter().enumerate() {
        assert_eq!(tab.index(), index);
        assert_eq!(Tab::from_index(index), Some(*tab));
    }
    assert_eq!(Tab::from_index(Tab::ALL.len()), None);
}

#[test]
fn tab_next_and_prev_wrap() {
    let mut tab = Tab::Mouse;
    tab.prev();
    assert_eq!(tab, Tab::LaunchOptions);
    tab.next();
    assert_eq!(tab, Tab::Mouse);

    for expected in [
        Tab::Crosshair,
        Tab::Viewmodel,
        Tab::Video,
        Tab::Radar,
        Tab::Hud,
        Tab::LaunchOptions,
    ] {
        tab.next();
        assert_eq!(tab, expected);
    }
}

#[test]
fn launch_tab_keeps_short_label() {
    assert_eq!(Tab::LaunchOptions.name(), "Launch Options");
    assert_eq!(Tab::LaunchOptions.short_name(), "Launch");
}

#[test]
fn tab_names_of_every_tab() {
    assert_eq!(Tab::Mouse.name(), "Mouse");
    assert_eq!(Tab::Hud.name(), "HUD");
    assert_eq!(Tab::Gear.name(), "Gear");
    assert_eq!(Tab::Hud.short_name(), "HUD");
    assert_eq!(Tab::Crosshair.short_name(), "Crosshair");
}

#[test]
fn stepping_forward_then_back_returns_to_each_tab() {
    for tab in Tab::ALL {
        let mut t = tab;
        t.next();
        t.prev();
        assert_eq!(t, tab);
        t.prev();
        t.next();
        assert_eq!(t, tab);
    }
}

#[test]
fn seven_steps_go_round_the_cycle() {
    let mut t = Tab::Video;
    for _ in 0..7 {
        t.next();
    }
    assert_eq!(t, Tab::Video);
}

#[test]
fn gear_tab_stands_outside_the_cycle() {
    assert_eq!(Tab::Gear.index(), 0);
    let mut t = Tab::Gear;
    t.next();
    assert_eq!(t, Tab::Crosshair);
    let mut t = Tab::Gear;
    t.prev();
    assert_eq!(t, Tab::LaunchOptions);
    assert_eq!(Tab::from_index(100), None);
}
