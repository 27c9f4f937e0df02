use prosettings_tui::cli::{parse_args, Action, Output, Printout, HELP_TEXT};
use prosettings_tui::models::{GearItem, MouseSettings, PlayerData, PlayerSettings};

fn args(list: &[&str]) -> Vec<String> {
    list.iter().map(|s| s.to_string()).collect()
}

#[test]
fn help_wins_over_everything() {
    match parse_args(&args(&["csprotui", "donk", "-c", "-m", "--help"])) {
        Err(text) => assert_eq!(text, HELP_TEXT),
        Ok(a) => panic!("unexpected {:?}", a),
    }
    assert!(HELP_TEXT.starts_with("CSPROTUI \u{2014} Terminal-based"));
}

#[test]
fn two_flags_are_refused() {
    match parse_args(&args(&["csprotui", "donk", "-c", "--mouse"])) {
        Err(text) => assert_eq!(text, "Only one flag allowed at a time. Got: -c, --mouse"),
        Ok(a) => panic!("unexpected {:?}", a),
    }
}

#[test]
fn a_flag_needs_a_player() {
    for line in [&["csprotui", "-c"][..], &["csprotui", "   ", "-c"][..]] {
        match parse_args(&args(line)) {
            Err(text) => assert_eq!(text, "Player name required. Usage: csprotui <player> --flag"),
            Ok(a) => panic!("unexpected {:?}", a),
        }
    }
}

#[test]
fn a_flag_with_a_player_is_a_query() {
    match parse_args(&args(&["csprotui", "Niko Player", "--all", "other"])) {
        Ok(Action::Query { slug, output }) => {
            assert_eq!(slug, "niko-player");
            assert_eq!(output, Output::All);
        }
        other => panic!("unexpected {:?}", other),
    }
    match parse_args(&args(&["csprotui", "-x", "--json", "donk"])) {
        Ok(Action::Query { slug, output }) => {
            assert_eq!(slug, "donk");
            assert_eq!(output, Output::Json);
        }
        other => panic!("unexpected {:?}", other),
    }
}

#[test]
fn without_a_flag_the_browser_opens() {
    match parse_args(&args(&["csprotui"])) {
        Ok(Action::Tui { pre_search }) => assert_eq!(pre_search, None),
        other => panic!("unexpected {:?}", other),
    }
    match parse_args(&args(&["csprotui", "-q", "zywoo", "s1mple"])) {
        Ok(Action::Tui { pre_search }) => assert_eq!(pre_search.as_deref(), Some("zywoo")),
        other => panic!("unexpected {:?}", other),
    }
    match parse_args(&[]) {
        Ok(Action::Tui { pre_search }) => assert_eq!(pre_search, None),
        other => panic!("unexpected {:?}", other),
    }
}

fn sample_player() -> PlayerData {
    let mut data = PlayerSettings::default();
    data.mouse = MouseSettings {
        dpi: Some("400".to_string()),
        sensitivity: Some("2.3".to_string()),
        hz: Some("1000".to_string()),
        ..MouseSettings::default()
    };
    data.crosshair.import_code = Some("CSGO-X".to_string());
    data.crosshair.style = Some("4".to_string());
    data.hud.color = Some("2".to_string());
    data.launch_options = Some("-novid".to_string());
    data.gear = vec![GearItem { name: "Zowie EC2".to_string(), category: "MOUSE".to_string() }];
    PlayerData { player: "p".to_string(), slug: "p".to_string(), url: String::new(), data }
}

fn lines(o: Output) -> Vec<String> {
    match o.printout(&sample_player()) {
        Printout::Lines(v) => v,
        Printout::Json => panic!("json"),
    }
}

#[test]
fn single_values_print_alone() {
    assert_eq!(lines(Output::Crosshair), vec!["CSGO-X"]);
    assert_eq!(lines(Output::Sensitivity), vec!["2.3"]);
    assert_eq!(lines(Output::Dpi), vec!["400"]);
    assert!(lines(Output::Edpi).is_empty());
    assert_eq!(lines(Output::Launch), vec!["-novid"]);
}

#[test]
fn groups_print_labelled_lines() {
    assert_eq!(lines(Output::Mouse), vec!["dpi: 400", "sensitivity: 2.3", "hz: 1000"]);
    assert_eq!(lines(Output::Hud), vec!["color: 2"]);
    assert_eq!(lines(Output::Gear), vec!["mouse: Zowie EC2"]);
    assert!(lines(Output::Radar).is_empty());
}

#[test]
fn the_full_report_separates_groups() {
    assert_eq!(
        lines(Output::All),
        vec![
            "dpi: 400",
            "sensitivity: 2.3",
            "hz: 1000",
            "",
            "CSGO-X",
            "crosshair_style: 4",
            "",
            "",
            "",
            "",
            "color: 2",
            "",
            "-novid"
        ]
    );
    assert!(matches!(Output::Json.printout(&sample_player()), Printout::Json));
}
