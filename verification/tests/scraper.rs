use prosettings_tui::models::{CrosshairSettings, PlayerData, PlayerSettings};
use prosettings_tui::scraper::{
    classify_scraper_exit, enrich_with_totalcsgo_crosshair, merge_lookup, player_identity, parse_totalcsgo_crosshair,
    parse_totalcsgo_lines, player_slug, set_crosshair_command_value, ScraperFailure,
    TotalCsgoCrosshair,
};

#[test]
fn creates_slug_from_query() {
    assert_eq!(player_slug("  s1mple  "), Some("s1mple".to_string()));
    assert_eq!(player_slug("Niko Player"), Some("niko-player".to_string()));
    assert_eq!(player_slug("   "), None);
}

#[test]
fn slug_of_an_empty_query_and_of_inner_spaces() {
    assert_eq!(player_slug(""), None);
    assert_eq!(player_slug("\t ZywOo \n"), Some("zywoo".to_string()));
    assert_eq!(player_slug("a  b"), Some("a--b".to_string()));
}

#[test]
fn parses_totalcsgo_current_crosshair_code_and_command() {
    let html = r#"
            <html><body>
                <h2>Current Crosshair</h2>
                <div>Code</div>
                <div>CSGO-FNOLG-fQcPX-V8P7K-VqtAf-ZbJaA</div>
                <div>Command</div>
                <div>cl_crosshaircolor 5; cl_crosshairalpha 255; cl_crosshairgap -3</div>
            </body></html>
        "#;

    let crosshair = parse_totalcsgo_crosshair(html).unwrap();

    assert_eq!(crosshair.code, "CSGO-FNOLG-fQcPX-V8P7K-VqtAf-ZbJaA");
    assert_eq!(
        crosshair.command,
        "cl_crosshaircolor 5; cl_crosshairalpha 255; cl_crosshairgap -3"
    );
}

#[test]
fn totalcsgo_page_without_command_gives_nothing() {
    let html = "<html><body><div>Code</div><div>CSGO-AAAAA</div></body></html>";
    assert_eq!(parse_totalcsgo_crosshair(html), None);
}

#[test]
fn totalcsgo_lines_need_the_prefixes() {
    let lines: Vec<String> = ["Code", "not a code", "Code", "CSGO-X", "Command", "echo", "Command", "cl_a 1"]
        .iter()
        .map(|s| s.to_string())
        .collect();
    assert_eq!(
        parse_totalcsgo_lines(&lines),
        Some(TotalCsgoCrosshair { code: "CSGO-X".to_string(), command: "cl_a 1".to_string() })
    );
    let short: Vec<String> = vec!["Code".to_string()];
    assert_eq!(parse_totalcsgo_lines(&short), None);
}

fn zywoo_with_gap_zero() -> PlayerData {
    PlayerData {
        player: "zywoo".to_string(),
        slug: "zywoo".to_string(),
        url: String::new(),
        data: PlayerSettings {
            crosshair: CrosshairSettings { gap: Some("0".to_string()), ..CrosshairSettings::default() },
            ..PlayerSettings::default()
        },
    }
}

#[test]
fn enriches_player_with_totalcsgo_code_command_and_command_values() {
    let mut player = zywoo_with_gap_zero();

    enrich_with_totalcsgo_crosshair(
        &mut player,
        TotalCsgoCrosshair {
            code: "CSGO-FNOLG-fQcPX-V8P7K-VqtAf-ZbJaA".to_string(),
            command: "cl_crosshaircolor 5; cl_crosshairalpha 255; cl_crosshairgap -3".to_string(),
        },
    );

    assert_eq!(
        player.data.crosshair.import_code.as_deref(),
        Some("CSGO-FNOLG-fQcPX-V8P7K-VqtAf-ZbJaA")
    );
    assert_eq!(
        player.data.crosshair.command.as_deref(),
        Some("cl_crosshaircolor 5; cl_crosshairalpha 255; cl_crosshairgap -3")
    );
    assert_eq!(player.data.crosshair.color.as_deref(), Some("5"));
    assert_eq!(player.data.crosshair.alpha.as_deref(), Some("255"));
    assert_eq!(player.data.crosshair.gap.as_deref(), Some("-3"));
}

#[test]
fn enrich_with_an_empty_command_keeps_the_settings() {
    let mut player = zywoo_with_gap_zero();
    enrich_with_totalcsgo_crosshair(
        &mut player,
        TotalCsgoCrosshair { code: "CSGO-1".to_string(), command: String::new() },
    );
    assert_eq!(player.data.crosshair.import_code.as_deref(), Some("CSGO-1"));
    assert_eq!(player.data.crosshair.command, None);
    assert_eq!(player.data.crosshair.gap.as_deref(), Some("0"));
    assert_eq!(player.player, "zywoo");
}

#[test]
fn statements_without_a_value_and_unknown_variables_are_skipped() {
    let mut player = zywoo_with_gap_zero();
    enrich_with_totalcsgo_crosshair(
        &mut player,
        TotalCsgoCrosshair {
            code: "CSGO-2".to_string(),
            command: "cl_crosshairgap;  ;cl_unknown 4; cl_crosshairsize 2 extra;cl_crosshair_sniper_width 1".to_string(),
        },
    );
    assert_eq!(player.data.crosshair.gap.as_deref(), Some("0"));
    assert_eq!(player.data.crosshair.size.as_deref(), Some("2"));
    assert_eq!(player.data.crosshair.sniper_width.as_deref(), Some("1"));
}

#[test]
fn set_command_value_by_variable_name() {
    let mut c = CrosshairSettings::default();
    let key: Vec<char> = "cl_crosshairgap_useweaponvalue".chars().collect();
    let value: Vec<char> = "1".chars().collect();
    set_crosshair_command_value(&mut c, &key, &value);
    assert_eq!(c.deployed_weapon_gap.as_deref(), Some("1"));
    assert_eq!(c.gap, None);
    let key: Vec<char> = "cl_fixedcrosshairgap".chars().collect();
    set_crosshair_command_value(&mut c, &key, &value);
    assert_eq!(c.fixed_gap.as_deref(), Some("1"));
}

fn exit_parts(f: ScraperFailure) -> (String, String) {
    match f {
        ScraperFailure::Exit { status, stderr } => (status, stderr),
        other => panic!("not an exit failure: {:?}", other),
    }
}

#[test]
fn scraper_json_errors_are_classified() {
    match classify_scraper_exit("xantares", Some(1), r#" {"error":"PLAYER_NOT_FOUND","message":"m"} "#) {
        ScraperFailure::PlayerNotFound { slug } => assert_eq!(slug, "xantares"),
        other => panic!("unexpected {:?}", other),
    }
    assert!(matches!(
        classify_scraper_exit("a", Some(1), r#"{"error":"ACCESS_BLOCKED"}"#),
        ScraperFailure::AccessBlocked
    ));
    assert!(matches!(
        classify_scraper_exit("a", Some(1), r#"{"error":"TIMEOUT"}"#),
        ScraperFailure::NetworkTimeout
    ));
    assert!(matches!(
        classify_scraper_exit("a", None, r#"{"error":"NETWORK_ERROR"}"#),
        ScraperFailure::NetworkError
    ));
    assert!(matches!(
        classify_scraper_exit("a", Some(2), r#"{"error":"SERVER_ERROR"}"#),
        ScraperFailure::ServerError
    ));
}

#[test]
fn unknown_json_error_reports_its_message() {
    let (status, stderr) =
        exit_parts(classify_scraper_exit("a", Some(3), r#"{"error":"OTHER","message":"boom"}"#));
    assert_eq!(status, " (exit code 3)");
    assert_eq!(stderr, "boom");
    let (_, stderr) = exit_parts(classify_scraper_exit("a", Some(3), r#"{"error":"OTHER"}"#));
    assert_eq!(stderr, r#"{"error":"OTHER"}"#);
}

#[test]
fn plain_error_output_is_reported_trimmed() {
    let (status, stderr) = exit_parts(classify_scraper_exit("a", Some(-12), "  crashed \n"));
    assert_eq!(status, " (exit code -12)");
    assert_eq!(stderr, "crashed");
    let (status, stderr) = exit_parts(classify_scraper_exit("a", None, "   "));
    assert_eq!(status, " (killed by signal)");
    assert_eq!(stderr, "no stderr output");
    let (_, stderr) = exit_parts(classify_scraper_exit("a", Some(1), r#"{"message":"x"}"#));
    assert_eq!(stderr, r#"{"message":"x"}"#);
}

#[test]
fn player_identity_uses_fallbacks_for_missing_members() {
    let id = player_identity(
        r#"{"player":"XANTARES","slug":"xantares","url":"https://prosettings.net/players/xantares/"}"#,
        "fallback",
    );
    assert_eq!(id.player, "XANTARES");
    assert_eq!(id.slug, "xantares");
    assert_eq!(id.url, "https://prosettings.net/players/xantares/");
    let id = player_identity(r#"{"data":{"mouse":{"dpi":"800"}},"player":7}"#, "missing-player");
    assert_eq!(id.player, "missing-player");
    assert_eq!(id.slug, "missing-player");
    assert_eq!(id.url, "");
}

#[test]
fn player_identity_falls_back_to_the_slug() {
    let id = player_identity(r#"{"data":{"mouse":{"dpi":"800"}}}"#, "missing-player");
    assert_eq!(id.player, "missing-player");
    assert_eq!(id.slug, "missing-player");
    assert_eq!(id.url, "");
}

#[test]
fn ascii_slug_is_its_own_slug() {
    for query in ["  Niko Player ", "s1mple", "ZywOo", "a  b", "Twistzz\t"] {
        let slug = player_slug(query).unwrap();
        assert_eq!(player_slug(&slug), Some(slug.clone()));
        assert_eq!(slug.len(), query.trim().len());
        assert!(!slug.contains(' '));
        assert!(!slug.chars().any(|c| c.is_ascii_uppercase()));
    }
}

#[test]
fn lookup_without_a_crosshair_keeps_the_player() {
    let player = zywoo_with_gap_zero();
    let merged = merge_lookup(player.clone(), None);
    assert_eq!(format!("{:?}", merged), format!("{:?}", player));
}

#[test]
fn lookup_with_a_crosshair_merges_it() {
    let merged = merge_lookup(
        zywoo_with_gap_zero(),
        Some(TotalCsgoCrosshair {
            code: "CSGO-FNOLG-fQcPX-V8P7K-VqtAf-ZbJaA".to_string(),
            command: "cl_crosshairgap -3".to_string(),
        }),
    );
    assert_eq!(
        merged.data.crosshair.import_code.as_deref(),
        Some("CSGO-FNOLG-fQcPX-V8P7K-VqtAf-ZbJaA")
    );
    assert_eq!(merged.data.crosshair.gap.as_deref(), Some("-3"));
    assert_eq!(merged.player, "zywoo");
}
