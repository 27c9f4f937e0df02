use prosettings_tui::crosshair::{
    bytes_to_share_code, encode_crosshair, encode_crosshair_bytes, parse_crosshair_config,
    CrosshairScaled,
};
use prosettings_tui::models::CrosshairSettings;

fn parse_f32(s: Option<&str>) -> f32 {
    s.and_then(|v| v.parse().ok()).unwrap_or(0.0)
}

fn scaled_of(settings: &CrosshairSettings) -> CrosshairScaled {
    CrosshairScaled {
        style: parse_f32(settings.style.as_deref()).round() as u8,
        length: (parse_f32(settings.size.as_deref()) * 10.0) as u8,
        thickness: (parse_f32(settings.thickness.as_deref()) * 10.0) as u8,
        gap: (parse_f32(settings.gap.as_deref()) * 10.0) as u8,
        outline: (parse_f32(settings.outline_thickness.as_deref()) * 2.0) as u8,
        split_distance: parse_f32(settings.split_distance.as_deref()) as u8,
        fixed_crosshair_gap: (parse_f32(settings.fixed_gap.as_deref()) * 10.0) as u8,
        inner_split_alpha: (parse_f32(settings.inner_split_alpha.as_deref()) * 10.0) as u8,
        outer_split_alpha: (parse_f32(settings.outer_split_alpha.as_deref()) * 10.0) as u8,
        split_size_ratio: (parse_f32(settings.split_size_ratio.as_deref()) * 10.0) as u8,
    }
}

fn sample_settings() -> CrosshairSettings {
    CrosshairSettings {
        import_code: None,
        command: None,
        style: Some("Classic Static".to_string()),
        follow_recoil: Some("No".to_string()),
        dot: Some("No".to_string()),
        size: Some("3".to_string()),
        thickness: Some("0.5".to_string()),
        gap: Some("0".to_string()),
        draw_outline: Some("No".to_string()),
        outline_thickness: Some("1".to_string()),
        color: Some("Green".to_string()),
        color_r: Some("50".to_string()),
        color_g: Some("250".to_string()),
        color_b: Some("50".to_string()),
        use_alpha: Some("Yes".to_string()),
        alpha: Some("200".to_string()),
        t_style: Some("No".to_string()),
        deployed_weapon_gap: Some("No".to_string()),
        split_distance: Some("7".to_string()),
        fixed_gap: Some("3".to_string()),
        inner_split_alpha: Some("1".to_string()),
        outer_split_alpha: Some("0.5".to_string()),
        split_size_ratio: Some("0.3".to_string()),
        sniper_width: Some("0".to_string()),
    }
}

#[test]
fn encode_crosshair_keeps_existing_share_code_format() {
    let settings = sample_settings();
    let scaled = scaled_of(&settings);

    assert_eq!(
        encode_crosshair(&settings, &scaled).as_deref(),
        Some("CSGO-AAAAA-AAAAA-AAAAA-AAAAA-AAAAA")
    );
}

#[test]
fn crosshair_bytes_of_the_sample() {
    let settings = sample_settings();
    let scaled = scaled_of(&settings);
    let c = parse_crosshair_config(&settings, &scaled);
    assert_eq!(c.color, 0);
    assert_eq!(c.red, 50);
    assert_eq!(c.green, 250);
    assert_eq!(c.blue, 50);
    assert_eq!(c.alpha, 200);
    assert!(c.alpha_enabled);
    assert!(!c.follow_recoil);
    let bytes = encode_crosshair_bytes(&c);
    assert_eq!(bytes.len(), 18);
    assert_eq!(&bytes[1..4], &[1, 0, 2]);
    assert_eq!(&bytes[4..8], &[50, 250, 50, 200]);
    assert_eq!(bytes[8], 7);
    assert_eq!(bytes[9], 30);
    assert_eq!(bytes[10], 10 << 4);
    assert_eq!(bytes[11], 5 | (3 << 4));
    assert_eq!(bytes[12], 5);
    assert_eq!(bytes[13], 64);
    assert_eq!(bytes[14], 30);
    assert_eq!(&bytes[15..], &[0, 0, 0]);
    let sum: u32 = bytes[1..].iter().map(|&b| b as u32).sum();
    assert_eq!(bytes[0] as u32, sum % 256);
}

#[test]
fn settings_that_are_not_bytes_read_as_zero() {
    let mut settings = sample_settings();
    settings.color_r = Some("256".to_string());
    settings.color_g = Some("+7".to_string());
    settings.color_b = Some("-1".to_string());
    settings.alpha = Some("x".to_string());
    settings.color = Some("Magenta".to_string());
    settings.follow_recoil = Some("true".to_string());
    settings.dot = Some("1".to_string());
    let scaled = scaled_of(&settings);
    let c = parse_crosshair_config(&settings, &scaled);
    assert_eq!(c.red, 0);
    assert_eq!(c.green, 7);
    assert_eq!(c.blue, 0);
    assert_eq!(c.alpha, 0);
    assert_eq!(c.color, 5);
    assert!(c.follow_recoil);
    assert!(c.center_dot_enabled);
    let bytes = encode_crosshair_bytes(&c);
    assert_eq!(bytes[8] & 0x80, 0x80);
    assert_eq!(bytes[10] & 7, 5);
}

#[test]
fn every_crosshair_gets_the_same_code() {
    let settings = CrosshairSettings::default();
    let scaled = scaled_of(&settings);
    assert_eq!(
        encode_crosshair(&settings, &scaled).as_deref(),
        Some("CSGO-AAAAA-AAAAA-AAAAA-AAAAA-AAAAA")
    );
}

#[test]
fn share_code_of_small_numbers() {
    assert_eq!(bytes_to_share_code(&[]), "CSGO-AAAAA-AAAAA-AAAAA-AAAAA-AAAAA");
    assert_eq!(bytes_to_share_code(&[1]), "CSGO-BAAAA-AAAAA-AAAAA-AAAAA-AAAAA");
    assert_eq!(bytes_to_share_code(&[32]), "CSGO-ABAAA-AAAAA-AAAAA-AAAAA-AAAAA");
    assert_eq!(bytes_to_share_code(&[31]), "CSGO-AAAAA-AAAAA-AAAAA-AAAAA-AAAAA");
    assert_eq!(bytes_to_share_code(&[30]), "CSGO-9AAAA-AAAAA-AAAAA-AAAAA-AAAAA");
    assert_eq!(bytes_to_share_code(&[0, 0, 33]), "CSGO-BBAAA-AAAAA-AAAAA-AAAAA-AAAAA");
}

#[test]
fn share_code_of_a_two_byte_number_and_of_too_large_numbers() {
    let expected = "CSGO-XUEAA-AAAAA-AAAAA-AAAAA-AAAAA";
    assert_eq!(bytes_to_share_code(&[0x12, 0x34]), expected);
    let mut leading_zeros = vec![0u8; 16];
    leading_zeros.extend_from_slice(&[0x12, 0x34]);
    assert_eq!(bytes_to_share_code(&leading_zeros), expected);
    let mut too_big = vec![1u8];
    too_big.extend_from_slice(&[0u8; 16]);
    assert_eq!(bytes_to_share_code(&too_big), "CSGO-AAAAA-AAAAA-AAAAA-AAAAA-AAAAA");
}
