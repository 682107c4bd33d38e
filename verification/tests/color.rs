use autorec_turbo::color::hex_to_obs_color;

#[test]
fn orange_becomes_abgr() {
    // red 0xFF, green 0x88, blue 0x00 -> alpha, blue, green, red
    assert_eq!(hex_to_obs_color("#FF8800"), 0xFF0088FF);
}

#[test]
fn lower_case_digits_are_read() {
    assert_eq!(hex_to_obs_color("#0a1b2c"), 0xFF2C1B0A);
}

#[test]
fn short_text_gives_opaque_white() {
    assert_eq!(hex_to_obs_color("#abc"), 0xFFFFFFFF);
    assert_eq!(hex_to_obs_color(""), 0xFFFFFFFF);
    assert_eq!(hex_to_obs_color("######"), 0xFFFFFFFF);
}

#[test]
fn every_leading_hash_is_skipped() {
    assert_eq!(hex_to_obs_color("##00ff00"), 0xFF00FF00);
}

#[test]
fn missing_hash_is_fine() {
    assert_eq!(hex_to_obs_color("102030"), 0xFF302010);
}

#[test]
fn bad_field_counts_as_full_channel() {
    assert_eq!(hex_to_obs_color("#zz0000"), 0xFF0000FF);
    assert_eq!(hex_to_obs_color("#00zz00"), 0xFF00FF00);
    assert_eq!(hex_to_obs_color("#-10000"), 0xFF0000FF);
}

#[test]
fn plus_sign_field_is_one_digit() {
    assert_eq!(hex_to_obs_color("+f0000"), 0xFF00000F);
    assert_eq!(hex_to_obs_color("++0000"), 0xFF0000FF);
}

#[test]
fn extra_characters_after_six_are_ignored() {
    assert_eq!(hex_to_obs_color("#112233xyz"), 0xFF332211);
}

fn std_model_color(hex: &str) -> u32 {
    let hex = hex.trim_start_matches('#');
    if hex.len() < 6 {
        return 0xFFFFFFFF;
    }
    let r = u32::from_str_radix(&hex[0..2], 16).unwrap_or(255);
    let g = u32::from_str_radix(&hex[2..4], 16).unwrap_or(255);
    let b = u32::from_str_radix(&hex[4..6], 16).unwrap_or(255);
    0xFF000000 | (b << 16) | (g << 8) | r
}

#[test]
fn agrees_with_std_parsing() {
    for h in ["#FF8800", "#ff8800", "+1+2+3", "-1-2-3", "#+f+f+f", "#  1122", "#\u{e9}\u{e9}\u{e9}", "#12\u{e9}56", "AbCdEf", "#1g2h3i", "#######123456"] {
        assert_eq!(hex_to_obs_color(h), std_model_color(h), "{:?}", h);
    }
}
