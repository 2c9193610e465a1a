//! Hex parsing, KDE strings and accent mapping.

use lmtt::colors::{hex_to_rgb, map_to_accent_color, parse_matugen_colors, rgb_to_kde_string};

#[test]
fn hex_to_rgb_parses_six_digits() {
    assert_eq!(hex_to_rgb("#aabbcc").unwrap(), (170, 187, 204));
    assert_eq!(hex_to_rgb("aabbcc").unwrap(), (170, 187, 204));
    assert_eq!(hex_to_rgb("#AABBCC").unwrap(), (170, 187, 204));
    assert_eq!(hex_to_rgb("#000000").unwrap(), (0, 0, 0));
    assert_eq!(hex_to_rgb("#ffffff").unwrap(), (255, 255, 255));
}

#[test]
fn hex_to_rgb_rejects_non_hex() {
    assert_eq!(
        hex_to_rgb("#ZZZZZZ").unwrap_err(),
        "Invalid hex color: ZZZZZZ"
    );
}

#[test]
fn hex_to_rgb_rejects_wrong_length() {
    assert_eq!(hex_to_rgb("#fff").unwrap_err(), "Invalid hex color: fff");
    assert_eq!(
        hex_to_rgb("#aabbccdd").unwrap_err(),
        "Invalid hex color: aabbccdd"
    );
    assert_eq!(hex_to_rgb("").unwrap_err(), "Invalid hex color: ");
}

#[test]
fn kde_string_is_comma_separated_decimal() {
    assert_eq!(rgb_to_kde_string(170, 187, 204), "170,187,204");
    assert_eq!(rgb_to_kde_string(0, 0, 0), "0,0,0");
    assert_eq!(rgb_to_kde_string(255, 1, 20), "255,1,20");
}

#[test]
fn accent_mapping_names_the_dominant_channel() {
    assert_eq!(map_to_accent_color("#ff0000").unwrap(), "red");
    assert_eq!(map_to_accent_color("#00ff00").unwrap(), "green");
    assert_eq!(map_to_accent_color("#0000ff").unwrap(), "blue");
    // Red dominant with a wide green lead over blue.
    assert_eq!(map_to_accent_color("#ff8000").unwrap(), "orange");
    // Red dominant with a wide blue lead over green.
    assert_eq!(map_to_accent_color("#ff0080").unwrap(), "pink");
    // Low saturation.
    assert_eq!(map_to_accent_color("#808080").unwrap(), "slate");
    assert_eq!(map_to_accent_color("#888890").unwrap(), "slate");
}

#[test]
fn accent_mapping_rejects_bad_colors() {
    assert_eq!(
        map_to_accent_color("nope").unwrap_err(),
        "Invalid hex color: nope"
    );
}

#[test]
fn matugen_output_is_read_per_mode() {
    let json = "{\"colors\": {\"primary\": {\"dark\": \"#111111\", \"light\": \"#222222\"}, \
                 \"surface\": {\"dark\": \"#333333\", \"light\": \"#444444\"}}}";
    let dark = parse_matugen_colors(json, "dark").unwrap();
    assert_eq!(dark.len(), 2);
    assert!(dark.contains(&("primary".to_string(), "#111111".to_string())));
    assert!(dark.contains(&("surface".to_string(), "#333333".to_string())));
    let light = parse_matugen_colors(json, "light").unwrap();
    assert!(light.contains(&("primary".to_string(), "#222222".to_string())));
}

#[test]
fn matugen_output_errors_are_typed() {
    assert_eq!(
        parse_matugen_colors("nonsense", "dark").unwrap_err(),
        "Failed to parse matugen JSON"
    );
    assert_eq!(
        parse_matugen_colors("{\"a\": 1}", "dark").unwrap_err(),
        "No colors object in matugen output"
    );
    assert_eq!(
        parse_matugen_colors("{\"colors\": {\"p\": {\"light\": \"#fff\"}}}", "dark").unwrap_err(),
        "No colors found for mode: dark"
    );
}
