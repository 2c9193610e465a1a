//! The color resolution chain on concrete sources.

use lmtt::resolve::{parse_color_entries, resolve_from_texts, resolve_scheme};
use lmtt::scheme::ThemeMode;

fn no_overrides() -> Vec<(String, String)> {
    Vec::new()
}

#[test]
fn builtin_dark_palette_without_sources() {
    let overrides = no_overrides();
    let scheme = resolve_from_texts(ThemeMode::Dark, None, None, &overrides).unwrap();
    assert_eq!(scheme.mode(), ThemeMode::Dark);
    assert_eq!(scheme.get("surface").unwrap(), "#12131a");
    assert_eq!(scheme.get("primary").unwrap(), "#9fd491");
}

#[test]
fn builtin_light_palette_without_sources() {
    let overrides = no_overrides();
    let scheme = resolve_from_texts(ThemeMode::Light, None, None, &overrides).unwrap();
    assert_eq!(scheme.mode(), ThemeMode::Light);
    assert_eq!(scheme.get("surface").unwrap(), "#fbf8ff");
    assert_eq!(scheme.get("primary").unwrap(), "#3a6a33");
}

#[test]
fn override_wins_over_every_source() {
    let overrides = vec![("primary".to_string(), "#ff0000".to_string())];
    let from_fallback = resolve_from_texts(ThemeMode::Dark, None, None, &overrides).unwrap();
    assert_eq!(from_fallback.get("primary").unwrap(), "#ff0000");

    let static_text = "{\"primary\": \"#123456\", \"surface\": \"#000000\"}";
    let from_static =
        resolve_from_texts(ThemeMode::Dark, Some(static_text), None, &overrides).unwrap();
    assert_eq!(from_static.get("primary").unwrap(), "#ff0000");
    assert_eq!(from_static.get("surface").unwrap(), "#000000");
}

#[test]
fn valid_static_file_wins_regardless_of_generator() {
    let overrides = no_overrides();
    let static_text = "{\"primary\": \"#123456\"}";
    let generated_text = "{\"colors\": {\"primary\": {\"dark\": \"#abcdef\"}}}";
    let with_generator = resolve_from_texts(
        ThemeMode::Dark,
        Some(static_text),
        Some(generated_text),
        &overrides,
    )
    .unwrap();
    let without_generator =
        resolve_from_texts(ThemeMode::Dark, Some(static_text), None, &overrides).unwrap();
    assert_eq!(with_generator.get("primary").unwrap(), "#123456");
    assert_eq!(without_generator.get("primary").unwrap(), "#123456");
    // The static source is used exactly: no fallback role leaks in.
    assert!(with_generator.get("surface").is_none());
}

#[test]
fn malformed_static_file_is_a_hard_failure() {
    let overrides = no_overrides();
    let result = resolve_from_texts(ThemeMode::Dark, Some("{not json"), None, &overrides);
    let err = result.unwrap_err();
    assert!(err.is_config());
    assert_eq!(
        err.message(),
        "Config error: Failed to parse custom colors JSON"
    );
}

#[test]
fn broken_generator_output_degrades_to_fallback() {
    let overrides = no_overrides();
    let scheme =
        resolve_from_texts(ThemeMode::Dark, None, Some("not json at all"), &overrides).unwrap();
    assert_eq!(scheme.get("surface").unwrap(), "#12131a");
}

#[test]
fn generator_output_is_used_when_it_parses() {
    let overrides = no_overrides();
    let generated_text = "{\"colors\": {\"primary\": {\"dark\": \"#abcdef\", \"light\": \"#fedcba\"}}}";
    let scheme =
        resolve_from_texts(ThemeMode::Dark, None, Some(generated_text), &overrides).unwrap();
    assert_eq!(scheme.get("primary").unwrap(), "#abcdef");
}

#[test]
fn parse_color_entries_reads_string_members() {
    let entries = parse_color_entries("{\"a\": \"#111111\", \"b\": 3, \"c\": \"#222222\"}").unwrap();
    assert_eq!(entries.len(), 2);
    assert!(entries.contains(&("a".to_string(), "#111111".to_string())));
    assert!(entries.contains(&("c".to_string(), "#222222".to_string())));
}

#[test]
fn generator_invocation_is_fixed() {
    let (program, args) =
        lmtt::resolve::generator_command("/walls/a.png", ThemeMode::Dark, "scheme-expressive");
    assert_eq!(program, "matugen");
    assert_eq!(
        args,
        vec![
            "--json",
            "hex",
            "--dry-run",
            "image",
            "/walls/a.png",
            "--mode",
            "dark",
            "--type",
            "scheme-expressive"
        ]
    );
}

#[test]
fn resolve_scheme_reports_the_static_error() {
    let overrides = no_overrides();
    let err = lmtt::error::Error::Config("bad".to_string());
    let r = resolve_scheme(ThemeMode::Dark, Some(Err(err)), None, &overrides);
    assert!(matches!(r, Err(lmtt::error::Error::Config(_))));
}
