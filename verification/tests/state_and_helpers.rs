//! Persisted state, string helpers, tab navigation and flow decisions.

use lmtt::cache::{to_hex_lower, Cache};
use lmtt::cleanup::find_module_index;
use lmtt::registry::ModuleRegistry;
use lmtt::setup::{parse_setup_choice, SetupChoice};
use lmtt::strutil::{
    contains_sub, eq_ignore_ascii_case_str, find_sub, i32_to_string, split_char, starts_with_sub,
    to_ascii_lower, to_ascii_upper, trim, trim_start, u64_to_string,
};
use lmtt::tabs::{next_index, previous_index, ConfigTab};
use lmtt::theme_detection::{colorscheme_stem, parse_fc_list_families, vscode_base_themes};

#[test]
fn wallpaper_hash_is_the_hex_digest() {
    let cache = Cache::new("/tmp/lmtt-test".to_string());
    // The digest of the empty input is a fixed, published value.
    assert_eq!(
        cache.wallpaper_hash(&Vec::new()),
        "e3b0c44298fc1c149afbf4c8996fb92427ae41e4649b934ca495991b7852b855"
    );
    let abc: Vec<u8> = vec![97, 98, 99];
    assert_eq!(
        cache.wallpaper_hash(&abc),
        "ba7816bf8f01cfea414140de5dae2223b00361a396177a9cb410ff61f20015ad"
    );
}

#[test]
fn hex_encoding_is_two_digits_per_byte() {
    assert_eq!(to_hex_lower(&vec![0xbe, 0xef, 0x00, 0x0a]), "beef000a");
    assert_eq!(to_hex_lower(&Vec::new()), "");
}

#[test]
fn wallpaper_change_detection() {
    let cache = Cache::new("/x".to_string());
    assert!(cache.wallpaper_changed_given("abc", None));
    assert!(!cache.wallpaper_changed_given("abc", Some("abc\n")));
    assert!(cache.wallpaper_changed_given("abc", Some("def")));
    assert_eq!(cache.hash_file_path(), "/x/wallpaper.hash");
    assert_eq!(cache.state_file_path(), "/x/theme_state");
}

#[test]
fn theme_state_defaults_to_dark() {
    let cache = Cache::new("/x".to_string());
    assert_eq!(cache.theme_state_from(None), "dark");
    assert_eq!(cache.theme_state_from(Some("light\n")), "light");
}

#[test]
fn setup_choices_are_lenient() {
    assert_eq!(parse_setup_choice("q"), SetupChoice::Quit);
    assert_eq!(parse_setup_choice(" Q \n"), SetupChoice::Quit);
    assert_eq!(parse_setup_choice("n"), SetupChoice::Skip);
    assert_eq!(parse_setup_choice(""), SetupChoice::Inject);
    assert_eq!(parse_setup_choice("\n"), SetupChoice::Inject);
    assert_eq!(parse_setup_choice("y"), SetupChoice::Inject);
    assert_eq!(parse_setup_choice("Y"), SetupChoice::Inject);
    assert_eq!(parse_setup_choice("maybe"), SetupChoice::Invalid);
}

#[test]
fn module_lookup_ignores_ascii_case() {
    let registry = ModuleRegistry::new();
    let i = find_module_index(&registry, "GTK").unwrap();
    assert_eq!(registry.modules[i].name, "gtk");
    assert!(find_module_index(&registry, "unknown").is_none());
}

#[test]
fn tabs_cycle_in_display_order() {
    let all = ConfigTab::all();
    assert_eq!(all.len(), 6);
    assert_eq!(all[0].name(), "General");
    assert_eq!(all[5].name(), "Logging");
    assert_eq!(ConfigTab::General.next(), ConfigTab::Notifications);
    assert_eq!(ConfigTab::Logging.next(), ConfigTab::General);
    assert_eq!(ConfigTab::General.previous(), ConfigTab::Logging);
    assert_eq!(ConfigTab::Modules.item_count(9), 9);
    assert_eq!(ConfigTab::General.item_count(9), 6);
}

#[test]
fn selection_wraps_around() {
    assert_eq!(next_index(Some(0), 3), 1);
    assert_eq!(next_index(Some(2), 3), 0);
    assert_eq!(next_index(None, 3), 0);
    assert_eq!(previous_index(Some(0), 3), 2);
    assert_eq!(previous_index(Some(2), 3), 1);
    assert_eq!(previous_index(None, 3), 0);
}

#[test]
fn string_helpers() {
    assert_eq!(find_sub("hello world", "world"), Some(6));
    assert_eq!(find_sub("hello", "xyz"), None);
    assert!(contains_sub("abcdef", "cde"));
    assert!(!contains_sub("abcdef", "gh"));
    assert!(starts_with_sub("~/path", "~/"));
    assert!(!starts_with_sub("/path", "~/"));
    assert_eq!(trim_start("  \n x "), "x ");
    assert_eq!(trim("  x y\t\n"), "x y");
    assert_eq!(u64_to_string(0), "0");
    assert_eq!(u64_to_string(10250), "10250");
    assert_eq!(i32_to_string(-42), "-42");
    assert_eq!(i32_to_string(5000), "5000");
    assert_eq!(to_ascii_upper("on_surface"), "ON_SURFACE");
    assert_eq!(to_ascii_lower("Waybar"), "waybar");
    assert!(eq_ignore_ascii_case_str("GtK", "gtk"));
    assert!(!eq_ignore_ascii_case_str("gtk", "qt"));
    assert_eq!(split_char("a,b,,c", ','), vec!["a", "b", "", "c"]);
    assert_eq!(split_char("abc", ','), vec!["abc"]);
}

#[test]
fn font_list_output_is_parsed_and_deduplicated() {
    let out = parse_fc_list_families("DejaVu Sans, DejaVu Sans Light\nNoto Sans\n\nDejaVu Sans\n");
    assert_eq!(out, vec!["DejaVu Sans", "DejaVu Sans Light", "Noto Sans"]);
}

#[test]
fn colorscheme_stems() {
    assert_eq!(colorscheme_stem("gruvbox.vim").unwrap(), "gruvbox");
    assert_eq!(colorscheme_stem("oxocarbon.lua").unwrap(), "oxocarbon");
    assert!(colorscheme_stem("README.md").is_none());
    assert_eq!(vscode_base_themes().len(), 5);
}
