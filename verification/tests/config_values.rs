//! Configuration defaults, module settings, path expansion and rendering.

use lmtt::config::{expand_env_vars, expand_tilde, Config, ModuleSetting};
use lmtt::render::config_toml_string;
use lmtt::scheme::ThemeMode;

#[test]
fn defaults_match_the_documented_values() {
    let c = Config::new_default();
    assert_eq!(c.general.wallpaper, "~/Pictures/forrest.png");
    assert_eq!(c.general.default_mode, ThemeMode::Dark);
    assert_eq!(c.general.scheme_type, "scheme-expressive");
    assert!(c.general.use_matugen);
    assert_eq!(c.general.default_light_colors, "~/.config/lmtt/colors-light.json");
    assert_eq!(c.general.default_dark_colors, "~/.config/lmtt/colors-dark.json");
    assert!(c.notifications.enabled);
    assert_eq!(c.notifications.timeout, 5000);
    assert_eq!(c.performance.timeout, 10);
    assert_eq!(c.performance.slow_module_threshold, 250);
    assert_eq!(c.cache.dir, "~/.cache/lmtt");
    assert_eq!(c.logging.level, "info");
    assert_eq!(c.logging.max_log_size, 10);
    assert_eq!(c.theme_profiles.dark.cursor_size, 24);
    assert_eq!(c.theme_profiles.dark.terminal_font_size, 11);
    assert_eq!(c.theme_profiles.dark.terminal_opacity_pct, 95);
}

#[test]
fn default_trait_matches_the_constructors() {
    let d = Config::default();
    assert_eq!(d.general.wallpaper, "~/Pictures/forrest.png");
    assert_eq!(d.general.default_mode, ThemeMode::Dark);
    assert!(d.modules.modules.is_empty());
    assert!(d.colors.colors.is_empty());
    let s = ModuleSetting::default();
    assert!(s.enabled && !s.restart && s.command.is_none());
}

#[test]
fn unnamed_modules_are_enabled_by_default() {
    let c = Config::new_default();
    assert!(c.is_module_enabled("gtk"));
    assert!(!c.should_module_restart("gtk"));
    assert!(c.module_command("gtk").is_none());
}

#[test]
fn named_module_settings_are_honored() {
    let mut c = Config::new_default();
    c.modules.modules.push((
        "waybar".to_string(),
        ModuleSetting {
            enabled: false,
            restart: true,
            command: Some("waybar --reload".to_string()),
        },
    ));
    assert!(!c.is_module_enabled("waybar"));
    assert!(c.should_module_restart("waybar"));
    assert_eq!(c.module_command("waybar").unwrap(), "waybar --reload");
    assert!(c.is_module_enabled("gtk"));
}

#[test]
fn tilde_expansion_uses_the_home_directory() {
    assert_eq!(expand_tilde("~/x/y", "/home/me"), "/home/me/x/y");
    assert_eq!(expand_tilde("/abs/path", "/home/me"), "/abs/path");
    assert_eq!(expand_tilde("~", "/home/me"), "~");
}

#[test]
fn env_expansion_handles_both_forms() {
    let env = vec![
        ("HOME".to_string(), "/home/me".to_string()),
        ("USER".to_string(), "me".to_string()),
    ];
    assert_eq!(expand_env_vars("${HOME}/x", &env), "/home/me/x");
    assert_eq!(expand_env_vars("$HOME/x", &env), "/home/me/x");
    assert_eq!(expand_env_vars("a $USER b", &env), "a me b");
    assert_eq!(expand_env_vars("no vars", &env), "no vars");
    assert_eq!(expand_env_vars("${MISSING}/x", &env), "${MISSING}/x");
    assert_eq!(expand_env_vars("$MISSING/x", &env), "$MISSING/x");
    assert_eq!(expand_env_vars("${UNCLOSED", &env), "${UNCLOSED");
    assert_eq!(expand_env_vars("$", &env), "$");
}

#[test]
fn field_descriptions_cover_the_known_fields() {
    assert_eq!(
        Config::get_field_description("general", "wallpaper"),
        "Path to wallpaper image for theme color generation (supports ~)"
    );
    assert_eq!(
        Config::get_field_description("performance", "timeout"),
        "Maximum seconds to wait for all modules to complete (default: 10)"
    );
    assert_eq!(
        Config::get_field_description("nope", "nothing"),
        "No description available"
    );
}

#[test]
fn rendered_config_holds_the_documented_lines() {
    let c = Config::new_default();
    let text = config_toml_string(&c);
    assert!(text.starts_with("# LMTT (Linux Matugen Theme Toggle) Configuration\n"));
    assert!(text.contains("wallpaper = \"~/Pictures/forrest.png\"\n"));
    assert!(text.contains("default_mode = \"Dark\"\n"));
    assert!(text.contains("use_matugen = true\n"));
    assert!(text.contains("[notifications]\n"));
    assert!(text.contains("timeout = 5000\n"));
    assert!(text.contains("slow_module_threshold = 250\n"));
    assert!(text.contains("# [modules.gtk]\n"));
    assert!(text.contains("[theme_profiles.light]\n"));
    assert!(text.contains("cursor_size = 24\n"));
    assert!(text.contains("terminal_opacity = 0.95\n"));
    assert!(text.contains("window_blur = false\n"));
    // No overrides configured: no colors section.
    assert!(!text.contains("[colors]"));
}

#[test]
fn rendered_config_lists_configured_modules_and_overrides() {
    let mut c = Config::new_default();
    c.modules.modules.push((
        "waybar".to_string(),
        ModuleSetting {
            enabled: true,
            restart: false,
            command: Some("run me".to_string()),
        },
    ));
    c.colors.colors.push(("primary".to_string(), "#ff0000".to_string()));
    let text = config_toml_string(&c);
    assert!(text.contains("[modules.waybar]\nenabled = true\nrestart = false\ncommand = \"run me\"\n"));
    assert!(text.contains("[colors]\n# Custom color overrides\nprimary = \"#ff0000\"\n"));
}
