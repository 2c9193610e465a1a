//! The color-scheme data model and the per-module content builders.

use lmtt::custom::{
    CustomModule, CustomModuleDefinition, CustomModuleType, OutputConfig, ReloadConfig,
    SetupConfig, TemplateConfig,
};
use lmtt::gtk::GtkModule;
use lmtt::hyprpanel::{HyprPanelAction, HyprPanelModule};
use lmtt::nvim::NvimModule;
use lmtt::qt::QtModule;
use lmtt::scheme::{ColorScheme, ThemeMode};
use lmtt::swaync::SwayNCModule;
use lmtt::vscode::VSCodeModule;
use lmtt::waybar::WaybarModule;
use lmtt::wofi::WofiModule;
use lmtt::xdg::XdgModule;

fn scheme_with(entries: &[(&str, &str)]) -> ColorScheme {
    let mut s = ColorScheme::new(ThemeMode::Dark);
    for (k, v) in entries {
        s.set(k.to_string(), v.to_string());
    }
    s
}

#[test]
fn set_and_get_roles() {
    let mut s = ColorScheme::new(ThemeMode::Light);
    assert_eq!(s.mode(), ThemeMode::Light);
    assert!(s.get("primary").is_none());
    s.set("primary".to_string(), "#111111".to_string());
    s.set("surface".to_string(), "#222222".to_string());
    s.set("primary".to_string(), "#333333".to_string());
    assert_eq!(s.get("primary").unwrap(), "#333333");
    assert_eq!(s.get("surface").unwrap(), "#222222");
    assert_eq!(s.num_roles(), 2);
}

#[test]
fn gtk_css_lists_each_role() {
    let s = scheme_with(&[("primary", "#111111"), ("surface", "#222222")]);
    assert_eq!(
        s.to_gtk_css(),
        "@define-color primary #111111;\n@define-color surface #222222;\n"
    );
}

#[test]
fn mode_tokens() {
    assert_eq!(ThemeMode::Light.as_str(), "light");
    assert_eq!(ThemeMode::Dark.as_str(), "dark");
    assert_eq!(ThemeMode::Light.title_str(), "Light");
    assert_eq!(ThemeMode::Dark.toggled(), ThemeMode::Light);
    assert_eq!(ThemeMode::Light.toggled(), ThemeMode::Dark);
}

#[test]
fn gtk_module_plans_two_gsettings_calls() {
    let m = GtkModule::new();
    assert_eq!(m.name(), "gtk");
    assert_eq!(m.binary_name(), "gsettings");
    assert_eq!(m.priority(), 10);
    let commands = m.apply_commands(ThemeMode::Dark);
    assert_eq!(commands.len(), 2);
    assert_eq!(commands[0].0, "gsettings");
    assert_eq!(
        commands[0].1,
        vec!["set", "org.gnome.desktop.interface", "color-scheme", "prefer-dark"]
    );
    assert_eq!(
        commands[1].1,
        vec!["set", "org.gnome.desktop.interface", "gtk-theme", "Adwaita-dark"]
    );
    let light = m.apply_commands(ThemeMode::Light);
    assert_eq!(
        light[0].1,
        vec!["set", "org.gnome.desktop.interface", "color-scheme", "prefer-light"]
    );
}

#[test]
fn xdg_module_plans_the_portal_signal() {
    let m = XdgModule::new();
    assert_eq!(m.name(), "xdg");
    assert_eq!(m.priority(), 15);
    assert_eq!(m.portal_value(ThemeMode::Dark), "1");
    assert_eq!(m.portal_value(ThemeMode::Light), "2");
    let (prog, args) = m.signal_command(ThemeMode::Dark);
    assert_eq!(prog, "gdbus");
    assert_eq!(args.last().unwrap(), "<uint32 1>");
    assert_eq!(m.env_commands().len(), 3);
    assert_eq!(m.hyprctl_commands().len(), 2);
    let (status_prog, status_args) = m.status_command();
    assert_eq!(status_prog, "systemctl");
    assert_eq!(status_args, vec!["--user", "is-active", "--quiet", "xdg-desktop-portal"]);
}

#[test]
fn qt_module_renders_the_kde_scheme() {
    let m = QtModule::new();
    assert_eq!(m.priority(), 20);
    assert_eq!(m.scheme_filename(ThemeMode::Dark), "lmtt-dark.colors");
    let s = scheme_with(&[
        ("on_surface", "#e1e1e1"),
        ("surface", "#101010"),
        ("primary", "#aabbcc"),
    ]);
    let content = m.scheme_content(&s, ThemeMode::Dark);
    assert_eq!(
        content,
        "[ColorScheme]\nName=lmtt-dark\n\n[Colors:Window]\nForegroundNormal=#e1e1e1\nBackgroundNormal=#101010\n\n[Colors:Button]\nBackgroundNormal=#101010\n\n[Colors:Selection]\nBackgroundNormal=#aabbcc\n"
    );
    // Unset roles use the adapter defaults.
    let empty = ColorScheme::new(ThemeMode::Dark);
    let fallback = m.scheme_content(&empty, ThemeMode::Dark);
    assert!(fallback.contains("ForegroundNormal=#e3e1ec\n"));
}

#[test]
fn swaync_style_uses_the_scheme_colors() {
    let m = SwayNCModule::new();
    let s = scheme_with(&[("surface", "#101010"), ("error", "#ff2222")]);
    let css = m.style_content(&s);
    assert!(css.starts_with("/* SwayNC Theme - Material You (lmtt) */\n"));
    assert!(css.contains("@define-color cc-bg #101010;\n"));
    assert!(css.contains("@define-color noti-close-bg #ff2222;\n"));
    // Unset text color falls back to the dark palette value.
    assert!(css.contains("@define-color text-color #e3e1ec;\n"));
    let (prog, args) = m.reload_command();
    assert_eq!(prog, "swaync-client");
    assert_eq!(args, vec!["--reload-css"]);
}

#[test]
fn waybar_and_wofi_watch_their_stylesheets() {
    let waybar = WaybarModule::new();
    assert_eq!(waybar.css_path("/home/me/.config"), "/home/me/.config/matugen/lmtt-colors.css");
    let info = waybar.config_file(
        "/home/me/.config/waybar/style.css".to_string(),
        "body {}\n@import url('../matugen/lmtt-colors.css');\n",
    );
    assert!(info.already_present);
    assert_eq!(info.description, "Import lmtt colors into Waybar CSS");

    let wofi = WofiModule::new();
    let info = wofi.config_file("/home/me/.config/wofi/style.css".to_string(), "body {}\n");
    assert!(!info.already_present);
    assert_eq!(info.import_line, "@import url('../matugen/lmtt-colors.css');");
}

#[test]
fn nvim_module_builds_the_remote_expression() {
    let m = NvimModule::new();
    let mut profile = lmtt::config::ThemeProfile::new_default();
    assert_eq!(
        m.theme_command(ThemeMode::Dark, &profile),
        "_G.set_nvim_theme('dark')"
    );
    profile.neovim_colorscheme = Some("oxocarbon".to_string());
    assert_eq!(
        m.theme_command(ThemeMode::Light, &profile),
        "_G.set_nvim_theme('light', 'oxocarbon')"
    );
    assert!(m.is_socket_dir_name("nvim.12345.0"));
    assert!(!m.is_socket_dir_name("tmux-1000"));
    let (prog, args) = m.remote_command("/tmp/nvim.1/0", "_G.set_nvim_theme('dark')");
    assert_eq!(prog, "nvim");
    assert_eq!(args[0], "--server");
    assert_eq!(args[1], "/tmp/nvim.1/0");
}

#[test]
fn vscode_module_picks_the_profile_theme() {
    let m = VSCodeModule::new();
    let mut profile = lmtt::config::ThemeProfile::new_default();
    assert_eq!(m.theme_name(&profile, ThemeMode::Dark), "Default Dark+");
    assert_eq!(m.theme_name(&profile, ThemeMode::Light), "Default Light+");
    profile.vscode_theme = Some("Monokai".to_string());
    assert_eq!(m.theme_name(&profile, ThemeMode::Dark), "Monokai");
    let paths = m.settings_paths("/home/me");
    assert_eq!(paths.len(), 4);
    assert_eq!(paths[0], "/home/me/.config/Code/User/settings.json");
    let updated = m.updated_settings("{\"editor.fontSize\": 14}", "Monokai").unwrap();
    assert!(updated.contains("\"workbench.colorTheme\": \"Monokai\""));
    assert!(updated.contains("\"editor.fontSize\": 14"));
}

#[test]
fn hyprpanel_module_defers_to_swaync() {
    let m = HyprPanelModule::new();
    assert_eq!(m.plan(true, true), HyprPanelAction::StopForSwayNC);
    assert_eq!(m.plan(true, false), HyprPanelAction::StopForSwayNC);
    assert_eq!(m.plan(false, false), HyprPanelAction::Skip);
    assert_eq!(m.plan(false, true), HyprPanelAction::UpdateConfig);
    let updated = m.updated_config("{}", ThemeMode::Light).unwrap();
    assert!(updated.contains("\"theme.matugen_settings.mode\": \"light\""));
}

#[test]
fn custom_module_renders_its_template() {
    let definition = CustomModuleDefinition {
        name: "kitty".to_string(),
        description: String::new(),
        binary: "kitty".to_string(),
        priority: 100,
        module_type: CustomModuleType::Declarative {
            output: OutputConfig {
                path: "~/.config/kitty/colors.conf".to_string(),
                format: "conf".to_string(),
            },
            template: TemplateConfig {
                content: "background {{surface}}\nmode {{mode}}\n".to_string(),
            },
            reload: Some(ReloadConfig {
                command: "kill -SIGUSR1 kitty".to_string(),
                timeout: 10000,
            }),
            setup: None,
        },
    };
    let module = CustomModule::new(definition);
    assert_eq!(module.name(), "kitty");
    assert_eq!(module.priority(), 100);
    let scheme = scheme_with(&[("surface", "#101010")]);
    let (output, template, reload) = match &module.definition.module_type {
        CustomModuleType::Declarative {
            output,
            template,
            reload,
            ..
        } => (output, template, reload.as_ref()),
        CustomModuleType::Script { .. } => panic!("declarative definition expected"),
    };
    let plan = module
        .declarative_plan(output, template, reload, &scheme, ThemeMode::Dark, "/home/me")
        .unwrap();
    assert_eq!(plan.output_path, "/home/me/.config/kitty/colors.conf");
    assert_eq!(plan.content, "background #101010\nmode dark\n");
    assert_eq!(plan.reload_command.as_deref(), Some("kill -SIGUSR1 kitty"));
}

#[test]
fn custom_module_script_payloads() {
    let definition = CustomModuleDefinition {
        name: "myscript".to_string(),
        description: String::new(),
        binary: "sh".to_string(),
        priority: 100,
        module_type: CustomModuleType::Script {
            script: lmtt::custom::ScriptConfig {
                path: "~/bin/theme.sh".to_string(),
                timeout: 10000,
                pass_as_env: true,
            },
        },
    };
    let module = CustomModule::new(definition);
    let scheme = scheme_with(&[("surface", "#101010")]);
    let env = module.env_payload(&scheme, ThemeMode::Dark);
    assert_eq!(env, vec![
        ("LMTT_SURFACE".to_string(), "#101010".to_string()),
        ("LMTT_MODE".to_string(), "dark".to_string()),
    ]);
    assert_eq!(module.temp_file_name(), "lmtt-myscript.json");
    let json = module.json_payload(&scheme);
    assert_eq!(json, "{\"surface\":\"#101010\"}");
}

#[test]
fn custom_module_setup_description_defaults() {
    let setup = SetupConfig {
        config_file: "~/.config/kitty/kitty.conf".to_string(),
        import_line: "import colors.conf".to_string(),
        description: String::new(),
    };
    let definition = CustomModuleDefinition {
        name: "kitty".to_string(),
        description: String::new(),
        binary: "kitty".to_string(),
        priority: 100,
        module_type: CustomModuleType::Script {
            script: lmtt::custom::ScriptConfig {
                path: "x".to_string(),
                timeout: 1,
                pass_as_env: false,
            },
        },
    };
    let module = CustomModule::new(definition);
    let info = module.config_file(&setup, "/home/me/.config/kitty/kitty.conf".to_string(), "");
    assert_eq!(info.description, "Import LMTT colors for kitty");
    assert!(!info.already_present);
}
