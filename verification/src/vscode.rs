//! The VSCode module: every installed VSCode-family editor gets its
//! `workbench.colorTheme` setting rewritten to the profile's theme for the
//! mode. Finding and writing the settings files is the embedding program's
//! concern.

use vstd::prelude::*;
use crate::config::ThemeProfile;
use crate::jsonio::set_json_string_key;
use crate::registry::ModuleEntry;
use crate::scheme::ThemeMode;

verus! {

/// The VSCode module.
pub struct VSCodeModule;

impl VSCodeModule {
    /// The VSCode module.
    pub fn new() -> (r: VSCodeModule) {
        VSCodeModule
    }

    /// Stable module name.
    pub fn name(&self) -> (r: &'static str)
        ensures
            r@ == "vscode"@,
    {
        "vscode"
    }

    /// The binary whose presence means a VSCode-family editor is installed.
    pub fn binary_name(&self) -> (r: &'static str)
        ensures
            r@ == "code"@,
    {
        "code"
    }

    /// Application module: the default priority.
    pub fn priority(&self) -> (r: u8)
        ensures
            r == 100,
    {
        100
    }

    /// This module's registry entry.
    pub fn entry(&self) -> (r: ModuleEntry)
        ensures
            r.name@ == "vscode"@,
            r.binary@ == "code"@,
            r.priority == 100,
    {
        ModuleEntry {
            name: String::from_str("vscode"),
            binary: String::from_str("code"),
            priority: 100,
        }
    }

    /// The settings files of the VSCode-family editors, under the home
    /// directory. Only the ones that exist are rewritten.
    pub fn settings_paths(&self, home: &str) -> (r: Vec<String>)
        ensures
            r.deep_view() == seq![
                home@ + "/.config/Code/User/settings.json"@,
                home@ + "/.config/Cursor/User/settings.json"@,
                home@ + "/.config/Code - OSS/User/settings.json"@,
                home@ + "/.config/VSCodium/User/settings.json"@,
            ],
    {
        let mut p1 = String::from_str(home);
        p1.append("/.config/Code/User/settings.json");
        let mut p2 = String::from_str(home);
        p2.append("/.config/Cursor/User/settings.json");
        let mut p3 = String::from_str(home);
        p3.append("/.config/Code - OSS/User/settings.json");
        let mut p4 = String::from_str(home);
        p4.append("/.config/VSCodium/User/settings.json");
        let mut r: Vec<String> = Vec::new();
        r.push(p1);
        r.push(p2);
        r.push(p3);
        r.push(p4);
        proof {
            assert(r.deep_view() =~~= seq![
                home@ + "/.config/Code/User/settings.json"@,
                home@ + "/.config/Cursor/User/settings.json"@,
                home@ + "/.config/Code - OSS/User/settings.json"@,
                home@ + "/.config/VSCodium/User/settings.json"@,
            ]);
        }
        r
    }

    /// The theme name to set: the profile's explicit choice, else the
    /// editor's default theme for the mode.
    pub fn theme_name(&self, profile: &ThemeProfile, mode: ThemeMode) -> (r: String)
        ensures
            profile.vscode_theme matches Some(t) ==> r@ == t@,
            profile.vscode_theme is None && mode is Light ==> r@ == "Default Light+"@,
            profile.vscode_theme is None && mode is Dark ==> r@ == "Default Dark+"@,
    {
        match &profile.vscode_theme {
            Some(t) => t.clone(),
            None => match mode {
                ThemeMode::Light => String::from_str("Default Light+"),
                ThemeMode::Dark => String::from_str("Default Dark+"),
            },
        }
    }

    /// A settings document with `workbench.colorTheme` set to the theme. A
    /// document that does not parse as a JSON object is replaced by one that
    /// holds only the theme setting.
    pub fn updated_settings(&self, content: &str, theme: &str) -> Option<String> {
        set_json_string_key(content, "workbench.colorTheme", theme)
    }
}

} // verus!
