//! The HyprPanel module: when SwayNC is installed the panel is stopped so
//! the two do not fight over notifications; otherwise the panel's JSON
//! config gets its generator mode flipped and the panel is restarted.
//! Process control and file writes are the embedding program's concern.

use vstd::prelude::*;
use crate::jsonio::set_json_string_key;
use crate::registry::ModuleEntry;
use crate::scheme::ThemeMode;

verus! {

/// What a switch should do with the panel.
#[derive(PartialEq, Eq, Structural, Debug, Clone, Copy)]
pub enum HyprPanelAction {
    /// SwayNC is installed: stop the panel and do nothing else.
    StopForSwayNC,
    /// The panel has no config file: nothing to do.
    Skip,
    /// Rewrite the config's mode and restart the panel if it runs.
    UpdateConfig,
}

/// The HyprPanel module.
pub struct HyprPanelModule;

impl HyprPanelModule {
    /// The HyprPanel module.
    pub fn new() -> (r: HyprPanelModule) {
        HyprPanelModule
    }

    /// Stable module name.
    pub fn name(&self) -> (r: &'static str)
        ensures
            r@ == "hyprpanel"@,
    {
        "hyprpanel"
    }

    /// The binary whose presence means HyprPanel is installed.
    pub fn binary_name(&self) -> (r: &'static str)
        ensures
            r@ == "hyprpanel"@,
    {
        "hyprpanel"
    }

    /// Application module: the default priority.
    pub fn priority(&self) -> (r: u8)
        ensures
            r == 100,
    {
        100
    }

    /// This module's registry entry.
    pub fn entry(&self) -> (r: ModuleEntry)
        ensures
            r.name@ == "hyprpanel"@,
            r.binary@ == "hyprpanel"@,
            r.priority == 100,
    {
        ModuleEntry {
            name: String::from_str("hyprpanel"),
            binary: String::from_str("hyprpanel"),
            priority: 100,
        }
    }

    /// Path of the panel's config file under the config directory.
    pub fn config_path(&self, config_dir: &str) -> (r: String)
        ensures
            r@ == config_dir@ + "/hyprpanel/config.json"@,
    {
        let mut out = String::from_str(config_dir);
        out.append("/hyprpanel/config.json");
        out
    }

    /// Decide what a switch does, from what is on the host: SwayNC takes
    /// priority over the panel; a panel without a config file is skipped.
    pub fn plan(&self, swaync_installed: bool, config_exists: bool) -> (r: HyprPanelAction)
        ensures
            swaync_installed ==> r is StopForSwayNC,
            !swaync_installed && !config_exists ==> r is Skip,
            !swaync_installed && config_exists ==> r is UpdateConfig,
    {
        if swaync_installed {
            HyprPanelAction::StopForSwayNC
        } else if !config_exists {
            HyprPanelAction::Skip
        } else {
            HyprPanelAction::UpdateConfig
        }
    }

    /// The panel config with its generator mode member set for `mode`. A
    /// config that does not parse as a JSON object is replaced by one that
    /// holds only that member.
    pub fn updated_config(&self, content: &str, mode: ThemeMode) -> Option<String> {
        set_json_string_key(content, "theme.matugen_settings.mode", mode.as_str())
    }
}

} // verus!
