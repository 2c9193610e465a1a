//! The Waybar module: the resolved palette is rendered as GTK CSS into a
//! shared color file that Waybar's stylesheet imports; Waybar hot-reloads
//! the stylesheet itself. Writing the file is the embedding program's
//! concern.

use vstd::prelude::*;
use crate::module::{ConfigFileInfo, config_file_info};
use crate::registry::ModuleEntry;
use crate::strutil::contains_seq;

verus! {

/// The Waybar module.
pub struct WaybarModule;

impl WaybarModule {
    /// The Waybar module.
    pub fn new() -> (r: WaybarModule) {
        WaybarModule
    }

    /// Stable module name.
    pub fn name(&self) -> (r: &'static str)
        ensures
            r@ == "waybar"@,
    {
        "waybar"
    }

    /// The binary whose presence means Waybar is installed.
    pub fn binary_name(&self) -> (r: &'static str)
        ensures
            r@ == "waybar"@,
    {
        "waybar"
    }

    /// Application module: the default priority.
    pub fn priority(&self) -> (r: u8)
        ensures
            r == 100,
    {
        100
    }

    /// This module's registry entry.
    pub fn entry(&self) -> (r: ModuleEntry)
        ensures
            r.name@ == "waybar"@,
            r.binary@ == "waybar"@,
            r.priority == 100,
    {
        ModuleEntry {
            name: String::from_str("waybar"),
            binary: String::from_str("waybar"),
            priority: 100,
        }
    }

    /// Path of the shared color CSS file under the config directory.
    pub fn css_path(&self, config_dir: &str) -> (r: String)
        ensures
            r@ == config_dir@ + "/matugen/lmtt-colors.css"@,
    {
        let mut out = String::from_str(config_dir);
        out.append("/matugen/lmtt-colors.css");
        out
    }

    /// Path of Waybar's own stylesheet under the config directory.
    pub fn style_path(&self, config_dir: &str) -> (r: String)
        ensures
            r@ == config_dir@ + "/waybar/style.css"@,
    {
        let mut out = String::from_str(config_dir);
        out.append("/waybar/style.css");
        out
    }

    /// The import line Waybar's stylesheet needs.
    pub fn import_line(&self) -> (r: &'static str)
        ensures
            r@ == "@import url('../matugen/lmtt-colors.css');"@,
    {
        "@import url('../matugen/lmtt-colors.css');"
    }

    /// Describe the stylesheet from its current content.
    pub fn config_file(&self, path: String, content: &str) -> (r: ConfigFileInfo)
        ensures
            r.path@ == path@,
            r.import_line@ == "@import url('../matugen/lmtt-colors.css');"@,
            r.description@ == "Import lmtt colors into Waybar CSS"@,
            r.already_present == contains_seq(
                content@,
                "@import url('../matugen/lmtt-colors.css');"@,
            ),
    {
        config_file_info(path, self.import_line(), "Import lmtt colors into Waybar CSS", content)
    }
}

} // verus!
