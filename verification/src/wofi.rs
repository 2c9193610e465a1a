//! The Wofi module: Wofi shares the same color CSS file as Waybar, so a
//! switch needs no work beyond keeping the import line in Wofi's
//! stylesheet.

use vstd::prelude::*;
use crate::module::{ConfigFileInfo, config_file_info};
use crate::registry::ModuleEntry;
use crate::strutil::contains_seq;

verus! {

/// The Wofi module.
pub struct WofiModule;

impl WofiModule {
    /// The Wofi module.
    pub fn new() -> (r: WofiModule) {
        WofiModule
    }

    /// Stable module name.
    pub fn name(&self) -> (r: &'static str)
        ensures
            r@ == "wofi"@,
    {
        "wofi"
    }

    /// The binary whose presence means Wofi is installed.
    pub fn binary_name(&self) -> (r: &'static str)
        ensures
            r@ == "wofi"@,
    {
        "wofi"
    }

    /// Application module: the default priority.
    pub fn priority(&self) -> (r: u8)
        ensures
            r == 100,
    {
        100
    }

    /// This module's registry entry.
    pub fn entry(&self) -> (r: ModuleEntry)
        ensures
            r.name@ == "wofi"@,
            r.binary@ == "wofi"@,
            r.priority == 100,
    {
        ModuleEntry {
            name: String::from_str("wofi"),
            binary: String::from_str("wofi"),
            priority: 100,
        }
    }

    /// Path of Wofi's stylesheet under the config directory.
    pub fn style_path(&self, config_dir: &str) -> (r: String)
        ensures
            r@ == config_dir@ + "/wofi/style.css"@,
    {
        let mut out = String::from_str(config_dir);
        out.append("/wofi/style.css");
        out
    }

    /// The import line Wofi's stylesheet needs.
    pub fn import_line(&self) -> (r: &'static str)
        ensures
            r@ == "@import url('../matugen/lmtt-colors.css');"@,
    {
        "@import url('../matugen/lmtt-colors.css');"
    }

    /// Describe the stylesheet from its current content.
    pub fn config_file(&self, path: String, content: &str) -> (r: ConfigFileInfo)
        ensures
            r.path@ == path@,
            r.import_line@ == "@import url('../matugen/lmtt-colors.css');"@,
            r.description@ == "Import lmtt colors into Wofi CSS"@,
            r.already_present == contains_seq(
                content@,
                "@import url('../matugen/lmtt-colors.css');"@,
            ),
    {
        config_file_info(path, self.import_line(), "Import lmtt colors into Wofi CSS", content)
    }
}

} // verus!
