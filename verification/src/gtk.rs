//! The GTK settings bridge: a platform module that flips the desktop's
//! color-scheme preference and GTK theme through the settings daemon.
//! It plans the `gsettings` invocations; running them is the embedding
//! program's concern.

use vstd::prelude::*;
use crate::registry::ModuleEntry;
use crate::scheme::ThemeMode;

verus! {

/// The GTK platform module.
pub struct GtkModule;

/// The `gsettings` invocations for a switch to `mode`: set the
/// color-scheme preference, then the GTK theme.
pub open spec fn spec_gtk_commands(mode: ThemeMode) -> Seq<(Seq<char>, Seq<Seq<char>>)> {
    let pref: Seq<char> = if mode is Light {
        "prefer-light"@
    } else {
        "prefer-dark"@
    };
    let theme: Seq<char> = if mode is Light {
        "Adwaita"@
    } else {
        "Adwaita-dark"@
    };
    seq![
        ("gsettings"@, seq!["set"@, "org.gnome.desktop.interface"@, "color-scheme"@, pref]),
        ("gsettings"@, seq!["set"@, "org.gnome.desktop.interface"@, "gtk-theme"@, theme]),
    ]
}

impl GtkModule {
    /// The GTK module.
    pub fn new() -> (r: GtkModule) {
        GtkModule
    }

    /// Stable module name.
    pub fn name(&self) -> (r: &'static str)
        ensures
            r@ == "gtk"@,
    {
        "gtk"
    }

    /// The binary whose presence means GTK theming is available.
    pub fn binary_name(&self) -> (r: &'static str)
        ensures
            r@ == "gsettings"@,
    {
        "gsettings"
    }

    /// Platform module: runs ahead of application modules.
    pub fn priority(&self) -> (r: u8)
        ensures
            r == 10,
    {
        10
    }

    /// This module's registry entry.
    pub fn entry(&self) -> (r: ModuleEntry)
        ensures
            r.name@ == "gtk"@,
            r.binary@ == "gsettings"@,
            r.priority == 10,
    {
        ModuleEntry {
            name: String::from_str("gtk"),
            binary: String::from_str("gsettings"),
            priority: 10,
        }
    }

    /// The color-scheme preference value for a mode.
    pub fn preference(&self, mode: ThemeMode) -> (r: &'static str)
        ensures
            mode is Light ==> r@ == "prefer-light"@,
            mode is Dark ==> r@ == "prefer-dark"@,
    {
        match mode {
            ThemeMode::Light => "prefer-light",
            ThemeMode::Dark => "prefer-dark",
        }
    }

    /// The GTK theme name for a mode.
    pub fn theme_name(&self, mode: ThemeMode) -> (r: &'static str)
        ensures
            mode is Light ==> r@ == "Adwaita"@,
            mode is Dark ==> r@ == "Adwaita-dark"@,
    {
        match mode {
            ThemeMode::Light => "Adwaita",
            ThemeMode::Dark => "Adwaita-dark",
        }
    }

    /// The commands to run, in order, for a switch to `mode`.
    pub fn apply_commands(&self, mode: ThemeMode) -> (r: Vec<(String, Vec<String>)>)
        ensures
            r.deep_view() == spec_gtk_commands(mode),
    {
        let mut args1: Vec<String> = Vec::new();
        args1.push(String::from_str("set"));
        args1.push(String::from_str("org.gnome.desktop.interface"));
        args1.push(String::from_str("color-scheme"));
        args1.push(String::from_str(self.preference(mode)));
        let mut args2: Vec<String> = Vec::new();
        args2.push(String::from_str("set"));
        args2.push(String::from_str("org.gnome.desktop.interface"));
        args2.push(String::from_str("gtk-theme"));
        args2.push(String::from_str(self.theme_name(mode)));
        let mut r: Vec<(String, Vec<String>)> = Vec::new();
        r.push((String::from_str("gsettings"), args1));
        r.push((String::from_str("gsettings"), args2));
        proof {
            assert(r.deep_view() =~~= spec_gtk_commands(mode));
        }
        r
    }
}

} // verus!
