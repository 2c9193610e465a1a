//! The XDG portal bridge: a platform module that makes sure the desktop
//! portal is running, exports the portal environment, and emits the
//! color-scheme change signal. It plans the commands; running them is the
//! embedding program's concern.

use vstd::prelude::*;
use crate::registry::ModuleEntry;
use crate::scheme::ThemeMode;

verus! {

/// The XDG portal platform module.
pub struct XdgModule;

/// The portal's color-scheme signal value: 1 for dark, 2 for light.
pub open spec fn spec_portal_value(mode: ThemeMode) -> Seq<char> {
    if mode is Dark {
        "1"@
    } else {
        "2"@
    }
}

impl XdgModule {
    /// The XDG portal module.
    pub fn new() -> (r: XdgModule) {
        XdgModule
    }

    /// Stable module name.
    pub fn name(&self) -> (r: &'static str)
        ensures
            r@ == "xdg"@,
    {
        "xdg"
    }

    /// The binary whose presence means the portal signal can be emitted.
    pub fn binary_name(&self) -> (r: &'static str)
        ensures
            r@ == "gdbus"@,
    {
        "gdbus"
    }

    /// Platform module: runs after GTK but before application modules.
    pub fn priority(&self) -> (r: u8)
        ensures
            r == 15,
    {
        15
    }

    /// This module's registry entry.
    pub fn entry(&self) -> (r: ModuleEntry)
        ensures
            r.name@ == "xdg"@,
            r.binary@ == "gdbus"@,
            r.priority == 15,
    {
        ModuleEntry {
            name: String::from_str("xdg"),
            binary: String::from_str("gdbus"),
            priority: 15,
        }
    }

    /// The portal's color-scheme value for a mode.
    pub fn portal_value(&self, mode: ThemeMode) -> (r: &'static str)
        ensures
            r@ == spec_portal_value(mode),
    {
        match mode {
            ThemeMode::Dark => "1",
            ThemeMode::Light => "2",
        }
    }

    /// The command that asks whether the portal service is active.
    pub fn status_command(&self) -> (r: (String, Vec<String>))
        ensures
            r.deep_view() == (
                "systemctl"@,
                seq!["--user"@, "is-active"@, "--quiet"@, "xdg-desktop-portal"@],
            ),
    {
        let mut args: Vec<String> = Vec::new();
        args.push(String::from_str("--user"));
        args.push(String::from_str("is-active"));
        args.push(String::from_str("--quiet"));
        args.push(String::from_str("xdg-desktop-portal"));
        let r = (String::from_str("systemctl"), args);
        proof {
            assert(r.deep_view() =~~= (
                "systemctl"@,
                seq!["--user"@, "is-active"@, "--quiet"@, "xdg-desktop-portal"@],
            ));
        }
        r
    }

    /// The command that starts the portal service when it is not active.
    pub fn start_command(&self) -> (r: (String, Vec<String>))
        ensures
            r.deep_view() == ("systemctl"@, seq!["--user"@, "start"@, "xdg-desktop-portal"@]),
    {
        let mut args: Vec<String> = Vec::new();
        args.push(String::from_str("--user"));
        args.push(String::from_str("start"));
        args.push(String::from_str("xdg-desktop-portal"));
        let r = (String::from_str("systemctl"), args);
        proof {
            assert(r.deep_view() =~~= (
                "systemctl"@,
                seq!["--user"@, "start"@, "xdg-desktop-portal"@],
            ));
        }
        r
    }

    /// The commands that export the portal environment.
    pub fn env_commands(&self) -> (r: Vec<(String, Vec<String>)>)
        ensures
            r.deep_view() == seq![
                (
                    "systemctl"@,
                    seq!["--user"@, "set-environment"@, "XDG_CURRENT_DESKTOP=Hyprland"@],
                ),
                ("systemctl"@, seq!["--user"@, "set-environment"@, "GTK_USE_PORTAL=1"@]),
                (
                    "dbus-update-activation-environment"@,
                    seq!["--systemd"@, "XDG_CURRENT_DESKTOP=Hyprland"@, "GTK_USE_PORTAL=1"@],
                ),
            ],
    {
        let mut a1: Vec<String> = Vec::new();
        a1.push(String::from_str("--user"));
        a1.push(String::from_str("set-environment"));
        a1.push(String::from_str("XDG_CURRENT_DESKTOP=Hyprland"));
        let mut a2: Vec<String> = Vec::new();
        a2.push(String::from_str("--user"));
        a2.push(String::from_str("set-environment"));
        a2.push(String::from_str("GTK_USE_PORTAL=1"));
        let mut a3: Vec<String> = Vec::new();
        a3.push(String::from_str("--systemd"));
        a3.push(String::from_str("XDG_CURRENT_DESKTOP=Hyprland"));
        a3.push(String::from_str("GTK_USE_PORTAL=1"));
        let mut r: Vec<(String, Vec<String>)> = Vec::new();
        r.push((String::from_str("systemctl"), a1));
        r.push((String::from_str("systemctl"), a2));
        r.push((String::from_str("dbus-update-activation-environment"), a3));
        proof {
            assert(r.deep_view() =~~= seq![
                (
                    "systemctl"@,
                    seq!["--user"@, "set-environment"@, "XDG_CURRENT_DESKTOP=Hyprland"@],
                ),
                ("systemctl"@, seq!["--user"@, "set-environment"@, "GTK_USE_PORTAL=1"@]),
                (
                    "dbus-update-activation-environment"@,
                    seq!["--systemd"@, "XDG_CURRENT_DESKTOP=Hyprland"@, "GTK_USE_PORTAL=1"@],
                ),
            ]);
        }
        r
    }

    /// The best-effort commands that export the same environment into the
    /// window manager, used only when `hyprctl` is installed.
    pub fn hyprctl_commands(&self) -> (r: Vec<(String, Vec<String>)>)
        ensures
            r.deep_view() == seq![
                ("hyprctl"@, seq!["setenv"@, "XDG_CURRENT_DESKTOP"@, "Hyprland"@]),
                ("hyprctl"@, seq!["setenv"@, "GTK_USE_PORTAL"@, "1"@]),
            ],
    {
        let mut a1: Vec<String> = Vec::new();
        a1.push(String::from_str("setenv"));
        a1.push(String::from_str("XDG_CURRENT_DESKTOP"));
        a1.push(String::from_str("Hyprland"));
        let mut a2: Vec<String> = Vec::new();
        a2.push(String::from_str("setenv"));
        a2.push(String::from_str("GTK_USE_PORTAL"));
        a2.push(String::from_str("1"));
        let mut r: Vec<(String, Vec<String>)> = Vec::new();
        r.push((String::from_str("hyprctl"), a1));
        r.push((String::from_str("hyprctl"), a2));
        proof {
            assert(r.deep_view() =~~= seq![
                ("hyprctl"@, seq!["setenv"@, "XDG_CURRENT_DESKTOP"@, "Hyprland"@]),
                ("hyprctl"@, seq!["setenv"@, "GTK_USE_PORTAL"@, "1"@]),
            ]);
        }
        r
    }

    /// The command that emits the portal's color-scheme change signal.
    pub fn signal_command(&self, mode: ThemeMode) -> (r: (String, Vec<String>))
        ensures
            r.deep_view() == (
                "gdbus"@,
                seq![
                    "emit"@,
                    "--session"@,
                    "--object-path"@,
                    "/org/freedesktop/portal/desktop"@,
                    "--signal"@,
                    "org.freedesktop.portal.Settings.SettingChanged"@,
                    "org.freedesktop.appearance"@,
                    "color-scheme"@,
                    "<uint32 "@ + spec_portal_value(mode) + ">"@,
                ],
            ),
    {
        let mut value = String::from_str("<uint32 ");
        value.append(self.portal_value(mode));
        value.append(">");
        let mut args: Vec<String> = Vec::new();
        args.push(String::from_str("emit"));
        args.push(String::from_str("--session"));
        args.push(String::from_str("--object-path"));
        args.push(String::from_str("/org/freedesktop/portal/desktop"));
        args.push(String::from_str("--signal"));
        args.push(String::from_str("org.freedesktop.portal.Settings.SettingChanged"));
        args.push(String::from_str("org.freedesktop.appearance"));
        args.push(String::from_str("color-scheme"));
        args.push(value);
        let r = (String::from_str("gdbus"), args);
        proof {
            assert(r.deep_view() =~~= (
                "gdbus"@,
                seq![
                    "emit"@,
                    "--session"@,
                    "--object-path"@,
                    "/org/freedesktop/portal/desktop"@,
                    "--signal"@,
                    "org.freedesktop.portal.Settings.SettingChanged"@,
                    "org.freedesktop.appearance"@,
                    "color-scheme"@,
                    "<uint32 "@ + spec_portal_value(mode) + ">"@,
                ],
            ));
        }
        r
    }
}

} // verus!
