//! The Qt platform module: writes a KDE color-scheme file from the resolved
//! palette and plans the environment exports that point Qt applications at
//! it. Filesystem writes and process invocations are the embedding
//! program's concern.

use vstd::prelude::*;
use crate::registry::ModuleEntry;
use crate::scheme::{ColorScheme, ThemeMode, spec_get_or};

verus! {

/// The Qt platform module.
pub struct QtModule;

/// The KDE color-scheme file content for a mode and the scheme's
/// foreground, background and primary colors (with the dark palette's
/// values as adapter-local defaults).
pub open spec fn spec_qt_content(
    mode_name: Seq<char>,
    fg: Seq<char>,
    bg: Seq<char>,
    primary: Seq<char>,
) -> Seq<char> {
    "[ColorScheme]\nName=lmtt-"@ + mode_name + "\n\n[Colors:Window]\nForegroundNormal="@ + fg
        + "\nBackgroundNormal="@ + bg + "\n\n[Colors:Button]\nBackgroundNormal="@ + bg
        + "\n\n[Colors:Selection]\nBackgroundNormal="@ + primary + "\n"@
}

impl QtModule {
    /// The Qt module.
    pub fn new() -> (r: QtModule) {
        QtModule
    }

    /// Stable module name.
    pub fn name(&self) -> (r: &'static str)
        ensures
            r@ == "qt"@,
    {
        "qt"
    }

    /// The binary whose presence means Qt theming is in use.
    pub fn binary_name(&self) -> (r: &'static str)
        ensures
            r@ == "qt6ct"@,
    {
        "qt6ct"
    }

    /// Platform module: runs ahead of application modules.
    pub fn priority(&self) -> (r: u8)
        ensures
            r == 20,
    {
        20
    }

    /// This module's registry entry.
    pub fn entry(&self) -> (r: ModuleEntry)
        ensures
            r.name@ == "qt"@,
            r.binary@ == "qt6ct"@,
            r.priority == 20,
    {
        ModuleEntry {
            name: String::from_str("qt"),
            binary: String::from_str("qt6ct"),
            priority: 20,
        }
    }

    /// Name of the color-scheme file for a mode, under the user's
    /// color-schemes directory.
    pub fn scheme_filename(&self, mode: ThemeMode) -> (r: String)
        ensures
            mode is Light ==> r@ == "lmtt-light.colors"@,
            mode is Dark ==> r@ == "lmtt-dark.colors"@,
    {
        let mut out = String::from_str("lmtt-");
        out.append(mode.as_str());
        out.append(".colors");
        proof {
            if mode is Light {
                assert(out@ =~= "lmtt-"@ + "light"@ + ".colors"@);
                assert("lmtt-"@ + "light"@ + ".colors"@ =~= "lmtt-light.colors"@) by {
                    reveal_strlit("lmtt-");
                    reveal_strlit("light");
                    reveal_strlit(".colors");
                    reveal_strlit("lmtt-light.colors");
                }
            } else {
                assert(out@ =~= "lmtt-"@ + "dark"@ + ".colors"@);
                assert("lmtt-"@ + "dark"@ + ".colors"@ =~= "lmtt-dark.colors"@) by {
                    reveal_strlit("lmtt-");
                    reveal_strlit("dark");
                    reveal_strlit(".colors");
                    reveal_strlit("lmtt-dark.colors");
                }
            }
        }
        out
    }

    /// The KDE color-scheme file content for the resolved palette.
    pub fn scheme_content(&self, scheme: &ColorScheme, mode: ThemeMode) -> (r: String)
        requires
            scheme.wf(),
        ensures
            mode is Light ==> r@ == spec_qt_content(
                "light"@,
                spec_get_or(*scheme, "on_surface"@, "#e3e1ec"@),
                spec_get_or(*scheme, "surface"@, "#12131a"@),
                spec_get_or(*scheme, "primary"@, "#9fd491"@),
            ),
            mode is Dark ==> r@ == spec_qt_content(
                "dark"@,
                spec_get_or(*scheme, "on_surface"@, "#e3e1ec"@),
                spec_get_or(*scheme, "surface"@, "#12131a"@),
                spec_get_or(*scheme, "primary"@, "#9fd491"@),
            ),
    {
        let fg = scheme.get_or("on_surface", "#e3e1ec");
        let bg = scheme.get_or("surface", "#12131a");
        let primary = scheme.get_or("primary", "#9fd491");
        let mut out = String::from_str("[ColorScheme]\nName=lmtt-");
        out.append(mode.as_str());
        out.append("\n\n[Colors:Window]\nForegroundNormal=");
        out.append(fg.as_str());
        out.append("\nBackgroundNormal=");
        out.append(bg.as_str());
        out.append("\n\n[Colors:Button]\nBackgroundNormal=");
        out.append(bg.as_str());
        out.append("\n\n[Colors:Selection]\nBackgroundNormal=");
        out.append(primary.as_str());
        out.append("\n");
        proof {
            if mode is Light {
                assert(out@ =~= spec_qt_content("light"@, fg@, bg@, primary@));
            } else {
                assert(out@ =~= spec_qt_content("dark"@, fg@, bg@, primary@));
            }
        }
        out
    }

    /// The commands that point Qt applications at the qt6ct platform theme.
    pub fn env_commands(&self) -> (r: Vec<(String, Vec<String>)>)
        ensures
            r.deep_view() == seq![
                ("systemctl"@, seq!["--user"@, "set-environment"@, "QT_QPA_PLATFORMTHEME=qt6ct"@]),
                (
                    "dbus-update-activation-environment"@,
                    seq!["--systemd"@, "QT_QPA_PLATFORMTHEME=qt6ct"@],
                ),
            ],
    {
        let mut a1: Vec<String> = Vec::new();
        a1.push(String::from_str("--user"));
        a1.push(String::from_str("set-environment"));
        a1.push(String::from_str("QT_QPA_PLATFORMTHEME=qt6ct"));
        let mut a2: Vec<String> = Vec::new();
        a2.push(String::from_str("--systemd"));
        a2.push(String::from_str("QT_QPA_PLATFORMTHEME=qt6ct"));
        let mut r: Vec<(String, Vec<String>)> = Vec::new();
        r.push((String::from_str("systemctl"), a1));
        r.push((String::from_str("dbus-update-activation-environment"), a2));
        proof {
            assert(r.deep_view() =~~= seq![
                ("systemctl"@, seq!["--user"@, "set-environment"@, "QT_QPA_PLATFORMTHEME=qt6ct"@]),
                (
                    "dbus-update-activation-environment"@,
                    seq!["--systemd"@, "QT_QPA_PLATFORMTHEME=qt6ct"@],
                ),
            ]);
        }
        r
    }

    /// The best-effort command that exports the same setting into the
    /// window manager, used only when `hyprctl` is installed.
    pub fn hyprctl_command(&self) -> (r: (String, Vec<String>))
        ensures
            r.deep_view() == ("hyprctl"@, seq!["setenv"@, "QT_QPA_PLATFORMTHEME"@, "qt6ct"@]),
    {
        let mut args: Vec<String> = Vec::new();
        args.push(String::from_str("setenv"));
        args.push(String::from_str("QT_QPA_PLATFORMTHEME"));
        args.push(String::from_str("qt6ct"));
        let r = (String::from_str("hyprctl"), args);
        proof {
            assert(r.deep_view() =~~= (
                "hyprctl"@,
                seq!["setenv"@, "QT_QPA_PLATFORMTHEME"@, "qt6ct"@],
            ));
        }
        r
    }
}

} // verus!
