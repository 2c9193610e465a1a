//! The SwayNC module: the notification center's stylesheet is fully managed,
//! rendered from the resolved palette and written over on every switch, then
//! reloaded. Writing the file and reloading are the embedding program's
//! concern.

use vstd::prelude::*;
use crate::registry::ModuleEntry;
use crate::scheme::{ColorScheme, spec_get_or};

verus! {

/// The SwayNC module.
pub struct SwayNCModule;

/// The stylesheet rendered from the scheme's surface, error, text and
/// primary colors.
pub open spec fn spec_swaync_css(
    surface: Seq<char>,
    on_surface: Seq<char>,
    on_surface_variant: Seq<char>,
    primary: Seq<char>,
    error: Seq<char>,
) -> Seq<char> {
    "/* SwayNC Theme - Material You (lmtt) */\n\n@define-color cc-bg "@ + surface
        + ";\n@define-color noti-bg "@ + surface + ";\n@define-color noti-bg-opaque "@ + surface
        + ";\n@define-color noti-border-color transparent;\n@define-color noti-close-bg "@ + error
        + ";\n@define-color noti-close-bg-hover "@ + error + ";\n@define-color text-color "@
        + on_surface + ";\n@define-color text-color-disabled "@ + on_surface_variant
        + ";\n@define-color bg-selected "@ + primary
        + ";\n\n* {\n  font-family: \"SF Pro Text\", sans-serif;\n  font-size: 14px;\n}\n\n.notification-row {\n  outline: none;\n  background: transparent;\n}\n\n.notification {\n  background: @noti-bg;\n  border-radius: 12px;\n  padding: 12px;\n  margin: 6px;\n}\n\n.control-center {\n  background: @cc-bg;\n  border-radius: 16px;\n  padding: 16px;\n}\n\n.notification-content {\n  color: @text-color;\n}\n\n.close-button {\n  background: @noti-close-bg;\n  border-radius: 6px;\n}\n\n.close-button:hover {\n  background: @noti-close-bg-hover;\n}\n"@
}

impl SwayNCModule {
    /// The SwayNC module.
    pub fn new() -> (r: SwayNCModule) {
        SwayNCModule
    }

    /// Stable module name.
    pub fn name(&self) -> (r: &'static str)
        ensures
            r@ == "swaync"@,
    {
        "swaync"
    }

    /// The binary whose presence means SwayNC is installed.
    pub fn binary_name(&self) -> (r: &'static str)
        ensures
            r@ == "swaync"@,
    {
        "swaync"
    }

    /// Application module: the default priority.
    pub fn priority(&self) -> (r: u8)
        ensures
            r == 100,
    {
        100
    }

    /// This module's registry entry.
    pub fn entry(&self) -> (r: ModuleEntry)
        ensures
            r.name@ == "swaync"@,
            r.binary@ == "swaync"@,
            r.priority == 100,
    {
        ModuleEntry {
            name: String::from_str("swaync"),
            binary: String::from_str("swaync"),
            priority: 100,
        }
    }

    /// Path of the managed stylesheet under the config directory.
    pub fn style_path(&self, config_dir: &str) -> (r: String)
        ensures
            r@ == config_dir@ + "/swaync/style.css"@,
    {
        let mut out = String::from_str(config_dir);
        out.append("/swaync/style.css");
        out
    }

    /// The stylesheet for the resolved palette, with the dark palette's
    /// values as adapter-local defaults for unset roles.
    pub fn style_content(&self, scheme: &ColorScheme) -> (r: String)
        requires
            scheme.wf(),
        ensures
            r@ == spec_swaync_css(
                spec_get_or(*scheme, "surface"@, "#12131a"@),
                spec_get_or(*scheme, "on_surface"@, "#e3e1ec"@),
                spec_get_or(*scheme, "on_surface_variant"@, "#e3e1ec"@),
                spec_get_or(*scheme, "primary"@, "#9fd491"@),
                spec_get_or(*scheme, "error"@, "#ffb4ab"@),
            ),
    {
        let surface = scheme.get_or("surface", "#12131a");
        let on_surface = scheme.get_or("on_surface", "#e3e1ec");
        let on_surface_variant = scheme.get_or("on_surface_variant", "#e3e1ec");
        let primary = scheme.get_or("primary", "#9fd491");
        let error = scheme.get_or("error", "#ffb4ab");
        let mut out = String::from_str(
            "/* SwayNC Theme - Material You (lmtt) */\n\n@define-color cc-bg ",
        );
        out.append(surface.as_str());
        out.append(";\n@define-color noti-bg ");
        out.append(surface.as_str());
        out.append(";\n@define-color noti-bg-opaque ");
        out.append(surface.as_str());
        out.append(";\n@define-color noti-border-color transparent;\n@define-color noti-close-bg ");
        out.append(error.as_str());
        out.append(";\n@define-color noti-close-bg-hover ");
        out.append(error.as_str());
        out.append(";\n@define-color text-color ");
        out.append(on_surface.as_str());
        out.append(";\n@define-color text-color-disabled ");
        out.append(on_surface_variant.as_str());
        out.append(";\n@define-color bg-selected ");
        out.append(primary.as_str());
        out.append(
            ";\n\n* {\n  font-family: \"SF Pro Text\", sans-serif;\n  font-size: 14px;\n}\n\n.notification-row {\n  outline: none;\n  background: transparent;\n}\n\n.notification {\n  background: @noti-bg;\n  border-radius: 12px;\n  padding: 12px;\n  margin: 6px;\n}\n\n.control-center {\n  background: @cc-bg;\n  border-radius: 16px;\n  padding: 16px;\n}\n\n.notification-content {\n  color: @text-color;\n}\n\n.close-button {\n  background: @noti-close-bg;\n  border-radius: 6px;\n}\n\n.close-button:hover {\n  background: @noti-close-bg-hover;\n}\n",
        );
        proof {
            assert(out@ =~= spec_swaync_css(
                surface@,
                on_surface@,
                on_surface_variant@,
                primary@,
                error@,
            ));
        }
        out
    }

    /// The command that asks SwayNC to reload its stylesheet.
    pub fn reload_command(&self) -> (r: (String, Vec<String>))
        ensures
            r.deep_view() == ("swaync-client"@, seq!["--reload-css"@]),
    {
        let mut args: Vec<String> = Vec::new();
        args.push(String::from_str("--reload-css"));
        let r = (String::from_str("swaync-client"), args);
        proof {
            assert(r.deep_view() =~~= ("swaync-client"@, seq!["--reload-css"@]));
        }
        r
    }
}

} // verus!
