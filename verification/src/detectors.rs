//! The option detectors behind the configuration editor's dropdowns. Each
//! one knows where its options live and how a directory entry is judged;
//! the embedding program walks the directories and hands the entries in.

use vstd::prelude::*;
use crate::theme_detection::{
    cursor_theme_dirs, gtk_theme_dirs, icon_theme_dirs, nvim_base_colorschemes,
    nvim_colorscheme_dirs, vscode_base_themes, vscode_extension_dirs,
};

verus! {

/// Detects installed GTK themes: directories with a `gtk-3.0` or `gtk-4.0`
/// subdirectory under the theme search paths.
pub struct GtkThemeDetector;

impl GtkThemeDetector {
    /// The directories scanned.
    pub fn search_dirs(&self, home: &str) -> (r: Vec<String>)
        ensures
            r.deep_view() == seq![
                home@ + "/.themes"@,
                home@ + "/.local/share/themes"@,
                "/usr/share/themes"@,
                "/usr/local/share/themes"@,
            ],
    {
        gtk_theme_dirs(home)
    }

    /// Whether a directory entry is a GTK theme.
    pub fn keeps(&self, has_gtk3_dir: bool, has_gtk4_dir: bool) -> (r: bool)
        ensures
            r == (has_gtk3_dir || has_gtk4_dir),
    {
        has_gtk3_dir || has_gtk4_dir
    }
}

/// Detects installed icon themes: directories with an `index.theme` file
/// under the icon search paths.
pub struct IconThemeDetector;

impl IconThemeDetector {
    /// The directories scanned.
    pub fn search_dirs(&self, home: &str) -> (r: Vec<String>)
        ensures
            r.deep_view() == seq![
                home@ + "/.icons"@,
                home@ + "/.local/share/icons"@,
                "/usr/share/icons"@,
                "/usr/local/share/icons"@,
            ],
    {
        icon_theme_dirs(home)
    }
}

/// Detects installed cursor themes: directories with a `cursors`
/// subdirectory under the cursor search paths.
pub struct CursorThemeDetector;

impl CursorThemeDetector {
    /// The directories scanned.
    pub fn search_dirs(&self, home: &str) -> (r: Vec<String>)
        ensures
            r.deep_view() == seq![
                home@ + "/.icons"@,
                home@ + "/.local/share/icons"@,
                "/usr/share/icons"@,
            ],
    {
        cursor_theme_dirs(home)
    }
}

/// Detects installed VSCode themes: the editor's built-in themes plus those
/// contributed by theme extensions.
pub struct VSCodeThemeDetector;

impl VSCodeThemeDetector {
    /// The themes every installation offers.
    pub fn base_options(&self) -> (r: Vec<String>)
        ensures
            r.deep_view() == seq![
                "Default Dark+"@,
                "Default Light+"@,
                "Default Dark Modern"@,
                "Default Light Modern"@,
                "Default High Contrast"@,
            ],
    {
        vscode_base_themes()
    }

    /// The extension directories scanned.
    pub fn search_dirs(&self, home: &str) -> (r: Vec<String>)
        ensures
            r.deep_view() == seq![
                home@ + "/.vscode/extensions"@,
                home@ + "/.config/Code/User/extensions"@,
                home@ + "/.config/Cursor/User/extensions"@,
            ],
    {
        vscode_extension_dirs(home)
    }
}

/// Detects installed font families through the system's font lister.
pub struct FontDetector;

/// Detects installed Neovim colorschemes: the editor's built-in schemes
/// plus `.vim` and `.lua` files under the colorscheme directories.
pub struct NeovimColorschemeDetector;

impl NeovimColorschemeDetector {
    /// The colorschemes every installation offers.
    pub fn base_options(&self) -> (r: Vec<String>)
        ensures
            r.deep_view() == seq!["default"@, "habamax"@, "darkplus"@, "oxocarbon"@],
    {
        nvim_base_colorschemes()
    }

    /// The directories scanned.
    pub fn search_dirs(&self, home: &str) -> (r: Vec<String>)
        ensures
            r.deep_view() == seq![
                home@ + "/.config/nvim/colors"@,
                home@ + "/.local/share/nvim/site/colors"@,
                home@ + "/.local/share/nvim/lazy"@,
            ],
    {
        nvim_colorscheme_dirs(home)
    }
}

} // verus!
