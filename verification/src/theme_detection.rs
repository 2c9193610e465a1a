//! What the theme detectors know without looking at the host: the
//! directories each detector scans, the built-in options every host offers,
//! and the filters applied to directory entries. Walking directories and
//! reading files is the embedding program's concern.

use vstd::prelude::*;
use crate::strutil::{
    contains_seq, contains_string, contains_sub, spec_strip_suffix_all, split_char,
    strip_suffix_all, ends_with_sub, trim,
};

verus! {

fn join_under(base: &str, rest: &str) -> (r: String)
    ensures
        r@ == base@ + rest@,
{
    let mut out = String::from_str(base);
    out.append(rest);
    out
}

/// The directories GTK themes are looked for in.
pub fn gtk_theme_dirs(home: &str) -> (r: Vec<String>)
    ensures
        r.deep_view() == seq![
            home@ + "/.themes"@,
            home@ + "/.local/share/themes"@,
            "/usr/share/themes"@,
            "/usr/local/share/themes"@,
        ],
{
    let mut v: Vec<String> = Vec::new();
    v.push(join_under(home, "/.themes"));
    v.push(join_under(home, "/.local/share/themes"));
    v.push(String::from_str("/usr/share/themes"));
    v.push(String::from_str("/usr/local/share/themes"));
    proof {
        assert(v.deep_view() =~~= seq![
            home@ + "/.themes"@,
            home@ + "/.local/share/themes"@,
            "/usr/share/themes"@,
            "/usr/local/share/themes"@,
        ]);
    }
    v
}

/// The directories icon themes are looked for in.
pub fn icon_theme_dirs(home: &str) -> (r: Vec<String>)
    ensures
        r.deep_view() == seq![
            home@ + "/.icons"@,
            home@ + "/.local/share/icons"@,
            "/usr/share/icons"@,
            "/usr/local/share/icons"@,
        ],
{
    let mut v: Vec<String> = Vec::new();
    v.push(join_under(home, "/.icons"));
    v.push(join_under(home, "/.local/share/icons"));
    v.push(String::from_str("/usr/share/icons"));
    v.push(String::from_str("/usr/local/share/icons"));
    proof {
        assert(v.deep_view() =~~= seq![
            home@ + "/.icons"@,
            home@ + "/.local/share/icons"@,
            "/usr/share/icons"@,
            "/usr/local/share/icons"@,
        ]);
    }
    v
}

/// The directories cursor themes are looked for in.
pub fn cursor_theme_dirs(home: &str) -> (r: Vec<String>)
    ensures
        r.deep_view() == seq![
            home@ + "/.icons"@,
            home@ + "/.local/share/icons"@,
            "/usr/share/icons"@,
        ],
{
    let mut v: Vec<String> = Vec::new();
    v.push(join_under(home, "/.icons"));
    v.push(join_under(home, "/.local/share/icons"));
    v.push(String::from_str("/usr/share/icons"));
    proof {
        assert(v.deep_view() =~~= seq![
            home@ + "/.icons"@,
            home@ + "/.local/share/icons"@,
            "/usr/share/icons"@,
        ]);
    }
    v
}

/// The extension directories VSCode theme extensions are looked for in.
pub fn vscode_extension_dirs(home: &str) -> (r: Vec<String>)
    ensures
        r.deep_view() == seq![
            home@ + "/.vscode/extensions"@,
            home@ + "/.config/Code/User/extensions"@,
            home@ + "/.config/Cursor/User/extensions"@,
        ],
{
    let mut v: Vec<String> = Vec::new();
    v.push(join_under(home, "/.vscode/extensions"));
    v.push(join_under(home, "/.config/Code/User/extensions"));
    v.push(join_under(home, "/.config/Cursor/User/extensions"));
    proof {
        assert(v.deep_view() =~~= seq![
            home@ + "/.vscode/extensions"@,
            home@ + "/.config/Code/User/extensions"@,
            home@ + "/.config/Cursor/User/extensions"@,
        ]);
    }
    v
}

/// The directories Neovim colorschemes are looked for in.
pub fn nvim_colorscheme_dirs(home: &str) -> (r: Vec<String>)
    ensures
        r.deep_view() == seq![
            home@ + "/.config/nvim/colors"@,
            home@ + "/.local/share/nvim/site/colors"@,
            home@ + "/.local/share/nvim/lazy"@,
        ],
{
    let mut v: Vec<String> = Vec::new();
    v.push(join_under(home, "/.config/nvim/colors"));
    v.push(join_under(home, "/.local/share/nvim/site/colors"));
    v.push(join_under(home, "/.local/share/nvim/lazy"));
    proof {
        assert(v.deep_view() =~~= seq![
            home@ + "/.config/nvim/colors"@,
            home@ + "/.local/share/nvim/site/colors"@,
            home@ + "/.local/share/nvim/lazy"@,
        ]);
    }
    v
}

/// The VSCode themes every installation offers.
pub fn vscode_base_themes() -> (r: Vec<String>)
    ensures
        r.deep_view() == seq![
            "Default Dark+"@,
            "Default Light+"@,
            "Default Dark Modern"@,
            "Default Light Modern"@,
            "Default High Contrast"@,
        ],
{
    let mut v: Vec<String> = Vec::new();
    v.push(String::from_str("Default Dark+"));
    v.push(String::from_str("Default Light+"));
    v.push(String::from_str("Default Dark Modern"));
    v.push(String::from_str("Default Light Modern"));
    v.push(String::from_str("Default High Contrast"));
    proof {
        assert(v.deep_view() =~~= seq![
            "Default Dark+"@,
            "Default Light+"@,
            "Default Dark Modern"@,
            "Default Light Modern"@,
            "Default High Contrast"@,
        ]);
    }
    v
}

/// The colorschemes every Neovim offers.
pub fn nvim_base_colorschemes() -> (r: Vec<String>)
    ensures
        r.deep_view() == seq!["default"@, "habamax"@, "darkplus"@, "oxocarbon"@],
{
    let mut v: Vec<String> = Vec::new();
    v.push(String::from_str("default"));
    v.push(String::from_str("habamax"));
    v.push(String::from_str("darkplus"));
    v.push(String::from_str("oxocarbon"));
    proof {
        assert(v.deep_view() =~~= seq!["default"@, "habamax"@, "darkplus"@, "oxocarbon"@]);
    }
    v
}

/// Whether an extension directory name suggests a theme extension.
pub fn is_theme_extension(name: &str) -> (r: bool)
    ensures
        r == contains_seq(name@, "theme"@),
{
    contains_sub(name, "theme")
}

/// The colorscheme a file stands for: a `.vim` or `.lua` file gives its
/// name with those endings stripped, any other file gives nothing.
pub fn colorscheme_stem(name: &str) -> (r: Option<String>)
    ensures
        match r {
            Some(stem) => stem@ == spec_strip_suffix_all(
                spec_strip_suffix_all(name@, ".vim"@),
                ".lua"@,
            ),
            None => true,
        },
{
    proof {
        reveal_strlit(".vim");
        reveal_strlit(".lua");
    }
    if ends_with_sub(name, ".vim") || ends_with_sub(name, ".lua") {
        let no_vim = strip_suffix_all(name, ".vim");
        let stem = strip_suffix_all(no_vim.as_str(), ".lua");
        Some(stem)
    } else {
        None
    }
}

/// The font family names in the font lister's output: one line per match,
/// families separated by commas, blanks trimmed, empty names and names seen
/// before dropped.
pub fn parse_fc_list_families(text: &str) -> (r: Vec<String>)
    ensures
        forall|i: int, j: int| 0 <= i < j < r@.len() ==> r@[i]@ != r@[j]@,
        forall|i: int| 0 <= i < r@.len() ==> r@[i]@.len() > 0,
{
    let mut out: Vec<String> = Vec::new();
    let lines = split_char(text, '\n');
    let ln: usize = lines.len();
    let mut i: usize = 0;
    while i < ln
        invariant
            ln == lines@.len(),
            i <= ln,
            forall|a: int, b: int| 0 <= a < b < out@.len() ==> out@[a]@ != out@[b]@,
            forall|a: int| 0 <= a < out@.len() ==> out@[a]@.len() > 0,
        decreases ln - i,
    {
        let families = split_char(lines[i].as_str(), ',');
        let fn_count: usize = families.len();
        let mut j: usize = 0;
        while j < fn_count
            invariant
                fn_count == families@.len(),
                j <= fn_count,
                forall|a: int, b: int| 0 <= a < b < out@.len() ==> out@[a]@ != out@[b]@,
                forall|a: int| 0 <= a < out@.len() ==> out@[a]@.len() > 0,
            decreases fn_count - j,
        {
            let family = trim(families[j].as_str());
            if family.as_str().unicode_len() > 0 && !contains_string(&out, family.as_str()) {
                out.push(family);
            }
            j = j + 1;
        }
        i = i + 1;
    }
    out
}

} // verus!
