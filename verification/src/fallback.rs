//! The built-in fallback palettes: one complete, internally consistent set of
//! role-to-hex mappings per mode, used when no other color source is
//! available.

use vstd::prelude::*;
use crate::scheme::{ThemeMode, lemma_lookup_last_at, spec_lookup_last};

verus! {

/// The built-in dark palette, as role/color pairs.
pub open spec fn spec_fallback_dark() -> Seq<(Seq<char>, Seq<char>)> {
    seq![
        ("surface"@, "#12131a"@),
        ("on_surface"@, "#e3e1ec"@),
        ("surface_variant"@, "#44464f"@),
        ("on_surface_variant"@, "#c5c5d6"@),
        ("surface_container"@, "#1e1f27"@),
        ("surface_container_high"@, "#292931"@),
        ("surface_container_highest"@, "#33343c"@),
        ("primary"@, "#9fd491"@),
        ("on_primary"@, "#003a03"@),
        ("primary_container"@, "#22511c"@),
        ("on_primary_container"@, "#bbf0aa"@),
        ("secondary"@, "#edb8cd"@),
        ("on_secondary"@, "#4a2532"@),
        ("secondary_container"@, "#633b48"@),
        ("on_secondary_container"@, "#ffd9e3"@),
        ("tertiary"@, "#bbc3fa"@),
        ("on_tertiary"@, "#1e2a5a"@),
        ("tertiary_container"@, "#3b4472"@),
        ("on_tertiary_container"@, "#dee0ff"@),
        ("error"@, "#ffb4ab"@),
        ("on_error"@, "#690005"@),
        ("error_container"@, "#93000a"@),
        ("on_error_container"@, "#ffdad6"@),
        ("outline"@, "#8f909f"@),
        ("outline_variant"@, "#44464f"@),
        ("background"@, "#12131a"@),
        ("on_background"@, "#e3e1ec"@),
    ]
}

/// The built-in light palette, as role/color pairs.
pub open spec fn spec_fallback_light() -> Seq<(Seq<char>, Seq<char>)> {
    seq![
        ("surface"@, "#fbf8ff"@),
        ("on_surface"@, "#1a1b23"@),
        ("surface_variant"@, "#e0e2ec"@),
        ("on_surface_variant"@, "#44464f"@),
        ("surface_container"@, "#efedf4"@),
        ("surface_container_high"@, "#e9e7ef"@),
        ("surface_container_highest"@, "#e3e1ec"@),
        ("primary"@, "#3a6a33"@),
        ("on_primary"@, "#ffffff"@),
        ("primary_container"@, "#bbf0aa"@),
        ("on_primary_container"@, "#003a03"@),
        ("secondary"@, "#7d525f"@),
        ("on_secondary"@, "#ffffff"@),
        ("secondary_container"@, "#ffd9e3"@),
        ("on_secondary_container"@, "#31101d"@),
        ("tertiary"@, "#555d8f"@),
        ("on_tertiary"@, "#ffffff"@),
        ("tertiary_container"@, "#dee0ff"@),
        ("on_tertiary_container"@, "#0e1848"@),
        ("error"@, "#ba1a1a"@),
        ("on_error"@, "#ffffff"@),
        ("error_container"@, "#ffdad6"@),
        ("on_error_container"@, "#410002"@),
        ("outline"@, "#74767f"@),
        ("outline_variant"@, "#c4c6d0"@),
        ("background"@, "#fbf8ff"@),
        ("on_background"@, "#1a1b23"@),
    ]
}

/// The fallback palette for a mode.
pub open spec fn spec_fallback(mode: ThemeMode) -> Seq<(Seq<char>, Seq<char>)> {
    match mode {
        ThemeMode::Light => spec_fallback_light(),
        ThemeMode::Dark => spec_fallback_dark(),
    }
}

/// No entry from position `from` on has key `k`.
pub open spec fn keys_differ(
    es: Seq<(Seq<char>, Seq<char>)>,
    k: Seq<char>,
    from: int,
) -> bool
    decreases es.len() - from,
{
    if from < 0 || from >= es.len() {
        true
    } else {
        es[from].0 != k && keys_differ(es, k, from + 1)
    }
}

proof fn lemma_keys_differ(es: Seq<(Seq<char>, Seq<char>)>, k: Seq<char>, from: int)
    requires
        0 <= from,
        keys_differ(es, k, from),
    ensures
        forall|j: int| from <= j < es.len() ==> es[j].0 != k,
    decreases es.len() - from,
{
    if from < es.len() {
        lemma_keys_differ(es, k, from + 1);
    }
}

/// The colors a switch without any source resolves to, read off the dark
/// palette: the scenario of a dark switch with generation disabled and no
/// static color file.
pub proof fn lemma_dark_fallback_key_colors()
    ensures
        spec_lookup_last(spec_fallback_dark(), "surface"@) == Some("#12131a"@),
        spec_lookup_last(spec_fallback_dark(), "primary"@) == Some("#9fd491"@),
{
    reveal_strlit("surface");
    reveal_strlit("on_surface");
    reveal_strlit("surface_variant");
    reveal_strlit("on_surface_variant");
    reveal_strlit("surface_container");
    reveal_strlit("surface_container_high");
    reveal_strlit("surface_container_highest");
    reveal_strlit("primary");
    reveal_strlit("on_primary");
    reveal_strlit("primary_container");
    reveal_strlit("on_primary_container");
    reveal_strlit("secondary");
    reveal_strlit("on_secondary");
    reveal_strlit("secondary_container");
    reveal_strlit("on_secondary_container");
    reveal_strlit("tertiary");
    reveal_strlit("on_tertiary");
    reveal_strlit("tertiary_container");
    reveal_strlit("on_tertiary_container");
    reveal_strlit("error");
    reveal_strlit("on_error");
    reveal_strlit("error_container");
    reveal_strlit("on_error_container");
    reveal_strlit("outline");
    reveal_strlit("outline_variant");
    reveal_strlit("background");
    reveal_strlit("on_background");
    let es = spec_fallback_dark();
    assert(es[1].0 == "on_surface"@ && es[2].0 == "surface_variant"@ && es[3].0
        == "on_surface_variant"@ && es[4].0 == "surface_container"@ && es[5].0
        == "surface_container_high"@ && es[6].0 == "surface_container_highest"@ && es[7].0
        == "primary"@ && es[8].0 == "on_primary"@ && es[9].0 == "primary_container"@ && es[10].0
        == "on_primary_container"@ && es[11].0 == "secondary"@ && es[12].0 == "on_secondary"@
        && es[13].0 == "secondary_container"@ && es[14].0 == "on_secondary_container"@ && es[15].0
        == "tertiary"@ && es[16].0 == "on_tertiary"@ && es[17].0 == "tertiary_container"@
        && es[18].0 == "on_tertiary_container"@ && es[19].0 == "error"@ && es[20].0 == "on_error"@
        && es[21].0 == "error_container"@ && es[22].0 == "on_error_container"@ && es[23].0
        == "outline"@ && es[24].0 == "outline_variant"@ && es[25].0 == "background"@ && es[26].0
        == "on_background"@);
    assert("surface"@[0] == 's' && "primary"@[0] == 'p' && "outline"@[0] == 'o');
    assert("primary"@ != "surface"@ && "outline"@ != "surface"@ && "outline"@ != "primary"@);
    assert(keys_differ(es, "surface"@, 1)) by {
        reveal_with_fuel(keys_differ, 28);
    }
    lemma_keys_differ(es, "surface"@, 1);
    lemma_lookup_last_at(es, "surface"@, 0);
    assert(keys_differ(es, "primary"@, 8)) by {
        reveal_with_fuel(keys_differ, 21);
    }
    lemma_keys_differ(es, "primary"@, 8);
    lemma_lookup_last_at(es, "primary"@, 7);
}

fn pair(k: &str, v: &str) -> (r: (String, String))
    ensures
        r.0@ == k@,
        r.1@ == v@,
{
    (String::from_str(k), String::from_str(v))
}

/// The built-in dark palette.
pub fn fallback_dark_colors() -> (r: Vec<(String, String)>)
    ensures
        r.deep_view() == spec_fallback_dark(),
{
    let mut v: Vec<(String, String)> = Vec::new();
    v.push(pair("surface", "#12131a"));
    v.push(pair("on_surface", "#e3e1ec"));
    v.push(pair("surface_variant", "#44464f"));
    v.push(pair("on_surface_variant", "#c5c5d6"));
    v.push(pair("surface_container", "#1e1f27"));
    v.push(pair("surface_container_high", "#292931"));
    v.push(pair("surface_container_highest", "#33343c"));
    v.push(pair("primary", "#9fd491"));
    v.push(pair("on_primary", "#003a03"));
    v.push(pair("primary_container", "#22511c"));
    v.push(pair("on_primary_container", "#bbf0aa"));
    v.push(pair("secondary", "#edb8cd"));
    v.push(pair("on_secondary", "#4a2532"));
    v.push(pair("secondary_container", "#633b48"));
    v.push(pair("on_secondary_container", "#ffd9e3"));
    v.push(pair("tertiary", "#bbc3fa"));
    v.push(pair("on_tertiary", "#1e2a5a"));
    v.push(pair("tertiary_container", "#3b4472"));
    v.push(pair("on_tertiary_container", "#dee0ff"));
    v.push(pair("error", "#ffb4ab"));
    v.push(pair("on_error", "#690005"));
    v.push(pair("error_container", "#93000a"));
    v.push(pair("on_error_container", "#ffdad6"));
    v.push(pair("outline", "#8f909f"));
    v.push(pair("outline_variant", "#44464f"));
    v.push(pair("background", "#12131a"));
    v.push(pair("on_background", "#e3e1ec"));
    proof {
        assert(v.deep_view() =~~= spec_fallback_dark());
    }
    v
}

/// The built-in light palette.
pub fn fallback_light_colors() -> (r: Vec<(String, String)>)
    ensures
        r.deep_view() == spec_fallback_light(),
{
    let mut v: Vec<(String, String)> = Vec::new();
    v.push(pair("surface", "#fbf8ff"));
    v.push(pair("on_surface", "#1a1b23"));
    v.push(pair("surface_variant", "#e0e2ec"));
    v.push(pair("on_surface_variant", "#44464f"));
    v.push(pair("surface_container", "#efedf4"));
    v.push(pair("surface_container_high", "#e9e7ef"));
    v.push(pair("surface_container_highest", "#e3e1ec"));
    v.push(pair("primary", "#3a6a33"));
    v.push(pair("on_primary", "#ffffff"));
    v.push(pair("primary_container", "#bbf0aa"));
    v.push(pair("on_primary_container", "#003a03"));
    v.push(pair("secondary", "#7d525f"));
    v.push(pair("on_secondary", "#ffffff"));
    v.push(pair("secondary_container", "#ffd9e3"));
    v.push(pair("on_secondary_container", "#31101d"));
    v.push(pair("tertiary", "#555d8f"));
    v.push(pair("on_tertiary", "#ffffff"));
    v.push(pair("tertiary_container", "#dee0ff"));
    v.push(pair("on_tertiary_container", "#0e1848"));
    v.push(pair("error", "#ba1a1a"));
    v.push(pair("on_error", "#ffffff"));
    v.push(pair("error_container", "#ffdad6"));
    v.push(pair("on_error_container", "#410002"));
    v.push(pair("outline", "#74767f"));
    v.push(pair("outline_variant", "#c4c6d0"));
    v.push(pair("background", "#fbf8ff"));
    v.push(pair("on_background", "#1a1b23"));
    proof {
        assert(v.deep_view() =~~= spec_fallback_light());
    }
    v
}

/// The fallback palette for a mode.
pub fn fallback_colors(mode: ThemeMode) -> (r: Vec<(String, String)>)
    ensures
        r.deep_view() == spec_fallback(mode),
{
    match mode {
        ThemeMode::Light => fallback_light_colors(),
        ThemeMode::Dark => fallback_dark_colors(),
    }
}

} // verus!
