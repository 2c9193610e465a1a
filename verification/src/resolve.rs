//! The color resolution chain: exactly one scheme per switch request, with a
//! deterministic fallback order — user-configured static file, then the
//! generator's output, then the built-in palette — and user overrides applied
//! last, role by role.

use vstd::prelude::*;
use crate::colors::{matugen_colors_of, parse_matugen_colors};
use crate::error::{Error, spec_error_detail};
use crate::fallback::{fallback_colors, spec_fallback};
use crate::jsonio::{json_string_members, string_members_of};
use crate::scheme::{ColorScheme, ThemeMode, spec_lookup_last, spec_mode_name};

verus! {

/// `r` is `source` with `overrides` written over it, for `mode`: an
/// overridden role has the override's color, every other role the source's.
pub open spec fn resolved_from(
    r: ColorScheme,
    source: Seq<(Seq<char>, Seq<char>)>,
    overrides: Seq<(Seq<char>, Seq<char>)>,
    mode: ThemeMode,
) -> bool {
    &&& r.wf()
    &&& r.spec_mode() == mode
    &&& forall|k: Seq<char>|
        r.spec_get(k) == match spec_lookup_last(overrides, k) {
            Some(v) => Some(v),
            None => spec_lookup_last(source, k),
        }
}

/// Write each of `entries` into `scheme` in order, a later entry overriding
/// an earlier one with the same role name.
pub fn apply_entries(scheme: &mut ColorScheme, entries: &Vec<(String, String)>)
    requires
        old(scheme).wf(),
    ensures
        final(scheme).wf(),
        final(scheme).spec_mode() == old(scheme).spec_mode(),
        forall|k: Seq<char>|
            final(scheme).spec_get(k) == match spec_lookup_last(entries.deep_view(), k) {
                Some(v) => Some(v),
                None => old(scheme).spec_get(k),
            },
{
    let n: usize = entries.len();
    let mut i: usize = 0;
    proof {
        assert(entries.deep_view().take(0) =~= Seq::<(Seq<char>, Seq<char>)>::empty());
    }
    while i < n
        invariant
            n == entries.len(),
            n == entries.deep_view().len(),
            i <= n,
            scheme.wf(),
            scheme.spec_mode() == old(scheme).spec_mode(),
            forall|k: Seq<char>|
                scheme.spec_get(k) == match spec_lookup_last(
                    entries.deep_view().take(i as int),
                    k,
                ) {
                    Some(v) => Some(v),
                    None => old(scheme).spec_get(k),
                },
        decreases n - i,
    {
        let key = entries[i].0.clone();
        let value = entries[i].1.clone();
        proof {
            let p = entries@[i as int];
            assert(entries.deep_view()[i as int] == (p.0@, p.1@));
        }
        scheme.set(key, value);
        proof {
            let es = entries.deep_view();
            assert(es.take(i + 1).drop_last() =~= es.take(i as int));
            assert(es.take(i + 1).last() == es[i as int]);
        }
        i = i + 1;
    }
    proof {
        assert(entries.deep_view().take(n as int) =~= entries.deep_view());
    }
}

/// A scheme built for `mode` from a source palette with overrides on top.
pub fn build_scheme(
    mode: ThemeMode,
    source: &Vec<(String, String)>,
    overrides: &Vec<(String, String)>,
) -> (r: ColorScheme)
    ensures
        resolved_from(r, source.deep_view(), overrides.deep_view(), mode),
{
    let mut scheme = ColorScheme::new(mode);
    apply_entries(&mut scheme, source);
    apply_entries(&mut scheme, overrides);
    scheme
}

/// Resolve one scheme from the outcome of reading each color source.
///
/// `static_parse` is the parse outcome of the user-configured static color
/// file, when that file exists; `generated_parse` the parse outcome of the
/// generator's output, when generation ran. First successful source wins:
/// a valid static file is used exactly as parsed, whatever the generator
/// did; a malformed static file is a hard failure; a failed or absent
/// generation degrades to the built-in palette. Overrides are applied last,
/// unconditionally.
pub fn resolve_scheme(
    mode: ThemeMode,
    static_parse: Option<Result<Vec<(String, String)>, Error>>,
    generated_parse: Option<Result<Vec<(String, String)>, Error>>,
    overrides: &Vec<(String, String)>,
) -> (r: Result<ColorScheme, Error>)
    ensures
        match static_parse {
            Some(Ok(es)) => r matches Ok(s) && resolved_from(
                s,
                es.deep_view(),
                overrides.deep_view(),
                mode,
            ),
            Some(Err(e)) => r == Err::<ColorScheme, Error>(e),
            None => match generated_parse {
                Some(Ok(es)) => r matches Ok(s) && resolved_from(
                    s,
                    es.deep_view(),
                    overrides.deep_view(),
                    mode,
                ),
                _ => r matches Ok(s) && resolved_from(
                    s,
                    spec_fallback(mode),
                    overrides.deep_view(),
                    mode,
                ),
            },
        },
{
    match static_parse {
        Some(Ok(entries)) => Ok(build_scheme(mode, &entries, overrides)),
        Some(Err(e)) => Err(e),
        None => match generated_parse {
            Some(Ok(entries)) => Ok(build_scheme(mode, &entries, overrides)),
            _ => {
                let base = fallback_colors(mode);
                Ok(build_scheme(mode, &base, overrides))
            },
        },
    }
}

/// The generator invocation for a wallpaper, mode and scheme type: colors
/// as hex JSON on standard output, nothing written to disk.
pub fn generator_command(wallpaper: &str, mode: ThemeMode, scheme_type: &str) -> (r: (
    String,
    Vec<String>,
))
    ensures
        r.deep_view() == (
            "matugen"@,
            seq![
                "--json"@,
                "hex"@,
                "--dry-run"@,
                "image"@,
                wallpaper@,
                "--mode"@,
                (if mode is Light { "light"@ } else { "dark"@ }),
                "--type"@,
                scheme_type@,
            ],
        ),
{
    let mut args: Vec<String> = Vec::new();
    args.push(String::from_str("--json"));
    args.push(String::from_str("hex"));
    args.push(String::from_str("--dry-run"));
    args.push(String::from_str("image"));
    args.push(String::from_str(wallpaper));
    args.push(String::from_str("--mode"));
    args.push(String::from_str(mode.as_str()));
    args.push(String::from_str("--type"));
    args.push(String::from_str(scheme_type));
    let r = (String::from_str("matugen"), args);
    proof {
        assert(r.deep_view() =~~= (
            "matugen"@,
            seq![
                "--json"@,
                "hex"@,
                "--dry-run"@,
                "image"@,
                wallpaper@,
                "--mode"@,
                (if mode is Light { "light"@ } else { "dark"@ }),
                "--type"@,
                scheme_type@,
            ],
        ));
    }
    r
}

/// Parse a static color file: the string-valued members of a JSON object
/// document are its role/color pairs. Unparsable text is a configuration
/// error — a file the user configured is trusted completely and never
/// silently passed over. Members that are not strings are ignored, and a
/// document that is not an object gives no colors.
pub fn parse_color_entries(text: &str) -> (r: Result<Vec<(String, String)>, Error>)
    ensures
        match r {
            Ok(v) => string_members_of(text@) == Some(v.deep_view()),
            Err(e) => string_members_of(text@) is None && e is Config && spec_error_detail(e)
                == "Failed to parse custom colors JSON"@,
        },
{
    match json_string_members(text) {
        Some(entries) => Ok(entries),
        None => Err(Error::Config(String::from_str("Failed to parse custom colors JSON"))),
    }
}

/// Run the whole chain from raw texts: the static file's content when that
/// file exists, the generator's output when generation ran, and the
/// configured overrides. A static file that parses is used exactly as
/// parsed; one that does not parse fails the resolution, the only failure.
/// Generator output that yields colors for the mode is used exactly;
/// otherwise the built-in palette is the base. Overrides always win.
pub fn resolve_from_texts(
    mode: ThemeMode,
    static_text: Option<&str>,
    generated_text: Option<&str>,
    overrides: &Vec<(String, String)>,
) -> (r: Result<ColorScheme, Error>)
    ensures
        r matches Ok(s) ==> s.wf() && s.spec_mode() == mode,
        r matches Ok(s) ==> forall|k: Seq<char>|
            spec_lookup_last(overrides.deep_view(), k) is Some ==> s.spec_get(k)
                == spec_lookup_last(overrides.deep_view(), k),
        r matches Err(e) ==> e is Config && static_text is Some,
        match static_text {
            Some(t) => match string_members_of(t@) {
                Some(es) => r matches Ok(s) && resolved_from(
                    s,
                    es,
                    overrides.deep_view(),
                    mode,
                ),
                None => r is Err,
            },
            None => match generated_text {
                Some(t) => match matugen_colors_of(t@, spec_mode_name(mode)) {
                    Some(Some(es)) => if es.len() > 0 {
                        r matches Ok(s) && resolved_from(s, es, overrides.deep_view(), mode)
                    } else {
                        r matches Ok(s) && resolved_from(
                            s,
                            spec_fallback(mode),
                            overrides.deep_view(),
                            mode,
                        )
                    },
                    _ => r matches Ok(s) && resolved_from(
                        s,
                        spec_fallback(mode),
                        overrides.deep_view(),
                        mode,
                    ),
                },
                None => r matches Ok(s) && resolved_from(
                    s,
                    spec_fallback(mode),
                    overrides.deep_view(),
                    mode,
                ),
            },
        },
{
    let static_parse: Option<Result<Vec<(String, String)>, Error>> = match static_text {
        Some(t) => Some(parse_color_entries(t)),
        None => None,
    };
    let generated_parse: Option<Result<Vec<(String, String)>, Error>> = match generated_text {
        Some(t) => match parse_matugen_colors(t, mode.as_str()) {
            Ok(es) => Some(Ok(es)),
            Err(m) => Some(Err(Error::Matugen(m))),
        },
        None => None,
    };
    resolve_scheme(mode, static_parse, generated_parse, overrides)
}

} // verus!
