//! Color value handling: parsing six-digit hex colors, rendering RGB
//! triples for KDE color-scheme files, and mapping a color to the closest
//! desktop accent-color name.

use vstd::prelude::*;
use crate::error::msg_with;
use crate::strutil::{spec_dec, string_push, u64_to_string};

verus! {

/// The generator output's colors for one mode: `None` when the output is
/// not valid JSON; `Some(None)` when it has no `colors` member; otherwise
/// the name/hex pairs whose entry carries a string under the mode key, in
/// stored order. A function of the output text and the mode alone.
pub uninterp spec fn matugen_colors_of(json: Seq<char>, mode: Seq<char>) -> Option<
    Option<Seq<(Seq<char>, Seq<char>)>>,
>;

/// Relies on `serde_json::from_str::<Value>`, `Value::get` and
/// `Value::as_str`: decodes the generator's output and hands out each
/// color's string value under the mode key, in stored order.
#[verifier::external_body]
fn matugen_mode_colors(json: &str, mode: &str) -> (r: Option<Option<Vec<(String, String)>>>)
    ensures
        match r {
            None => matugen_colors_of(json@, mode@) is None,
            Some(inner) => match inner {
                None => matugen_colors_of(json@, mode@) matches Some(i2) && i2 is None,
                Some(v) => matugen_colors_of(json@, mode@) == Some(Some(v.deep_view())),
            },
        },
{
    let value: serde_json::Value = match serde_json::from_str(json) {
        Ok(v) => v,
        Err(_) => return None,
    };
    let colors = match value.get("colors") {
        Some(c) => c,
        None => return Some(None),
    };
    let mut out: Vec<(String, String)> = Vec::new();
    for (name, member) in colors.as_object().into_iter().flatten() {
        if let Some(hex) = member.get(mode).and_then(|v| v.as_str()) {
            out.push((name.clone(), hex.to_string()));
        }
    }
    Some(Some(out))
}

/// Parse the color generator's JSON output into role/color pairs for one
/// mode. The output's shape is an object `colors` whose members each carry
/// one string value per mode. Members without a string value for the
/// requested mode are ignored; an output without any color for the mode is
/// an error, as is unparsable JSON or a missing `colors` object, each with
/// its own message.
pub fn parse_matugen_colors(json: &str, mode: &str) -> (r: Result<Vec<(String, String)>, String>)
    ensures
        match r {
            Ok(v) => matugen_colors_of(json@, mode@) == Some(Some(v.deep_view()))
                && v.deep_view().len() > 0,
            Err(m) => match matugen_colors_of(json@, mode@) {
                None => m@ == "Failed to parse matugen JSON"@,
                Some(inner) => match inner {
                    None => m@ == "No colors object in matugen output"@,
                    Some(es) => es.len() == 0 && m@ == "No colors found for mode: "@ + mode@,
                },
            },
        },
{
    let inner = match matugen_mode_colors(json, mode) {
        Some(inner) => inner,
        None => {
            return Err(String::from_str("Failed to parse matugen JSON"));
        },
    };
    let out = match inner {
        Some(out) => out,
        None => {
            return Err(String::from_str("No colors object in matugen output"));
        },
    };
    if out.len() == 0 {
        Err(msg_with("No colors found for mode: ", mode))
    } else {
        Ok(out)
    }
}

/// Numeric value of one hexadecimal digit, or `None` when the character is
/// not a hex digit. Parsing is case-insensitive.
pub open spec fn spec_hex_digit(c: char) -> Option<u8> {
    if '0' <= c && c <= '9' {
        Some((c as u8 - '0' as u8) as u8)
    } else if 'a' <= c && c <= 'f' {
        Some((c as u8 - 'a' as u8 + 10) as u8)
    } else if 'A' <= c && c <= 'F' {
        Some((c as u8 - 'A' as u8 + 10) as u8)
    } else {
        None
    }
}

/// Parse one hexadecimal digit.
pub fn hex_digit(c: char) -> (r: Option<u8>)
    ensures
        r == spec_hex_digit(c),
{
    if '0' <= c && c <= '9' {
        Some(c as u8 - '0' as u8)
    } else if 'a' <= c && c <= 'f' {
        Some(c as u8 - 'a' as u8 + 10)
    } else if 'A' <= c && c <= 'F' {
        Some(c as u8 - 'A' as u8 + 10)
    } else {
        None
    }
}

/// Byte value of two hex digits.
pub open spec fn spec_hex_pair(c1: char, c2: char) -> Option<u8> {
    match (spec_hex_digit(c1), spec_hex_digit(c2)) {
        (Some(h), Some(l)) => Some((16 * h + l) as u8),
        _ => None,
    }
}

/// A hex color with every leading `#` stripped.
pub open spec fn spec_strip_hash(s: Seq<char>) -> Seq<char>
    decreases s.len(),
{
    if s.len() > 0 && s[0] == '#' {
        spec_strip_hash(s.drop_first())
    } else {
        s
    }
}

/// The RGB triple denoted by a hex color string: exactly six hex digits
/// after the leading `#` signs, case-insensitive; anything else is `None`.
pub open spec fn spec_hex_color(s: Seq<char>) -> Option<(u8, u8, u8)> {
    let t = spec_strip_hash(s);
    if t.len() != 6 {
        None
    } else {
        match (spec_hex_pair(t[0], t[1]), spec_hex_pair(t[2], t[3]), spec_hex_pair(t[4], t[5])) {
            (Some(r), Some(g), Some(b)) => Some((r, g, b)),
            _ => None,
        }
    }
}

/// Convert a hex color to an RGB triple.
///
/// Succeeds exactly on strings that hold six hex digits after the optional
/// leading `#`; on any other input the error names the offending value.
pub fn hex_to_rgb(hex: &str) -> (r: Result<(u8, u8, u8), String>)
    ensures
        match r {
            Ok(rgb) => spec_hex_color(hex@) == Some(rgb),
            Err(m) => spec_hex_color(hex@) is None && m@ == "Invalid hex color: "@
                + spec_strip_hash(hex@),
        },
{
    let n: usize = hex.unicode_len();
    let mut i: usize = 0;
    proof {
        assert(hex@.skip(0) =~= hex@);
    }
    while i < n && hex.get_char(i) == '#'
        invariant
            n == hex@.len(),
            i <= n,
            spec_strip_hash(hex@) == spec_strip_hash(hex@.skip(i as int)),
        decreases n - i,
    {
        proof {
            assert(hex@.skip(i as int)[0] == hex@[i as int]);
            assert(hex@.skip(i as int).drop_first() =~= hex@.skip(i + 1));
        }
        i = i + 1;
    }
    proof {
        if i < n {
            assert(hex@.skip(i as int)[0] == hex@[i as int]);
        }
        assert(spec_strip_hash(hex@.skip(i as int)) == hex@.skip(i as int));
    }
    let t: &str = hex.substring_char(i, n);
    proof {
        assert(t@ =~= hex@.skip(i as int));
    }
    if n - i != 6 {
        let mut m = String::from_str("Invalid hex color: ");
        m.append(t);
        return Err(m);
    }
    let d0 = hex_digit(t.get_char(0));
    let d1 = hex_digit(t.get_char(1));
    let d2 = hex_digit(t.get_char(2));
    let d3 = hex_digit(t.get_char(3));
    let d4 = hex_digit(t.get_char(4));
    let d5 = hex_digit(t.get_char(5));
    match (d0, d1, d2, d3, d4, d5) {
        (Some(h0), Some(l0), Some(h1), Some(l1), Some(h2), Some(l2)) => Ok(
            (16 * h0 + l0, 16 * h1 + l1, 16 * h2 + l2),
        ),
        _ => {
            let mut m = String::from_str("Invalid hex color: ");
            m.append(t);
            Err(m)
        },
    }
}

/// The comma-separated decimal form KDE color-scheme files use.
pub open spec fn spec_kde_string(r: u8, g: u8, b: u8) -> Seq<char> {
    spec_dec(r as int) + seq![','] + spec_dec(g as int) + seq![','] + spec_dec(b as int)
}

/// Render an RGB triple as the comma-separated string KDE expects.
pub fn rgb_to_kde_string(r: u8, g: u8, b: u8) -> (s: String)
    ensures
        s@ == spec_kde_string(r, g, b),
{
    let mut out = u64_to_string(r as u64);
    string_push(&mut out, ',');
    let gs = u64_to_string(g as u64);
    out.append(gs.as_str());
    string_push(&mut out, ',');
    let bs = u64_to_string(b as u64);
    out.append(bs.as_str());
    proof {
        assert(out@ =~= spec_kde_string(r, g, b));
    }
    out
}

/// The accent-color name closest to an RGB value: low-saturation colors are
/// slate; otherwise the dominant channel and the gap between the other two
/// pick the name.
pub open spec fn spec_accent(r: u8, g: u8, b: u8) -> Seq<char> {
    let hi = if r >= g && r >= b { r as int } else if g >= b { g as int } else { b as int };
    let lo = if r <= g && r <= b { r as int } else if g <= b { g as int } else { b as int };
    if hi - lo < 30 {
        "slate"@
    } else if r >= g && r >= b {
        if g > b + 30 {
            "orange"@
        } else if b > g + 30 {
            "pink"@
        } else {
            "red"@
        }
    } else if g >= r && g >= b {
        if b > r + 20 {
            "teal"@
        } else if r > b + 20 {
            "yellow"@
        } else {
            "green"@
        }
    } else {
        if r > g + 20 {
            "purple"@
        } else if g > r + 20 {
            "teal"@
        } else {
            "blue"@
        }
    }
}

/// Map a hex color to the closest desktop accent-color name.
pub fn map_to_accent_color(hex: &str) -> (res: Result<String, String>)
    ensures
        match res {
            Ok(name) => spec_hex_color(hex@) matches Some(rgb) && name@ == spec_accent(
                rgb.0,
                rgb.1,
                rgb.2,
            ),
            Err(m) => spec_hex_color(hex@) is None && m@ == "Invalid hex color: "@
                + spec_strip_hash(hex@),
        },
{
    let (r, g, b) = match hex_to_rgb(hex) {
        Ok(rgb) => rgb,
        Err(m) => {
            return Err(m);
        },
    };
    let hi: u8 = if r >= g && r >= b { r } else if g >= b { g } else { b };
    let lo: u8 = if r <= g && r <= b { r } else if g <= b { g } else { b };
    let name: &str = if hi - lo < 30 {
        "slate"
    } else if r >= g && r >= b {
        if g as u16 > b as u16 + 30 {
            "orange"
        } else if b as u16 > g as u16 + 30 {
            "pink"
        } else {
            "red"
        }
    } else if g >= r && g >= b {
        if b as u16 > r as u16 + 20 {
            "teal"
        } else if r as u16 > b as u16 + 20 {
            "yellow"
        } else {
            "green"
        }
    } else {
        if r as u16 > g as u16 + 20 {
            "purple"
        } else if g as u16 > r as u16 + 20 {
            "teal"
        } else {
            "blue"
        }
    };
    Ok(String::from_str(name))
}

} // verus!
