//! Rendering the configuration as a commented TOML document, section by
//! section. Writing the document to disk is the caller's concern.

use vstd::prelude::*;
use crate::config::{Config, ThemeProfile};
use crate::scheme::ThemeMode;
use crate::strutil::{i32_to_string, spec_dec, spec_dec_signed, u64_to_string};

verus! {

/// `true` or `false`.
pub open spec fn spec_bool_str(b: bool) -> Seq<char> {
    if b {
        "true"@
    } else {
        "false"@
    }
}

/// Render a boolean as TOML does.
pub fn bool_str(b: bool) -> (r: &'static str)
    ensures
        r@ == spec_bool_str(b),
{
    if b {
        "true"
    } else {
        "false"
    }
}

/// A TOML line with a quoted value: `key = "value"`.
pub open spec fn spec_quoted_line(key: Seq<char>, value: Seq<char>) -> Seq<char> {
    key + " = \""@ + value + "\"\n"@
}

/// A TOML line with a bare value: `key = value`.
pub open spec fn spec_raw_line(key: Seq<char>, value: Seq<char>) -> Seq<char> {
    key + " = "@ + value + "\n"@
}

/// A comment line.
pub open spec fn spec_comment_line(text: Seq<char>) -> Seq<char> {
    "# "@ + text + "\n"@
}

fn quoted_line(out: &mut String, key: &str, value: &str)
    ensures
        final(out)@ == old(out)@ + spec_quoted_line(key@, value@),
{
    out.append(key);
    out.append(" = \"");
    out.append(value);
    out.append("\"\n");
    proof {
        assert(out@ =~= old(out)@ + spec_quoted_line(key@, value@));
    }
}

fn raw_line(out: &mut String, key: &str, value: &str)
    ensures
        final(out)@ == old(out)@ + spec_raw_line(key@, value@),
{
    out.append(key);
    out.append(" = ");
    out.append(value);
    out.append("\n");
    proof {
        assert(out@ =~= old(out)@ + spec_raw_line(key@, value@));
    }
}

fn comment_line(out: &mut String, text: &str)
    ensures
        final(out)@ == old(out)@ + spec_comment_line(text@),
{
    out.append("# ");
    out.append(text);
    out.append("\n");
    proof {
        assert(out@ =~= old(out)@ + spec_comment_line(text@));
    }
}

/// The opacity stored in hundredths, rendered as its decimal value: 95
/// gives `0.95`, 50 gives `0.5`, 100 gives `1`.
pub open spec fn spec_opacity(pct: u32) -> Seq<char> {
    let whole = pct as int / 100;
    let frac = pct as int % 100;
    if frac == 0 {
        spec_dec(whole)
    } else if frac % 10 == 0 {
        spec_dec(whole) + "."@ + spec_dec(frac / 10)
    } else if frac < 10 {
        spec_dec(whole) + ".0"@ + spec_dec(frac)
    } else {
        spec_dec(whole) + "."@ + spec_dec(frac)
    }
}

/// Render an opacity held in hundredths.
pub fn opacity_string(pct: u32) -> (r: String)
    ensures
        r@ == spec_opacity(pct),
{
    let whole: u32 = pct / 100;
    let frac: u32 = pct % 100;
    let mut out = u64_to_string(whole as u64);
    if frac == 0 {
    } else if frac % 10 == 0 {
        out.append(".");
        let d = u64_to_string((frac / 10) as u64);
        out.append(d.as_str());
        proof {
            assert(out@ =~= spec_opacity(pct));
        }
    } else if frac < 10 {
        out.append(".0");
        let d = u64_to_string(frac as u64);
        out.append(d.as_str());
        proof {
            assert(out@ =~= spec_opacity(pct));
        }
    } else {
        out.append(".");
        let d = u64_to_string(frac as u64);
        out.append(d.as_str());
        proof {
            assert(out@ =~= spec_opacity(pct));
        }
    }
    out
}

/// A quoted TOML line for a preference that is set, or nothing.
pub open spec fn spec_opt_quoted(key: Seq<char>, v: Option<String>) -> Seq<char> {
    match v {
        Some(t) => spec_quoted_line(key, t@),
        None => Seq::empty(),
    }
}

/// Append a quoted line for a preference, when it is set.
fn opt_quoted_line(out: &mut String, key: &str, v: &Option<String>)
    ensures
        final(out)@ == old(out)@ + spec_opt_quoted(key@, *v),
{
    match v {
        Some(t) => quoted_line(out, key, t.as_str()),
        None => {
            proof {
                assert(out@ =~= old(out)@ + spec_opt_quoted(key@, *v));
            }
        },
    }
}

/// One profile section's lines: the explicit preferences that are set, and
/// the sizes, opacity and blur flag that always appear.
pub open spec fn spec_profile_body(p: ThemeProfile) -> Seq<char> {
    spec_opt_quoted("gtk_theme"@, p.gtk_theme) + spec_opt_quoted(
        "gtk_icon_theme"@,
        p.gtk_icon_theme,
    ) + spec_opt_quoted("cursor_theme"@, p.cursor_theme) + spec_raw_line(
        "cursor_size"@,
        spec_dec(p.cursor_size as int),
    ) + spec_opt_quoted("terminal_font"@, p.terminal_font) + spec_raw_line(
        "terminal_font_size"@,
        spec_dec(p.terminal_font_size as int),
    ) + spec_opt_quoted("system_font"@, p.system_font) + spec_opt_quoted(
        "vscode_theme"@,
        p.vscode_theme,
    ) + spec_opt_quoted("neovim_colorscheme"@, p.neovim_colorscheme) + spec_raw_line(
        "terminal_opacity"@,
        spec_opacity(p.terminal_opacity_pct),
    ) + spec_raw_line("window_blur"@, spec_bool_str(p.window_blur))
}

fn append_profile_body(out: &mut String, p: &ThemeProfile)
    ensures
        final(out)@ == old(out)@ + spec_profile_body(*p),
{
    opt_quoted_line(out, "gtk_theme", &p.gtk_theme);
    opt_quoted_line(out, "gtk_icon_theme", &p.gtk_icon_theme);
    opt_quoted_line(out, "cursor_theme", &p.cursor_theme);
    let cursor_size = u64_to_string(p.cursor_size as u64);
    raw_line(out, "cursor_size", cursor_size.as_str());
    opt_quoted_line(out, "terminal_font", &p.terminal_font);
    let font_size = u64_to_string(p.terminal_font_size as u64);
    raw_line(out, "terminal_font_size", font_size.as_str());
    opt_quoted_line(out, "system_font", &p.system_font);
    opt_quoted_line(out, "vscode_theme", &p.vscode_theme);
    opt_quoted_line(out, "neovim_colorscheme", &p.neovim_colorscheme);
    let opacity = opacity_string(p.terminal_opacity_pct);
    raw_line(out, "terminal_opacity", opacity.as_str());
    raw_line(out, "window_blur", bool_str(p.window_blur));
}

/// The module sections: a comment template when no module is configured,
/// else one section per configured module, in order.
pub open spec fn spec_module_sections(ms: Seq<(Seq<char>, crate::config::ModuleSetting)>) -> Seq<
    char,
>
    decreases ms.len(),
{
    if ms.len() == 0 {
        Seq::empty()
    } else {
        spec_module_sections(ms.drop_last()) + "[modules."@ + ms.last().0 + "]\n"@ + spec_raw_line(
            "enabled"@,
            spec_bool_str(ms.last().1.enabled),
        ) + spec_raw_line("restart"@, spec_bool_str(ms.last().1.restart)) + (
        match ms.last().1.command {
            Some(c) => spec_quoted_line("command"@, c@),
            None => Seq::empty(),
        }) + "\n"@
    }
}

/// The color-override lines, one quoted line per override, in order.
pub open spec fn spec_color_lines(cs: Seq<(Seq<char>, Seq<char>)>) -> Seq<char>
    decreases cs.len(),
{
    if cs.len() == 0 {
        Seq::empty()
    } else {
        spec_color_lines(cs.drop_last()) + spec_quoted_line(cs.last().0, cs.last().1)
    }
}

/// The `[general]` section, each field under its explaining comment.
pub open spec fn spec_general_section(g: crate::config::GeneralConfig) -> Seq<char> {
    "[general]\n"@ + spec_comment_line(
        "Path to wallpaper image for theme color generation (supports ~)"@,
    ) + spec_quoted_line("wallpaper"@, g.wallpaper@) + "\n"@ + spec_comment_line(
        "Default theme mode on startup: Light or Dark"@,
    ) + spec_quoted_line(
        "default_mode"@,
        if g.default_mode is Light {
            "Light"@
        } else {
            "Dark"@
        },
    ) + "\n"@ + spec_comment_line(
        "Material color scheme type (scheme-expressive, scheme-tonal-spot, scheme-neutral, etc.)"@,
    ) + spec_quoted_line("scheme_type"@, g.scheme_type@) + "\n"@ + spec_comment_line(
        "Enable automatic color generation from wallpaper using matugen"@,
    ) + spec_raw_line("use_matugen"@, spec_bool_str(g.use_matugen)) + "\n"@ + spec_comment_line(
        "Path to fallback color JSON for light mode when matugen disabled"@,
    ) + spec_quoted_line("default_light_colors"@, g.default_light_colors@) + "\n"@
        + spec_comment_line("Path to fallback color JSON for dark mode when matugen disabled"@)
        + spec_quoted_line("default_dark_colors"@, g.default_dark_colors@) + "\n"@
}

#[verifier::rlimit(80)]
fn general_section(out: &mut String, g: &crate::config::GeneralConfig)
    ensures
        final(out)@ == old(out)@ + spec_general_section(*g),
{
    let ghost base = out@;
    out.append("[general]\n");
    comment_line(out, "Path to wallpaper image for theme color generation (supports ~)");
    quoted_line(out, "wallpaper", g.wallpaper.as_str());
    out.append("\n");
    comment_line(out, "Default theme mode on startup: Light or Dark");
    let mode_title: &str = match g.default_mode {
        ThemeMode::Light => "Light",
        ThemeMode::Dark => "Dark",
    };
    quoted_line(out, "default_mode", mode_title);
    out.append("\n");
    comment_line(
        out,
        "Material color scheme type (scheme-expressive, scheme-tonal-spot, scheme-neutral, etc.)",
    );
    quoted_line(out, "scheme_type", g.scheme_type.as_str());
    out.append("\n");
    comment_line(out, "Enable automatic color generation from wallpaper using matugen");
    raw_line(out, "use_matugen", bool_str(g.use_matugen));
    out.append("\n");
    comment_line(out, "Path to fallback color JSON for light mode when matugen disabled");
    quoted_line(out, "default_light_colors", g.default_light_colors.as_str());
    out.append("\n");
    comment_line(out, "Path to fallback color JSON for dark mode when matugen disabled");
    quoted_line(out, "default_dark_colors", g.default_dark_colors.as_str());
    out.append("\n");
    proof {
        assert(out@ =~= base + spec_general_section(*g));
    }
}

/// The `[notifications]` section.
pub open spec fn spec_notifications_section(n: crate::config::NotificationConfig) -> Seq<char> {
    "[notifications]\n"@ + spec_comment_line("Show desktop notifications when theme changes"@)
        + spec_raw_line("enabled"@, spec_bool_str(n.enabled)) + "\n"@ + spec_comment_line(
        "Notification display duration in milliseconds (default: 5000)"@,
    ) + spec_raw_line("timeout"@, spec_dec_signed(n.timeout as int)) + "\n"@ + spec_comment_line(
        "Show individual notification for each module being applied"@,
    ) + spec_raw_line("show_module_progress"@, spec_bool_str(n.show_module_progress)) + "\n"@
}

fn notifications_section(out: &mut String, n: &crate::config::NotificationConfig)
    ensures
        final(out)@ == old(out)@ + spec_notifications_section(*n),
{
    let ghost base = out@;
    out.append("[notifications]\n");
    comment_line(out, "Show desktop notifications when theme changes");
    raw_line(out, "enabled", bool_str(n.enabled));
    out.append("\n");
    comment_line(out, "Notification display duration in milliseconds (default: 5000)");
    let timeout = i32_to_string(n.timeout);
    raw_line(out, "timeout", timeout.as_str());
    out.append("\n");
    comment_line(out, "Show individual notification for each module being applied");
    raw_line(out, "show_module_progress", bool_str(n.show_module_progress));
    out.append("\n");
    proof {
        assert(out@ =~= base + spec_notifications_section(*n));
    }
}

/// The `[performance]` section.
pub open spec fn spec_performance_section(p: crate::config::PerformanceConfig) -> Seq<char> {
    "[performance]\n"@ + spec_comment_line(
        "Maximum seconds to wait for all modules to complete (default: 10)"@,
    ) + spec_raw_line("timeout"@, spec_dec(p.timeout as int)) + "\n"@ + spec_comment_line(
        "Log warning if any module takes longer than this in milliseconds (default: 250)"@,
    ) + spec_raw_line("slow_module_threshold"@, spec_dec(p.slow_module_threshold as int)) + "\n"@
}

fn performance_section(out: &mut String, p: &crate::config::PerformanceConfig)
    ensures
        final(out)@ == old(out)@ + spec_performance_section(*p),
{
    let ghost base = out@;
    out.append("[performance]\n");
    comment_line(out, "Maximum seconds to wait for all modules to complete (default: 10)");
    let timeout = u64_to_string(p.timeout);
    raw_line(out, "timeout", timeout.as_str());
    out.append("\n");
    comment_line(
        out,
        "Log warning if any module takes longer than this in milliseconds (default: 250)",
    );
    let threshold = u64_to_string(p.slow_module_threshold);
    raw_line(out, "slow_module_threshold", threshold.as_str());
    out.append("\n");
    proof {
        assert(out@ =~= base + spec_performance_section(*p));
    }
}

/// The example block shown when no module is configured.
pub open spec fn spec_module_example() -> Seq<char> {
    "# Module settings (add entries to customize specific modules)\n# Example:\n# [modules.gtk]\n# enabled = true\n# restart = false\n\n"@
}

#[verifier::rlimit(80)]
fn modules_section(out: &mut String, m: &crate::config::ModuleConfig)
    ensures
        final(out)@ == old(out)@ + "[modules]\n"@ + if m.modules@.len() == 0 {
            spec_module_example()
        } else {
            spec_module_sections(crate::config::spec_entries_of(*m))
        },
{
    let ghost base = out@;
    out.append("[modules]\n");
    if m.modules.len() == 0 {
        out.append(
            "# Module settings (add entries to customize specific modules)\n# Example:\n# [modules.gtk]\n# enabled = true\n# restart = false\n\n",
        );
        proof {
            assert(out@ =~= base + "[modules]\n"@ + spec_module_example());
        }
    } else {
        let ghost es = crate::config::spec_entries_of(*m);
        let n: usize = m.modules.len();
        let mut i: usize = 0;
        proof {
            assert(es.take(0) =~= Seq::<(Seq<char>, crate::config::ModuleSetting)>::empty());
            assert(out@ =~= base + "[modules]\n"@ + spec_module_sections(es.take(0)));
        }
        while i < n
            invariant
                n == m.modules@.len(),
                es == crate::config::spec_entries_of(*m),
                n == es.len(),
                i <= n,
                out@ == base + "[modules]\n"@ + spec_module_sections(es.take(i as int)),
            decreases n - i,
        {
            let ghost pre = out@;
            out.append("[modules.");
            out.append(m.modules[i].0.as_str());
            out.append("]\n");
            raw_line(out, "enabled", bool_str(m.modules[i].1.enabled));
            raw_line(out, "restart", bool_str(m.modules[i].1.restart));
            match &m.modules[i].1.command {
                Some(c) => quoted_line(out, "command", c.as_str()),
                None => {},
            }
            out.append("\n");
            proof {
                assert(es.take(i + 1).drop_last() =~= es.take(i as int));
                assert(es.take(i + 1).last() == es[i as int]);
                assert(es[i as int] == (m.modules@[i as int].0@, m.modules@[i as int].1));
                assert(out@ =~= base + "[modules]\n"@ + spec_module_sections(es.take(i + 1)));
            }
            i = i + 1;
        }
        proof {
            assert(es.take(n as int) =~= es);
        }
    }
}

/// The `[cache]` section.
pub open spec fn spec_cache_section(c: crate::config::CacheConfig) -> Seq<char> {
    "[cache]\n"@ + spec_comment_line(
        "Cache matugen color generation results to speed up repeated theme switches"@,
    ) + spec_raw_line("enabled"@, spec_bool_str(c.enabled)) + "\n"@ + spec_comment_line(
        "Directory to store cached color schemes (supports ~)"@,
    ) + spec_quoted_line("dir"@, c.dir@) + "\n"@
}

fn cache_section(out: &mut String, c: &crate::config::CacheConfig)
    ensures
        final(out)@ == old(out)@ + spec_cache_section(*c),
{
    let ghost base = out@;
    out.append("[cache]\n");
    comment_line(out, "Cache matugen color generation results to speed up repeated theme switches");
    raw_line(out, "enabled", bool_str(c.enabled));
    out.append("\n");
    comment_line(out, "Directory to store cached color schemes (supports ~)");
    quoted_line(out, "dir", c.dir.as_str());
    out.append("\n");
    proof {
        assert(out@ =~= base + spec_cache_section(*c));
    }
}

/// The `[logging]` section.
pub open spec fn spec_logging_section(l: crate::config::LoggingConfig) -> Seq<char> {
    "[logging]\n"@ + spec_comment_line("Log verbosity level: debug, info, warn, error"@)
        + spec_quoted_line("level"@, l.level@) + "\n"@ + spec_comment_line(
        "Path to log file for debugging (supports ~)"@,
    ) + spec_quoted_line("log_file"@, l.log_file@) + "\n"@ + spec_comment_line(
        "Maximum log file size in megabytes before rotation"@,
    ) + spec_raw_line("max_log_size"@, spec_dec(l.max_log_size as int)) + "\n"@
}

fn logging_section(out: &mut String, l: &crate::config::LoggingConfig)
    ensures
        final(out)@ == old(out)@ + spec_logging_section(*l),
{
    let ghost base = out@;
    out.append("[logging]\n");
    comment_line(out, "Log verbosity level: debug, info, warn, error");
    quoted_line(out, "level", l.level.as_str());
    out.append("\n");
    comment_line(out, "Path to log file for debugging (supports ~)");
    quoted_line(out, "log_file", l.log_file.as_str());
    out.append("\n");
    comment_line(out, "Maximum log file size in megabytes before rotation");
    let size = u64_to_string(l.max_log_size);
    raw_line(out, "max_log_size", size.as_str());
    out.append("\n");
    proof {
        assert(out@ =~= base + spec_logging_section(*l));
    }
}

/// The whole configuration document: a header, every section in order, the
/// profile for each mode, and the color overrides when there are any.
pub open spec fn spec_config_toml(c: Config) -> Seq<char> {
    "# LMTT (Linux Matugen Theme Toggle) Configuration\n# This file is auto-generated but safe to edit manually\n\n"@
        + spec_general_section(c.general) + spec_notifications_section(c.notifications)
        + spec_performance_section(c.performance) + "[modules]\n"@ + (
    if c.modules.modules@.len() == 0 {
        spec_module_example()
    } else {
        spec_module_sections(crate::config::spec_entries_of(c.modules))
    }) + spec_cache_section(c.cache) + spec_logging_section(c.logging)
        + "[theme_profiles.light]\n"@ + spec_comment_line("Theme profile settings for light mode"@)
        + spec_profile_body(c.theme_profiles.light) + "\n"@ + "[theme_profiles.dark]\n"@
        + spec_comment_line("Theme profile settings for dark mode"@) + spec_profile_body(
        c.theme_profiles.dark,
    ) + (if c.colors.colors@.len() == 0 {
        Seq::empty()
    } else {
        "\n[colors]\n"@ + spec_comment_line("Custom color overrides"@) + spec_color_lines(
            c.colors.colors.deep_view(),
        )
    })
}

/// Render the configuration as a commented TOML document.
#[verifier::rlimit(100)]
pub fn config_toml_string(c: &Config) -> (r: String)
    ensures
        r@ == spec_config_toml(*c),
{
    let mut out = String::from_str(
        "# LMTT (Linux Matugen Theme Toggle) Configuration\n# This file is auto-generated but safe to edit manually\n\n",
    );
    general_section(&mut out, &c.general);
    notifications_section(&mut out, &c.notifications);
    performance_section(&mut out, &c.performance);
    modules_section(&mut out, &c.modules);
    cache_section(&mut out, &c.cache);
    logging_section(&mut out, &c.logging);
    let ghost mid = out@;
    out.append("[theme_profiles.light]\n");
    comment_line(&mut out, "Theme profile settings for light mode");
    append_profile_body(&mut out, &c.theme_profiles.light);
    out.append("\n");
    out.append("[theme_profiles.dark]\n");
    comment_line(&mut out, "Theme profile settings for dark mode");
    append_profile_body(&mut out, &c.theme_profiles.dark);
    if c.colors.colors.len() > 0 {
        out.append("\n[colors]\n");
        comment_line(&mut out, "Custom color overrides");
        let ghost cs = c.colors.colors.deep_view();
        let n: usize = c.colors.colors.len();
        let mut i: usize = 0;
        let ghost pre_colors = out@;
        proof {
            assert(cs.take(0) =~= Seq::<(Seq<char>, Seq<char>)>::empty());
            assert(out@ =~= pre_colors + spec_color_lines(cs.take(0)));
        }
        while i < n
            invariant
                n == c.colors.colors@.len(),
                cs == c.colors.colors.deep_view(),
                n == cs.len(),
                i <= n,
                out@ == pre_colors + spec_color_lines(cs.take(i as int)),
            decreases n - i,
        {
            quoted_line(&mut out, c.colors.colors[i].0.as_str(), c.colors.colors[i].1.as_str());
            proof {
                assert(cs.take(i + 1).drop_last() =~= cs.take(i as int));
                assert(cs.take(i + 1).last() == cs[i as int]);
                assert(cs[i as int] == (c.colors.colors@[i as int].0@, (c.colors.colors@[i as int]).1@));
                assert(out@ =~= pre_colors + spec_color_lines(cs.take(i + 1)));
            }
            i = i + 1;
        }
        proof {
            assert(cs.take(n as int) =~= cs);
        }
    }
    proof {
        assert(out@ =~= spec_config_toml(*c));
    }
    out
}

} // verus!

