//! The user configuration: general settings, notification and performance
//! knobs, per-module settings, color overrides, cache and logging settings,
//! and per-mode theme profiles. Reading and writing the file itself is the
//! caller's concern; this module holds the values and their meaning.

use vstd::prelude::*;
use crate::scheme::ThemeMode;
use crate::strutil::{match_at, starts_with_sub, str_eq, string_push};

verus! {

/// General theme-switching settings.
pub struct GeneralConfig {
    /// Path to the wallpaper image colors are generated from.
    pub wallpaper: String,
    /// Mode assumed on startup.
    pub default_mode: ThemeMode,
    /// Material scheme type handed to the generator.
    pub scheme_type: String,
    /// Whether automatic color generation is enabled.
    pub use_matugen: bool,
    /// Path of the static color file for light mode.
    pub default_light_colors: String,
    /// Path of the static color file for dark mode.
    pub default_dark_colors: String,
}

/// Desktop notification settings.
pub struct NotificationConfig {
    pub enabled: bool,
    /// Display duration in milliseconds.
    pub timeout: i32,
    pub show_module_progress: bool,
}

/// Timing settings for the module fan-out.
pub struct PerformanceConfig {
    /// Upper bound in seconds on waiting for the modules.
    pub timeout: u64,
    /// A module slower than this many milliseconds is flagged.
    pub slow_module_threshold: u64,
}

/// Per-module settings.
pub struct ModuleSetting {
    pub enabled: bool,
    pub restart: bool,
    pub command: Option<String>,
}

/// Settings for named modules; a module with no entry uses the defaults.
pub struct ModuleConfig {
    pub modules: Vec<(String, ModuleSetting)>,
}

/// User color overrides, applied after every other source.
pub struct ColorOverrides {
    pub colors: Vec<(String, String)>,
}

/// Cache settings.
pub struct CacheConfig {
    pub enabled: bool,
    pub dir: String,
}

/// Logging settings.
pub struct LoggingConfig {
    pub level: String,
    pub log_file: String,
    /// Maximum log size in megabytes before rotation.
    pub max_log_size: u64,
}

/// Per-mode preferences for themes, fonts and cursors. The terminal opacity
/// is kept in hundredths, so 95 stands for an opacity of 0.95.
pub struct ThemeProfile {
    pub gtk_theme: Option<String>,
    pub gtk_icon_theme: Option<String>,
    pub cursor_theme: Option<String>,
    pub cursor_size: u32,
    pub terminal_font: Option<String>,
    pub terminal_font_size: u32,
    pub system_font: Option<String>,
    pub vscode_theme: Option<String>,
    pub neovim_colorscheme: Option<String>,
    pub terminal_opacity_pct: u32,
    pub window_blur: bool,
}

/// One profile per mode.
pub struct ThemeProfiles {
    pub light: ThemeProfile,
    pub dark: ThemeProfile,
}

/// The whole configuration.
pub struct Config {
    pub general: GeneralConfig,
    pub notifications: NotificationConfig,
    pub performance: PerformanceConfig,
    pub modules: ModuleConfig,
    pub colors: ColorOverrides,
    pub cache: CacheConfig,
    pub logging: LoggingConfig,
    pub theme_profiles: ThemeProfiles,
}

impl GeneralConfig {
    /// The built-in general settings.
    pub fn new_default() -> (r: GeneralConfig)
        ensures
            r.wallpaper@ == "~/Pictures/forrest.png"@,
            r.default_mode is Dark,
            r.scheme_type@ == "scheme-expressive"@,
            r.use_matugen,
            r.default_light_colors@ == "~/.config/lmtt/colors-light.json"@,
            r.default_dark_colors@ == "~/.config/lmtt/colors-dark.json"@,
    {
        GeneralConfig {
            wallpaper: String::from_str("~/Pictures/forrest.png"),
            default_mode: ThemeMode::Dark,
            scheme_type: String::from_str("scheme-expressive"),
            use_matugen: true,
            default_light_colors: String::from_str("~/.config/lmtt/colors-light.json"),
            default_dark_colors: String::from_str("~/.config/lmtt/colors-dark.json"),
        }
    }
}

impl NotificationConfig {
    /// The built-in notification settings.
    pub fn new_default() -> (r: NotificationConfig)
        ensures
            r.enabled,
            r.timeout == 5000,
            !r.show_module_progress,
    {
        NotificationConfig { enabled: true, timeout: 5000, show_module_progress: false }
    }
}

impl PerformanceConfig {
    /// The built-in timing settings.
    pub fn new_default() -> (r: PerformanceConfig)
        ensures
            r.timeout == 10,
            r.slow_module_threshold == 250,
    {
        PerformanceConfig { timeout: 10, slow_module_threshold: 250 }
    }
}

impl ModuleSetting {
    /// The settings of a module the configuration does not mention:
    /// enabled, no restart, no custom command.
    pub fn new_default() -> (r: ModuleSetting)
        ensures
            r.enabled,
            !r.restart,
            r.command is None,
    {
        ModuleSetting { enabled: true, restart: false, command: None }
    }
}

impl CacheConfig {
    /// The built-in cache settings.
    pub fn new_default() -> (r: CacheConfig)
        ensures
            r.enabled,
            r.dir@ == "~/.cache/lmtt"@,
    {
        CacheConfig { enabled: true, dir: String::from_str("~/.cache/lmtt") }
    }
}

impl LoggingConfig {
    /// The built-in logging settings.
    pub fn new_default() -> (r: LoggingConfig)
        ensures
            r.level@ == "info"@,
            r.log_file@ == "~/.cache/lmtt/lmtt.log"@,
            r.max_log_size == 10,
    {
        LoggingConfig {
            level: String::from_str("info"),
            log_file: String::from_str("~/.cache/lmtt/lmtt.log"),
            max_log_size: 10,
        }
    }
}

/// The empty profile: no explicit preferences, cursor size 24, font size
/// 11, opacity 0.95, no blur.
pub open spec fn spec_default_profile() -> ThemeProfile {
    ThemeProfile {
        gtk_theme: None,
        gtk_icon_theme: None,
        cursor_theme: None,
        cursor_size: 24,
        terminal_font: None,
        terminal_font_size: 11,
        system_font: None,
        vscode_theme: None,
        neovim_colorscheme: None,
        terminal_opacity_pct: 95,
        window_blur: false,
    }
}

impl ThemeProfile {
    /// The empty profile: no explicit preferences, cursor size 24, font
    /// size 11, opacity 0.95, no blur.
    pub fn new_default() -> (r: ThemeProfile)
        ensures
            r == spec_default_profile(),
            r.gtk_theme is None,
            r.gtk_icon_theme is None,
            r.cursor_theme is None,
            r.cursor_size == 24,
            r.terminal_font is None,
            r.terminal_font_size == 11,
            r.system_font is None,
            r.vscode_theme is None,
            r.neovim_colorscheme is None,
            r.terminal_opacity_pct == 95,
            !r.window_blur,
    {
        ThemeProfile {
            gtk_theme: None,
            gtk_icon_theme: None,
            cursor_theme: None,
            cursor_size: 24,
            terminal_font: None,
            terminal_font_size: 11,
            system_font: None,
            vscode_theme: None,
            neovim_colorscheme: None,
            terminal_opacity_pct: 95,
            window_blur: false,
        }
    }
}

impl ThemeProfiles {
    /// Empty profiles for both modes.
    pub fn new_default() -> (r: ThemeProfiles)
        ensures
            r.light == spec_default_profile(),
            r.dark == spec_default_profile(),
    {
        ThemeProfiles { light: ThemeProfile::new_default(), dark: ThemeProfile::new_default() }
    }

    /// The profile for a mode.
    pub fn for_mode(&self, mode: ThemeMode) -> (r: &ThemeProfile)
        ensures
            mode is Light ==> r == &self.light,
            mode is Dark ==> r == &self.dark,
    {
        match mode {
            ThemeMode::Light => &self.light,
            ThemeMode::Dark => &self.dark,
        }
    }
}

impl Default for GeneralConfig {
    fn default() -> (r: GeneralConfig)
        ensures
            r.wallpaper@ == "~/Pictures/forrest.png"@,
            r.default_mode is Dark,
            r.scheme_type@ == "scheme-expressive"@,
            r.use_matugen,
            r.default_light_colors@ == "~/.config/lmtt/colors-light.json"@,
            r.default_dark_colors@ == "~/.config/lmtt/colors-dark.json"@,
    {
        GeneralConfig::new_default()
    }
}

impl Default for NotificationConfig {
    fn default() -> (r: NotificationConfig)
        ensures
            r.enabled && r.timeout == 5000 && !r.show_module_progress,
    {
        NotificationConfig::new_default()
    }
}

impl Default for PerformanceConfig {
    fn default() -> (r: PerformanceConfig)
        ensures
            r.timeout == 10 && r.slow_module_threshold == 250,
    {
        PerformanceConfig::new_default()
    }
}

impl Default for ModuleSetting {
    fn default() -> (r: ModuleSetting)
        ensures
            r.enabled && !r.restart && r.command is None,
    {
        ModuleSetting::new_default()
    }
}

impl Default for ModuleConfig {
    fn default() -> (r: ModuleConfig)
        ensures
            r.modules@.len() == 0,
    {
        ModuleConfig { modules: Vec::new() }
    }
}

impl Default for ColorOverrides {
    fn default() -> (r: ColorOverrides)
        ensures
            r.colors@.len() == 0,
    {
        ColorOverrides { colors: Vec::new() }
    }
}

impl Default for CacheConfig {
    fn default() -> (r: CacheConfig)
        ensures
            r.enabled && r.dir@ == "~/.cache/lmtt"@,
    {
        CacheConfig::new_default()
    }
}

impl Default for LoggingConfig {
    fn default() -> (r: LoggingConfig)
        ensures
            r.level@ == "info"@ && r.log_file@ == "~/.cache/lmtt/lmtt.log"@ && r.max_log_size
                == 10,
    {
        LoggingConfig::new_default()
    }
}

impl Default for ThemeProfile {
    fn default() -> (r: ThemeProfile)
        ensures
            r == spec_default_profile(),
    {
        ThemeProfile::new_default()
    }
}

impl Default for ThemeProfiles {
    fn default() -> (r: ThemeProfiles)
        ensures
            r.light == spec_default_profile() && r.dark == spec_default_profile(),
    {
        ThemeProfiles::new_default()
    }
}

impl Default for Config {
    fn default() -> (r: Config)
        ensures
            r.general.default_mode is Dark && r.general.use_matugen,
            r.modules.modules@.len() == 0 && r.colors.colors@.len() == 0,
            r.theme_profiles.light == spec_default_profile() && r.theme_profiles.dark
                == spec_default_profile(),
    {
        Config::new_default()
    }
}

/// The setting entry for module `k`, if the configuration names it: the
/// first entry with that name.
pub open spec fn spec_setting_of(
    ms: Seq<(Seq<char>, ModuleSetting)>,
    k: Seq<char>,
) -> Option<ModuleSetting>
    decreases ms.len(),
{
    if ms.len() == 0 {
        None
    } else if ms.first().0 == k {
        Some(ms.first().1)
    } else {
        spec_setting_of(ms.drop_first(), k)
    }
}

/// A module-settings table as mathematical values.
pub open spec fn spec_entries_of(m: ModuleConfig) -> Seq<(Seq<char>, ModuleSetting)> {
    m.modules@.map_values(|p: (String, ModuleSetting)| (p.0@, p.1))
}

/// The module settings as mathematical values.
pub open spec fn spec_module_entries(c: Config) -> Seq<(Seq<char>, ModuleSetting)> {
    spec_entries_of(c.modules)
}

/// Whether the configuration leaves the named module enabled: enabled
/// unless an entry says otherwise.
pub open spec fn spec_module_enabled(c: Config, name: Seq<char>) -> bool {
    match spec_setting_of(spec_module_entries(c), name) {
        Some(s) => s.enabled,
        None => true,
    }
}

impl Config {
    /// The built-in configuration.
    pub fn new_default() -> (r: Config)
        ensures
            r.general.wallpaper@ == "~/Pictures/forrest.png"@,
            r.general.default_mode is Dark,
            r.general.scheme_type@ == "scheme-expressive"@,
            r.general.use_matugen,
            r.general.default_light_colors@ == "~/.config/lmtt/colors-light.json"@,
            r.general.default_dark_colors@ == "~/.config/lmtt/colors-dark.json"@,
            r.notifications.enabled && r.notifications.timeout == 5000
                && !r.notifications.show_module_progress,
            r.performance.timeout == 10 && r.performance.slow_module_threshold == 250,
            r.modules.modules@.len() == 0,
            r.colors.colors@.len() == 0,
            r.cache.enabled && r.cache.dir@ == "~/.cache/lmtt"@,
            r.logging.level@ == "info"@ && r.logging.log_file@ == "~/.cache/lmtt/lmtt.log"@
                && r.logging.max_log_size == 10,
            r.theme_profiles.light == spec_default_profile(),
            r.theme_profiles.dark == spec_default_profile(),
    {
        Config {
            general: GeneralConfig::new_default(),
            notifications: NotificationConfig::new_default(),
            performance: PerformanceConfig::new_default(),
            modules: ModuleConfig { modules: Vec::new() },
            colors: ColorOverrides { colors: Vec::new() },
            cache: CacheConfig::new_default(),
            logging: LoggingConfig::new_default(),
            theme_profiles: ThemeProfiles::new_default(),
        }
    }

    /// The setting entry for a module, if the configuration names it.
    pub fn module_setting(&self, module_name: &str) -> (r: Option<&ModuleSetting>)
        ensures
            match r {
                Some(s) => spec_setting_of(spec_module_entries(*self), module_name@) == Some(*s),
                None => spec_setting_of(spec_module_entries(*self), module_name@)
                    is None,
            },
    {
        let n: usize = self.modules.modules.len();
        let ghost es = spec_module_entries(*self);
        let mut i: usize = 0;
        proof {
            assert(es.skip(0) =~= es);
        }
        while i < n
            invariant
                n == self.modules.modules@.len(),
                es == spec_module_entries(*self),
                n == es.len(),
                i <= n,
                spec_setting_of(es, module_name@) == spec_setting_of(
                    es.skip(i as int),
                    module_name@,
                ),
            decreases n - i,
        {
            proof {
                assert(es.skip(i as int).first() == es[i as int]);
                assert(es.skip(i as int).drop_first() =~= es.skip(i + 1));
            }
            if crate::strutil::str_eq(self.modules.modules[i].0.as_str(), module_name) {
                return Some(&self.modules.modules[i].1);
            }
            i = i + 1;
        }
        proof {
            assert(es.skip(n as int) =~= Seq::<(Seq<char>, ModuleSetting)>::empty());
        }
        None
    }

    /// Whether a module is enabled: a module the configuration does not
    /// mention is enabled by default.
    pub fn is_module_enabled(&self, module_name: &str) -> (r: bool)
        ensures
            r == spec_module_enabled(*self, module_name@),
    {
        match self.module_setting(module_name) {
            Some(s) => s.enabled,
            None => true,
        }
    }

    /// Whether a module should be restarted after apply; off by default.
    pub fn should_module_restart(&self, module_name: &str) -> (r: bool)
        ensures
            r == match spec_setting_of(spec_module_entries(*self), module_name@) {
                Some(s) => s.restart,
                None => false,
            },
    {
        match self.module_setting(module_name) {
            Some(s) => s.restart,
            None => false,
        }
    }

    /// The custom command configured for a module, if any.
    pub fn module_command(&self, module_name: &str) -> (r: Option<&String>)
        ensures
            match spec_setting_of(spec_module_entries(*self), module_name@) {
                Some(s) => match (r, s.command) {
                    (Some(c), Some(sc)) => c@ == sc@,
                    (None, None) => true,
                    _ => false,
                },
                None => r is None,
            },
    {
        match self.module_setting(module_name) {
            Some(s) => match &s.command {
                Some(c) => Some(c),
                None => None,
            },
            None => None,
        }
    }
}

/// The explanation shown for a configuration field, by section and field
/// name; unknown fields get a generic line.
pub open spec fn spec_field_description(section: Seq<char>, field: Seq<char>) -> Seq<char> {
    if section == "general"@ {
        if field == "wallpaper"@ {
            "Path to wallpaper image for theme color generation (supports ~)"@
        } else if field == "default_mode"@ {
            "Default theme mode on startup: Light or Dark"@
        } else if field == "scheme_type"@ {
            "Material color scheme type (scheme-expressive, scheme-tonal-spot, scheme-neutral, etc.)"@
        } else if field == "use_matugen"@ {
            "Enable automatic color generation from wallpaper using matugen"@
        } else if field == "default_light_colors"@ {
            "Path to fallback color JSON for light mode when matugen disabled"@
        } else if field == "default_dark_colors"@ {
            "Path to fallback color JSON for dark mode when matugen disabled"@
        } else {
            "No description available"@
        }
    } else if section == "notifications"@ {
        if field == "enabled"@ {
            "Show desktop notifications when theme changes"@
        } else if field == "timeout"@ {
            "Notification display duration in milliseconds (default: 5000)"@
        } else if field == "show_module_progress"@ {
            "Show individual notification for each module being applied"@
        } else {
            "No description available"@
        }
    } else if section == "performance"@ {
        if field == "timeout"@ {
            "Maximum seconds to wait for all modules to complete (default: 10)"@
        } else if field == "slow_module_threshold"@ {
            "Log warning if any module takes longer than this in milliseconds (default: 250)"@
        } else {
            "No description available"@
        }
    } else if section == "cache"@ {
        if field == "enabled"@ {
            "Cache matugen color generation results to speed up repeated theme switches"@
        } else if field == "dir"@ {
            "Directory to store cached color schemes (supports ~)"@
        } else {
            "No description available"@
        }
    } else if section == "logging"@ {
        if field == "level"@ {
            "Log verbosity level: debug, info, warn, error"@
        } else if field == "log_file"@ {
            "Path to log file for debugging (supports ~)"@
        } else if field == "max_log_size"@ {
            "Maximum log file size in megabytes before rotation"@
        } else {
            "No description available"@
        }
    } else {
        "No description available"@
    }
}

impl Config {
    /// The explanation shown for a configuration field.
    pub fn get_field_description(section: &str, field: &str) -> (r: &'static str)
        ensures
            r@ == spec_field_description(section@, field@),
    {
        if str_eq(section, "general") {
            if str_eq(field, "wallpaper") {
                "Path to wallpaper image for theme color generation (supports ~)"
            } else if str_eq(field, "default_mode") {
                "Default theme mode on startup: Light or Dark"
            } else if str_eq(field, "scheme_type") {
                "Material color scheme type (scheme-expressive, scheme-tonal-spot, scheme-neutral, etc.)"
            } else if str_eq(field, "use_matugen") {
                "Enable automatic color generation from wallpaper using matugen"
            } else if str_eq(field, "default_light_colors") {
                "Path to fallback color JSON for light mode when matugen disabled"
            } else if str_eq(field, "default_dark_colors") {
                "Path to fallback color JSON for dark mode when matugen disabled"
            } else {
                "No description available"
            }
        } else if str_eq(section, "notifications") {
            if str_eq(field, "enabled") {
                "Show desktop notifications when theme changes"
            } else if str_eq(field, "timeout") {
                "Notification display duration in milliseconds (default: 5000)"
            } else if str_eq(field, "show_module_progress") {
                "Show individual notification for each module being applied"
            } else {
                "No description available"
            }
        } else if str_eq(section, "performance") {
            if str_eq(field, "timeout") {
                "Maximum seconds to wait for all modules to complete (default: 10)"
            } else if str_eq(field, "slow_module_threshold") {
                "Log warning if any module takes longer than this in milliseconds (default: 250)"
            } else {
                "No description available"
            }
        } else if str_eq(section, "cache") {
            if str_eq(field, "enabled") {
                "Cache matugen color generation results to speed up repeated theme switches"
            } else if str_eq(field, "dir") {
                "Directory to store cached color schemes (supports ~)"
            } else {
                "No description available"
            }
        } else if str_eq(section, "logging") {
            if str_eq(field, "level") {
                "Log verbosity level: debug, info, warn, error"
            } else if str_eq(field, "log_file") {
                "Path to log file for debugging (supports ~)"
            } else if str_eq(field, "max_log_size") {
                "Maximum log file size in megabytes before rotation"
            } else {
                "No description available"
            }
        } else {
            "No description available"
        }
    }
}

/// Whether a character can be part of a `$VAR` name.
pub open spec fn is_var_char(c: char) -> bool {
    ('a' <= c && c <= 'z') || ('A' <= c && c <= 'Z') || ('0' <= c && c <= '9') || c == '_'
}

fn var_char(c: char) -> (r: bool)
    ensures
        r == is_var_char(c),
{
    ('a' <= c && c <= 'z') || ('A' <= c && c <= 'Z') || ('0' <= c && c <= '9') || c == '_'
}

/// The value of the first environment entry with the given name.
pub open spec fn spec_env_of(env: Seq<(Seq<char>, Seq<char>)>, name: Seq<char>) -> Option<
    Seq<char>,
>
    decreases env.len(),
{
    if env.len() == 0 {
        None
    } else if env.first().0 == name {
        Some(env.first().1)
    } else {
        spec_env_of(env.drop_first(), name)
    }
}

/// Look a variable up in an environment table.
pub fn env_lookup<'a>(env: &'a Vec<(String, String)>, name: &str) -> (r: Option<&'a String>)
    ensures
        match r {
            Some(v) => spec_env_of(env.deep_view(), name@) == Some(v@),
            None => spec_env_of(env.deep_view(), name@) is None,
        },
{
    let n: usize = env.len();
    let ghost es = env.deep_view();
    let mut i: usize = 0;
    proof {
        assert(es.skip(0) =~= es);
    }
    while i < n
        invariant
            n == env@.len(),
            es == env.deep_view(),
            n == es.len(),
            i <= n,
            spec_env_of(es, name@) == spec_env_of(es.skip(i as int), name@),
        decreases n - i,
    {
        proof {
            assert(es.skip(i as int).first() == es[i as int]);
            assert(es.skip(i as int).drop_first() =~= es.skip(i + 1));
        }
        if str_eq(env[i].0.as_str(), name) {
            return Some(&env[i].1);
        }
        i = i + 1;
    }
    proof {
        assert(es.skip(n as int) =~= Seq::<(Seq<char>, Seq<char>)>::empty());
    }
    None
}

/// Expand environment-variable references against a table of variables, in
/// one pass from left to right. Both `${NAME}` and `$NAME` forms are
/// replaced when the table holds the name; a reference to a name the table
/// does not hold, a `$` with no name, and a `${` with no closing brace stay
/// as written. Replacement text is not rescanned. Text without a `$` comes
/// back unchanged.
pub fn expand_env_vars(input: &str, env: &Vec<(String, String)>) -> (r: String)
    ensures
        (forall|i: int| 0 <= i < input@.len() ==> input@[i] != '$') ==> r@ == input@,
{
    let n: usize = input.unicode_len();
    let mut out = String::new();
    let mut i: usize = 0;
    proof {
        assert(input@.take(0) =~= Seq::<char>::empty());
    }
    while i < n
        invariant
            n == input@.len(),
            i <= n,
            (forall|k: int| 0 <= k < input@.len() ==> input@[k] != '$') ==> out@ == input@.take(
                i as int,
            ),
        decreases n - i,
    {
        let c = input.get_char(i);
        if c != '$' {
            string_push(&mut out, c);
            proof {
                if forall|k: int| 0 <= k < input@.len() ==> input@[k] != '$' {
                    assert(out@ =~= input@.take(i + 1));
                }
            }
            i = i + 1;
        } else if i + 1 < n && input.get_char(i + 1) == '{' {
            let mut j: usize = i + 2;
            while j < n && input.get_char(j) != '}'
                invariant
                    n == input@.len(),
                    i + 2 <= j <= n,
                decreases n - j,
            {
                j = j + 1;
            }
            if j < n {
                let name: &str = input.substring_char(i + 2, j);
                match env_lookup(env, name) {
                    Some(value) => {
                        out.append(value.as_str());
                    },
                    None => {
                        out.append(input.substring_char(i, j + 1));
                    },
                }
                i = j + 1;
            } else {
                out.append(input.substring_char(i, n));
                i = n;
            }
        } else {
            let mut j: usize = i + 1;
            while j < n && var_char(input.get_char(j))
                invariant
                    n == input@.len(),
                    i + 1 <= j <= n,
                decreases n - j,
            {
                j = j + 1;
            }
            let mut replaced: bool = false;
            if j > i + 1 {
                let name: &str = input.substring_char(i + 1, j);
                match env_lookup(env, name) {
                    Some(value) => {
                        out.append(value.as_str());
                        replaced = true;
                    },
                    None => {},
                }
            }
            if !replaced {
                out.append(input.substring_char(i, j));
            }
            i = j;
        }
    }
    proof {
        assert(input@.take(n as int) =~= input@);
    }
    out
}

/// Replace a leading `~/` by the home directory.
pub fn expand_tilde(path: &str, home: &str) -> (r: String)
    ensures
        match_at(path@, "~/"@, 0) ==> r@ == home@ + path@.skip(1),
        !match_at(path@, "~/"@, 0) ==> r@ == path@,
{
    if starts_with_sub(path, "~/") {
        let n: usize = path.unicode_len();
        proof {
            reveal_strlit("~/");
        }
        let rest: &str = path.substring_char(1, n);
        let mut out = String::from_str(home);
        out.append(rest);
        proof {
            assert(rest@ =~= path@.skip(1));
        }
        out
    } else {
        String::from_str(path)
    }
}

} // verus!
