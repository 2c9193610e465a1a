//! User-declared modules: a declarative definition renders a template over
//! the palette into an output file (optionally followed by a reload
//! command), and a script definition invokes a user script with the mode and
//! the palette, as environment variables or as a JSON file. Malformed
//! definitions are skipped by the loader with a warning, never abort a run.

use vstd::prelude::*;
use crate::error::{Error, msg_with};
use crate::jsonio::{json_object_text, json_object_text_of};
use crate::module::{ConfigFileInfo, config_file_info};
use crate::registry::ModuleEntry;
use crate::scheme::{ColorScheme, ThemeMode};
use crate::strutil::{contains_seq, match_at, spec_upper_char, to_ascii_upper};
use crate::config::expand_tilde;

verus! {

/// Where a declarative module writes its rendered output.
pub struct OutputConfig {
    pub path: String,
    pub format: String,
}

/// The template a declarative module renders.
pub struct TemplateConfig {
    pub content: String,
}

/// The command a declarative module runs after writing its output.
pub struct ReloadConfig {
    pub command: String,
    pub timeout: u64,
}

/// A config-injection target a declarative module offers for setup.
pub struct SetupConfig {
    pub config_file: String,
    pub import_line: String,
    pub description: String,
}

/// The script a script module invokes.
pub struct ScriptConfig {
    pub path: String,
    pub timeout: u64,
    pub pass_as_env: bool,
}

/// The two strategies a user-declared module can take.
pub enum CustomModuleType {
    Declarative {
        output: OutputConfig,
        template: TemplateConfig,
        reload: Option<ReloadConfig>,
        setup: Option<SetupConfig>,
    },
    Script { script: ScriptConfig },
}

/// One user-declared module definition.
pub struct CustomModuleDefinition {
    pub name: String,
    pub description: String,
    pub binary: String,
    pub priority: u8,
    pub module_type: CustomModuleType,
}

/// The priority a definition gets when it names none.
pub fn default_priority() -> (r: u8)
    ensures
        r == 100,
{
    100
}

/// The output format a definition gets when it names none.
pub fn default_format() -> (r: String)
    ensures
        r@ == "conf"@,
{
    String::from_str("conf")
}

/// The timeout in milliseconds a definition gets when it names none.
pub fn default_timeout() -> (r: u64)
    ensures
        r == 10000,
{
    10000
}

/// A module built from a user definition.
pub struct CustomModule {
    pub definition: CustomModuleDefinition,
}

/// The data a template is rendered over: the mode under the key `mode`,
/// then every role/color pair of the scheme.
pub open spec fn spec_template_data(s: ColorScheme, mode: ThemeMode) -> Seq<
    (Seq<char>, Seq<char>),
> {
    seq![
        ("mode"@, if mode is Light { "light"@ } else { "dark"@ }),
    ] + s.entries()
}

/// What the template engine returns for given template text and data; the
/// result depends on those alone.
pub uninterp spec fn rendered_of(template: Seq<char>, data: Seq<(Seq<char>, Seq<char>)>) -> Option<
    Seq<char>,
>;

/// Relies on `handlebars::Handlebars::render_template` on a fresh default
/// engine: the rendered text is a function of the template text and the
/// data values alone; `None` exactly when rendering fails.
#[verifier::external_body]
fn render_template_raw(template: &str, data: &Vec<(String, String)>) -> (r: Option<String>)
    ensures
        r matches Some(s) ==> rendered_of(template@, data.deep_view()) == Some(s@),
        r is None ==> rendered_of(template@, data.deep_view()) is None,
{
    let map: std::collections::HashMap<String, String> = data.iter().cloned().collect();
    handlebars::Handlebars::new().render_template(template, &map).ok()
}

/// Everything the embedding program needs to apply a declarative module:
/// the expanded output path, the rendered content, and the reload command
/// to run best-effort afterwards.
pub struct DeclarativePlan {
    pub output_path: String,
    pub content: String,
    pub reload_command: Option<String>,
}

impl CustomModule {
    /// A module over a parsed definition.
    pub fn new(definition: CustomModuleDefinition) -> (r: CustomModule)
        ensures
            r.definition == definition,
    {
        CustomModule { definition }
    }

    /// Stable module name, from the definition.
    pub fn name(&self) -> (r: &str)
        ensures
            r@ == self.definition.name@,
    {
        self.definition.name.as_str()
    }

    /// The binary the definition checks installation by.
    pub fn binary_name(&self) -> (r: &str)
        ensures
            r@ == self.definition.binary@,
    {
        self.definition.binary.as_str()
    }

    /// The definition's priority.
    pub fn priority(&self) -> (r: u8)
        ensures
            r == self.definition.priority,
    {
        self.definition.priority
    }

    /// This module's registry entry.
    pub fn entry(&self) -> (r: ModuleEntry)
        ensures
            r.name@ == self.definition.name@,
            r.binary@ == self.definition.binary@,
            r.priority == self.definition.priority,
    {
        ModuleEntry {
            name: self.definition.name.clone(),
            binary: self.definition.binary.clone(),
            priority: self.definition.priority,
        }
    }

    /// The template data for a switch: the mode, then every color.
    pub fn template_data(&self, scheme: &ColorScheme, mode: ThemeMode) -> (r: Vec<
        (String, String),
    >)
        ensures
            r.deep_view() == spec_template_data(*scheme, mode),
    {
        let mut out: Vec<(String, String)> = Vec::new();
        out.push((String::from_str("mode"), String::from_str(mode.as_str())));
        let n: usize = scheme.num_roles();
        let mut i: usize = 0;
        proof {
            assert(out.deep_view() =~= seq![
                ("mode"@, if mode is Light { "light"@ } else { "dark"@ }),
            ] + scheme.entries().take(0));
        }
        while i < n
            invariant
                n == scheme.entries().len(),
                i <= n,
                out.deep_view() == seq![
                    ("mode"@, if mode is Light { "light"@ } else { "dark"@ }),
                ] + scheme.entries().take(i as int),
            decreases n - i,
        {
            let ghost pre = out.deep_view();
            let (k, v) = scheme.entry_at(i);
            out.push((k.clone(), v.clone()));
            proof {
                assert(out.deep_view() =~= pre.push((k@, v@)));
                assert(scheme.entries().take(i + 1) =~= scheme.entries().take(i as int).push(
                    scheme.entries()[i as int],
                ));
                assert(out.deep_view() =~= seq![
                    ("mode"@, if mode is Light { "light"@ } else { "dark"@ }),
                ] + scheme.entries().take(i + 1));
            }
            i = i + 1;
        }
        proof {
            assert(scheme.entries().take(n as int) =~= scheme.entries());
        }
        out
    }

    /// Plan a declarative apply: render the template over the palette. The
    /// plan succeeds exactly when the template renders; the output path has
    /// a leading `~/` expanded against the home directory.
    pub fn declarative_plan(
        &self,
        output: &OutputConfig,
        template: &TemplateConfig,
        reload: Option<&ReloadConfig>,
        scheme: &ColorScheme,
        mode: ThemeMode,
        home: &str,
    ) -> (r: Result<DeclarativePlan, Error>)
        ensures
            r matches Ok(p) ==> rendered_of(template.content@, spec_template_data(*scheme, mode))
                == Some(p.content@),
            r is Err ==> rendered_of(template.content@, spec_template_data(*scheme, mode))
                is None,
            r matches Ok(p) ==> (match_at(output.path@, "~/"@, 0) ==> p.output_path@ == home@
                + output.path@.skip(1)) && (!match_at(output.path@, "~/"@, 0) ==> p.output_path@
                == output.path@),
            r matches Ok(p) ==> match (p.reload_command, reload) {
                (Some(c), Some(rc)) => c@ == rc.command@,
                (None, None) => true,
                _ => false,
            },
    {
        let data = self.template_data(scheme, mode);
        let rendered = match render_template_raw(template.content.as_str(), &data) {
            Some(s) => s,
            None => {
                return Err(Error::Module(String::from_str("Template error")));
            },
        };
        let output_path = expand_tilde(output.path.as_str(), home);
        let reload_command: Option<String> = match reload {
            Some(rc) => Some(rc.command.clone()),
            None => None,
        };
        Ok(DeclarativePlan { output_path, content: rendered, reload_command })
    }

    /// The environment a script receives when the palette is passed as
    /// variables: one `LMTT_<ROLE>` variable per color, then `LMTT_MODE`.
    pub fn env_payload(&self, scheme: &ColorScheme, mode: ThemeMode) -> (r: Vec<(String, String)>)
        ensures
            r.deep_view() == scheme.entries().map_values(
                |p: (Seq<char>, Seq<char>)|
                    ("LMTT_"@ + p.0.map_values(|c: char| spec_upper_char(c)), p.1),
            ).push(("LMTT_MODE"@, if mode is Light { "light"@ } else { "dark"@ })),
    {
        let ghost mapped = scheme.entries().map_values(
            |p: (Seq<char>, Seq<char>)|
                ("LMTT_"@ + p.0.map_values(|c: char| spec_upper_char(c)), p.1),
        );
        let mut out: Vec<(String, String)> = Vec::new();
        let n: usize = scheme.num_roles();
        let mut i: usize = 0;
        proof {
            assert(out.deep_view() =~= mapped.take(0));
        }
        while i < n
            invariant
                n == scheme.entries().len(),
                i <= n,
                mapped == scheme.entries().map_values(
                    |p: (Seq<char>, Seq<char>)|
                        ("LMTT_"@ + p.0.map_values(|c: char| spec_upper_char(c)), p.1),
                ),
                out.deep_view() == mapped.take(i as int),
            decreases n - i,
        {
            let (k, v) = scheme.entry_at(i);
            let upper = to_ascii_upper(k.as_str());
            let env_key = msg_with("LMTT_", upper.as_str());
            out.push((env_key, v.clone()));
            proof {
                assert(mapped.take(i + 1) =~= mapped.take(i as int).push(mapped[i as int]));
                assert(out.deep_view() =~= mapped.take(i + 1));
            }
            i = i + 1;
        }
        out.push((String::from_str("LMTT_MODE"), String::from_str(mode.as_str())));
        proof {
            assert(mapped.take(n as int) =~= mapped);
            assert(out.deep_view() =~= mapped.push(
                ("LMTT_MODE"@, if mode is Light { "light"@ } else { "dark"@ }),
            ));
        }
        out
    }

    /// The palette as compact JSON, for a script that takes a file path.
    pub fn json_payload(&self, scheme: &ColorScheme) -> (r: String)
        ensures
            r@ == json_object_text_of(scheme.entries()),
    {
        let entries = scheme.entries_vec();
        json_object_text(&entries)
    }

    /// Name of the temporary palette file for this module.
    pub fn temp_file_name(&self) -> (r: String)
        ensures
            r@ == "lmtt-"@ + self.definition.name@ + ".json"@,
    {
        let mut out = String::from_str("lmtt-");
        out.append(self.definition.name.as_str());
        out.append(".json");
        out
    }

    /// Describe the setup target from the target file's current content.
    /// An empty description in the definition falls back to a generic one
    /// naming the module.
    pub fn config_file(&self, setup: &SetupConfig, path: String, content: &str) -> (r:
        ConfigFileInfo)
        ensures
            r.path@ == path@,
            r.import_line@ == setup.import_line@,
            setup.description@.len() == 0 ==> r.description@ == "Import LMTT colors for "@
                + self.definition.name@,
            setup.description@.len() > 0 ==> r.description@ == setup.description@,
            r.already_present == contains_seq(content@, setup.import_line@),
    {
        let description = if setup.description.as_str().unicode_len() == 0 {
            msg_with("Import LMTT colors for ", self.definition.name.as_str())
        } else {
            setup.description.clone()
        };
        config_file_info(path, setup.import_line.as_str(), description.as_str(), content)
    }
}

} // verus!
