//! The module contract's shared pieces: the description of a third-party
//! config file a module wants its import line in, and the composite
//! enabled check every module uses.

use vstd::prelude::*;
use crate::config::{Config, spec_module_enabled};
use crate::host::binary_on_path;
use crate::registry::ModuleEntry;
use crate::strutil::{contains_seq, contains_sub};

verus! {

/// A third-party config file a module would like an import line injected
/// into. `already_present` is recomputed from current file content every
/// time one of these is built, never cached.
pub struct ConfigFileInfo {
    /// Absolute path of the file.
    pub path: String,
    /// The exact import line the module wants present.
    pub import_line: String,
    /// What injecting the line does, for the operator.
    pub description: String,
    /// Whether the import line is already in the file, verbatim.
    pub already_present: bool,
}

/// Describe a config file from its current content: `already_present` holds
/// exactly when the import line occurs in the content.
pub fn config_file_info(path: String, import_line: &str, description: &str, content: &str) -> (r:
    ConfigFileInfo)
    ensures
        r.path@ == path@,
        r.import_line@ == import_line@,
        r.description@ == description@,
        r.already_present == contains_seq(content@, import_line@),
{
    let already_present = contains_sub(content, import_line);
    ConfigFileInfo {
        path,
        import_line: String::from_str(import_line),
        description: String::from_str(description),
        already_present,
    }
}

/// The composite enabled check: a module runs only when the configuration
/// does not disable it and its target application is installed. Never
/// cached: installation state can change between runs.
pub fn module_is_enabled(entry: &ModuleEntry, config: &Config) -> (r: bool)
    ensures
        r ==> spec_module_enabled(*config, entry.name@),
        !spec_module_enabled(*config, entry.name@) ==> !r,
{
    if !config.is_module_enabled(entry.name.as_str()) {
        return false;
    }
    binary_on_path(entry.binary.as_str())
}

} // verus!
