//! The Neovim module: every running Neovim instance found under the
//! temporary directory is told to switch its theme over its remote socket.
//! Scanning for sockets and invoking the editor are the embedding program's
//! concern; this module plans the remote expression and the invocation.

use vstd::prelude::*;
use crate::config::ThemeProfile;
use crate::registry::ModuleEntry;
use crate::scheme::ThemeMode;
use crate::strutil::{match_at, starts_with_sub};

verus! {

/// The Neovim module.
pub struct NvimModule;

/// The remote expression handed to a running instance: the mode, and the
/// profile's colorscheme when one is configured.
pub open spec fn spec_nvim_command(mode_name: Seq<char>, colorscheme: Option<Seq<char>>) -> Seq<
    char,
> {
    match colorscheme {
        Some(cs) => "_G.set_nvim_theme('"@ + mode_name + "', '"@ + cs + "')"@,
        None => "_G.set_nvim_theme('"@ + mode_name + "')"@,
    }
}

impl NvimModule {
    /// The Neovim module.
    pub fn new() -> (r: NvimModule) {
        NvimModule
    }

    /// Stable module name.
    pub fn name(&self) -> (r: &'static str)
        ensures
            r@ == "nvim"@,
    {
        "nvim"
    }

    /// The binary whose presence means Neovim is installed.
    pub fn binary_name(&self) -> (r: &'static str)
        ensures
            r@ == "nvim"@,
    {
        "nvim"
    }

    /// Application module: the default priority.
    pub fn priority(&self) -> (r: u8)
        ensures
            r == 100,
    {
        100
    }

    /// This module's registry entry.
    pub fn entry(&self) -> (r: ModuleEntry)
        ensures
            r.name@ == "nvim"@,
            r.binary@ == "nvim"@,
            r.priority == 100,
    {
        ModuleEntry {
            name: String::from_str("nvim"),
            binary: String::from_str("nvim"),
            priority: 100,
        }
    }

    /// Whether a temporary-directory entry may hold a Neovim socket: its
    /// name starts with `nvim`.
    pub fn is_socket_dir_name(&self, name: &str) -> (r: bool)
        ensures
            r == match_at(name@, "nvim"@, 0),
    {
        starts_with_sub(name, "nvim")
    }

    /// The remote expression for a switch to `mode` under a profile.
    pub fn theme_command(&self, mode: ThemeMode, profile: &ThemeProfile) -> (r: String)
        ensures
            mode is Light ==> r@ == spec_nvim_command(
                "light"@,
                match profile.neovim_colorscheme {
                    Some(cs) => Some(cs@),
                    None => None,
                },
            ),
            mode is Dark ==> r@ == spec_nvim_command(
                "dark"@,
                match profile.neovim_colorscheme {
                    Some(cs) => Some(cs@),
                    None => None,
                },
            ),
    {
        let mut out = String::from_str("_G.set_nvim_theme('");
        let mode_name: &str = mode.as_str();
        out.append(mode_name);
        match &profile.neovim_colorscheme {
            Some(cs) => {
                out.append("', '");
                out.append(cs.as_str());
                out.append("')");
                proof {
                    assert(out@ =~= spec_nvim_command(mode_name@, Some(cs@)));
                }
            },
            None => {
                out.append("')");
                proof {
                    assert(out@ =~= spec_nvim_command(mode_name@, None));
                }
            },
        }
        out
    }

    /// The invocation that hands a remote expression to the instance behind
    /// a socket.
    pub fn remote_command(&self, socket: &str, command: &str) -> (r: (String, Vec<String>))
        ensures
            r.deep_view() == ("nvim"@, seq!["--server"@, socket@, "--remote-expr"@, command@]),
    {
        let mut args: Vec<String> = Vec::new();
        args.push(String::from_str("--server"));
        args.push(String::from_str(socket));
        args.push(String::from_str("--remote-expr"));
        args.push(String::from_str(command));
        let r = (String::from_str("nvim"), args);
        proof {
            assert(r.deep_view() =~~= (
                "nvim"@,
                seq!["--server"@, socket@, "--remote-expr"@, command@],
            ));
        }
        r
    }
}

} // verus!
