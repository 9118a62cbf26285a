//! The arguments of the command line.

use crate::context::Config;
use crate::text::{clone_opt_string, opt_view};
use vstd::prelude::*;
use vstd::string::*;

verus! {

/// What the command line asks for.
#[derive(Debug, PartialEq, Eq, Default)]
pub struct CLIArgs {
    /// The files and directories to read ALFA from.
    pub alfa_dir: Vec<String>,
    /// Whether to show the built-in declarations and do nothing else.
    pub show_builtins: bool,
    /// Whether to leave the built-in declarations out.
    pub disable_builtins: bool,
    /// The directory to write the files of XACML to.
    pub output_dir: Option<String>,
    /// The prefix of generated identifiers.
    pub base_namespace: Option<String>,
}

impl CLIArgs {
    /// The configuration of the compilation that the arguments ask for:
    /// the prefix as given, the built-in declarations unless they are
    /// disabled, and version 1.0.
    pub fn config(&self) -> (r: Config)
        ensures
            opt_view(r.base_namespace) == opt_view(self.base_namespace),
            r.enable_builtins == !self.disable_builtins,
            opt_view(r.version) == Some("1.0"@),
    {
        Config {
            base_namespace: clone_opt_string(&self.base_namespace),
            enable_builtins: !self.disable_builtins,
            version: Some("1.0".to_owned()),
        }
    }
}

} // verus!
