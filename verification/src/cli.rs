//! Command-line options of the node.

use vstd::prelude::*;

verus! {

/// The configuration file read when none is named.
pub open spec fn default_config_file() -> Seq<char> {
    "config.toml"@
}

/// The node's command-line options.
#[derive(Debug, PartialEq)]
pub struct Cli {
    /// Config file to load
    pub config_file: String,
}

impl Cli {
    /// The options given `--config-file`'s value, if it was given: the
    /// configuration file defaults to `config.toml`.
    pub fn new(config_file: Option<String>) -> (cli: Cli)
        ensures
            cli.config_file@ == match config_file {
                Some(f) => f@,
                None => default_config_file(),
            },
    {
        match config_file {
            Some(f) => Cli { config_file: f },
            None => Cli { config_file: String::from_str("config.toml") },
        }
    }
}

} // verus!
