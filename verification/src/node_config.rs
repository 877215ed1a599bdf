//! The earlier form of the node configuration, in which every key of
//! `config.toml` is optional and a missing key stays missing.

use vstd::prelude::*;

verus! {

#[derive(Debug, PartialEq)]
pub struct Config {
    pub network: Option<NetworkConfig>,
    pub peer: Option<PeerConfig>,
}

#[derive(Debug, PartialEq)]
pub struct NetworkConfig {
    pub bind: Option<String>,
    pub port: Option<usize>,
}

#[derive(Debug, PartialEq)]
pub struct PeerConfig {
    pub seeds: Option<Vec<String>>,
    pub max_peer_count: Option<usize>,
    pub max_pending_messages: Option<usize>,
    pub max_pending_send_to_all: Option<usize>,
}

/// The network section holds the default values.
pub open spec fn is_default_network(n: NetworkConfig) -> bool {
    &&& n.bind matches Some(b) && b@ == "localhost"@
    &&& n.port == Some(6680usize)
}

/// The peer section holds the default values.
pub open spec fn is_default_peer(p: PeerConfig) -> bool {
    &&& p.seeds is None
    &&& p.max_peer_count == Some(10usize)
    &&& p.max_pending_messages == Some(32usize)
    &&& p.max_pending_send_to_all == Some(128usize)
}

/// Both sections are present and hold the default values.
pub open spec fn is_default_config(c: Config) -> bool {
    &&& c.network matches Some(n) && is_default_network(n)
    &&& c.peer matches Some(p) && is_default_peer(p)
}

impl Default for NetworkConfig {
    fn default() -> (r: Self)
        ensures
            is_default_network(r),
    {
        NetworkConfig { bind: Some(String::from_str("localhost")), port: Some(6680) }
    }
}

impl Default for PeerConfig {
    fn default() -> (r: Self)
        ensures
            is_default_peer(r),
    {
        PeerConfig {
            seeds: None,
            max_peer_count: Some(10),
            max_pending_messages: Some(32),
            max_pending_send_to_all: Some(128),
        }
    }
}

impl Default for Config {
    fn default() -> (r: Self)
        ensures
            is_default_config(r),
    {
        Config { network: Some(NetworkConfig::default()), peer: Some(PeerConfig::default()) }
    }
}

/// What became of reading and parsing the configuration file.
#[derive(Debug, PartialEq)]
pub enum ConfigFile {
    /// The file could not be read.
    Unreadable,
    /// The file was read but is not a valid configuration.
    Invalid,
    /// The file was read and parsed; each key that it leaves out is `None`.
    Parsed(Config),
}

/// The configuration to run with: the defaults when the file could not be
/// read, none when it is not a valid configuration, and otherwise exactly what
/// the file sets.
pub fn load_config_from_file(file: ConfigFile) -> (r: Option<Config>)
    ensures
        match file {
            ConfigFile::Unreadable => r matches Some(c) && is_default_config(c),
            ConfigFile::Invalid => r is None,
            ConfigFile::Parsed(c) => r == Some(c),
        },
{
    match file {
        ConfigFile::Unreadable => Some(Config::default()),
        ConfigFile::Invalid => None,
        ConfigFile::Parsed(c) => Some(c),
    }
}

} // verus!
