//! Node configuration: the `[network]` and `[peer]` sections of `config.toml`,
//! with a default for every field that the file leaves out.
//!
//! Reading the file and parsing its TOML happen outside this library; what they
//! yield is handed in as a `ConfigFile`, and this module decides the
//! configuration from it.

use vstd::prelude::*;

verus! {

/// The bind host used when the configuration does not name one.
pub open spec fn spec_default_bind() -> Seq<char> {
    "localhost"@
}

pub const DEFAULT_PORT: usize = 6680;

pub const DEFAULT_MAX_PEER_COUNT: usize = 10;

pub const DEFAULT_MAX_PENDING_MESSAGES: usize = 32;

pub const DEFAULT_MAX_PENDING_SEND_TO_ALL: usize = 128;

pub const DEFAULT_HEARTBEAT_INTERVAL: u64 = 1000;

/// Struct to capture configuration from config.toml
#[derive(Debug, PartialEq)]
pub struct Config {
    pub network: NetworkConfig,
    pub peer: PeerConfig,
}

/// Struct to capture network section of configuration from config.toml
#[derive(Debug, PartialEq)]
pub struct NetworkConfig {
    pub bind: String,
    pub port: usize,
}

/// Struct to capture peer section of configuration from config.toml
#[derive(Debug, PartialEq)]
pub struct PeerConfig {
    pub seeds: Vec<String>,
    pub max_peer_count: usize,
    pub max_pending_messages: usize,
    pub max_pending_send_to_all: usize,
    pub heartbeat_interval: u64,
}

/// The network section holds the default values.
pub open spec fn is_default_network(n: NetworkConfig) -> bool {
    n.bind@ == spec_default_bind() && n.port == DEFAULT_PORT
}

/// The peer section holds the default values.
pub open spec fn is_default_peer(p: PeerConfig) -> bool {
    &&& p.seeds@ == Seq::<String>::empty()
    &&& p.max_peer_count == DEFAULT_MAX_PEER_COUNT
    &&& p.max_pending_messages == DEFAULT_MAX_PENDING_MESSAGES
    &&& p.max_pending_send_to_all == DEFAULT_MAX_PENDING_SEND_TO_ALL
    &&& p.heartbeat_interval == DEFAULT_HEARTBEAT_INTERVAL
}

impl Default for NetworkConfig {
    fn default() -> (r: Self)
        ensures
            is_default_network(r),
    {
        NetworkConfig { bind: String::from_str("localhost"), port: DEFAULT_PORT }
    }
}

impl Default for PeerConfig {
    fn default() -> (r: Self)
        ensures
            is_default_peer(r),
    {
        PeerConfig {
            seeds: Vec::<String>::new(),
            max_peer_count: DEFAULT_MAX_PEER_COUNT,
            max_pending_messages: DEFAULT_MAX_PENDING_MESSAGES,
            max_pending_send_to_all: DEFAULT_MAX_PENDING_SEND_TO_ALL,
            heartbeat_interval: DEFAULT_HEARTBEAT_INTERVAL,
        }
    }
}

impl Default for Config {
    fn default() -> (r: Self)
        ensures
            is_default_network(r.network),
            is_default_peer(r.peer),
    {
        Config { network: NetworkConfig::default(), peer: PeerConfig::default() }
    }
}

pub fn default_bind() -> (r: String)
    ensures
        r@ == spec_default_bind(),
{
    NetworkConfig::default().bind
}

pub fn default_port() -> (r: usize)
    ensures
        r == DEFAULT_PORT,
{
    NetworkConfig::default().port
}

pub fn default_seeds() -> (r: Vec<String>)
    ensures
        r@ == Seq::<String>::empty(),
{
    PeerConfig::default().seeds
}

pub fn default_max_peer_count() -> (r: usize)
    ensures
        r == DEFAULT_MAX_PEER_COUNT,
{
    PeerConfig::default().max_peer_count
}

pub fn default_max_pending_messages() -> (r: usize)
    ensures
        r == DEFAULT_MAX_PENDING_MESSAGES,
{
    PeerConfig::default().max_pending_messages
}

pub fn default_max_pending_send_to_all() -> (r: usize)
    ensures
        r == DEFAULT_MAX_PENDING_SEND_TO_ALL,
{
    PeerConfig::default().max_pending_send_to_all
}

pub fn default_heartbeat_interval() -> (r: u64)
    ensures
        r == DEFAULT_HEARTBEAT_INTERVAL,
{
    PeerConfig::default().heartbeat_interval
}

/// The `[network]` table of a parsed `config.toml`: each key that the file
/// sets, and `None` for each key that it leaves out.
#[derive(Debug, PartialEq)]
pub struct NetworkSection {
    pub bind: Option<String>,
    pub port: Option<usize>,
}

/// The `[peer]` table of a parsed `config.toml`.
#[derive(Debug, PartialEq)]
pub struct PeerSection {
    pub seeds: Option<Vec<String>>,
    pub max_peer_count: Option<usize>,
    pub max_pending_messages: Option<usize>,
    pub max_pending_send_to_all: Option<usize>,
    pub heartbeat_interval: Option<u64>,
}

/// A parsed `config.toml`: the tables that it has.
#[derive(Debug, PartialEq)]
pub struct ConfigDocument {
    pub network: Option<NetworkSection>,
    pub peer: Option<PeerSection>,
}

/// What became of reading and parsing the configuration file.
#[derive(Debug, PartialEq)]
pub enum ConfigFile {
    /// The file could not be read.
    Unreadable,
    /// The file was read but is not a valid configuration.
    Invalid,
    /// The file was read and parsed.
    Parsed(ConfigDocument),
}

/// `n` is what the `[network]` table `section` configures, with the default for
/// each key that it leaves out (and for the whole table when it is missing).
pub open spec fn resolves_network(section: Option<NetworkSection>, n: NetworkConfig) -> bool {
    match section {
        None => is_default_network(n),
        Some(s) => {
            &&& n.bind@ == match s.bind {
                Some(b) => b@,
                None => spec_default_bind(),
            }
            &&& n.port == s.port.unwrap_or(DEFAULT_PORT)
        },
    }
}

/// `p` is what the `[peer]` table `section` configures, with defaults.
pub open spec fn resolves_peer(section: Option<PeerSection>, p: PeerConfig) -> bool {
    match section {
        None => is_default_peer(p),
        Some(s) => {
            &&& p.seeds@ == match s.seeds {
                Some(v) => v@,
                None => Seq::empty(),
            }
            &&& p.max_peer_count == s.max_peer_count.unwrap_or(DEFAULT_MAX_PEER_COUNT)
            &&& p.max_pending_messages == s.max_pending_messages.unwrap_or(DEFAULT_MAX_PENDING_MESSAGES)
            &&& p.max_pending_send_to_all == s.max_pending_send_to_all.unwrap_or(
                DEFAULT_MAX_PENDING_SEND_TO_ALL,
            )
            &&& p.heartbeat_interval == s.heartbeat_interval.unwrap_or(DEFAULT_HEARTBEAT_INTERVAL)
        },
    }
}

/// `c` is the configuration that `doc` gives.
pub open spec fn resolves(doc: ConfigDocument, c: Config) -> bool {
    resolves_network(doc.network, c.network) && resolves_peer(doc.peer, c.peer)
}

/// The network configuration of a `[network]` table, with defaults.
pub fn network_from_section(section: Option<NetworkSection>) -> (n: NetworkConfig)
    ensures
        resolves_network(section, n),
{
    match section {
        None => NetworkConfig::default(),
        Some(s) => NetworkConfig {
            bind: match s.bind {
                Some(b) => b,
                None => default_bind(),
            },
            port: match s.port {
                Some(p) => p,
                None => default_port(),
            },
        },
    }
}

/// The peer configuration of a `[peer]` table, with defaults.
pub fn peer_from_section(section: Option<PeerSection>) -> (p: PeerConfig)
    ensures
        resolves_peer(section, p),
{
    match section {
        None => PeerConfig::default(),
        Some(s) => PeerConfig {
            seeds: match s.seeds {
                Some(v) => v,
                None => default_seeds(),
            },
            max_peer_count: match s.max_peer_count {
                Some(v) => v,
                None => default_max_peer_count(),
            },
            max_pending_messages: match s.max_pending_messages {
                Some(v) => v,
                None => default_max_pending_messages(),
            },
            max_pending_send_to_all: match s.max_pending_send_to_all {
                Some(v) => v,
                None => default_max_pending_send_to_all(),
            },
            heartbeat_interval: match s.heartbeat_interval {
                Some(v) => v,
                None => default_heartbeat_interval(),
            },
        },
    }
}

/// The configuration that a parsed `config.toml` gives.
pub fn config_from_document(doc: ConfigDocument) -> (c: Config)
    ensures
        resolves(doc, c),
{
    Config { network: network_from_section(doc.network), peer: peer_from_section(doc.peer) }
}

/// The configuration to run with: the defaults when the file could not be
/// read, none when it is not a valid configuration, and otherwise what it sets
/// with defaults for what it leaves out.
pub fn load_config_from_file(file: ConfigFile) -> (r: Option<Config>)
    ensures
        match file {
            ConfigFile::Unreadable => r matches Some(c) && is_default_network(c.network)
                && is_default_peer(c.peer),
            ConfigFile::Invalid => r is None,
            ConfigFile::Parsed(doc) => r matches Some(c) && resolves(doc, c),
        },
{
    match file {
        ConfigFile::Unreadable => Some(Config::default()),
        ConfigFile::Invalid => None,
        ConfigFile::Parsed(doc) => Some(config_from_document(doc)),
    }
}

/// The decimal digits of `n`, most significant first, without leading zeros.
pub open spec fn decimal(n: nat) -> Seq<char>
    decreases n,
{
    let digit = "0123456789"@[(n % 10) as int];
    if n < 10 {
        seq![digit]
    } else {
        decimal(n / 10).push(digit)
    }
}

/// The decimal digit of `d`.
fn digit_text(d: usize) -> (s: &'static str)
    requires
        d < 10,
    ensures
        s@ == seq!["0123456789"@[d as int]],
{
    proof {
        reveal_strlit("0123456789");
    }
    match d {
        0 => {
            proof { reveal_strlit("0"); }
            "0"
        },
        1 => {
            proof { reveal_strlit("1"); }
            "1"
        },
        2 => {
            proof { reveal_strlit("2"); }
            "2"
        },
        3 => {
            proof { reveal_strlit("3"); }
            "3"
        },
        4 => {
            proof { reveal_strlit("4"); }
            "4"
        },
        5 => {
            proof { reveal_strlit("5"); }
            "5"
        },
        6 => {
            proof { reveal_strlit("6"); }
            "6"
        },
        7 => {
            proof { reveal_strlit("7"); }
            "7"
        },
        8 => {
            proof { reveal_strlit("8"); }
            "8"
        },
        _ => {
            proof { reveal_strlit("9"); }
            "9"
        },
    }
}

/// The decimal digits of `n`, as `usize::to_string` writes them.
fn decimal_string(n: usize) -> (s: String)
    ensures
        s@ == decimal(n as nat),
    decreases n,
{
    if n < 10 {
        String::from_str(digit_text(n))
    } else {
        let high = decimal_string(n / 10);
        high.concat(digit_text(n % 10))
    }
}

/// Build the bind address from network config: `host:port`.
pub fn get_bind_address(network_config: NetworkConfig) -> (address: String)
    ensures
        address@ == network_config.bind@ + ":"@ + decimal(network_config.port as nat),
{
    let port = decimal_string(network_config.port);
    let bind_address = network_config.bind.concat(":");
    bind_address.concat(port.as_str())
}

} // verus!

verus! {

/// A `[network]` table that sets no key configures the same as a file
/// without that table, and so does an empty `[peer]` table: each missing key
/// takes its default on its own.
pub proof fn empty_table_is_missing_table(n: NetworkConfig, p: PeerConfig)
    ensures
        resolves_network(Some(NetworkSection { bind: None, port: None }), n) <==> resolves_network(
            None,
            n,
        ),
        resolves_peer(
            Some(
                PeerSection {
                    seeds: None,
                    max_peer_count: None,
                    max_pending_messages: None,
                    max_pending_send_to_all: None,
                    heartbeat_interval: None,
                },
            ),
            p,
        ) <==> resolves_peer(None, p),
{
}

/// A file without tables gives the default configuration.
pub proof fn empty_document_gives_defaults(c: Config)
    requires
        resolves(ConfigDocument { network: None, peer: None }, c),
    ensures
        is_default_network(c.network),
        is_default_peer(c.peer),
{
}

/// Every key that a `[peer]` or `[network]` table sets is taken exactly as the
/// file gives it (the whole seed list, in order), and every key that it leaves
/// out takes its documented default: bind `localhost`, port 6680, no seeds, at
/// most 10 peers, 32 pending messages, 128 pending messages to all peers, and a
/// heartbeat every 1000 ms.
pub proof fn set_keys_are_kept_and_missing_keys_defaulted(
    net: NetworkSection,
    peer: PeerSection,
    n: NetworkConfig,
    p: PeerConfig,
)
    requires
        resolves_network(Some(net), n),
        resolves_peer(Some(peer), p),
    ensures
        net.bind matches Some(b) ==> n.bind@ == b@,
        net.bind is None ==> n.bind@ == "localhost"@,
        net.port matches Some(v) ==> n.port == v,
        net.port is None ==> n.port == 6680,
        peer.seeds matches Some(v) ==> p.seeds@ == v@ && p.seeds@.len() == v@.len(),
        peer.seeds is None ==> p.seeds@.len() == 0,
        peer.max_peer_count matches Some(v) ==> p.max_peer_count == v,
        peer.max_peer_count is None ==> p.max_peer_count == 10,
        peer.max_pending_messages matches Some(v) ==> p.max_pending_messages == v,
        peer.max_pending_messages is None ==> p.max_pending_messages == 32,
        peer.max_pending_send_to_all matches Some(v) ==> p.max_pending_send_to_all == v,
        peer.max_pending_send_to_all is None ==> p.max_pending_send_to_all == 128,
        peer.heartbeat_interval matches Some(v) ==> p.heartbeat_interval == v,
        peer.heartbeat_interval is None ==> p.heartbeat_interval == 1000,
{
}

/// The value of a decimal digit character.
pub open spec fn digit_value(c: char) -> int {
    c as int - '0' as int
}

/// The number that a string of decimal digits denotes, most significant first.
pub open spec fn digits_value(s: Seq<char>) -> int
    decreases s.len(),
{
    if s.len() == 0 {
        0
    } else {
        digits_value(s.drop_last()) * 10 + digit_value(s.last())
    }
}

/// A port (indeed any `usize`) is written in standard decimal: only the digits
/// `0`-`9`, no leading zero, and the digits denote the number itself. So
/// `decimal(n)` is the one such text for `n`, as `usize::to_string` writes it.
pub proof fn decimal_is_standard_decimal(n: nat)
    ensures
        decimal(n).len() >= 1,
        forall|i: int| 0 <= i < decimal(n).len() ==> '0' <= #[trigger] decimal(n)[i] <= '9',
        n > 0 ==> decimal(n)[0] != '0',
        n == 0 ==> decimal(n) == seq!['0'],
        digits_value(decimal(n)) == n,
    decreases n,
{
    reveal_strlit("0123456789");
    let digits = "0123456789"@;
    assert(digits =~= seq!['0', '1', '2', '3', '4', '5', '6', '7', '8', '9']);
    let d = n % 10;
    assert(digit_value(digits[d as int]) == d) by {
        assert(digits[0] == '0' && digits[1] == '1' && digits[2] == '2' && digits[3] == '3');
        assert(digits[4] == '4' && digits[5] == '5' && digits[6] == '6' && digits[7] == '7');
        assert(digits[8] == '8' && digits[9] == '9');
    }
    if n < 10 {
        assert(decimal(n) == seq![digits[d as int]]);
        assert(decimal(n).drop_last() =~= Seq::<char>::empty());
        assert(decimal(n).last() == digits[d as int]);
        assert(digits_value(decimal(n)) == digits_value(Seq::<char>::empty()) * 10 + d);
    } else {
        decimal_is_standard_decimal(n / 10);
        let high = decimal(n / 10);
        assert(decimal(n) == high.push(digits[d as int]));
        assert(decimal(n).drop_last() =~= high);
        assert(decimal(n)[0] == high[0]);
        assert(decimal(n).last() == digits[d as int]);
        assert(digits_value(decimal(n)) == digits_value(high) * 10 + d);
        assert(n == (n / 10) * 10 + d);
        assert forall|i: int| 0 <= i < decimal(n).len() implies '0' <= #[trigger] decimal(n)[i] <= '9' by {
            if i < high.len() {
                assert(decimal(n)[i] == high[i]);
            }
        }
    }
}

/// Appending a zero digit multiplies by ten: `decimal(10 * n)` is `decimal(n)`
/// followed by `0`, so zeros are never dropped.
pub proof fn decimal_of_tenfold(n: nat)
    requires
        n > 0,
    ensures
        decimal(10 * n) == decimal(n).push('0'),
{
    reveal_strlit("0123456789");
    assert((10 * n) % 10 == 0) by (nonlinear_arith);
    assert((10 * n) / 10 == n) by (nonlinear_arith);
    assert("0123456789"@[0] == '0');
}

} // verus!
