use braidpool::config::{
    default_bind, default_heartbeat_interval, default_max_peer_count, default_max_pending_messages,
    default_max_pending_send_to_all, default_port, default_seeds, get_bind_address, load_config_from_file, Config, ConfigDocument, ConfigFile, NetworkConfig,
    NetworkSection, PeerSection,
};

fn assert_defaults(conf: &Config) {
    assert_eq!(conf.network.bind, "localhost".to_string());
    assert_eq!(conf.network.port, 6680);
    assert_eq!(conf.peer.seeds.len(), 0);
    assert_eq!(conf.peer.max_peer_count, 10);
    assert_eq!(conf.peer.max_pending_messages, 32);
    assert_eq!(conf.peer.max_pending_send_to_all, 128);
    assert_eq!(conf.peer.heartbeat_interval, 1000);
}

fn empty_network() -> NetworkSection {
    NetworkSection { bind: None, port: None }
}

fn empty_peer() -> PeerSection {
    PeerSection {
        seeds: None,
        max_peer_count: None,
        max_pending_messages: None,
        max_pending_send_to_all: None,
        heartbeat_interval: None,
    }
}

#[test]
fn lib_it_should_load_default_config_correctly() {
    let conf = Config::default();
    let network = conf.network;
    let peer = conf.peer;
    assert_eq!(network.bind, "localhost".to_string());
    assert_eq!(network.port, 6680);
    assert_eq!(peer.seeds.len(), 0);
    assert_eq!(peer.max_peer_count, 10);
    assert_eq!(peer.max_pending_messages, 32);
    assert_eq!(peer.max_pending_send_to_all, 128);
    assert_eq!(peer.heartbeat_interval, 1000);
}

// An empty config.toml parses to a document without tables.
#[test]
fn lib_it_should_load_empty_config_for_empty_string() {
    let conf = load_config_from_file(ConfigFile::Parsed(ConfigDocument { network: None, peer: None }))
        .unwrap();
    assert_defaults(&conf);
}

// `abcd` is not valid TOML.
#[test]
fn lib_it_should_return_error_for_bad_toml() {
    assert!(load_config_from_file(ConfigFile::Invalid).is_none());
}

// [network]
// bind="localhost"
#[test]
fn lib_it_should_load_default_for_missing_fields() {
    let doc = ConfigDocument {
        network: Some(NetworkSection { bind: Some("localhost".to_string()), port: None }),
        peer: None,
    };
    let conf = load_config_from_file(ConfigFile::Parsed(doc)).unwrap();
    assert_defaults(&conf);
}

// [network]
#[test]
fn it_should_load_default_for_missing_fields_for_network() {
    let doc = ConfigDocument { network: Some(empty_network()), peer: None };
    let conf = load_config_from_file(ConfigFile::Parsed(doc)).unwrap();
    assert_defaults(&conf);
}

// [peer]
#[test]
fn it_should_load_default_for_missing_fields_for_peer() {
    let doc = ConfigDocument { network: None, peer: Some(empty_peer()) };
    let conf = load_config_from_file(ConfigFile::Parsed(doc)).unwrap();
    assert_defaults(&conf);
}

// [network]
// bind="localhost"
// [peer]
// max_peer_count = 100
// seeds = ["1.2.3.4:8080"]
#[test]
fn lib_it_should_load_default_for_missing_fields_in_multiple_sections() {
    let doc = ConfigDocument {
        network: Some(NetworkSection { bind: Some("localhost".to_string()), port: None }),
        peer: Some(PeerSection {
            seeds: Some(vec!["1.2.3.4:8080".to_string()]),
            max_peer_count: Some(100),
            ..empty_peer()
        }),
    };
    let conf = load_config_from_file(ConfigFile::Parsed(doc)).unwrap();
    assert_eq!(conf.network.bind, "localhost".to_string());
    let peer = conf.peer;
    assert_eq!(peer.seeds, vec!["1.2.3.4:8080".to_string()]);
    assert_eq!(peer.max_peer_count, 100);
    assert_eq!(peer.max_pending_messages, 32);
    assert_eq!(peer.max_pending_send_to_all, 128);
    assert_eq!(peer.heartbeat_interval, 1000);
}

// config.toml sets the network and peer sections to the default values.
fn shipped_config_toml() -> ConfigDocument {
    ConfigDocument {
        network: Some(NetworkSection { bind: Some("localhost".to_string()), port: Some(6680) }),
        peer: Some(PeerSection {
            seeds: Some(vec![]),
            max_peer_count: Some(10),
            max_pending_messages: Some(32),
            max_pending_send_to_all: Some(128),
            heartbeat_interval: Some(1000),
        }),
    }
}

#[test]
fn lib_it_should_load_config_without_errors() {
    let conf = load_config_from_file(ConfigFile::Parsed(shipped_config_toml())).unwrap();
    let network = conf.network;
    let peer = conf.peer;
    assert_eq!(network.bind, "localhost");
    assert_eq!(network.port, 6680);
    assert_eq!(peer.seeds.len(), 0);
    assert_eq!(peer.max_peer_count, 10);
    assert_eq!(peer.max_pending_messages, 32);
    assert_eq!(peer.max_pending_send_to_all, 128);
    assert_eq!(peer.heartbeat_interval, 1000);
}

#[test]
fn lib_it_should_load_default_config_when_file_not_found() {
    let conf = load_config_from_file(ConfigFile::Unreadable).unwrap();
    let network = conf.network;
    let peer = conf.peer;

    assert_eq!(network.bind, "localhost");
    assert_eq!(network.port, 6680);
    assert_eq!(peer.seeds.len(), 0);
    assert_eq!(peer.max_peer_count, 10);
    assert_eq!(peer.max_pending_messages, 32);
    assert_eq!(peer.max_pending_send_to_all, 128);
    assert_eq!(peer.heartbeat_interval, 1000);
}

#[test]
fn it_should_get_bind_address_from_config() {
    let conf = load_config_from_file(ConfigFile::Parsed(shipped_config_toml())).unwrap();
    let network = conf.network;
    assert_eq!(get_bind_address(network), "localhost:6680");
}

#[test]
fn bind_address_joins_host_and_decimal_port() {
    let n = NetworkConfig { bind: "10.0.0.7".to_string(), port: 0 };
    assert_eq!(get_bind_address(n), "10.0.0.7:0");
    let n = NetworkConfig { bind: "::1".to_string(), port: 1234567 };
    assert_eq!(get_bind_address(n), "::1:1234567");
    let n = NetworkConfig { bind: "h".to_string(), port: usize::MAX };
    assert_eq!(get_bind_address(n), format!("h:{}", usize::MAX));
    let n = NetworkConfig { bind: "h".to_string(), port: 10 };
    assert_eq!(get_bind_address(n), "h:10");
}

#[test]
fn every_default_function_gives_the_default() {
    assert_eq!(default_bind(), "localhost");
    assert_eq!(default_port(), 6680);
    assert!(default_seeds().is_empty());
    assert_eq!(default_max_peer_count(), 10);
    assert_eq!(default_max_pending_messages(), 32);
    assert_eq!(default_max_pending_send_to_all(), 128);
    assert_eq!(default_heartbeat_interval(), 1000);
}

#[test]
fn set_keys_override_defaults_and_empty_tables_do_not() {
    let doc = ConfigDocument {
        network: Some(NetworkSection { bind: Some("0.0.0.0".to_string()), port: Some(7000) }),
        peer: Some(PeerSection {
            seeds: None,
            max_peer_count: None,
            max_pending_messages: Some(1),
            max_pending_send_to_all: Some(2),
            heartbeat_interval: Some(3),
        }),
    };
    let conf = load_config_from_file(ConfigFile::Parsed(doc)).unwrap();
    assert_eq!(conf.network.bind, "0.0.0.0");
    assert_eq!(conf.network.port, 7000);
    assert!(conf.peer.seeds.is_empty());
    assert_eq!(conf.peer.max_peer_count, 10);
    assert_eq!(conf.peer.max_pending_messages, 1);
    assert_eq!(conf.peer.max_pending_send_to_all, 2);
    assert_eq!(conf.peer.heartbeat_interval, 3);

    let with_empty_tables = ConfigDocument { network: Some(empty_network()), peer: Some(empty_peer()) };
    let without_tables = ConfigDocument { network: None, peer: None };
    assert_eq!(
        load_config_from_file(ConfigFile::Parsed(with_empty_tables)),
        load_config_from_file(ConfigFile::Parsed(without_tables))
    );
}
