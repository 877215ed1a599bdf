use braidpool::node_config::{load_config_from_file, Config, ConfigFile, NetworkConfig, PeerConfig};

#[test]
fn config_it_should_load_default_config_correctly() {
    let conf = Config::default();
    let network = conf.network.unwrap();
    let peer = conf.peer.unwrap();
    assert_eq!(network.bind, Some("localhost".to_string()));
    assert_eq!(network.port, Some(6680));
    assert!(peer.seeds.is_none());
    assert_eq!(peer.max_peer_count, Some(10));
    assert_eq!(peer.max_pending_messages, Some(32));
    assert_eq!(peer.max_pending_send_to_all, Some(128));
}

// An empty config.toml parses to a configuration without sections.
#[test]
fn config_it_should_load_empty_config_for_empty_string() {
    let conf =
        load_config_from_file(ConfigFile::Parsed(Config { network: None, peer: None })).unwrap();
    assert!(conf.network.is_none());
    assert!(conf.peer.is_none());
}

#[test]
fn config_it_should_return_error_for_bad_toml() {
    assert!(load_config_from_file(ConfigFile::Invalid).is_none());
}

// [network]
// bind="localhost"
#[test]
fn config_it_should_load_default_for_missing_fields() {
    let parsed = Config {
        network: Some(NetworkConfig { bind: Some("localhost".to_string()), port: None }),
        peer: None,
    };
    let conf = load_config_from_file(ConfigFile::Parsed(parsed)).unwrap();
    assert!(conf.network.is_some());
    assert_eq!(conf.network.unwrap().bind, Some("localhost".to_string()));
    assert!(conf.peer.is_none());
}

// [network]
// bind="localhost"
// [peer]
// max_peer_count = 100
// seeds = ["1.2.3.4:8080"]
#[test]
fn config_it_should_load_default_for_missing_fields_in_multiple_sections() {
    let parsed = Config {
        network: Some(NetworkConfig { bind: Some("localhost".to_string()), port: None }),
        peer: Some(PeerConfig {
            seeds: Some(vec!["1.2.3.4:8080".to_string()]),
            max_peer_count: Some(100),
            max_pending_messages: None,
            max_pending_send_to_all: None,
        }),
    };
    let conf = load_config_from_file(ConfigFile::Parsed(parsed)).unwrap();
    assert!(conf.network.is_some());
    assert_eq!(conf.network.unwrap().bind, Some("localhost".to_string()));
    let peer = conf.peer.unwrap();
    assert_eq!(peer.seeds, Some(vec!["1.2.3.4:8080".to_string()]));
    assert_eq!(peer.max_peer_count.unwrap(), 100);
    assert!(peer.max_pending_messages.is_none());
    assert!(peer.max_pending_send_to_all.is_none());
}

// config.toml sets every key, with an empty list of seeds.
#[test]
fn config_it_should_load_config_without_errors() {
    let parsed = Config {
        network: Some(NetworkConfig { bind: Some("localhost".to_string()), port: Some(6680) }),
        peer: Some(PeerConfig {
            seeds: Some(vec![]),
            max_peer_count: Some(10),
            max_pending_messages: Some(32),
            max_pending_send_to_all: Some(128),
        }),
    };
    let conf = load_config_from_file(ConfigFile::Parsed(parsed)).unwrap();
    let network = conf.network.unwrap();
    let peer = conf.peer.unwrap();
    assert_eq!(network.bind.unwrap(), "localhost");
    assert_eq!(network.port.unwrap(), 6680);
    assert!(peer.seeds.is_some());
    assert_eq!(peer.seeds.unwrap().len(), 0);
    assert_eq!(peer.max_peer_count.unwrap(), 10);
    assert_eq!(peer.max_pending_messages.unwrap(), 32);
    assert_eq!(peer.max_pending_send_to_all.unwrap(), 128);
}

#[test]
fn config_it_should_load_default_config_when_file_not_found() {
    let conf = load_config_from_file(ConfigFile::Unreadable).unwrap();
    let network = conf.network.unwrap();
    let peer = conf.peer.unwrap();

    assert_eq!(network.bind.unwrap(), "localhost");
    assert_eq!(network.port.unwrap(), 6680);
    assert!(peer.seeds.is_none());
    assert_eq!(peer.max_peer_count.unwrap(), 10);
    assert_eq!(peer.max_pending_messages.unwrap(), 32);
    assert_eq!(peer.max_pending_send_to_all.unwrap(), 128);
}
