use network_p2p::config::{select_grpc_port, NetConfig, PeerConfig};
use network_p2p::multiaddr::node_address;
use network_p2p::status::NetStatus;
use network_p2p::text::decimal_text;

fn peer(address: &str) -> PeerConfig {
    PeerConfig { address: address.to_string() }
}

#[test]
fn default_config_values() {
    let config = NetConfig::default();
    assert_eq!(config.domain, "");
    assert_eq!(config.port, 40000);
    assert_eq!(config.grpc_port, 50000);
    assert!(config.peers.is_empty());
    assert_eq!(config.grpc_frame, (1 << 24) - 1);
    assert!(!config.enable_tls);
    assert!(config.server_chain_certs.is_none());
    assert!(config.server_key.is_none());
    assert!(config.ca_cert.is_none());
    assert!(config.protocols.is_none());
    assert!(config.cypher_suits.is_none());
    assert!(!config.enable_discovery);
    assert_eq!(config.log_file, "network-log4rs.yaml");
}

#[test]
fn default_peer_has_empty_address() {
    assert_eq!(PeerConfig::default().address, "");
}

#[test]
fn decimal_rendering() {
    assert_eq!(decimal_text(0), "0");
    assert_eq!(decimal_text(9), "9");
    assert_eq!(decimal_text(10), "10");
    assert_eq!(decimal_text(65535), "65535");
    assert_eq!(decimal_text(u64::MAX), u64::MAX.to_string());
}

#[test]
fn grpc_port_from_command_line_wins() {
    assert_eq!(select_grpc_port(&"60001".to_string(), 50000), "60001");
    assert_eq!(select_grpc_port(&"60001".to_string(), 60005), "60001");
}

#[test]
fn grpc_port_default_defers_to_config() {
    assert_eq!(select_grpc_port(&"50000".to_string(), 60005), "60005");
    assert_eq!(select_grpc_port(&"50000".to_string(), 50000), "50000");
}

#[test]
fn listen_address_plain_and_tls() {
    let mut config = NetConfig::default();
    assert_eq!(config.listen_address(), "/ip4/0.0.0.0/tcp/40000");
    config.port = 40001;
    config.enable_tls = true;
    config.domain = "node0.example".to_string();
    assert_eq!(config.listen_address(), "/ip4/0.0.0.0/tcp/40001/tls/node0.example");
}

#[test]
fn listen_address_parses() {
    let config = NetConfig::default();
    assert_eq!(config.parsed_listen_address(), Ok("/ip4/0.0.0.0/tcp/40000".to_string()));
    let mut tls = NetConfig::default();
    tls.enable_tls = true;
    tls.domain = "node0".to_string();
    assert_eq!(tls.parsed_listen_address(), Ok("/ip4/0.0.0.0/tcp/40000/tls/node0".to_string()));
}

#[test]
fn peer_addresses_in_order() {
    let mut config = NetConfig::default();
    config.peers = vec![peer("/dns4/127.0.0.1/tcp/40001"), peer("/dns4/127.0.0.1/tcp/40002")];
    assert_eq!(
        config.peer_addresses(),
        vec!["/dns4/127.0.0.1/tcp/40001".to_string(), "/dns4/127.0.0.1/tcp/40002".to_string()]
    );
    assert_eq!(
        config.parsed_peer_addresses(),
        Ok(vec!["/dns4/127.0.0.1/tcp/40001".to_string(), "/dns4/127.0.0.1/tcp/40002".to_string()])
    );
}

#[test]
fn invalid_peer_address_is_refused() {
    let mut config = NetConfig::default();
    config.peers = vec![peer("/dns4/127.0.0.1/tcp/40001"), peer("127.0.0.1:40002")];
    assert_eq!(config.parsed_peer_addresses(), Err(NetStatus::MultiAddrParseError));
}

#[test]
fn node_address_is_canonical() {
    assert_eq!(node_address("/ip6/::0001/tcp/1"), Ok("/ip6/::1/tcp/1".to_string()));
    assert_eq!(node_address("/ip4/127.0.0.1/tcp/80"), Ok("/ip4/127.0.0.1/tcp/80".to_string()));
}

#[test]
fn node_address_errors() {
    assert_eq!(node_address(""), Err(NetStatus::MultiAddrParseError));
    assert_eq!(node_address("ip4/127.0.0.1"), Err(NetStatus::MultiAddrParseError));
    assert_eq!(node_address("/ip4/not-an-ip/tcp/1"), Err(NetStatus::MultiAddrParseError));
}
