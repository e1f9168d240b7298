//! The service's configuration and the values derived from it at start-up.
use vstd::prelude::*;

use crate::multiaddr::{multiaddr_text, node_address};
use crate::status::NetStatus;
use crate::text::{decimal, decimal_text, push_decimal};

verus! {

/// The TCP port the peer-to-peer network listens on unless configured otherwise.
pub const DEFAULT_PORT: u16 = 40000;

/// The port of the gRPC service unless configured otherwise.
pub const DEFAULT_GRPC_PORT: u16 = 50000;

/// The largest frame of the length-delimited protocol codec unless configured otherwise
/// (`(1 << 24) - 1`).
pub const DEFAULT_GRPC_FRAME: usize = 0xff_ffff;

/// A neighbour node to dial.
#[derive(Clone, Debug)]
pub struct PeerConfig {
    /// Its network address, as a multiaddr text.
    pub address: String,
}

impl Default for PeerConfig {
    fn default() -> (r: Self)
        ensures
            r.address@ == Seq::<char>::empty(),
    {
        PeerConfig { address: String::new() }
    }
}

/// The configuration of the network service (the `network_p2p` table of the configuration file).
#[derive(Clone, Debug)]
pub struct NetConfig {
    /// The TLS server name, used in the listen address when TLS is enabled.
    pub domain: String,
    /// The port of the peer-to-peer network.
    pub port: u16,
    /// The port of the gRPC service.
    pub grpc_port: u16,
    /// The neighbour nodes.
    pub peers: Vec<PeerConfig>,
    /// The largest frame that the message codec accepts.
    pub grpc_frame: usize,
    /// Whether connections are secured with TLS.
    pub enable_tls: bool,
    /// The file holding the node's certificate chain.
    pub server_chain_certs: Option<String>,
    /// The file holding the node's private key.
    pub server_key: Option<String>,
    /// The file holding the certificate of the certificate authority.
    pub ca_cert: Option<String>,
    /// The TLS protocol versions to offer (`"1.2"`, `"1.3"`).
    pub protocols: Option<Vec<String>>,
    /// The names of the TLS cipher suites to offer.
    pub cypher_suits: Option<Vec<String>>,
    /// Whether peer discovery is enabled.
    pub enable_discovery: bool,
    /// The logging configuration file.
    pub log_file: String,
}

/// The name of the default logging configuration file.
pub open spec fn default_log_file() -> Seq<char> {
    "network-log4rs.yaml"@
}

impl Default for NetConfig {
    fn default() -> (r: Self)
        ensures
            r.domain@ == Seq::<char>::empty(),
            r.port == DEFAULT_PORT,
            r.grpc_port == DEFAULT_GRPC_PORT,
            r.peers@.len() == 0,
            r.grpc_frame == DEFAULT_GRPC_FRAME,
            !r.enable_tls,
            r.server_chain_certs is None,
            r.server_key is None,
            r.ca_cert is None,
            r.protocols is None,
            r.cypher_suits is None,
            !r.enable_discovery,
            r.log_file@ == default_log_file(),
    {
        NetConfig {
            enable_tls: false,
            domain: String::new(),
            port: DEFAULT_PORT,
            grpc_port: DEFAULT_GRPC_PORT,
            peers: Vec::new(),
            grpc_frame: DEFAULT_GRPC_FRAME,
            server_chain_certs: None,
            server_key: None,
            ca_cert: None,
            protocols: None,
            cypher_suits: None,
            enable_discovery: false,
            log_file: String::from_str("network-log4rs.yaml"),
        }
    }
}

/// The gRPC port the service serves on: the one given on the command line, unless that is the
/// default, in which case the configured one.
pub open spec fn grpc_port_choice(cli_port: Seq<char>, config_port: u16) -> Seq<char> {
    if cli_port != decimal(DEFAULT_GRPC_PORT as nat) {
        cli_port
    } else if config_port != DEFAULT_GRPC_PORT {
        decimal(config_port as nat)
    } else {
        decimal(DEFAULT_GRPC_PORT as nat)
    }
}

/// The command line decides the gRPC port unless it gives the default, in which case the
/// configuration does.
pub proof fn law_grpc_port_precedence(cli_port: Seq<char>, config_port: u16)
    ensures
        grpc_port_choice(cli_port, config_port) == if cli_port == decimal(DEFAULT_GRPC_PORT as nat) {
            decimal(config_port as nat)
        } else {
            cli_port
        },
{
}

/// The multiaddr text the network listens on.
pub open spec fn listen_address_text(port: u16, enable_tls: bool, domain: Seq<char>) -> Seq<char> {
    let base = "/ip4/0.0.0.0/tcp/"@ + decimal(port as nat);
    if enable_tls {
        base + "/tls/"@ + domain
    } else {
        base
    }
}

/// The listen address names the configured port whatever the TLS setting: it is
/// `/ip4/0.0.0.0/tcp/` followed by the decimal text of the port, and with TLS off that is all of
/// it; with TLS on, `/tls/` and the domain follow.
pub proof fn law_listen_address_names_port(port: u16, enable_tls: bool, domain: Seq<char>)
    ensures
        ({
            let prefix = "/ip4/0.0.0.0/tcp/"@ + decimal(port as nat);
            let text = listen_address_text(port, enable_tls, domain);
            &&& text.len() >= prefix.len()
            &&& text.subrange(0, prefix.len() as int) == prefix
            &&& !enable_tls ==> text == prefix
            &&& enable_tls ==> text.subrange(prefix.len() as int, text.len() as int) == "/tls/"@
                + domain
        }),
{
    let prefix = "/ip4/0.0.0.0/tcp/"@ + decimal(port as nat);
    let text = listen_address_text(port, enable_tls, domain);
    if enable_tls {
        assert(text == prefix + ("/tls/"@ + domain));
        assert(text.subrange(0, prefix.len() as int) =~= prefix);
        assert(text.subrange(prefix.len() as int, text.len() as int) =~= "/tls/"@ + domain);
    } else {
        assert(text.subrange(0, prefix.len() as int) =~= prefix);
    }
}

impl NetConfig {
    /// The addresses of the configured neighbour nodes, in the configured order.
    pub fn peer_addresses(&self) -> (r: Vec<String>)
        ensures
            r@.len() == self.peers@.len(),
            forall|i: int| 0 <= i < r@.len() ==> #[trigger] r@[i]@ == self.peers@[i].address@,
    {
        let mut out: Vec<String> = Vec::new();
        let n = self.peers.len();
        for i in 0..n
            invariant
                n == self.peers@.len(),
                out@.len() == i,
                forall|j: int| 0 <= j < i ==> #[trigger] out@[j]@ == self.peers@[j].address@,
        {
            out.push(self.peers[i].address.clone());
        }
        out
    }

    /// The multiaddr text the network listens on: `/ip4/0.0.0.0/tcp/<port>`, followed by
    /// `/tls/<domain>` when TLS is enabled.
    pub fn listen_address(&self) -> (r: String)
        ensures
            r@ == listen_address_text(self.port, self.enable_tls, self.domain@),
            r@ == "/ip4/0.0.0.0/tcp/"@ + decimal(self.port as nat) + if self.enable_tls {
                "/tls/"@ + self.domain@
            } else {
                Seq::<char>::empty()
            },
    {
        proof {
            reveal_strlit("/ip4/0.0.0.0/tcp/");
            reveal_strlit("/tls/");
        }
        let mut s = String::from_str("/ip4/0.0.0.0/tcp/");
        push_decimal(&mut s, self.port as u64);
        if self.enable_tls {
            s.append("/tls/");
            s.append(self.domain.as_str());
        }
        s
    }

    /// The listen address, parsed as a multiaddr; its canonical text, or
    /// `MultiAddrParseError` where it does not parse.
    pub fn parsed_listen_address(&self) -> (r: Result<String, NetStatus>)
        ensures
            match multiaddr_text(listen_address_text(self.port, self.enable_tls, self.domain@)) {
                Some(t) => r matches Ok(s) && s@ == t,
                None => r == Err::<String, NetStatus>(NetStatus::MultiAddrParseError),
            },
            r matches Ok(s) ==> multiaddr_text(s@) == Some(s@),
    {
        let text = self.listen_address();
        node_address(text.as_str())
    }

    /// The configured neighbour addresses, each parsed as a multiaddr; their canonical texts in
    /// the configured order, or `MultiAddrParseError` where one of them does not parse.
    pub fn parsed_peer_addresses(&self) -> (r: Result<Vec<String>, NetStatus>)
        ensures
            match r {
                Ok(v) => v@.len() == self.peers@.len() && forall|i: int|
                    0 <= i < v@.len() ==> multiaddr_text(#[trigger] self.peers@[i].address@)
                        == Some(v@[i]@),
                Err(e) => e == NetStatus::MultiAddrParseError && exists|i: int|
                    0 <= i < self.peers@.len() && (#[trigger] multiaddr_text(
                        self.peers@[i].address@,
                    )) is None,
            },
            r is Ok <==> forall|i: int|
                0 <= i < self.peers@.len() ==> (#[trigger] multiaddr_text(
                    self.peers@[i].address@,
                )) is Some,
            r matches Ok(v) ==> forall|i: int|
                0 <= i < v@.len() ==> multiaddr_text(#[trigger] v@[i]@) == Some(v@[i]@),
    {
        let mut out: Vec<String> = Vec::new();
        let n = self.peers.len();
        for i in 0..n
            invariant
                n == self.peers@.len(),
                out@.len() == i,
                forall|j: int|
                    0 <= j < i ==> multiaddr_text(#[trigger] self.peers@[j].address@) == Some(
                        out@[j]@,
                    ),
                forall|j: int| 0 <= j < i ==> multiaddr_text(#[trigger] out@[j]@) == Some(out@[j]@),
        {
            let address = node_address(self.peers[i].address.as_str())?;
            out.push(address);
        }
        Ok(out)
    }
}

/// The gRPC port to serve on, given the port from the command line and the configured one: the
/// command line wins unless it holds the default port.
pub fn select_grpc_port(cli_port: &String, config_port: u16) -> (r: String)
    ensures
        r@ == grpc_port_choice(cli_port@, config_port),
{
    let default_port = decimal_text(DEFAULT_GRPC_PORT as u64);
    if *cli_port != default_port {
        cli_port.clone()
    } else if config_port != DEFAULT_GRPC_PORT {
        decimal_text(config_port as u64)
    } else {
        default_port
    }
}

} // verus!
