//! The peer-to-peer network service of a blockchain node: its configuration, the bookkeeping of
//! connected peers, the table of message handlers, the routing of network messages and the
//! choice of TLS settings.
pub mod config;
pub mod dispatch;
pub mod message;
pub mod multiaddr;
pub mod peers;
pub mod status;
pub mod text;
pub mod tls;
