# network_p2p

The peer-to-peer network service of a CITA-Cloud node, as a Verus-verified library with a thin
program around it.

`src/` is the library. Verus proves each of its functions against its contract, except a few
small trusted wrappers around outside calls (tentacle's multiaddr parser, rustls's cipher-suite
table, rustls-pemfile's PEM reader, and `str::to_lowercase`), whose contracts are taken on
trust and say what the outside code does:

- `config` — the service configuration (`NetConfig`, `PeerConfig`) with its defaults, and what
  start-up derives from it: the gRPC port, the listen address, the neighbours' addresses.
- `multiaddr` — network addresses in multiaddr notation, parsed by tentacle's multiaddr crate.
- `peers` — the outbound sessions to peers: recording and forgetting sessions as the network
  reports them, and choosing which configured peers to dial.
- `dispatch` — the table of message handlers registered by the node's modules and the routing
  of incoming messages to them.
- `message` — network messages.
- `status` — the status codes the gRPC service answers with.
- `tls` — TLS settings: protocol versions and cipher suites named in the configuration, the
  application protocols, the certificates and private key read from PEM files, the certificate
  chain and key presented, and the files read.
- `text` — decimal rendering of integers.

`app/` is the program: command line, configuration file, logging, the gRPC server, the tentacle
service, and reading the bytes of certificate and key files. It hands plain values to the library and
acts on what the library decides.

`tests/` runs the library on concrete values.
