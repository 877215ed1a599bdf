# braidpool

A Braidpool node library with its behaviour stated in contracts and proved
with Verus.

## Layout

- `src/` — the verified library:
  - `config`, `node_config`, `cli`: the node configuration and its defaults,
    resolved from the parsed `config.toml` tables;
  - `protocol`: the peer messages (ping, handshake, heartbeat) and the
    response each one calls for;
  - `connection_manager`, `peer_addr`: the bounded set of connected peers;
  - `connection`: each decision of a peer connection as a step from event to
    action;
  - `uhpo`: building and signing the payout update and payout settlement
    transactions, over the `bitcoin` and `secp256k1` crates.
- `app/` — the node program: command line, file reading, TOML and
  flexbuffers encoding, and the tokio tasks that run the connection steps.
- `tests/` — tests of the library.
