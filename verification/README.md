# gateway_config

The configuration of a mixnet gateway, verified with Verus.

- `src/config.rs` — the settings (`Config`, `Gateway`, `DebugSettings`), their
  defaults, the builder methods and getters, and where a gateway's keys,
  database and configuration file live (`<root>/<id>/data`, `<root>/<id>/config`).
  Each method's contract states its effect on `ConfigView`, the configuration as
  mathematical values; the proof functions at the end state the laws that relate
  the methods.
- `src/ip.rs` — IP addresses as octets and segments, and their text as
  `std::net::IpAddr` displays it.
- `src/paths.rs` — paths as text, joined as `std::path::Path::join` joins them on Unix.
- `src/text.rs` — decimal and hexadecimal digits.
- `src/econ.rs` — the `u64` reward estimates of a mixnode's economic statistics.
- `src/outside.rs` — the calls into `url`, `bip39`, `dirs` and `std::time`, each
  with the contract that is believed of it.
- `app/` — the serde form of the configuration file and the explorer's
  asynchronous retrieval of economic statistics, which Verus does not see.
