# qrdx

Verified core of the QRDX network, an Ethereum hardfork with chain id 10000
(mainnet) and 9999 (dev network).

- `src/hardforks.rs`: Ethereum hardforks, fork conditions, schedule lookup, the
  QRDX schedule (every hardfork up to Prague at genesis).
- `src/genesis.rs`: the genesis model and reading a genesis JSON document.
- `src/chainspec.rs`: chain specifications built from a genesis, the built-in
  mainnet and dev specifications, the specification builder.
- `src/cli.rs`: selecting a specification by name or from a genesis document.
- `src/consensus.rs`: which Ethereum header checks apply to a header.
- `src/evm.rs`, `src/node.rs`: the EVM configuration and node component types.
- `app/main.rs`: the command line front end.
