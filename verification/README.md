# bdk_cli

The logic behind a Bitcoin wallet's command line, written in Verus with its contracts
proved: generating output descriptors from extended keys and mnemonics, validating an
external/internal descriptor pair (BIP-389 two-path descriptors included), planning how a
wallet is set up from its descriptors, and laying out command output as a table.

- `src/` is the verified library. Calls into `bdk_wallet` (with `bitcoin`, `miniscript`
  and `bip39`) and `cli-table` stand behind small trusted wrappers whose doc comments say
  what their contracts claim.
- `tests/` runs the library against the real outside crates.
- `app/` holds what Verus does not see: serialization of output through `serde`,
  `serde_json` and `toml`, writing it out, and wallet persistence through SQLite (`bdk_wallet`'s `rusqlite`) and
  `bdk_redb`.
