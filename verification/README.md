# iota_wallet

The accounts of a wallet, verified with Verus.

- `src/account/` holds the account: its balances, the messages and addresses that it lists, its
  identifier, the alias of one that was given none (`alias.rs`), what the storage keeps of it (`record.rs`), how it is initialised
  (`initialiser.rs`), and what holds across its operations (`laws.rs`).
- `src/address.rs`, `src/message.rs`, `src/client.rs` and `src/time.rs` hold what an account is
  made of.
- `app/` connects accounts to a storage, to stronghold and to the network.

The library does no I/O but for reading the clock. An initialisation says what it needs done (`Initialisation::action`) and
goes on with what came of it (`Initialisation::advance`). An operation that changes what is stored
returns the write that brings the storage up to date (`StorageWrite`).
