# nft_marketplace

The rules of an NFT marketplace program, verified with Verus.

- `src/` is the library. Each instruction (`Initialize`, `InitializeUser`,
  `List`, `Delist`, `Purchase`, `Claim`) reads its accounts as plain values,
  updates the account data it owns, and returns the token-program and
  system-program calls to make, in order (`cpi.rs`). `seeds.rs` builds the
  seeds with which the marketplace and a listing sign. `ledger.rs` models what
  those calls do to balances, and `laws.rs` proves what the instructions
  achieve over that model.
- `app/` is the on-chain program: the Anchor account declarations and entry
  points. It reads the accounts into the library's types, writes back the new
  account data, and makes the calls the library returns.
- `tests/` runs the library on concrete accounts.
