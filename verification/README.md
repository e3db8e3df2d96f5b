# stellarforge

Building blocks for Stellar applications, written in Verus: network
configuration, strkey address validation, assets, memos, time bounds, payment
and contract-call operations, the transaction builder, and the decisions taken
around Horizon submission and confirmation polling. Every function in `src/`
carries a contract; Verus proves all of them except the three `external_body`
wrappers around outside code (`decode_strkey`, `canonical_reason`,
`duration_from_secs`), whose contracts are trusted.

Layout:

- `src/` — the verified library. Strkey decoding is delegated to the
  `stellar_strkey` crate (`src/strkey.rs`); status reason phrases come from
  `reqwest` (`src/confirm.rs`).
- `app/` — the network I/O around it: `submit_transaction` and
  `wait_for_confirmation` (reqwest, tokio, serde_json), and serde forms of the
  configuration and of Horizon's JSON bodies.
- `tests/` — tests of the library on concrete values.
