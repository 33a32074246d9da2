# cbf_chain_source

A chain source for a Lightning node that follows the Bitcoin chain through compact block filters
(BIP 157 and BIP 158), written in Rust and verified with Verus.

- `src/` is the verified library. Every public function has a contract; the properties that span several
  functions are public proof functions next to the code they speak of.
  - `types`, `header`, `filter`: plain values, block headers and their hashes, filters.
  - `subsidy`, `block_fee`, `fee_select`, `fee_table`: from blocks or servers to fee estimates.
  - `fee_cache`, `fee_walk`, `fee_estimation`: sampling recent blocks, and what the cache saves.
  - `scripts`, `checkpoint`: what to look for in blocks, and where to resume.
  - `dispatch`, `sync_loop`, `wallet_sync`, `broadcast`, `runtime`, `metrics`: what to do on each
    event, as functions from state and event to action.
  - `source`: the configuration and the state, together.
- `app/` is ordinary Rust around the library: it runs the node, talks to fee servers, keeps the
  locks, and hands what they answer to the library.
- `tests/` runs the library, with the real outside crates.

What is believed of outside crates stands in the contracts of the functions marked
`#[verifier::external_body]` in `src/`; each says what it claims of which outside function.
