# artaverse

Two CosmWasm contracts for an NFT collection, with their logic verified in Verus.

* `src/factory` — the factory keeps the code ids of the minter and cw721
  contracts (never zero), instantiates minters from them and records the
  address of the minter the chain reports back.
* `src/minter` — the minter owns the token ids `1..=num_tokens`, mints each at
  most once (singly, to a named recipient, or in bounded batches) through its
  cw721 contract, forwards transfers, and reports its configuration. A batch
  takes its ids one by one; where one fails, the call fails, and the ids taken
  before it are gone from the state the library returns (the chain discards
  that state with the failed call, and `app/` stores nothing on an error).
* `src/cosmos.rs`, `src/cw721.rs` — the chain-facing values (calls, responses,
  sub-messages, replies) and the cw721 messages, as plain data.
* `src/reply.rs` — the address of an instantiated contract, read from a reply
  with `cw_utils`.
* `src/text.rs` — decimal numbers, list rendering and the URI-scheme check.

Each contract call is a function from the stored state and the message to the
new state and the response; `*/laws.rs` state what holds across calls.
`app/` holds the entry points: they read and write contract storage, validate
addresses, serialise messages and pass the cw721 queries to `cw721-base`.
