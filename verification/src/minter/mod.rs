//! The minter contract: it owns a collection of `max_tokens` token ids and
//! mints each of them at most once through its cw721 contract.
pub mod msg;
pub mod state;
pub mod contract;
pub mod laws;
