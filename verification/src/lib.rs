//! Verified core of the Artaverse NFT contracts: a factory that manages the
//! code ids of the contracts it deploys and instantiates minters, and a minter
//! that hands out a fixed collection of token ids through a cw721 contract.
pub mod cosmos;
pub mod cw721;
pub mod error;
pub mod factory;
pub mod minter;
pub mod msg;
pub mod reply;
mod text;

pub use text::{
    debug_list, decimal, digit_char, has_uri_scheme, join_decimals, starts_with_uri_scheme,
    u32_list_debug, u64_to_decimal,
};
