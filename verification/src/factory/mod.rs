//! The factory contract: it keeps the code ids of the minter and cw721
//! contracts, and instantiates minters from them.
pub mod contract;
pub mod msg;
pub mod state;
pub mod laws;
