//! Messages of the factory contract.
use vstd::prelude::*;

verus! {

/// The code ids a factory starts with.
#[derive(Debug, PartialEq, Eq, Clone, Copy)]
pub struct InstantiateMsg {
    /// code id of minter contract was stored
    pub minter_code_id: u64,
    /// code id of cw721 contract was stored
    pub cw721_code_id: u64,
}

/// What a new minter is instantiated with; the factory adds the cw721 code id.
#[derive(Debug, PartialEq, Eq)]
pub struct CreateMinterInstantiateMsg {
    pub base_token_uri: String,
    pub num_tokens: u32,
    pub max_tokens_per_batch_mint: u32,
    pub max_tokens_per_batch_transfer: u32,
    pub name: String,
    pub symbol: String,
    pub royalty_percentage: Option<u64>,
    pub royalty_payment_address: Option<String>,
}

/// The calls a factory answers.
#[derive(Debug, PartialEq, Eq)]
pub enum ExecuteMsg {
    /// update code id of minter contract was stored
    UpdateMinterCodeId { minter_code_id: u64 },
    /// update code id of cw721 contract was stored
    UpdateCw721CodeId { cw721_code_id: u64 },
    /// call minter contract to instantiate a minter contract
    CreateMinter { minter_instantiate_msg: CreateMinterInstantiateMsg },
}

/// The queries a factory answers.
#[derive(Debug, PartialEq, Eq, Clone, Copy)]
pub enum QueryMsg {
    /// GetState returns the current state as a json-encoded number
    GetState {},
}

/// The code ids a factory holds.
#[derive(Debug, PartialEq, Eq, Clone, Copy)]
pub struct StateResponse {
    pub minter_code_id: u64,
    pub cw721_code_id: u64,
}

} // verus!
