//! Messages of the collection as a single contract: instantiation with the
//! cw721 settings inline, minting, and a counter query.
use vstd::prelude::*;

use crate::cw721::Cw721InstantiateMsg;

verus! {

/// The settings of a collection, cw721 instantiation included.
#[derive(Debug, PartialEq, Eq)]
pub struct InstantiateMsg {
    pub base_token_uri: String,
    pub num_tokens: u32,
    pub cw721_code_id: u64,
    pub cw721_instantiate_msg: Cw721InstantiateMsg,
    pub royalty_percentage: Option<u64>,
    pub royalty_payment_address: Option<String>,
}

/// Minting to the sender or to a named recipient.
#[derive(Debug, PartialEq, Eq)]
pub enum ExecuteMsg {
    Mint { token_id: u32 },
    MintTo { token_id: u32, recipient: String },
}

/// The counter query.
#[derive(Debug, PartialEq, Eq, Clone, Copy)]
pub enum QueryMsg {
    // GetCount returns the current count as a json-encoded number
    GetCount {},
}

/// The answer to the counter query.
#[derive(Debug, PartialEq, Eq, Clone, Copy)]
pub struct CountResponse {
    pub count: i32,
}

} // verus!
