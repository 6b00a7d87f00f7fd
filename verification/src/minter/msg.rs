//! Messages of the minter contract.
use vstd::prelude::*;

use crate::cw721::Metadata;

verus! {

/// The configuration a minter starts with.
#[derive(Debug, PartialEq, Eq)]
pub struct InstantiateMsg {
    /// base_token_uri of NFTs
    pub base_token_uri: String,
    /// number token of NFTs
    pub num_tokens: u32,
    /// max number token of NFTs can be minted a batch
    pub max_tokens_per_batch_mint: u32,
    /// max number token of NFTs can be transferred a batch
    pub max_tokens_per_batch_transfer: u32,
    /// code id of cw721 was deploy before
    pub cw721_code_id: u64,
    /// name of NFTs
    pub name: String,
    /// symbol of NFTs
    pub symbol: String,
    /// royalty percentage can be received
    pub royalty_percentage: Option<u64>,
    /// royalty addresses
    pub royalty_payment_address: Option<String>,
}

/// The calls a minter answers.
#[derive(Debug, PartialEq, Eq)]
pub enum ExecuteMsg {
    /// Mint a new NFT
    Mint { token_id: u32 },
    /// Mint a batch of new NFT
    BatchMint { token_ids: Vec<u32> },
    /// Mint a new NFT for recipient specified
    MintTo { token_id: u32, recipient: String },
    /// Move a token to another account without triggering actions
    TransferNft { recipient: String, token_id: u32 },
    /// Move a batch of tokens to another account without triggering actions
    BatchTransferNft { recipient: String, token_ids: Vec<u32> },
}

/// The queries a minter answers itself; the cw721 queries are passed on.
#[derive(Debug, PartialEq, Eq)]
pub enum QueryMsg {
    GetConfig {},
}

/// The configuration of a minter, as a query returns it.
#[derive(Debug, PartialEq, Eq)]
pub struct ConfigResponse {
    pub owner: String,
    pub cw721_code_id: u64,
    pub cw721_address: Option<String>,
    pub max_tokens: u32,
    pub max_tokens_per_mint: u32,
    pub max_tokens_per_batch_transfer: u32,
    pub name: String,
    pub symbol: String,
    pub base_token_uri: String,
    pub extension: Option<Metadata>,
}

} // verus!
