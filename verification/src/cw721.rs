//! The messages the contracts send to a cw721 contract, and the on-chain
//! metadata that travels with each token.
use vstd::prelude::*;

verus! {

/// A trait of a token, as in ERC721 metadata.
#[derive(Debug, PartialEq, Eq)]
pub struct Trait {
    pub display_type: Option<String>,
    pub trait_type: String,
    pub value: String,
}

/// On-chain metadata of a token, with the royalty terms of the collection.
#[derive(Debug, PartialEq, Eq)]
pub struct Metadata {
    pub image: Option<String>,
    pub image_data: Option<String>,
    pub external_url: Option<String>,
    pub description: Option<String>,
    pub name: Option<String>,
    pub attributes: Option<Vec<Trait>>,
    pub background_color: Option<String>,
    pub animation_url: Option<String>,
    pub youtube_url: Option<String>,
    pub royalty_percentage: Option<u64>,
    pub royalty_payment_address: Option<String>,
}

/// Metadata that carries the royalty terms and nothing else.
pub open spec fn royalty_metadata(
    royalty_percentage: Option<u64>,
    royalty_payment_address: Option<String>,
) -> Metadata {
    Metadata {
        image: None,
        image_data: None,
        external_url: None,
        description: None,
        name: None,
        attributes: None,
        background_color: None,
        animation_url: None,
        youtube_url: None,
        royalty_percentage,
        royalty_payment_address,
    }
}

/// Builds the metadata that carries the royalty terms and nothing else.
pub fn new_royalty_metadata(
    royalty_percentage: Option<u64>,
    royalty_payment_address: Option<String>,
) -> (m: Metadata)
    ensures
        m == royalty_metadata(royalty_percentage, royalty_payment_address),
{
    Metadata {
        image: None,
        image_data: None,
        external_url: None,
        description: None,
        name: None,
        attributes: None,
        background_color: None,
        animation_url: None,
        youtube_url: None,
        royalty_percentage,
        royalty_payment_address,
    }
}

/// Instantiation of a cw721 contract.
#[derive(Debug, PartialEq, Eq)]
pub struct Cw721InstantiateMsg {
    pub name: String,
    pub symbol: String,
    pub minter: String,
}

/// Creation of one token in a cw721 contract.
#[derive(Debug, PartialEq, Eq)]
pub struct MintMsg {
    pub token_id: String,
    pub owner: String,
    pub token_uri: Option<String>,
    pub extension: Option<Metadata>,
}

/// The calls the contracts make on a cw721 contract.
#[derive(Debug, PartialEq, Eq)]
pub enum Cw721ExecuteMsg {
    Mint(MintMsg),
    TransferNft { recipient: String, token_id: String },
}

} // verus!
