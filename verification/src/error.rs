//! The errors the contracts answer with.
use vstd::prelude::*;

verus! {

/// Errors of the chain's standard library that the contracts pass on.
#[derive(Debug, PartialEq, Eq)]
pub enum StdError {
    /// A value the contract expected in its storage is not there.
    NotFound { kind: String },
    /// Any other failure, with its message.
    GenericErr { msg: String },
}

/// Every way a call of the contracts can fail.
#[derive(Debug, PartialEq, Eq)]
pub enum ContractError {
    Std(StdError),
    Unauthorized {},
    CustomError { val: String },
    InvalidNumTokens { max: u32, min: u32 },
    InvalidMaxTokensPerBatchMint { max: u32, min: u32 },
    InvalidMaxTokensPerBatchTransfer { max: u32, min: u32 },
    InvalidBaseTokenURI {},
    InvalidTokenId {},
    TokenIdAlreadySold { token_id: u32 },
    SoldOut {},
    InstantiateCW721Error {},
    InvalidReplyID {},
    InvalidID {},
    InstantiateMinterError {},
}

} // verus!
