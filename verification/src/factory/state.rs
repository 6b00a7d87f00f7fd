//! What a factory keeps between calls.
use vstd::prelude::*;

use crate::cosmos::ContractVersion;

verus! {

/// The storage of a factory: the code ids it instantiates from, the address
/// of the last minter it created, and its version.
#[derive(Debug, PartialEq, Eq)]
pub struct FactoryState {
    pub minter_code_id: u64,
    pub cw721_code_id: u64,
    pub minter_address: Option<String>,
    pub contract_version: ContractVersion,
}

impl FactoryState {
    /// The invariant every call keeps: neither code id is zero.
    pub open spec fn wf(&self) -> bool {
        self.minter_code_id != 0 && self.cw721_code_id != 0
    }

    /// Whether the state keeps the invariant; a state read back from storage
    /// is checked with it before a call.
    pub fn is_well_formed(&self) -> (b: bool)
        ensures
            b == self.wf(),
    {
        self.minter_code_id != 0 && self.cw721_code_id != 0
    }
}

} // verus!
