//! Laws of the factory that span its calls.
use vstd::prelude::*;

use crate::cosmos::{MessageInfo, Response};
use crate::error::ContractError;
use crate::factory::contract::{
    execute_outcome, state_response_of,
};
use crate::factory::msg::{ExecuteMsg, InstantiateMsg, StateResponse};
use crate::factory::state::FactoryState;

verus! {

/// A factory answers `GetState` with the code ids it was instantiated with.
pub proof fn law_query_after_instantiate(msg: InstantiateMsg, s: FactoryState)
    requires
        s.minter_code_id == msg.minter_code_id,
        s.cw721_code_id == msg.cw721_code_id,
    ensures
        state_response_of(s) == (StateResponse {
            minter_code_id: msg.minter_code_id,
            cw721_code_id: msg.cw721_code_id,
        }),
{
}

/// After a successful update of the minter code id, `GetState` reports the
/// new id and the cw721 code id it had before.
pub proof fn law_query_after_minter_update(
    old: FactoryState,
    new: FactoryState,
    r: Result<Response, ContractError>,
    info: MessageInfo,
    id: u64,
)
    requires
        execute_outcome(old, new, r, info, ExecuteMsg::UpdateMinterCodeId { minter_code_id: id }),
        r is Ok,
    ensures
        state_response_of(new) == (StateResponse {
            minter_code_id: id,
            cw721_code_id: old.cw721_code_id,
        }),
{
}

/// After a successful update of the cw721 code id, `GetState` reports the
/// new id and the minter code id it had before.
pub proof fn law_query_after_cw721_update(
    old: FactoryState,
    new: FactoryState,
    r: Result<Response, ContractError>,
    info: MessageInfo,
    id: u64,
)
    requires
        execute_outcome(old, new, r, info, ExecuteMsg::UpdateCw721CodeId { cw721_code_id: id }),
        r is Ok,
    ensures
        state_response_of(new) == (StateResponse {
            minter_code_id: old.minter_code_id,
            cw721_code_id: id,
        }),
{
}

/// An update to a code id of zero is refused and changes nothing.
pub proof fn law_zero_code_id_refused(
    old: FactoryState,
    new: FactoryState,
    r: Result<Response, ContractError>,
    info: MessageInfo,
    msg: ExecuteMsg,
)
    requires
        execute_outcome(old, new, r, info, msg),
        msg matches ExecuteMsg::UpdateMinterCodeId { minter_code_id } ==> minter_code_id == 0,
        msg matches ExecuteMsg::UpdateCw721CodeId { cw721_code_id } ==> cw721_code_id == 0,
        !(msg is CreateMinter),
    ensures
        r == Err::<Response, ContractError>(ContractError::InvalidID {  }),
        new == old,
{
}

/// No call of the factory changes its version or stores a minter address;
/// only the reply to a minter instantiation does.
pub proof fn law_calls_keep_version_and_minter(
    old: FactoryState,
    new: FactoryState,
    r: Result<Response, ContractError>,
    info: MessageInfo,
    msg: ExecuteMsg,
)
    requires
        execute_outcome(old, new, r, info, msg),
    ensures
        new.contract_version == old.contract_version,
        new.minter_address == old.minter_address,
{
}

} // verus!
