//! The calls of the factory contract.
use vstd::prelude::*;

use crate::cosmos::{
    copy_string, ContractVersion, CosmosMsg, MessageInfo, Reply, ReplyOn, Response, SubMsg,
    WasmMsg, WasmPayload,
};
use crate::error::ContractError;
use crate::factory::msg::{
    CreateMinterInstantiateMsg, ExecuteMsg, InstantiateMsg, QueryMsg, StateResponse,
};
use crate::factory::state::FactoryState;
use crate::minter::msg::InstantiateMsg as MinterInstantiateMsg;
use crate::reply::{reply_address, reply_carries, reply_contract_address};
use crate::text::{decimal, u64_to_decimal};

verus! {

/// Id of the sub-message that instantiates a minter.
pub const INSTANTIATE_MINTER_REPLY_ID: u64 = 1;

/// Name under which the factory records its version.
pub const CONTRACT_NAME: &'static str = "crates.io:factory";

/// Version the factory records.
pub const CONTRACT_VERSION: &'static str = "0.1.0";

/// The response of a successful instantiation.
pub open spec fn instantiate_response(resp: Response, msg: InstantiateMsg) -> bool {
    &&& resp.messages@.len() == 0
    &&& resp.attrs() == seq![
        ("method"@, "instantiate"@),
        ("contract_name"@, CONTRACT_NAME@),
        ("contract_version"@, CONTRACT_VERSION@),
        ("minter_code_id"@, decimal(msg.minter_code_id as nat)),
        ("cw721_code_id"@, decimal(msg.cw721_code_id as nat)),
    ]
}

/// Sets up a factory with the two code ids, neither of which may be zero.
/// The storage starts empty.
/// A refused message yields no state at all: the version record that the
/// contract writes before its checks is discarded by the chain together with
/// the rest of the failed call, so nothing of it is kept.
pub fn instantiate(_info: &MessageInfo, msg: InstantiateMsg) -> (r: Result<
    (FactoryState, Response),
    ContractError,
>)
    ensures
        msg.minter_code_id == 0 || msg.cw721_code_id == 0 ==> r == Err::<
            (FactoryState, Response),
            ContractError,
        >(ContractError::InvalidID {  }),
        msg.minter_code_id != 0 && msg.cw721_code_id != 0 ==> {
            &&& r matches Ok((s, resp))
            &&& s.wf()
            &&& s.minter_code_id == msg.minter_code_id
            &&& s.cw721_code_id == msg.cw721_code_id
            &&& s.minter_address is None
            &&& s.contract_version.contract@ == CONTRACT_NAME@
            &&& s.contract_version.version@ == CONTRACT_VERSION@
            &&& instantiate_response(resp, msg)
        },
{
    // Check the id is bigger than zero
    if msg.minter_code_id == 0 || msg.cw721_code_id == 0 {
        return Err(ContractError::InvalidID {  });
    }
    let state = FactoryState {
        minter_code_id: msg.minter_code_id,
        cw721_code_id: msg.cw721_code_id,
        minter_address: None,
        contract_version: ContractVersion {
            contract: String::from_str(CONTRACT_NAME),
            version: String::from_str(CONTRACT_VERSION),
        },
    };
    let resp = Response::new().add_attribute("method", String::from_str("instantiate")).add_attribute(
        "contract_name",
        String::from_str(CONTRACT_NAME),
    ).add_attribute("contract_version", String::from_str(CONTRACT_VERSION)).add_attribute(
        "minter_code_id",
        u64_to_decimal(msg.minter_code_id),
    ).add_attribute("cw721_code_id", u64_to_decimal(msg.cw721_code_id));
    assert(resp.attrs() =~= seq![
        ("method"@, "instantiate"@),
        ("contract_name"@, CONTRACT_NAME@),
        ("contract_version"@, CONTRACT_VERSION@),
        ("minter_code_id"@, decimal(msg.minter_code_id as nat)),
        ("cw721_code_id"@, decimal(msg.cw721_code_id as nat)),
    ]);
    Ok((state, resp))
}

/// What replacing a code id does: zero is refused and changes nothing;
/// another id replaces the old one, and the response names it.
pub open spec fn update_outcome(
    old_id: u64,
    new_id: u64,
    r: Result<Response, ContractError>,
    id: u64,
    method: Seq<char>,
) -> bool {
    if id == 0 {
        r == Err::<Response, ContractError>(ContractError::InvalidID {  }) && new_id == old_id
    } else {
        &&& new_id == id
        &&& r matches Ok(resp)
        &&& resp.messages@.len() == 0
        &&& resp.attrs() == seq![("method"@, method), ("minter_Code_ID"@, decimal(id as nat))]
    }
}

/// Replaces the code id of the minter contract.
pub fn update_minter_code_id(state: &mut FactoryState, minter_code_id: u64) -> (r: Result<
    Response,
    ContractError,
>)
    requires
        old(state).wf(),
    ensures
        final(state).wf(),
        final(state).cw721_code_id == old(state).cw721_code_id,
        final(state).minter_address == old(state).minter_address,
        final(state).contract_version == old(state).contract_version,
        update_outcome(
            old(state).minter_code_id,
            final(state).minter_code_id,
            r,
            minter_code_id,
            "update_minter_code_id"@,
        ),
{
    // Check the id is bigger than zero
    if minter_code_id == 0 {
        return Err(ContractError::InvalidID {  });
    }
    state.minter_code_id = minter_code_id;
    let resp = Response::new().add_attribute(
        "method",
        String::from_str("update_minter_code_id"),
    ).add_attribute("minter_Code_ID", u64_to_decimal(minter_code_id));
    assert(resp.attrs() =~= seq![
        ("method"@, "update_minter_code_id"@),
        ("minter_Code_ID"@, decimal(minter_code_id as nat)),
    ]);
    Ok(resp)
}

/// Replaces the code id of the cw721 contract.
pub fn update_cw721_code_id(state: &mut FactoryState, cw721_code_id: u64) -> (r: Result<
    Response,
    ContractError,
>)
    requires
        old(state).wf(),
    ensures
        final(state).wf(),
        final(state).minter_code_id == old(state).minter_code_id,
        final(state).minter_address == old(state).minter_address,
        final(state).contract_version == old(state).contract_version,
        update_outcome(
            old(state).cw721_code_id,
            final(state).cw721_code_id,
            r,
            cw721_code_id,
            "update_cw721_code_id"@,
        ),
{
    // Check the id is bigger than zero
    if cw721_code_id == 0 {
        return Err(ContractError::InvalidID {  });
    }
    state.cw721_code_id = cw721_code_id;
    let resp = Response::new().add_attribute(
        "method",
        String::from_str("update_cw721_code_id"),
    ).add_attribute("minter_Code_ID", u64_to_decimal(cw721_code_id));
    assert(resp.attrs() =~= seq![
        ("method"@, "update_cw721_code_id"@),
        ("minter_Code_ID"@, decimal(cw721_code_id as nat)),
    ]);
    Ok(resp)
}

/// The instantiation message a new minter gets: what the caller asked for,
/// with the factory's cw721 code id.
pub open spec fn minter_instantiate_msg_of(
    msg: CreateMinterInstantiateMsg,
    cw721_code_id: u64,
) -> MinterInstantiateMsg {
    MinterInstantiateMsg {
        base_token_uri: msg.base_token_uri,
        num_tokens: msg.num_tokens,
        max_tokens_per_batch_mint: msg.max_tokens_per_batch_mint,
        max_tokens_per_batch_transfer: msg.max_tokens_per_batch_transfer,
        cw721_code_id,
        name: msg.name,
        symbol: msg.symbol,
        royalty_percentage: msg.royalty_percentage,
        royalty_payment_address: msg.royalty_payment_address,
    }
}

/// The response that creates a minter: the sender becomes its admin, and the
/// factory asks for a reply on success.
pub open spec fn create_minter_response(
    resp: Response,
    sender: Seq<char>,
    msg: CreateMinterInstantiateMsg,
    minter_code_id: u64,
    cw721_code_id: u64,
) -> bool {
    &&& resp.attrs() == seq![
        ("method"@, "instantiate"@),
        ("owner"@, sender),
        ("contract_name"@, CONTRACT_NAME@),
        ("contract_version"@, CONTRACT_VERSION@),
    ]
    &&& resp.messages@.len() == 1
    &&& resp.messages@[0].id == INSTANTIATE_MINTER_REPLY_ID
    &&& resp.messages@[0].gas_limit is None
    &&& resp.messages@[0].reply_on == ReplyOn::Success
    &&& resp.messages@[0].msg matches CosmosMsg::Wasm(
        WasmMsg::Instantiate { admin, code_id, msg: payload, funds, label },
    )
    &&& admin matches Some(a)
    &&& a@ == sender
    &&& code_id == minter_code_id
    &&& funds@.len() == 0
    &&& label@ == "Create minter"@
    &&& payload == WasmPayload::MinterInstantiate(minter_instantiate_msg_of(msg, cw721_code_id))
}

/// The response that instantiates a minter from the given code ids.
fn _execute_create_minter(
    info: &MessageInfo,
    minter_instantiate_msg: CreateMinterInstantiateMsg,
    minter_code_id: u64,
    cw721_code_id: u64,
) -> (r: Response)
    ensures
        create_minter_response(
            r,
            info.sender@,
            minter_instantiate_msg,
            minter_code_id,
            cw721_code_id,
        ),
{
    let CreateMinterInstantiateMsg {
        base_token_uri,
        num_tokens,
        max_tokens_per_batch_mint,
        max_tokens_per_batch_transfer,
        name,
        symbol,
        royalty_percentage,
        royalty_payment_address,
    } = minter_instantiate_msg;
    // Sub-message to instantiate minter contract
    let sub_msg = SubMsg {
        id: INSTANTIATE_MINTER_REPLY_ID,
        msg: CosmosMsg::Wasm(
            WasmMsg::Instantiate {
                admin: Some(copy_string(&info.sender)),
                code_id: minter_code_id,
                msg: WasmPayload::MinterInstantiate(
                    MinterInstantiateMsg {
                        base_token_uri,
                        num_tokens,
                        max_tokens_per_batch_mint,
                        max_tokens_per_batch_transfer,
                        cw721_code_id,
                        name,
                        symbol,
                        royalty_percentage,
                        royalty_payment_address,
                    },
                ),
                funds: Vec::new(),
                label: String::from_str("Create minter"),
            },
        ),
        gas_limit: None,
        reply_on: ReplyOn::Success,
    };
    let resp = Response::new().add_attribute("method", String::from_str("instantiate")).add_attribute(
        "owner",
        copy_string(&info.sender),
    ).add_attribute("contract_name", String::from_str(CONTRACT_NAME)).add_attribute(
        "contract_version",
        String::from_str(CONTRACT_VERSION),
    ).add_submessage(sub_msg);
    assert(resp.attrs() =~= seq![
        ("method"@, "instantiate"@),
        ("owner"@, info.sender@),
        ("contract_name"@, CONTRACT_NAME@),
        ("contract_version"@, CONTRACT_VERSION@),
    ]);
    resp
}

/// Instantiates a minter from the stored code ids; the sender becomes its
/// admin.
pub fn create_minter(
    state: &FactoryState,
    info: &MessageInfo,
    minter_instantiate_msg: CreateMinterInstantiateMsg,
) -> (r: Result<Response, ContractError>)
    ensures
        r matches Ok(resp) && create_minter_response(
            resp,
            info.sender@,
            minter_instantiate_msg,
            state.minter_code_id,
            state.cw721_code_id,
        ),
{
    Ok(
        _execute_create_minter(
            info,
            minter_instantiate_msg,
            state.minter_code_id,
            state.cw721_code_id,
        ),
    )
}

/// What a call of the factory does, for each message.
pub open spec fn execute_outcome(
    old: FactoryState,
    new: FactoryState,
    r: Result<Response, ContractError>,
    info: MessageInfo,
    msg: ExecuteMsg,
) -> bool {
    &&& new.minter_address == old.minter_address
    &&& new.contract_version == old.contract_version
    &&& match msg {
        ExecuteMsg::UpdateMinterCodeId { minter_code_id } => {
            &&& new.cw721_code_id == old.cw721_code_id
            &&& update_outcome(
                old.minter_code_id,
                new.minter_code_id,
                r,
                minter_code_id,
                "update_minter_code_id"@,
            )
        },
        ExecuteMsg::UpdateCw721CodeId { cw721_code_id } => {
            &&& new.minter_code_id == old.minter_code_id
            &&& update_outcome(
                old.cw721_code_id,
                new.cw721_code_id,
                r,
                cw721_code_id,
                "update_cw721_code_id"@,
            )
        },
        ExecuteMsg::CreateMinter { minter_instantiate_msg } => {
            &&& new == old
            &&& r matches Ok(resp)
            &&& create_minter_response(
                resp,
                info.sender@,
                minter_instantiate_msg,
                old.minter_code_id,
                old.cw721_code_id,
            )
        },
    }
}

/// Serves a call of the factory.
pub fn execute(state: &mut FactoryState, info: &MessageInfo, msg: ExecuteMsg) -> (r: Result<
    Response,
    ContractError,
>)
    requires
        old(state).wf(),
    ensures
        final(state).wf(),
        execute_outcome(*old(state), *final(state), r, *info, msg),
{
    match msg {
        ExecuteMsg::UpdateMinterCodeId { minter_code_id } => update_minter_code_id(
            state,
            minter_code_id,
        ),
        ExecuteMsg::UpdateCw721CodeId { cw721_code_id } => update_cw721_code_id(
            state,
            cw721_code_id,
        ),
        ExecuteMsg::CreateMinter { minter_instantiate_msg } => create_minter(
            state,
            info,
            minter_instantiate_msg,
        ),
    }
}

/// The code ids as `GetState` reports them.
pub open spec fn state_response_of(s: FactoryState) -> StateResponse {
    StateResponse { minter_code_id: s.minter_code_id, cw721_code_id: s.cw721_code_id }
}

/// The stored code ids.
fn _query_state(state: &FactoryState) -> (r: StateResponse)
    ensures
        r == state_response_of(*state),
{
    StateResponse { minter_code_id: state.minter_code_id, cw721_code_id: state.cw721_code_id }
}

/// Answers the queries of the factory.
pub fn query(state: &FactoryState, msg: QueryMsg) -> (r: StateResponse)
    ensures
        r == state_response_of(*state),
{
    match msg {
        QueryMsg::GetState {  } => _query_state(state),
    }
}

/// What the reply to a minter instantiation does with the address it
/// reports: without one it fails; with one it records it.
pub open spec fn minter_reply_outcome(
    old: FactoryState,
    new: FactoryState,
    r: Result<Response, ContractError>,
    address: Option<Seq<char>>,
) -> bool {
    match address {
        None => r == Err::<Response, ContractError>(ContractError::InstantiateMinterError {  })
            && new == old,
        Some(a) => {
            &&& r matches Ok(resp)
            &&& resp.messages@.len() == 0
            &&& resp.attrs() == seq![("action"@, "instantiate_minter_reply"@)]
            &&& new.minter_address matches Some(x)
            &&& x@ == a
            &&& new.minter_code_id == old.minter_code_id
            &&& new.cw721_code_id == old.cw721_code_id
            &&& new.contract_version == old.contract_version
        },
    }
}

/// Records the address of the minter that a reply reported, or fails where
/// the reply reported none.
pub fn apply_minter_address(state: &mut FactoryState, address: Option<String>) -> (r: Result<
    Response,
    ContractError,
>)
    requires
        old(state).wf(),
    ensures
        final(state).wf(),
        minter_reply_outcome(*old(state), *final(state), r, address.deep_view()),
{
    match address {
        None => Err(ContractError::InstantiateMinterError {  }),
        Some(a) => {
            state.minter_address = Some(a);
            let resp = Response::new().add_attribute(
                "action",
                String::from_str("instantiate_minter_reply"),
            );
            assert(resp.attrs() =~= seq![("action"@, "instantiate_minter_reply"@)]);
            Ok(resp)
        },
    }
}

/// The chain's answer to a minter instantiation: a reply with another id is
/// refused; otherwise the address the reply reports is recorded.
pub fn reply(state: &mut FactoryState, msg: &Reply) -> (r: Result<Response, ContractError>)
    requires
        old(state).wf(),
    ensures
        final(state).wf(),
        msg.id != INSTANTIATE_MINTER_REPLY_ID ==> r == Err::<Response, ContractError>(
            ContractError::InvalidReplyID {  },
        ) && *final(state) == *old(state),
        msg.id == INSTANTIATE_MINTER_REPLY_ID ==> minter_reply_outcome(
            *old(state),
            *final(state),
            r,
            reply_address(msg.result),
        ),
        forall|address: Seq<char>, payload: Seq<u8>|
            msg.id == INSTANTIATE_MINTER_REPLY_ID && #[trigger] reply_carries(
                msg.result,
                address,
                payload,
            ) ==> r is Ok && final(state).minter_address.deep_view() == Some(address),
{
    if msg.id != INSTANTIATE_MINTER_REPLY_ID {
        return Err(ContractError::InvalidReplyID {  });
    }
    let address = reply_contract_address(&msg.result);
    apply_minter_address(state, address)
}

} // verus!
