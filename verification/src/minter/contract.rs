//! The calls of the minter contract, each from the state it finds to the
//! state it leaves and the response it returns.
use vstd::prelude::*;

use crate::cosmos::{
    copy_coins, copy_opt_string, copy_string, Coin, ContractVersion, CosmosMsg, MessageInfo,
    Reply, ReplyOn, Response, SubMsg, WasmMsg, WasmPayload,
};
use crate::cw721::{
    new_royalty_metadata, royalty_metadata, Cw721ExecuteMsg, Cw721InstantiateMsg, MintMsg,
};
use crate::error::ContractError;
use crate::minter::msg::{ConfigResponse, ExecuteMsg, InstantiateMsg, QueryMsg};
use crate::minter::state::{
    copy_ids, find_token, lemma_remove_sorted, strictly_increasing, within_limit, Config, MinterState,
    MAX_TOKEN_LIMIT, MAX_TOKEN_PER_BATCH_LIMIT,
};
use crate::reply::{reply_address, reply_carries, reply_contract_address};
use crate::text::{
    debug_list, decimal, has_uri_scheme, starts_with_uri_scheme, u32_list_debug, u64_to_decimal,
};

verus! {

/// Name under which the minter records its version.
pub const CONTRACT_NAME: &'static str = "crates.io:artaverse-contracts";

/// Version the minter records.
pub const CONTRACT_VERSION: &'static str = "0.1.0";

/// Id of the sub-message that instantiates the cw721 contract.
pub const INSTANTIATE_CW721_REPLY_ID: u64 = 1;

/// Token ids as the cw721 queries list them.
#[derive(Debug, PartialEq, Eq)]
pub struct TokensResponse {
    /// Contains all token_ids in lexicographical ordering
    /// If there are more than `limit`, use `start_from` in future queries
    /// to achieve pagination.
    pub tokens: Vec<String>,
}

// ----------------------------------------------------------------------------
// Instantiation

/// Which error, if any, instantiation answers a message with: the collection
/// and both batch bounds must lie in `1..=10000`, and the base token URI must
/// start with a URI scheme; the first failing check decides.
pub open spec fn instantiate_check(msg: InstantiateMsg) -> Result<(), ContractError> {
    if !within_limit(msg.num_tokens, MAX_TOKEN_LIMIT) {
        Err(ContractError::InvalidNumTokens { max: MAX_TOKEN_LIMIT, min: 1 })
    } else if !within_limit(msg.max_tokens_per_batch_mint, MAX_TOKEN_PER_BATCH_LIMIT) {
        Err(ContractError::InvalidMaxTokensPerBatchMint { max: MAX_TOKEN_PER_BATCH_LIMIT, min: 1 })
    } else if !within_limit(msg.max_tokens_per_batch_transfer, MAX_TOKEN_PER_BATCH_LIMIT) {
        Err(
            ContractError::InvalidMaxTokensPerBatchTransfer {
                max: MAX_TOKEN_PER_BATCH_LIMIT,
                min: 1,
            },
        )
    } else if !has_uri_scheme(msg.base_token_uri@) {
        Err(ContractError::InvalidBaseTokenURI {  })
    } else {
        Ok(())
    }
}

/// The configuration instantiation stores.
pub open spec fn config_of(owner: String, msg: InstantiateMsg) -> Config {
    Config {
        owner,
        cw721_code_id: msg.cw721_code_id,
        cw721_address: None,
        name: msg.name,
        symbol: msg.symbol,
        base_token_uri: msg.base_token_uri,
        max_tokens: msg.num_tokens,
        max_tokens_per_batch_mint: msg.max_tokens_per_batch_mint,
        max_tokens_per_batch_transfer: msg.max_tokens_per_batch_transfer,
        royalty_percentage: msg.royalty_percentage,
        royalty_payment_address: msg.royalty_payment_address,
    }
}

/// The token ids `1..=n`.
pub open spec fn first_ids(n: u32) -> Set<u32> {
    Set::new(|t: u32| 1 <= t && t <= n)
}

/// The sub-message that instantiates the cw721 contract of the collection,
/// with the minter as its minter, and asks for a reply on success.
pub open spec fn cw721_instantiate_submsg(
    m: SubMsg,
    sender: Seq<char>,
    msg: InstantiateMsg,
    contract_address: Seq<char>,
) -> bool {
    &&& m.id == INSTANTIATE_CW721_REPLY_ID
    &&& m.gas_limit is None
    &&& m.reply_on == ReplyOn::Success
    &&& m.msg matches CosmosMsg::Wasm(
        WasmMsg::Instantiate { admin, code_id, msg: payload, funds, label },
    )
    &&& admin matches Some(a)
    &&& a@ == sender
    &&& code_id == msg.cw721_code_id
    &&& funds@.len() == 0
    &&& label@ == "Check CW721"@
    &&& payload matches WasmPayload::Cw721Instantiate(c)
    &&& c.name == msg.name
    &&& c.symbol == msg.symbol
    &&& c.minter@ == contract_address
}

/// The response of a successful instantiation.
pub open spec fn instantiate_response(
    resp: Response,
    sender: Seq<char>,
    msg: InstantiateMsg,
    contract_address: Seq<char>,
) -> bool {
    &&& resp.attrs() == seq![
        ("method"@, "instantiate"@),
        ("owner"@, sender),
        ("contract_name"@, CONTRACT_NAME@),
        ("contract_version"@, CONTRACT_VERSION@),
    ]
    &&& resp.messages@.len() == 1
    &&& cw721_instantiate_submsg(resp.messages@[0], sender, msg, contract_address)
}

/// What instantiation answers a message with: the error of the first check
/// that fails, or a fresh minter over the ids `1..=num_tokens` with the
/// configuration of the message, and the request for its cw721 contract.
pub open spec fn instantiate_outcome(
    contract_address: Seq<char>,
    info: MessageInfo,
    msg: InstantiateMsg,
    r: Result<(MinterState, Response), ContractError>,
) -> bool {
    match instantiate_check(msg) {
        Err(e) => r == Err::<(MinterState, Response), ContractError>(e),
        Ok(_) => {
            &&& r matches Ok((s, resp))
            &&& s.wf()
            &&& s.config == config_of(info.sender, msg)
            &&& s.mintable() == first_ids(msg.num_tokens)
            &&& s.mintable_num_tokens == msg.num_tokens
            &&& s.cw721_address is None
            &&& s.contract_version.contract@ == CONTRACT_NAME@
            &&& s.contract_version.version@ == CONTRACT_VERSION@
            &&& instantiate_response(resp, info.sender@, msg, contract_address)
        },
    }
}

/// Sets up a collection of `num_tokens` tokens, all of them mintable, and
/// asks the chain to instantiate its cw721 contract; `contract_address` is
/// the minter's own address. The storage starts empty.
/// A refused message yields no state at all: the version record that the
/// contract writes before its checks is discarded by the chain together with
/// the rest of the failed call, so nothing of it is kept.
pub fn instantiate(contract_address: &String, info: &MessageInfo, msg: InstantiateMsg) -> (r:
    Result<(MinterState, Response), ContractError>)
    ensures
        instantiate_outcome(contract_address@, *info, msg, r),
{
    if msg.num_tokens == 0 || msg.num_tokens > MAX_TOKEN_LIMIT {
        return Err(ContractError::InvalidNumTokens { max: MAX_TOKEN_LIMIT, min: 1 });
    }
    if msg.max_tokens_per_batch_mint == 0 || msg.max_tokens_per_batch_mint
        > MAX_TOKEN_PER_BATCH_LIMIT {
        return Err(
            ContractError::InvalidMaxTokensPerBatchMint { max: MAX_TOKEN_PER_BATCH_LIMIT, min: 1 },
        );
    }
    if msg.max_tokens_per_batch_transfer == 0 || msg.max_tokens_per_batch_transfer
        > MAX_TOKEN_PER_BATCH_LIMIT {
        return Err(
            ContractError::InvalidMaxTokensPerBatchTransfer {
                max: MAX_TOKEN_PER_BATCH_LIMIT,
                min: 1,
            },
        );
    }
    if !starts_with_uri_scheme(&msg.base_token_uri) {
        return Err(ContractError::InvalidBaseTokenURI {  });
    }
    let ghost m = msg;
    let InstantiateMsg {
        base_token_uri,
        num_tokens,
        max_tokens_per_batch_mint,
        max_tokens_per_batch_transfer,
        cw721_code_id,
        name,
        symbol,
        royalty_percentage,
        royalty_payment_address,
    } = msg;
    let cw721_msg = Cw721InstantiateMsg {
        name: copy_string(&name),
        symbol: copy_string(&symbol),
        minter: copy_string(contract_address),
    };
    let config = Config {
        owner: copy_string(&info.sender),
        cw721_code_id,
        cw721_address: None,
        name,
        symbol,
        base_token_uri,
        max_tokens: num_tokens,
        max_tokens_per_batch_mint,
        max_tokens_per_batch_transfer,
        royalty_percentage,
        royalty_payment_address,
    };

    // Every token of the collection starts out mintable.
    let mut ids: Vec<u32> = Vec::new();
    let mut token_id: u32 = 1;
    while token_id <= num_tokens
        invariant
            1 <= token_id <= num_tokens + 1,
            num_tokens <= MAX_TOKEN_LIMIT,
            ids@.len() == token_id - 1,
            forall|j: int| 0 <= j < ids@.len() ==> #[trigger] ids@[j] == j + 1,
        decreases num_tokens + 1 - token_id,
    {
        ids.push(token_id);
        token_id += 1;
    }
    assert forall|x: u32| ids@.to_set().contains(x) <==> first_ids(num_tokens).contains(x) by {
        if 1 <= x && x <= num_tokens {
            assert(ids@[x - 1] == x);
        }
    }
    assert(ids@.to_set() =~= first_ids(num_tokens));

    let state = MinterState {
        config,
        mintable_token_ids: ids,
        mintable_num_tokens: num_tokens,
        cw721_address: None,
        contract_version: ContractVersion {
            contract: String::from_str(CONTRACT_NAME),
            version: String::from_str(CONTRACT_VERSION),
        },
    };

    let sub_msg = SubMsg {
        id: INSTANTIATE_CW721_REPLY_ID,
        msg: CosmosMsg::Wasm(
            WasmMsg::Instantiate {
                admin: Some(copy_string(&info.sender)),
                code_id: cw721_code_id,
                msg: WasmPayload::Cw721Instantiate(cw721_msg),
                funds: Vec::new(),
                label: String::from_str("Check CW721"),
            },
        ),
        gas_limit: None,
        reply_on: ReplyOn::Success,
    };
    let resp = Response::new().add_attribute("method", String::from_str("instantiate")).add_attribute(
        "owner",
        copy_string(&info.sender),
    ).add_attribute("contract_name", String::from_str(CONTRACT_NAME)).add_attribute(
        "contract_version",
        String::from_str(CONTRACT_VERSION),
    ).add_submessage(sub_msg);
    assert(resp.attrs() =~= seq![
        ("method"@, "instantiate"@),
        ("owner"@, info.sender@),
        ("contract_name"@, CONTRACT_NAME@),
        ("contract_version"@, CONTRACT_VERSION@),
    ]);
    Ok((state, resp))
}

// ----------------------------------------------------------------------------
// Queries

/// The configuration as `GetConfig` reports it, royalty terms as metadata.
pub open spec fn config_response_of(c: Config) -> ConfigResponse {
    ConfigResponse {
        owner: c.owner,
        cw721_code_id: c.cw721_code_id,
        cw721_address: c.cw721_address,
        max_tokens: c.max_tokens,
        max_tokens_per_mint: c.max_tokens_per_batch_mint,
        max_tokens_per_batch_transfer: c.max_tokens_per_batch_transfer,
        name: c.name,
        symbol: c.symbol,
        base_token_uri: c.base_token_uri,
        extension: Some(royalty_metadata(c.royalty_percentage, c.royalty_payment_address)),
    }
}

/// The stored configuration.
pub fn query_config(state: &MinterState) -> (r: ConfigResponse)
    ensures
        r == config_response_of(state.config),
{
    let c = &state.config;
    ConfigResponse {
        owner: copy_string(&c.owner),
        cw721_code_id: c.cw721_code_id,
        cw721_address: copy_opt_string(&c.cw721_address),
        max_tokens: c.max_tokens,
        max_tokens_per_mint: c.max_tokens_per_batch_mint,
        max_tokens_per_batch_transfer: c.max_tokens_per_batch_transfer,
        name: copy_string(&c.name),
        symbol: copy_string(&c.symbol),
        base_token_uri: copy_string(&c.base_token_uri),
        extension: Some(
            new_royalty_metadata(c.royalty_percentage, copy_opt_string(&c.royalty_payment_address)),
        ),
    }
}

/// Answers the minter's own queries; the cw721 queries are answered by the
/// cw721 library over the same storage.
pub fn query(state: &MinterState, msg: QueryMsg) -> (r: ConfigResponse)
    ensures
        r == config_response_of(state.config),
{
    match msg {
        QueryMsg::GetConfig {  } => query_config(state),
    }
}

// ----------------------------------------------------------------------------
// Reply of the cw721 instantiation

/// Everything of the configuration but the cw721 address is the same.
pub open spec fn same_but_cw721_address(old: Config, new: Config) -> bool {
    &&& new.owner == old.owner
    &&& new.cw721_code_id == old.cw721_code_id
    &&& new.name == old.name
    &&& new.symbol == old.symbol
    &&& new.base_token_uri == old.base_token_uri
    &&& new.max_tokens == old.max_tokens
    &&& new.max_tokens_per_batch_mint == old.max_tokens_per_batch_mint
    &&& new.max_tokens_per_batch_transfer == old.max_tokens_per_batch_transfer
    &&& new.royalty_percentage == old.royalty_percentage
    &&& new.royalty_payment_address == old.royalty_payment_address
}

/// What the reply to the cw721 instantiation does with the address it
/// reports: without one it fails; with one it records it, both in the
/// configuration and on its own.
pub open spec fn cw721_reply_outcome(
    old: MinterState,
    new: MinterState,
    r: Result<Response, ContractError>,
    address: Option<Seq<char>>,
) -> bool {
    match address {
        None => r == Err::<Response, ContractError>(ContractError::InstantiateCW721Error {  })
            && new == old,
        Some(a) => {
            &&& r matches Ok(resp)
            &&& resp.messages@.len() == 0
            &&& resp.attrs() == seq![("action"@, "instantiate_cw721_reply"@)]
            &&& new.config.cw721_address matches Some(x)
            &&& x@ == a
            &&& new.cw721_address matches Some(y)
            &&& y@ == a
            &&& same_but_cw721_address(old.config, new.config)
            &&& new.mintable_token_ids == old.mintable_token_ids
            &&& new.mintable_num_tokens == old.mintable_num_tokens
            &&& new.contract_version == old.contract_version
        },
    }
}

/// Records the address of the cw721 contract that a reply reported, or fails
/// where the reply reported none.
pub fn apply_cw721_address(state: &mut MinterState, address: Option<String>) -> (r: Result<
    Response,
    ContractError,
>)
    requires
        old(state).wf(),
    ensures
        final(state).wf(),
        cw721_reply_outcome(*old(state), *final(state), r, address.deep_view()),
{
    match address {
        None => Err(ContractError::InstantiateCW721Error {  }),
        Some(a) => {
            state.config.cw721_address = Some(copy_string(&a));
            state.cw721_address = Some(a);
            let resp = Response::new().add_attribute(
                "action",
                String::from_str("instantiate_cw721_reply"),
            );
            assert(resp.attrs() =~= seq![("action"@, "instantiate_cw721_reply"@)]);
            Ok(resp)
        },
    }
}

/// The chain's answer to the cw721 instantiation: a reply with another id is
/// refused; otherwise the address the reply reports is recorded.
pub fn reply(state: &mut MinterState, msg: &Reply) -> (r: Result<Response, ContractError>)
    requires
        old(state).wf(),
    ensures
        final(state).wf(),
        msg.id != INSTANTIATE_CW721_REPLY_ID ==> r == Err::<Response, ContractError>(
            ContractError::InvalidReplyID {  },
        ) && *final(state) == *old(state),
        msg.id == INSTANTIATE_CW721_REPLY_ID ==> cw721_reply_outcome(
            *old(state),
            *final(state),
            r,
            reply_address(msg.result),
        ),
        forall|address: Seq<char>, payload: Seq<u8>|
            msg.id == INSTANTIATE_CW721_REPLY_ID && #[trigger] reply_carries(
                msg.result,
                address,
                payload,
            ) ==> r is Ok && final(state).config.cw721_address.deep_view() == Some(address)
                && final(state).cw721_address.deep_view() == Some(address),
{
    if msg.id != INSTANTIATE_CW721_REPLY_ID {
        return Err(ContractError::InvalidReplyID {  });
    }
    let address = reply_contract_address(&msg.result);
    apply_cw721_address(state, address)
}


// ----------------------------------------------------------------------------
// Minting one token

/// Which error, if any, minting `token_id` meets: the id must belong to the
/// collection, and must not have been minted yet.
pub open spec fn mint_check(mintable: Set<u32>, max_tokens: u32, token_id: u32) -> Result<
    (),
    ContractError,
> {
    if token_id == 0 || token_id > max_tokens {
        Err(ContractError::InvalidTokenId {  })
    } else if !mintable.contains(token_id) {
        Err(ContractError::TokenIdAlreadySold { token_id })
    } else {
        Ok(())
    }
}

/// The URI of a token: the base URI, a slash, and the token id.
pub open spec fn token_uri(config: Config, token_id: u32) -> Seq<char> {
    config.base_token_uri@ + "/"@ + decimal(token_id as nat)
}

/// The call of the cw721 contract that mints `token_id` to `recipient`, with
/// the token URI and the royalty terms, passing on the funds of the call.
pub open spec fn mint_cosmos_msg(
    m: CosmosMsg,
    config: Config,
    recipient: Seq<char>,
    token_id: u32,
    funds: Seq<Coin>,
) -> bool {
    &&& m matches CosmosMsg::Wasm(WasmMsg::Execute { contract_addr, msg, funds: f })
    &&& config.cw721_address == Some(contract_addr)
    &&& f@ == funds
    &&& msg matches WasmPayload::Cw721Execute(Cw721ExecuteMsg::Mint(mm))
    &&& mm.token_id@ == decimal(token_id as nat)
    &&& mm.owner@ == recipient
    &&& mm.token_uri matches Some(u)
    &&& u@ == token_uri(config, token_id)
    &&& mm.extension == Some(
        royalty_metadata(config.royalty_percentage, config.royalty_payment_address),
    )
}

/// A sub-message that carries the mint of `token_id` and wants no reply.
pub open spec fn mint_submsg(
    m: SubMsg,
    config: Config,
    recipient: Seq<char>,
    token_id: u32,
    funds: Seq<Coin>,
) -> bool {
    &&& m.id == 0
    &&& m.gas_limit is None
    &&& m.reply_on == ReplyOn::Never
    &&& mint_cosmos_msg(m.msg, config, recipient, token_id, funds)
}

/// The configuration, the cw721 address and the version are kept.
pub open spec fn unchanged_but_mintable(old: MinterState, new: MinterState) -> bool {
    &&& new.config == old.config
    &&& new.cw721_address == old.cw721_address
    &&& new.contract_version == old.contract_version
}

/// A successful mint of `token_id`: the id leaves the mintable set, the count
/// drops by one, and the response carries the cw721 mint.
pub open spec fn minted_one(
    old: MinterState,
    new: MinterState,
    r: Result<Response, ContractError>,
    sender: Seq<char>,
    recipient: Seq<char>,
    token_id: u32,
    funds: Seq<Coin>,
) -> bool {
    &&& r matches Ok(resp)
    &&& unchanged_but_mintable(old, new)
    &&& new.mintable() == old.mintable().remove(token_id)
    &&& new.mintable_num_tokens == old.mintable_num_tokens - 1
    &&& resp.attrs() == seq![
        ("sender"@, sender),
        ("recipient"@, recipient),
        ("token_id"@, decimal(token_id as nat)),
    ]
    &&& resp.messages@.len() == 1
    &&& mint_submsg(resp.messages@[0], old.config, recipient, token_id, funds)
}

/// What minting `token_id` to `recipient` does: an error leaves the state as
/// it was; otherwise the token is minted.
pub open spec fn mint_outcome(
    old: MinterState,
    new: MinterState,
    r: Result<Response, ContractError>,
    sender: Seq<char>,
    recipient: Seq<char>,
    token_id: u32,
    funds: Seq<Coin>,
) -> bool {
    match mint_check(old.mintable(), old.config.max_tokens, token_id) {
        Err(e) => r == Err::<Response, ContractError>(e) && new == old,
        Ok(_) => minted_one(old, new, r, sender, recipient, token_id, funds),
    }
}

/// Minting `token_id` reaches the cw721 contract, whose address must then be
/// known.
pub open spec fn mint_needs_cw721(s: MinterState, token_id: u32) -> bool {
    mint_check(s.mintable(), s.config.max_tokens, token_id) is Ok
}

/// Which token a mint takes: the one asked for, if it can be minted, or else
/// the smallest mintable one.
pub open spec fn mint_target(s: MinterState, token_id: Option<u32>) -> Result<u32, ContractError> {
    match token_id {
        Some(t) => match mint_check(s.mintable(), s.config.max_tokens, t) {
            Err(e) => Err(e),
            Ok(_) => Ok(t),
        },
        None => if s.mintable_token_ids@.len() == 0 {
            Err(ContractError::SoldOut {  })
        } else {
            Ok(s.mintable_token_ids@[0])
        },
    }
}

/// The recipient named, or else the sender.
pub open spec fn recipient_or_sender(recipient: Option<String>, sender: String) -> Seq<char> {
    match recipient {
        Some(a) => a@,
        None => sender@,
    }
}

/// The cw721 call that mints `token_id` to `recipient_addr`.
fn _create_cw721_mint(
    info: &MessageInfo,
    config: &Config,
    recipient_addr: &String,
    mintable_token_id: u32,
) -> (r: CosmosMsg)
    requires
        config.cw721_address is Some,
    ensures
        mint_cosmos_msg(r, *config, recipient_addr@, mintable_token_id, info.funds@),
{
    let id_text = u64_to_decimal(mintable_token_id as u64);
    let mut uri = copy_string(&config.base_token_uri);
    uri.append("/");
    uri.append(id_text.as_str());
    let mint_msg = Cw721ExecuteMsg::Mint(
        MintMsg {
            token_id: id_text,
            owner: copy_string(recipient_addr),
            token_uri: Some(uri),
            extension: Some(
                new_royalty_metadata(
                    config.royalty_percentage,
                    copy_opt_string(&config.royalty_payment_address),
                ),
            ),
        },
    );
    let contract_addr = match &config.cw721_address {
        Some(a) => copy_string(a),
        None => { return unreached() },
    };
    CosmosMsg::Wasm(
        WasmMsg::Execute {
            contract_addr,
            msg: WasmPayload::Cw721Execute(mint_msg),
            funds: copy_coins(&info.funds),
        },
    )
}

/// Takes the id at `index` out of the mintable ids.
fn take_mintable(state: &mut MinterState, index: usize)
    requires
        old(state).wf(),
        index < old(state).mintable_token_ids@.len(),
    ensures
        final(state).wf(),
        unchanged_but_mintable(*old(state), *final(state)),
        final(state).mintable() == old(state).mintable().remove(
            old(state).mintable_token_ids@[index as int],
        ),
        final(state).mintable_num_tokens == old(state).mintable_num_tokens - 1,
{
    proof {
        lemma_remove_sorted(state.mintable_token_ids@, index as int);
    }
    state.mintable_token_ids.remove(index);
    state.mintable_num_tokens = state.mintable_num_tokens - 1;
}

/// Mints one token to `recipient` (the sender where none is named): the
/// token asked for, or the smallest mintable one where none is asked for.
pub fn _execute_mint(
    state: &mut MinterState,
    info: &MessageInfo,
    recipient: Option<String>,
    token_id: Option<u32>,
) -> (r: Result<Response, ContractError>)
    requires
        old(state).wf(),
        old(state).config.cw721_address is Some || mint_target(*old(state), token_id) is Err,
    ensures
        final(state).wf(),
        match mint_target(*old(state), token_id) {
            Err(e) => r == Err::<Response, ContractError>(e) && *final(state) == *old(state),
            Ok(t) => minted_one(
                *old(state),
                *final(state),
                r,
                info.sender@,
                recipient_or_sender(recipient, info.sender),
                t,
                info.funds@,
            ),
        },
{
    let ghost recipient_view = recipient_or_sender(recipient, info.sender);
    let recipient_addr = match recipient {
        Some(some_recipient) => some_recipient,
        None => copy_string(&info.sender),
    };
    let (mintable_token_id, index): (u32, usize) = match token_id {
        Some(token_id) => {
            if token_id == 0 || token_id > state.config.max_tokens {
                return Err(ContractError::InvalidTokenId {  });
            }
            // If token_id not on mintable map, throw err
            match find_token(&state.mintable_token_ids, token_id) {
                None => {
                    return Err(ContractError::TokenIdAlreadySold { token_id });
                },
                Some(index) => (token_id, index),
            }
        },
        None => {
            if state.mintable_token_ids.len() == 0 {
                return Err(ContractError::SoldOut {  });
            }
            (state.mintable_token_ids[0], 0)
        },
    };
    proof {
        assert(state.mintable_token_ids@[index as int] == mintable_token_id);
        assert(state.mintable().contains(mintable_token_id));
    }
    let msg = _create_cw721_mint(info, &state.config, &recipient_addr, mintable_token_id);
    take_mintable(state, index);
    let resp = Response::new().add_attribute("sender", copy_string(&info.sender)).add_attribute(
        "recipient",
        recipient_addr,
    ).add_attribute("token_id", u64_to_decimal(mintable_token_id as u64)).add_submessage(
        SubMsg::new(msg),
    );
    proof {
        assert(resp.attrs() =~= seq![
            ("sender"@, info.sender@),
            ("recipient"@, recipient_view),
            ("token_id"@, decimal(mintable_token_id as nat)),
        ]);
    }
    Ok(resp)
}

/// Mints `token_id` to the sender.
pub fn execute_mint_sender(state: &mut MinterState, info: &MessageInfo, token_id: u32) -> (r:
    Result<Response, ContractError>)
    requires
        old(state).wf(),
        old(state).config.cw721_address is Some || !mint_needs_cw721(*old(state), token_id),
    ensures
        final(state).wf(),
        mint_outcome(*old(state), *final(state), r, info.sender@, info.sender@, token_id, info.funds@),
{
    let recipient = copy_string(&info.sender);
    _execute_mint(state, info, Some(recipient), Some(token_id))
}

/// Mints `token_id` to `recipient`, an address the chain has validated.
pub fn execute_mint_to(
    state: &mut MinterState,
    info: &MessageInfo,
    recipient: String,
    token_id: u32,
) -> (r: Result<Response, ContractError>)
    requires
        old(state).wf(),
        old(state).config.cw721_address is Some || !mint_needs_cw721(*old(state), token_id),
    ensures
        final(state).wf(),
        mint_outcome(*old(state), *final(state), r, info.sender@, recipient@, token_id, info.funds@),
{
    _execute_mint(state, info, Some(recipient), Some(token_id))
}


// ----------------------------------------------------------------------------
// Minting a batch

/// The ids a batch takes, in the order it takes them: from the end of the
/// list backwards, at most `limit` of them.
pub open spec fn pop_order(ids: Seq<u32>, limit: u32) -> Seq<u32> {
    let n = if ids.len() < limit as nat {
        ids.len()
    } else {
        limit as nat
    };
    Seq::new(n, |k: int| ids[ids.len() - 1 - k])
}

/// Which error, if any, minting the ids of `order` one after the other meets:
/// the first id that fails `mint_check` (against the ids still mintable by
/// then) decides.
pub open spec fn batch_mint_check(mintable: Set<u32>, max_tokens: u32, order: Seq<u32>) -> Result<
    (),
    ContractError,
>
    decreases order.len(),
{
    if order.len() == 0 {
        Ok(())
    } else {
        match mint_check(mintable, max_tokens, order[0]) {
            Err(e) => Err(e),
            Ok(_) => batch_mint_check(mintable.remove(order[0]), max_tokens, order.drop_first()),
        }
    }
}

/// How many ids of `order` pass their checks one after the other (each
/// against the ids still mintable by then) before the first that fails.
pub open spec fn batch_passed(mintable: Set<u32>, max_tokens: u32, order: Seq<u32>) -> nat
    decreases order.len(),
{
    if order.len() == 0 {
        0
    } else {
        match mint_check(mintable, max_tokens, order[0]) {
            Err(_) => 0,
            Ok(_) => 1 + batch_passed(mintable.remove(order[0]), max_tokens, order.drop_first()),
        }
    }
}

/// What a batch mint does. The ids are taken in turn, each removed from the
/// mintable ids as soon as it passes its checks. Where one fails, the call
/// fails with its error, and the ids taken before it are gone all the same
/// (the chain discards the storage of a failed call); otherwise every token
/// of the batch is minted.
pub open spec fn batch_mint_outcome(
    old: MinterState,
    new: MinterState,
    r: Result<Response, ContractError>,
    sender: Seq<char>,
    recipient: Seq<char>,
    token_ids: Seq<u32>,
    funds: Seq<Coin>,
) -> bool {
    let order = pop_order(token_ids, old.config.max_tokens_per_batch_mint);
    let taken = order.take(batch_passed(old.mintable(), old.config.max_tokens, order) as int);
    &&& unchanged_but_mintable(old, new)
    &&& new.mintable() == old.mintable().difference(taken.to_set())
    &&& new.mintable_num_tokens == old.mintable_num_tokens - taken.len()
    &&& match batch_mint_check(old.mintable(), old.config.max_tokens, order) {
        Err(e) => r == Err::<Response, ContractError>(e),
        Ok(_) => {
            &&& r matches Ok(resp)
            &&& resp.attrs() == seq![
                ("sender"@, sender),
                ("recipient"@, recipient),
                ("token_id"@, debug_list(order)),
            ]
            &&& resp.messages@.len() == order.len()
            &&& forall|i: int|
                0 <= i < order.len() ==> mint_submsg(
                    #[trigger] resp.messages@[i],
                    old.config,
                    recipient,
                    order[i],
                    funds,
                )
        },
    }
}

/// A batch mint reaches the cw721 contract, whose address must then be known.
pub open spec fn batch_mint_needs_cw721(s: MinterState, token_ids: Seq<u32>) -> bool {
    let order = pop_order(token_ids, s.config.max_tokens_per_batch_mint);
    order.len() > 0 && mint_check(s.mintable(), s.config.max_tokens, order[0]) is Ok
}

/// Mints a batch of tokens to `recipient` (the sender where none is named),
/// taking the ids from the end of the list, at most
/// `max_tokens_per_batch_mint` of them.
pub fn _execute_batch_mint(
    state: &mut MinterState,
    info: &MessageInfo,
    recipient: Option<String>,
    batch_token_ids: Vec<u32>,
) -> (r: Result<Response, ContractError>)
    requires
        old(state).wf(),
        old(state).config.cw721_address is Some || !batch_mint_needs_cw721(
            *old(state),
            batch_token_ids@,
        ),
    ensures
        final(state).wf(),
        batch_mint_outcome(
            *old(state),
            *final(state),
            r,
            info.sender@,
            recipient_or_sender(recipient, info.sender),
            batch_token_ids@,
            info.funds@,
        ),
{
    let ghost s0 = *state;
    let ghost all_ids = batch_token_ids@;
    let ghost order = pop_order(all_ids, state.config.max_tokens_per_batch_mint);
    let ghost recipient_view = recipient_or_sender(recipient, info.sender);
    let recipient_addr = match recipient {
        Some(some_recipient) => some_recipient,
        None => copy_string(&info.sender),
    };
    let limit: u32 = state.config.max_tokens_per_batch_mint;
    let max_tokens: u32 = state.config.max_tokens;
    let len: usize = batch_token_ids.len();
    let mut count: u32 = 0;
    let mut minted_token_ids: Vec<u32> = Vec::new();
    let mut msgs: Vec<SubMsg> = Vec::new();
    proof {
        assert(order.take(0).to_set() =~= Set::<u32>::empty());
        assert(s0.mintable().difference(order.take(0).to_set()) =~= s0.mintable());
        assert(order.skip(0) =~= order);
    }
    loop
        invariant
            len == all_ids.len(),
            all_ids == batch_token_ids@,
            s0 == *old(state),
            s0.wf(),
            state.wf(),
            unchanged_but_mintable(s0, *state),
            s0.config.cw721_address is Some || !batch_mint_needs_cw721(s0, all_ids),
            recipient_addr@ == recipient_view,
            limit == s0.config.max_tokens_per_batch_mint,
            max_tokens == s0.config.max_tokens,
            order == pop_order(all_ids, limit),
            count <= order.len(),
            count > 0 ==> s0.config.cw721_address is Some,
            minted_token_ids@ == order.take(count as int),
            msgs@.len() == count,
            forall|i: int|
                0 <= i < count ==> mint_submsg(
                    #[trigger] msgs@[i],
                    s0.config,
                    recipient_view,
                    order[i],
                    info.funds@,
                ),
            state.mintable() == s0.mintable().difference(order.take(count as int).to_set()),
            state.mintable_num_tokens == s0.mintable_num_tokens - count,
            batch_mint_check(s0.mintable(), max_tokens, order) == batch_mint_check(
                state.mintable(),
                max_tokens,
                order.skip(count as int),
            ),
            batch_passed(s0.mintable(), max_tokens, order) == count + batch_passed(
                state.mintable(),
                max_tokens,
                order.skip(count as int),
            ),
        ensures
            count == order.len(),
            state.mintable() == s0.mintable().difference(order.to_set()),
            batch_mint_check(s0.mintable(), max_tokens, order) is Ok,
            batch_passed(s0.mintable(), max_tokens, order) == count,
        decreases all_ids.len() - count,
    {
        // The next id is popped from the end of the list.
        if count as usize >= len || count >= limit {
            proof {
                assert(order.take(order.len() as int) =~= order);
                assert(order.skip(order.len() as int) =~= Seq::<u32>::empty());
            }
            break ;
        }
        let token_id: u32 = batch_token_ids[len - 1 - count as usize];
        let ghost k = count as int;
        proof {
            assert(order[k] == token_id);
            assert(order.skip(k)[0] == token_id);
            assert(order.skip(k).drop_first() =~= order.skip(k + 1));
        }
        if token_id == 0 || token_id > max_tokens {
            proof {
                assert(batch_passed(state.mintable(), max_tokens, order.skip(k)) == 0);
                assert(batch_mint_check(state.mintable(), max_tokens, order.skip(k)) == Err::<
                    (),
                    ContractError,
                >(ContractError::InvalidTokenId {  }));
            }
            return Err(ContractError::InvalidTokenId {  });
        }
        // If token_id not on mintable map, throw err
        let index: usize = match find_token(&state.mintable_token_ids, token_id) {
            None => {
                proof {
                    assert(batch_passed(state.mintable(), max_tokens, order.skip(k)) == 0);
                    assert(batch_mint_check(state.mintable(), max_tokens, order.skip(k)) == Err::<
                        (),
                        ContractError,
                    >(ContractError::TokenIdAlreadySold { token_id }));
                }
                return Err(ContractError::TokenIdAlreadySold { token_id });
            },
            Some(index) => index,
        };
        assert(state.mintable().contains(token_id));
        let msg = _create_cw721_mint(info, &state.config, &recipient_addr, token_id);
        msgs.push(SubMsg::new(msg));

        // Remove mintable token id from map, and count it down
        let ghost before = state.mintable();
        take_mintable(state, index);

        minted_token_ids.push(token_id);
        proof {
            assert(order.take(k + 1) =~= order.take(k).push(token_id));
            order.take(k).lemma_push_to_set_commute(token_id);
            assert(order.take(k + 1).to_set() =~= order.take(k).to_set().insert(token_id));
            assert(state.mintable() =~= s0.mintable().difference(order.take(k + 1).to_set()));
        }
        count += 1;
    }
    let minted_token_ids_str = u32_list_debug(&minted_token_ids);
    let resp = Response::new().add_attribute("sender", copy_string(&info.sender)).add_attribute(
        "recipient",
        recipient_addr,
    ).add_attribute("token_id", minted_token_ids_str).add_submessages(msgs);
    assert(resp.attrs() =~= seq![
        ("sender"@, info.sender@),
        ("recipient"@, recipient_view),
        ("token_id"@, debug_list(order)),
    ]);
    assert(resp.messages@ =~= msgs@);
    Ok(resp)
}

/// Mints a batch of tokens to the sender.
pub fn execute_batch_mint_sender(
    state: &mut MinterState,
    info: &MessageInfo,
    token_ids: Vec<u32>,
) -> (r: Result<Response, ContractError>)
    requires
        old(state).wf(),
        old(state).config.cw721_address is Some || !batch_mint_needs_cw721(
            *old(state),
            token_ids@,
        ),
    ensures
        final(state).wf(),
        batch_mint_outcome(
            *old(state),
            *final(state),
            r,
            info.sender@,
            info.sender@,
            token_ids@,
            info.funds@,
        ),
{
    let recipient = copy_string(&info.sender);
    _execute_batch_mint(state, info, Some(recipient), token_ids)
}


// ----------------------------------------------------------------------------
// Transfers

/// The call of the cw721 contract that moves `token_id` to `recipient`.
pub open spec fn transfer_submsg(m: SubMsg, config: Config, recipient: Seq<char>, token_id: u32) -> bool {
    &&& m.id == 0
    &&& m.gas_limit is None
    &&& m.reply_on == ReplyOn::Never
    &&& m.msg matches CosmosMsg::Wasm(WasmMsg::Execute { contract_addr, msg, funds })
    &&& config.cw721_address == Some(contract_addr)
    &&& funds@.len() == 0
    &&& msg matches WasmPayload::Cw721Execute(
        Cw721ExecuteMsg::TransferNft { recipient: to, token_id: id },
    )
    &&& to@ == recipient
    &&& id@ == decimal(token_id as nat)
}

/// The cw721 transfer of `token_id` to `recipient`.
fn create_cw721_transfer(config: &Config, recipient: &String, token_id: u32) -> (r: SubMsg)
    requires
        config.cw721_address is Some,
    ensures
        transfer_submsg(r, *config, recipient@, token_id),
{
    let contract_addr = match &config.cw721_address {
        Some(a) => copy_string(a),
        None => { return unreached() },
    };
    SubMsg::new(
        CosmosMsg::Wasm(
            WasmMsg::Execute {
                contract_addr,
                msg: WasmPayload::Cw721Execute(
                    Cw721ExecuteMsg::TransferNft {
                        recipient: copy_string(recipient),
                        token_id: u64_to_decimal(token_id as u64),
                    },
                ),
                funds: Vec::new(),
            },
        ),
    )
}

/// Asks the cw721 contract to move `token_id` to `recipient`, an address the
/// chain has validated.
pub fn execute_transfer_nft(
    state: &MinterState,
    info: &MessageInfo,
    recipient: String,
    token_id: u32,
) -> (r: Result<Response, ContractError>)
    requires
        state.config.cw721_address is Some,
    ensures
        r matches Ok(resp) && resp.attrs() == seq![
            ("action"@, "transfer_nft"@),
            ("sender"@, info.sender@),
            ("recipient"@, recipient@),
            ("token_id"@, decimal(token_id as nat)),
        ] && resp.messages@.len() == 1 && transfer_submsg(
            resp.messages@[0],
            state.config,
            recipient@,
            token_id,
        ),
{
    let msg = create_cw721_transfer(&state.config, &recipient, token_id);
    let resp = Response::new().add_attribute("action", String::from_str("transfer_nft")).add_attribute(
        "sender",
        copy_string(&info.sender),
    ).add_attribute("recipient", recipient).add_attribute(
        "token_id",
        u64_to_decimal(token_id as u64),
    ).add_submessage(msg);
    assert(resp.attrs() =~= seq![
        ("action"@, "transfer_nft"@),
        ("sender"@, info.sender@),
        ("recipient"@, recipient@),
        ("token_id"@, decimal(token_id as nat)),
    ]);
    Ok(resp)
}

/// Asks the cw721 contract to move a batch of tokens to `recipient`, taking
/// the ids from the end of the list, at most `max_tokens_per_batch_transfer`
/// of them.
pub fn execute_batch_transfer_nft(
    state: &MinterState,
    info: &MessageInfo,
    recipient: String,
    token_ids: &Vec<u32>,
) -> (r: Result<Response, ContractError>)
    requires
        state.config.cw721_address is Some || pop_order(
            token_ids@,
            state.config.max_tokens_per_batch_transfer,
        ).len() == 0,
    ensures
        ({
            let order = pop_order(token_ids@, state.config.max_tokens_per_batch_transfer);
            &&& r matches Ok(resp)
            &&& resp.attrs() == seq![
                ("action"@, "batch_transfer_nft"@),
                ("sender"@, info.sender@),
                ("recipient"@, recipient@),
                ("token_id"@, debug_list(order)),
            ]
            &&& resp.messages@.len() == order.len()
            &&& forall|i: int|
                0 <= i < order.len() ==> transfer_submsg(
                    #[trigger] resp.messages@[i],
                    state.config,
                    recipient@,
                    order[i],
                )
        }),
{
    let ghost order = pop_order(token_ids@, state.config.max_tokens_per_batch_transfer);
    let limit: u32 = state.config.max_tokens_per_batch_transfer;
    let len: usize = token_ids.len();
    let mut count: u32 = 0;
    let mut moved: Vec<u32> = Vec::new();
    let mut msgs: Vec<SubMsg> = Vec::new();
    loop
        invariant
            len == token_ids@.len(),
            limit == state.config.max_tokens_per_batch_transfer,
            order == pop_order(token_ids@, limit),
            state.config.cw721_address is Some || order.len() == 0,
            count <= order.len(),
            moved@ == order.take(count as int),
            msgs@.len() == count,
            forall|i: int|
                0 <= i < count ==> transfer_submsg(
                    #[trigger] msgs@[i],
                    state.config,
                    recipient@,
                    order[i],
                ),
        ensures
            count == order.len(),
        decreases len - count,
    {
        if count as usize >= len {
            break ;
        }
        let token_id: u32 = token_ids[len - 1 - count as usize];
        if count >= limit {
            break ;
        }
        assert(order[count as int] == token_id);
        msgs.push(create_cw721_transfer(&state.config, &recipient, token_id));
        moved.push(token_id);
        assert(order.take(count + 1) =~= order.take(count as int).push(token_id));
        count += 1;
    }
    assert(order.take(order.len() as int) =~= order);
    let moved_str = u32_list_debug(&moved);
    let resp = Response::new().add_attribute("action", String::from_str("batch_transfer_nft")).add_attribute(
        "sender",
        copy_string(&info.sender),
    ).add_attribute("recipient", recipient).add_attribute("token_id", moved_str).add_submessages(
        msgs,
    );
    assert(resp.attrs() =~= seq![
        ("action"@, "batch_transfer_nft"@),
        ("sender"@, info.sender@),
        ("recipient"@, recipient@),
        ("token_id"@, debug_list(order)),
    ]);
    assert(resp.messages@ =~= msgs@);
    Ok(resp)
}

// ----------------------------------------------------------------------------
// Dispatch

/// A call reaches the cw721 contract, whose address must then be known.
pub open spec fn execute_needs_cw721(s: MinterState, msg: ExecuteMsg) -> bool {
    match msg {
        ExecuteMsg::Mint { token_id } => mint_needs_cw721(s, token_id),
        ExecuteMsg::MintTo { token_id, .. } => mint_needs_cw721(s, token_id),
        ExecuteMsg::BatchMint { token_ids } => batch_mint_needs_cw721(s, token_ids@),
        ExecuteMsg::TransferNft { .. } => true,
        ExecuteMsg::BatchTransferNft { token_ids, .. } => pop_order(
            token_ids@,
            s.config.max_tokens_per_batch_transfer,
        ).len() > 0,
    }
}

/// Whether minting `token_id` passes its checks.
fn mint_passes(state: &MinterState, token_id: u32) -> (b: bool)
    ensures
        b == mint_needs_cw721(*state, token_id),
{
    if token_id == 0 || token_id > state.config.max_tokens {
        return false;
    }
    find_token(&state.mintable_token_ids, token_id).is_some()
}

/// Whether a call reaches the cw721 contract; before the contract's address
/// is known, such a call cannot be served.
pub fn needs_cw721_address(state: &MinterState, msg: &ExecuteMsg) -> (b: bool)
    requires
        state.wf(),
    ensures
        b == execute_needs_cw721(*state, *msg),
{
    match msg {
        ExecuteMsg::Mint { token_id } => mint_passes(state, *token_id),
        ExecuteMsg::MintTo { token_id, .. } => mint_passes(state, *token_id),
        ExecuteMsg::BatchMint { token_ids } => {
            let len: usize = token_ids.len();
            if len == 0 {
                false
            } else {
                assert(pop_order(token_ids@, state.config.max_tokens_per_batch_mint)[0]
                    == token_ids@[len - 1]);
                mint_passes(state, token_ids[len - 1])
            }
        },
        ExecuteMsg::TransferNft { .. } => true,
        ExecuteMsg::BatchTransferNft { token_ids, .. } => token_ids.len() > 0,
    }
}

/// What a call of the minter does, for each message.
pub open spec fn execute_outcome(
    old: MinterState,
    new: MinterState,
    r: Result<Response, ContractError>,
    info: MessageInfo,
    msg: ExecuteMsg,
) -> bool {
    match msg {
        ExecuteMsg::Mint { token_id } => mint_outcome(
            old,
            new,
            r,
            info.sender@,
            info.sender@,
            token_id,
            info.funds@,
        ),
        ExecuteMsg::BatchMint { token_ids } => batch_mint_outcome(
            old,
            new,
            r,
            info.sender@,
            info.sender@,
            token_ids@,
            info.funds@,
        ),
        ExecuteMsg::MintTo { token_id, recipient } => mint_outcome(
            old,
            new,
            r,
            info.sender@,
            recipient@,
            token_id,
            info.funds@,
        ),
        ExecuteMsg::TransferNft { recipient, token_id } => {
            &&& new == old
            &&& r matches Ok(resp)
            &&& resp.attrs() == seq![
                ("action"@, "transfer_nft"@),
                ("sender"@, info.sender@),
                ("recipient"@, recipient@),
                ("token_id"@, decimal(token_id as nat)),
            ]
            &&& resp.messages@.len() == 1
            &&& transfer_submsg(resp.messages@[0], old.config, recipient@, token_id)
        },
        ExecuteMsg::BatchTransferNft { recipient, token_ids } => {
            let order = pop_order(token_ids@, old.config.max_tokens_per_batch_transfer);
            &&& new == old
            &&& r matches Ok(resp)
            &&& resp.attrs() == seq![
                ("action"@, "batch_transfer_nft"@),
                ("sender"@, info.sender@),
                ("recipient"@, recipient@),
                ("token_id"@, debug_list(order)),
            ]
            &&& resp.messages@.len() == order.len()
            &&& forall|i: int|
                0 <= i < order.len() ==> transfer_submsg(
                    #[trigger] resp.messages@[i],
                    old.config,
                    recipient@,
                    order[i],
                )
        },
    }
}

/// Serves a call of the minter. The recipients that `MintTo` and the
/// transfers name are addresses the chain has validated.
pub fn execute(state: &mut MinterState, info: &MessageInfo, msg: ExecuteMsg) -> (r: Result<
    Response,
    ContractError,
>)
    requires
        old(state).wf(),
        old(state).config.cw721_address is Some || !execute_needs_cw721(*old(state), msg),
    ensures
        final(state).wf(),
        execute_outcome(*old(state), *final(state), r, *info, msg),
{
    match msg {
        ExecuteMsg::Mint { token_id } => execute_mint_sender(state, info, token_id),
        ExecuteMsg::BatchMint { token_ids } => execute_batch_mint_sender(state, info, token_ids),
        ExecuteMsg::MintTo { token_id, recipient } => execute_mint_to(
            state,
            info,
            recipient,
            token_id,
        ),
        ExecuteMsg::TransferNft { recipient, token_id } => execute_transfer_nft(
            state,
            info,
            recipient,
            token_id,
        ),
        ExecuteMsg::BatchTransferNft { recipient, token_ids } => execute_batch_transfer_nft(
            state,
            info,
            recipient,
            &token_ids,
        ),
    }
}

} // verus!
