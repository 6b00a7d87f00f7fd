use artaverse::cosmos::{Coin, CosmosMsg, MessageInfo, Reply, Response, SubMsgResult, WasmMsg, WasmPayload};
use artaverse::cw721::{Cw721ExecuteMsg, Metadata};
use artaverse::error::ContractError;
use artaverse::minter::contract::{execute, instantiate, needs_cw721_address, query, reply};
use artaverse::minter::msg::{ExecuteMsg, InstantiateMsg, QueryMsg};
use artaverse::minter::state::MinterState;

fn info(sender: &str) -> MessageInfo {
    MessageInfo {
        sender: sender.to_string(),
        funds: vec![Coin { denom: "earth".to_string(), amount: 1000 }],
    }
}

fn msg(num_tokens: u32, batch: u32) -> InstantiateMsg {
    InstantiateMsg {
        base_token_uri: "ipfs://collection".to_string(),
        num_tokens,
        max_tokens_per_batch_mint: batch,
        max_tokens_per_batch_transfer: batch,
        cw721_code_id: 3,
        name: "NAME".to_string(),
        symbol: "SYM".to_string(),
        royalty_percentage: Some(12),
        royalty_payment_address: Some("royalties".to_string()),
    }
}

fn reply_bytes(address: &str) -> Vec<u8> {
    let mut out = vec![0x0a, address.len() as u8];
    out.extend_from_slice(address.as_bytes());
    out
}

fn minter(num_tokens: u32, batch: u32) -> MinterState {
    let (mut state, _) = instantiate(&"self".to_string(), &info("creator"), msg(num_tokens, batch)).unwrap();
    let r = Reply { id: 1, result: SubMsgResult::Success { data: Some(reply_bytes("cw721addr")) } };
    reply(&mut state, &r).unwrap();
    state
}

fn attrs(resp: &Response) -> Vec<(String, String)> {
    resp.attributes.iter().map(|a| (a.key.clone(), a.value.clone())).collect()
}

fn pair(k: &str, v: &str) -> (String, String) {
    (k.to_string(), v.to_string())
}

fn mint(state: &mut MinterState, token_id: u32) -> Result<Response, ContractError> {
    execute(state, &info("creator"), ExecuteMsg::Mint { token_id })
}

#[test]
fn fresh_collection_mints_each_id_once() {
    let mut state = minter(3, 2);
    assert_eq!(state.mintable_token_ids, vec![1, 2, 3]);
    assert_eq!(state.mintable_num_tokens, 3);
    for t in 1..=3 {
        mint(&mut state, t).unwrap();
        assert_eq!(mint(&mut state, t).unwrap_err(), ContractError::TokenIdAlreadySold { token_id: t });
    }
    assert_eq!(mint(&mut state, 0).unwrap_err(), ContractError::InvalidTokenId {});
    assert_eq!(mint(&mut state, 4).unwrap_err(), ContractError::InvalidTokenId {});
    assert!(state.mintable_token_ids.is_empty());
    assert_eq!(state.mintable_num_tokens, 0);
    assert!(state.is_well_formed());
}

#[test]
fn mint_sends_the_cw721_mint() {
    let mut state = minter(20, 5);
    let resp = mint(&mut state, 7).unwrap();
    assert_eq!(attrs(&resp), vec![pair("sender", "creator"), pair("recipient", "creator"), pair("token_id", "7")]);
    assert_eq!(resp.messages.len(), 1);
    assert_eq!(resp.messages[0].id, 0);
    let CosmosMsg::Wasm(WasmMsg::Execute { contract_addr, msg, funds }) = &resp.messages[0].msg else {
        panic!("expected an execution");
    };
    assert_eq!(contract_addr, "cw721addr");
    assert_eq!(funds, &vec![Coin { denom: "earth".to_string(), amount: 1000 }]);
    let WasmPayload::Cw721Execute(Cw721ExecuteMsg::Mint(m)) = msg else {
        panic!("expected a mint");
    };
    assert_eq!(m.token_id, "7");
    assert_eq!(m.owner, "creator");
    assert_eq!(m.token_uri.as_deref(), Some("ipfs://collection/7"));
    assert_eq!(
        m.extension,
        Some(Metadata {
            image: None,
            image_data: None,
            external_url: None,
            description: None,
            name: None,
            attributes: None,
            background_color: None,
            animation_url: None,
            youtube_url: None,
            royalty_percentage: Some(12),
            royalty_payment_address: Some("royalties".to_string()),
        })
    );
    assert_eq!(state.mintable_num_tokens, 19);
}

#[test]
fn mint_to_mints_to_the_recipient() {
    let mut state = minter(20, 5);
    let resp = execute(&mut state, &info("creator"), ExecuteMsg::MintTo { token_id: 20, recipient: "buyer".to_string() }).unwrap();
    assert_eq!(attrs(&resp), vec![pair("sender", "creator"), pair("recipient", "buyer"), pair("token_id", "20")]);
    let CosmosMsg::Wasm(WasmMsg::Execute { msg: WasmPayload::Cw721Execute(Cw721ExecuteMsg::Mint(m)), .. }) = &resp.messages[0].msg else {
        panic!("expected a mint");
    };
    assert_eq!(m.owner, "buyer");
}

#[test]
fn batch_takes_ids_from_the_end_up_to_the_limit() {
    let mut state = minter(20, 3);
    let resp = execute(&mut state, &info("creator"), ExecuteMsg::BatchMint { token_ids: vec![1, 2, 3, 4, 5] }).unwrap();
    assert_eq!(attrs(&resp), vec![pair("sender", "creator"), pair("recipient", "creator"), pair("token_id", "[5, 4, 3]")]);
    assert_eq!(resp.messages.len(), 3);
    assert_eq!(state.mintable_num_tokens, 17);
    assert!(state.mintable_token_ids.contains(&1));
    assert!(state.mintable_token_ids.contains(&2));
    assert!(!state.mintable_token_ids.contains(&3));
}

#[test]
fn failed_batch_keeps_earlier_ids() {
    let mut state = minter(20, 10);
    mint(&mut state, 1).unwrap();
    let config_before = minter(20, 10).config;
    // 7 and 6 are taken before 1 fails
    let err = execute(&mut state, &info("creator"), ExecuteMsg::BatchMint { token_ids: vec![1, 6, 7] }).unwrap_err();
    assert_eq!(err, ContractError::TokenIdAlreadySold { token_id: 1 });
    assert!(!state.mintable_token_ids.contains(&7));
    assert!(!state.mintable_token_ids.contains(&6));
    assert!(state.mintable_token_ids.contains(&5));
    assert_eq!(state.mintable_num_tokens, 17);
    assert_eq!(state.mintable_token_ids.len(), 17);
    assert_eq!(state.config, config_before);
    // the same id twice in one batch fails on its second turn, the first taken
    let err = execute(&mut state, &info("creator"), ExecuteMsg::BatchMint { token_ids: vec![8, 8] }).unwrap_err();
    assert_eq!(err, ContractError::TokenIdAlreadySold { token_id: 8 });
    assert!(!state.mintable_token_ids.contains(&8));
    assert_eq!(state.mintable_num_tokens, 16);
    // an id outside the collection fails at once and takes nothing
    let err = execute(&mut state, &info("creator"), ExecuteMsg::BatchMint { token_ids: vec![2, 21] }).unwrap_err();
    assert_eq!(err, ContractError::InvalidTokenId {});
    assert!(state.mintable_token_ids.contains(&2));
    assert_eq!(state.mintable_num_tokens, 16);
}

#[test]
fn empty_batch_mints_nothing() {
    let mut state = minter(5, 2);
    let resp = execute(&mut state, &info("creator"), ExecuteMsg::BatchMint { token_ids: vec![] }).unwrap();
    assert_eq!(attrs(&resp)[2], pair("token_id", "[]"));
    assert!(resp.messages.is_empty());
    assert_eq!(state, minter(5, 2));
}

#[test]
fn transfers_forward_to_cw721_and_change_nothing() {
    let mut state = minter(20, 2);
    let resp = execute(&mut state, &info("creator"), ExecuteMsg::TransferNft { recipient: "buyer".to_string(), token_id: 4 }).unwrap();
    assert_eq!(attrs(&resp), vec![pair("action", "transfer_nft"), pair("sender", "creator"), pair("recipient", "buyer"), pair("token_id", "4")]);
    let CosmosMsg::Wasm(WasmMsg::Execute { contract_addr, msg, funds }) = &resp.messages[0].msg else {
        panic!("expected an execution");
    };
    assert_eq!(contract_addr, "cw721addr");
    assert!(funds.is_empty());
    assert_eq!(msg, &WasmPayload::Cw721Execute(Cw721ExecuteMsg::TransferNft { recipient: "buyer".to_string(), token_id: "4".to_string() }));
    let resp = execute(&mut state, &info("creator"), ExecuteMsg::BatchTransferNft { recipient: "buyer".to_string(), token_ids: vec![1, 2, 3] }).unwrap();
    assert_eq!(attrs(&resp)[3], pair("token_id", "[3, 2]"));
    assert_eq!(resp.messages.len(), 2);
    assert_eq!(state, minter(20, 2));
}

#[test]
fn reply_records_cw721_address() {
    let (mut state, _) = instantiate(&"self".to_string(), &info("creator"), msg(4, 2)).unwrap();
    assert!(needs_cw721_address(&state, &ExecuteMsg::Mint { token_id: 1 }));
    assert!(!needs_cw721_address(&state, &ExecuteMsg::Mint { token_id: 5 }));
    assert!(!needs_cw721_address(&state, &ExecuteMsg::BatchMint { token_ids: vec![] }));
    // before the address is known, a mint that fails its checks still fails cleanly
    assert_eq!(mint(&mut state, 5).unwrap_err(), ContractError::InvalidTokenId {});
    let wrong = Reply { id: 2, result: SubMsgResult::Success { data: Some(reply_bytes("x")) } };
    assert_eq!(reply(&mut state, &wrong).unwrap_err(), ContractError::InvalidReplyID {});
    let failed = Reply { id: 1, result: SubMsgResult::Failure("failed".to_string()) };
    assert_eq!(reply(&mut state, &failed).unwrap_err(), ContractError::InstantiateCW721Error {});
    let ok = Reply { id: 1, result: SubMsgResult::Success { data: Some(reply_bytes("cw721addr")) } };
    let resp = reply(&mut state, &ok).unwrap();
    assert_eq!(attrs(&resp), vec![pair("action", "instantiate_cw721_reply")]);
    assert_eq!(state.cw721_address.as_deref(), Some("cw721addr"));
    assert_eq!(query(&state, QueryMsg::GetConfig {}).cw721_address.as_deref(), Some("cw721addr"));
}

#[test]
fn instantiate_checks_come_in_order() {
    let mut m = msg(0, 0);
    m.base_token_uri = "no scheme".to_string();
    assert_eq!(
        instantiate(&"self".to_string(), &info("c"), m).unwrap_err(),
        ContractError::InvalidNumTokens { max: 10000, min: 1 }
    );
    let mut m = msg(10000, 10000);
    m.base_token_uri = "no scheme".to_string();
    assert_eq!(instantiate(&"self".to_string(), &info("c"), m).unwrap_err(), ContractError::InvalidBaseTokenURI {});
    let (state, resp) = instantiate(&"self".to_string(), &info("c"), msg(10000, 10000)).unwrap();
    assert_eq!(state.mintable_token_ids.len(), 10000);
    assert_eq!(state.mintable_token_ids[9999], 10000);
    assert_eq!(
        attrs(&resp),
        vec![
            pair("method", "instantiate"),
            pair("owner", "c"),
            pair("contract_name", "crates.io:artaverse-contracts"),
            pair("contract_version", "0.1.0"),
        ]
    );
}
