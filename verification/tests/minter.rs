use artaverse::cosmos::{
    Coin, CosmosMsg, MessageInfo, Reply, ReplyOn, Response, SubMsg, SubMsgResult, WasmMsg,
    WasmPayload,
};
use artaverse::cw721::{Cw721ExecuteMsg, Cw721InstantiateMsg, Metadata};
use artaverse::error::ContractError;
use artaverse::minter::contract::{
    execute, instantiate, needs_cw721_address, query, reply, INSTANTIATE_CW721_REPLY_ID,
};
use artaverse::minter::msg::{ConfigResponse, ExecuteMsg, InstantiateMsg, QueryMsg};
use artaverse::minter::state::{MinterState, MAX_TOKEN_LIMIT, MAX_TOKEN_PER_BATCH_LIMIT};

const MOCK_CONTRACT_ADDR: &str = "cosmos2contract";

fn mock_info(sender: &str, amount: u128, denom: &str) -> MessageInfo {
    MessageInfo {
        sender: sender.to_string(),
        funds: vec![Coin { denom: denom.to_string(), amount }],
    }
}

fn attrs(resp: &Response) -> Vec<(String, String)> {
    resp.attributes.iter().map(|a| (a.key.clone(), a.value.clone())).collect()
}

fn pair(k: &str, v: &str) -> (String, String) {
    (k.to_string(), v.to_string())
}

/// Protobuf bytes of an instantiation response naming `address`.
fn instantiate_response_bytes(address: &str, data: &[u8]) -> Vec<u8> {
    let mut out = vec![0x0a, address.len() as u8];
    out.extend_from_slice(address.as_bytes());
    if !data.is_empty() {
        out.push(0x12);
        let mut n = data.len();
        loop {
            let b = (n & 0x7f) as u8;
            n >>= 7;
            if n == 0 {
                out.push(b);
                break;
            }
            out.push(b | 0x80);
        }
        out.extend_from_slice(data);
    }
    out
}

fn cw721_reply(address: &str) -> Reply {
    Reply {
        id: INSTANTIATE_CW721_REPLY_ID,
        result: SubMsgResult::Success {
            data: Some(instantiate_response_bytes(address, &vec![2u8; 32769])),
        },
    }
}

fn base_msg() -> InstantiateMsg {
    InstantiateMsg {
        base_token_uri: String::from("ipfs://Sdjbfsdkjfgbdkfjgbdsfgbkiufbguydfguybfsdfjkdnsk"),
        num_tokens: 20,
        max_tokens_per_batch_mint: 10,
        max_tokens_per_batch_transfer: 10,
        cw721_code_id: 10u64,
        name: String::from("ARTAVERSER"),
        symbol: String::from("ATA"),
        royalty_percentage: Option::from(10u64),
        royalty_payment_address: Option::from(String::from("creator_address")),
    }
}

/// A minter instantiated from `msg` whose cw721 contract replied.
fn ready_minter(msg: InstantiateMsg) -> MinterState {
    let info = mock_info("creator", 1000, "earth");
    let (mut state, _) = instantiate(&MOCK_CONTRACT_ADDR.to_string(), &info, msg).unwrap();
    reply(&mut state, &cw721_reply("nftcontract721")).unwrap();
    state
}

fn run(state: &mut MinterState, info: &MessageInfo, msg: ExecuteMsg) -> Result<Response, ContractError> {
    assert!(state.is_well_formed());
    if state.config.cw721_address.is_none() && needs_cw721_address(state, &msg) {
        panic!("called `Option::unwrap()` on a `None` value");
    }
    execute(state, info, msg)
}

#[test]
fn contract_tests_initialization_of_minter() {
    let contract_addr = MOCK_CONTRACT_ADDR.to_string();
    let info = mock_info("creator", 1000, "earth");
    // num_token is zero returns error
    let msg = InstantiateMsg {
        base_token_uri: String::from("ipfs://Fhgihgkdfhgdfgdgdfgdfhfvbnykorkjojroiwoiwmgdmg"),
        num_tokens: 0,
        max_tokens_per_batch_mint: 10,
        max_tokens_per_batch_transfer: 10,
        cw721_code_id: 10u64,
        name: String::from("ARTAVERSER"),
        symbol: String::from("ATA"),
        royalty_percentage: None,
        royalty_payment_address: None,
    };
    let err = instantiate(&contract_addr, &info, msg).unwrap_err();
    assert_eq!(err, ContractError::InvalidNumTokens { max: MAX_TOKEN_LIMIT, min: 1 });

    // num_token is over max token limit return error
    let msg = InstantiateMsg {
        base_token_uri: String::from("ipfs://Fhgihgkdfhgdfgdgdfgdfhfvbnykorkjojroiwoiwmgdmg"),
        num_tokens: MAX_TOKEN_LIMIT + 1,
        max_tokens_per_batch_mint: 10,
        max_tokens_per_batch_transfer: 10,
        cw721_code_id: 10u64,
        name: String::from("ARTAVERSER"),
        symbol: String::from("ATA"),
        royalty_percentage: None,
        royalty_payment_address: None,
    };
    let err = instantiate(&contract_addr, &info, msg).unwrap_err();
    assert_eq!(err, ContractError::InvalidNumTokens { max: MAX_TOKEN_LIMIT, min: 1 });

    // max_tokens_per_batch_mint is over max token limit return error
    let msg = InstantiateMsg {
        base_token_uri: String::from("ipfs://Fhgihgkdfhgdfgdgdfgdfhfvbnykorkjojroiwoiwmgdmg"),
        num_tokens: 20,
        max_tokens_per_batch_mint: MAX_TOKEN_PER_BATCH_LIMIT + 1,
        max_tokens_per_batch_transfer: 10,
        cw721_code_id: 10u64,
        name: String::from("ARTAVERSER"),
        symbol: String::from("ATA"),
        royalty_percentage: None,
        royalty_payment_address: None,
    };
    let err = instantiate(&contract_addr, &info, msg).unwrap_err();
    assert_eq!(
        err,
        ContractError::InvalidMaxTokensPerBatchMint { max: MAX_TOKEN_PER_BATCH_LIMIT, min: 1 }
    );

    // max_tokens_per_batch_mint is zero returns error
    let msg = InstantiateMsg {
        base_token_uri: String::from("ipfs://Fhgihgkdfhgdfgdgdfgdfhfvbnykorkjojroiwoiwmgdmg"),
        num_tokens: 20,
        max_tokens_per_batch_mint: 0,
        max_tokens_per_batch_transfer: 10,
        cw721_code_id: 10u64,
        name: String::from("ARTAVERSER"),
        symbol: String::from("ATA"),
        royalty_percentage: None,
        royalty_payment_address: None,
    };
    let err = instantiate(&contract_addr, &info, msg).unwrap_err();
    assert_eq!(
        err,
        ContractError::InvalidMaxTokensPerBatchMint { max: MAX_TOKEN_PER_BATCH_LIMIT, min: 1 }
    );

    // max_tokens_per_batch_transfer is over max token limit return error
    let msg = InstantiateMsg {
        base_token_uri: String::from("ipfs://Fhgihgkdfhgdfgdgdfgdfhfvbnykorkjojroiwoiwmgdmg"),
        num_tokens: 20,
        max_tokens_per_batch_mint: 10,
        max_tokens_per_batch_transfer: MAX_TOKEN_PER_BATCH_LIMIT + 1,
        cw721_code_id: 10u64,
        name: String::from("ARTAVERSER"),
        symbol: String::from("ATA"),
        royalty_percentage: None,
        royalty_payment_address: None,
    };
    let err = instantiate(&contract_addr, &info, msg).unwrap_err();
    assert_eq!(
        err,
        ContractError::InvalidMaxTokensPerBatchTransfer { max: MAX_TOKEN_PER_BATCH_LIMIT, min: 1 }
    );

    // max_tokens_per_batch_transfer is zero returns error
    let msg = InstantiateMsg {
        base_token_uri: String::from("ipfs://Fhgihgkdfhgdfgdgdfgdfhfvbnykorkjojroiwoiwmgdmg"),
        num_tokens: 20,
        max_tokens_per_batch_mint: 10,
        max_tokens_per_batch_transfer: 0,
        cw721_code_id: 10u64,
        name: String::from("ARTAVERSER"),
        symbol: String::from("ATA"),
        royalty_percentage: None,
        royalty_payment_address: None,
    };
    let err = instantiate(&contract_addr, &info, msg).unwrap_err();
    assert_eq!(
        err,
        ContractError::InvalidMaxTokensPerBatchTransfer { max: MAX_TOKEN_PER_BATCH_LIMIT, min: 1 }
    );

    // Invalid uri returns error
    let msg = InstantiateMsg {
        base_token_uri: String::from("Fhgihgkdfhgdfgdgdfgdfhfvbnykorkjojroiwoiwmgdmg"),
        num_tokens: 20,
        max_tokens_per_batch_mint: 10,
        max_tokens_per_batch_transfer: 10,
        cw721_code_id: 10u64,
        name: String::from("ARTAVERSER"),
        symbol: String::from("ATA"),
        royalty_percentage: None,
        royalty_payment_address: None,
    };
    let err = instantiate(&contract_addr, &info, msg).unwrap_err();
    assert_eq!(err, ContractError::InvalidBaseTokenURI {});

    // success case
    let msg = InstantiateMsg {
        base_token_uri: String::from("ipfs://Sdjbfsdkjfgbdkfjgbdsfgbkiufbguydfguybfsdfjkdnsk"),
        num_tokens: 20,
        max_tokens_per_batch_mint: 10,
        max_tokens_per_batch_transfer: 10,
        cw721_code_id: 10u64,
        name: String::from("ARTAVERSER"),
        symbol: String::from("ATA"),
        royalty_percentage: Option::from(10u64),
        royalty_payment_address: Option::from(String::from("creator_address")),
    };

    let (state, res) = instantiate(&contract_addr, &info, msg).unwrap();
    assert_eq!(
        res.messages,
        vec![SubMsg {
            msg: CosmosMsg::Wasm(WasmMsg::Instantiate {
                code_id: 10,
                msg: WasmPayload::Cw721Instantiate(Cw721InstantiateMsg {
                    name: String::from("ARTAVERSER"),
                    symbol: String::from("ATA"),
                    minter: MOCK_CONTRACT_ADDR.to_string(),
                }),
                funds: vec![],
                admin: Some(info.sender.to_string()),
                label: String::from("Check CW721"),
            }),
            id: INSTANTIATE_CW721_REPLY_ID,
            gas_limit: None,
            reply_on: ReplyOn::Success,
        }]
    );
    let config = query(&state, QueryMsg::GetConfig {});
    assert_eq!(
        config,
        ConfigResponse {
            owner: info.sender.clone(),
            cw721_code_id: 10,
            cw721_address: None,
            max_tokens: 20,
            max_tokens_per_mint: 10,
            max_tokens_per_batch_transfer: 10,
            name: String::from("ARTAVERSER"),
            symbol: String::from("ATA"),
            base_token_uri: String::from("ipfs://Sdjbfsdkjfgbdkfjgbdsfgbkiufbguydfguybfsdfjkdnsk"),
            extension: Some(Metadata {
                image: None,
                image_data: None,
                external_url: None,
                description: None,
                name: None,
                attributes: None,
                background_color: None,
                animation_url: None,
                youtube_url: None,
                royalty_percentage: Some(10),
                royalty_payment_address: Some(String::from("creator_address")),
            }),
        }
    );
}

#[test]
fn contract_initialization() {
    let msg = InstantiateMsg {
        base_token_uri: String::from("https://ipfs.io/ipfs/kaka"),
        num_tokens: 20,
        max_tokens_per_batch_mint: 10,
        // the transfer bound has to be given; the mint bound is taken for it
        max_tokens_per_batch_transfer: 10,
        cw721_code_id: 10u64,
        name: String::from("ARTAVERSER"),
        symbol: String::from("ATA"),
        royalty_percentage: None,
        royalty_payment_address: None,
    };
    let info = mock_info("creator", 1000, "earth");

    let (state, res) =
        instantiate(&MOCK_CONTRACT_ADDR.to_string(), &info, msg).unwrap();
    // The cw721 instantiation carries no funds: those of the call stay with
    // the minter.
    assert_eq!(
        res.messages,
        vec![SubMsg {
            msg: CosmosMsg::Wasm(WasmMsg::Instantiate {
                code_id: 10u64,
                msg: WasmPayload::Cw721Instantiate(Cw721InstantiateMsg {
                    name: String::from("ARTAVERSER"),
                    symbol: String::from("ATA"),
                    minter: MOCK_CONTRACT_ADDR.to_string(),
                }),
                funds: vec![],
                admin: Some(info.sender.to_string()),
                label: String::from("Check CW721"),
            }),
            id: INSTANTIATE_CW721_REPLY_ID,
            gas_limit: None,
            reply_on: ReplyOn::Success,
        }]
    );
    let config = query(&state, QueryMsg::GetConfig {});
    assert_eq!(config.max_tokens, 20);
    assert_eq!(config.cw721_address, None);
}

#[test]
fn mint_transfer_test() {
    let info = mock_info("creator", 1000, "earth");
    let buyer = "buyer".to_string();
    let contract_addr = MOCK_CONTRACT_ADDR.to_string();
    let res = instantiate(&contract_addr, &info, base_msg());
    assert!(res.is_ok());
    let (mut state, _) = res.unwrap();

    let config = query(&state, QueryMsg::GetConfig {});

    reply(&mut state, &cw721_reply("nftcontract721")).unwrap();

    // call mint NFT
    let res_execute = run(&mut state, &info, ExecuteMsg::Mint { token_id: 1 });
    assert!(res_execute.is_ok());

    // call batch mint NFT
    let res_execute = run(&mut state, &info, ExecuteMsg::BatchMint { token_ids: vec![2, 3, 4] });
    assert!(res_execute.is_ok());

    // call batch mintTo NFT
    let res_execute =
        run(&mut state, &info, ExecuteMsg::MintTo { token_id: 10, recipient: buyer.clone() });
    assert!(res_execute.is_ok());

    // token_id is zero returns error
    let err = run(&mut state, &info, ExecuteMsg::BatchMint { token_ids: vec![5, 6, 0] })
        .unwrap_err();
    assert_eq!(err, ContractError::InvalidTokenId {});

    // token_id is over num tokens error
    let err = run(
        &mut state,
        &info,
        ExecuteMsg::BatchMint { token_ids: vec![5, 6, config.max_tokens + 1] },
    )
    .unwrap_err();
    assert_eq!(err, ContractError::InvalidTokenId {});

    //token_id not on mintable map
    let err = run(&mut state, &info, ExecuteMsg::BatchMint { token_ids: vec![1, 6, 7] })
        .unwrap_err();
    assert_eq!(err, ContractError::TokenIdAlreadySold { token_id: 1 });

    // call transfer NFT
    let res_execute =
        run(&mut state, &info, ExecuteMsg::TransferNft { recipient: buyer.clone(), token_id: 1 });
    assert!(res_execute.is_ok());

    // call transfer NFT
    let res_execute = run(
        &mut state,
        &info,
        ExecuteMsg::BatchTransferNft { recipient: buyer.clone(), token_ids: vec![2, 3] },
    );
    assert!(res_execute.is_ok());
}

#[test]
fn mint() {
    let info = mock_info("creator", 1000, "earth");
    let msg = InstantiateMsg {
        base_token_uri: String::from("https://ipfs.io/ipfs/kaka"),
        num_tokens: 20,
        max_tokens_per_batch_mint: 10,
        max_tokens_per_batch_transfer: 10,
        cw721_code_id: 10u64,
        name: String::from("ARTAVERSER"),
        symbol: String::from("ATA"),
        royalty_percentage: Some(12u64),
        royalty_payment_address: Some(String::from("aa")),
    };
    let (mut state, _) = instantiate(&MOCK_CONTRACT_ADDR.to_string(), &info, msg).unwrap();
    reply(&mut state, &cw721_reply("nftcontract721")).unwrap();
    let _config = query(&state, QueryMsg::GetConfig {});
    run(&mut state, &info, ExecuteMsg::Mint { token_id: 1 }).unwrap();
}

#[test]
fn minter_integration_tests_count() {
    let msg = InstantiateMsg {
        base_token_uri: String::from("https://ipfs.io/ipfs/kaka"),
        num_tokens: 100,
        max_tokens_per_batch_mint: 10,
        max_tokens_per_batch_transfer: 10,
        cw721_code_id: 2,
        name: String::from("ARTAVERSER"),
        symbol: String::from("ATA"),
        royalty_percentage: Option::from(10u64),
        royalty_payment_address: Option::from("xxxix".to_string()),
    };
    let mut state = ready_minter(msg);
    let user = MessageInfo {
        sender: "USER".to_string(),
        funds: vec![Coin { denom: "denom".to_string(), amount: 0 }],
    };
    let _res = run(&mut state, &user, ExecuteMsg::Mint { token_id: 1 });
}
