//! The chain-facing values the contracts consume and produce: the sender and
//! funds of a call, the response with its attributes and sub-messages, and the
//! reply the chain hands back for a sub-message.
use vstd::prelude::*;

use crate::cw721::Cw721InstantiateMsg;
use crate::cw721::Cw721ExecuteMsg;
use crate::minter::msg::InstantiateMsg as MinterInstantiateMsg;

verus! {

/// An amount of one native denomination.
#[derive(Debug, PartialEq, Eq)]
pub struct Coin {
    pub denom: String,
    pub amount: u128,
}

/// Who called the contract and what they sent along.
#[derive(Debug, PartialEq, Eq)]
pub struct MessageInfo {
    pub sender: String,
    pub funds: Vec<Coin>,
}

/// Name and version of a contract, as kept for migrations.
#[derive(Debug, PartialEq, Eq)]
pub struct ContractVersion {
    pub contract: String,
    pub version: String,
}

/// A key-value pair of a response.
#[derive(Debug, PartialEq, Eq)]
pub struct Attribute {
    pub key: String,
    pub value: String,
}

/// The message a wasm call carries to the contract it addresses.
#[derive(Debug, PartialEq, Eq)]
pub enum WasmPayload {
    MinterInstantiate(MinterInstantiateMsg),
    Cw721Instantiate(Cw721InstantiateMsg),
    Cw721Execute(Cw721ExecuteMsg),
}

/// A call of another wasm contract.
#[derive(Debug, PartialEq, Eq)]
pub enum WasmMsg {
    Instantiate {
        admin: Option<String>,
        code_id: u64,
        msg: WasmPayload,
        funds: Vec<Coin>,
        label: String,
    },
    Execute {
        contract_addr: String,
        msg: WasmPayload,
        funds: Vec<Coin>,
    },
}

/// A message the contract asks the chain to dispatch.
#[derive(Debug, PartialEq, Eq)]
pub enum CosmosMsg {
    Wasm(WasmMsg),
}

/// When the chain calls the contract back about a sub-message.
#[derive(Debug, PartialEq, Eq, Clone, Copy)]
pub enum ReplyOn {
    Always,
    Error,
    Success,
    Never,
}

/// A message together with the way the contract wants to hear of its result.
#[derive(Debug, PartialEq, Eq)]
pub struct SubMsg {
    pub id: u64,
    pub msg: CosmosMsg,
    pub gas_limit: Option<u64>,
    pub reply_on: ReplyOn,
}

/// What a successful call returns to the chain.
#[derive(Debug, PartialEq, Eq)]
pub struct Response {
    pub messages: Vec<SubMsg>,
    pub attributes: Vec<Attribute>,
}

/// The outcome of a sub-message as the chain reports it.
#[derive(Debug, PartialEq, Eq)]
pub enum SubMsgResult {
    Success { data: Option<Vec<u8>> },
    Failure(String),
}

/// The callback the chain makes about a sub-message.
#[derive(Debug, PartialEq, Eq)]
pub struct Reply {
    pub id: u64,
    pub result: SubMsgResult,
}

/// The attributes of a response, as pairs of character sequences.
pub open spec fn attrs_of(attributes: Seq<Attribute>) -> Seq<(Seq<char>, Seq<char>)> {
    attributes.map_values(|a: Attribute| (a.key@, a.value@))
}

impl Response {
    pub open spec fn attrs(self) -> Seq<(Seq<char>, Seq<char>)> {
        attrs_of(self.attributes@)
    }

    /// A response with no messages and no attributes.
    pub fn new() -> (r: Response)
        ensures
            r.messages@ == Seq::<SubMsg>::empty(),
            r.attrs() == Seq::<(Seq<char>, Seq<char>)>::empty(),
    {
        let r = Response { messages: Vec::new(), attributes: Vec::new() };
        assert(r.attrs() =~= Seq::<(Seq<char>, Seq<char>)>::empty());
        r
    }

    /// Appends the attribute `key` = `value`.
    pub fn add_attribute(self, key: &str, value: String) -> (r: Response)
        ensures
            r.messages == self.messages,
            r.attrs() == self.attrs().push((key@, value@)),
    {
        let Response { messages, mut attributes } = self;
        let ghost before = attributes@;
        attributes.push(Attribute { key: String::from_str(key), value });
        assert(attrs_of(attributes@) =~= attrs_of(before).push((key@, value@)));
        Response { messages, attributes }
    }

    /// Appends sub-messages, in their order.
    pub fn add_submessages(self, msgs: Vec<SubMsg>) -> (r: Response)
        ensures
            r.messages@ == self.messages@ + msgs@,
            r.attributes == self.attributes,
    {
        let Response { mut messages, attributes } = self;
        let mut msgs = msgs;
        messages.append(&mut msgs);
        Response { messages, attributes }
    }

    /// Appends a sub-message.
    pub fn add_submessage(self, msg: SubMsg) -> (r: Response)
        ensures
            r.messages@ == self.messages@.push(msg),
            r.attributes == self.attributes,
    {
        let Response { mut messages, attributes } = self;
        messages.push(msg);
        Response { messages, attributes }
    }
}

impl SubMsg {
    /// A sub-message that is never answered by a reply.
    pub fn new(msg: CosmosMsg) -> (r: SubMsg)
        ensures
            r.id == 0,
            r.msg == msg,
            r.gas_limit is None,
            r.reply_on == ReplyOn::Never,
    {
        SubMsg { id: 0, msg, gas_limit: None, reply_on: ReplyOn::Never }
    }
}

/// A copy of a string.
pub fn copy_string(s: &String) -> (r: String)
    ensures
        r == *s,
{
    s.clone()
}

/// A copy of an optional string.
pub fn copy_opt_string(s: &Option<String>) -> (r: Option<String>)
    ensures
        r == *s,
{
    match s {
        Some(v) => Some(v.clone()),
        None => None,
    }
}

/// A copy of a list of coins.
pub fn copy_coins(coins: &Vec<Coin>) -> (r: Vec<Coin>)
    ensures
        r@ == coins@,
{
    let mut r: Vec<Coin> = Vec::new();
    let mut i: usize = 0;
    while i < coins.len()
        invariant
            i <= coins@.len(),
            r@ == coins@.take(i as int),
        decreases coins@.len() - i,
    {
        let c = &coins[i];
        r.push(Coin { denom: c.denom.clone(), amount: c.amount });
        assert(coins@.take(i + 1) =~= coins@.take(i as int).push(coins@[i as int]));
        i += 1;
    }
    assert(coins@.take(coins@.len() as int) =~= coins@);
    r
}

} // verus!
