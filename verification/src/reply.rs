//! Reading the address of a freshly instantiated contract out of the reply
//! the chain sends for an instantiation sub-message.
use vstd::prelude::*;

use crate::cosmos::SubMsgResult;
use vstd::utf8::encode_utf8;

verus! {

/// Lengths that a varint of at most nine bytes can carry.
pub open spec fn varint_fits(n: nat) -> bool {
    n < 0x8000_0000_0000_0000
}

/// The base-128 varint of `n`: seven bits per byte, low bits first, the top
/// bit set on every byte but the last.
pub open spec fn varint(n: nat) -> Seq<u8>
    decreases n,
{
    if n < 128 {
        seq![n as u8]
    } else {
        seq![(n % 128 + 128) as u8] + varint(n / 128)
    }
}

/// A length-delimited protobuf field: its key byte, the length of `bytes`
/// as a varint, and `bytes`.
pub open spec fn length_delimited(key: u8, bytes: Seq<u8>) -> Seq<u8> {
    seq![key] + varint(bytes.len()) + bytes
}

/// `data` is the protobuf `MsgInstantiateContractResponse` whose contract
/// address (field 1, UTF-8) is `address` and whose data (field 2) is
/// `payload`, the field left out where `payload` is empty.
pub open spec fn is_instantiate_response(data: Seq<u8>, address: Seq<char>, payload: Seq<u8>) -> bool {
    &&& varint_fits(encode_utf8(address).len())
    &&& varint_fits(payload.len())
    &&& data == length_delimited(0x0a, encode_utf8(address)) + if payload.len() == 0 {
        Seq::<u8>::empty()
    } else {
        length_delimited(0x12, payload)
    }
}

/// A successful reply whose data is the instantiation response naming
/// `address`.
pub open spec fn reply_carries(result: SubMsgResult, address: Seq<char>, payload: Seq<u8>) -> bool {
    result matches SubMsgResult::Success { data: Some(d) } && is_instantiate_response(
        d@,
        address,
        payload,
    )
}

/// The contract address that `cw_utils::parse_instantiate_response_data`
/// decodes from the protobuf bytes of an instantiation response, or `None`
/// where it rejects the bytes.
pub uninterp spec fn instantiate_response_address(data: Seq<u8>) -> Option<Seq<char>>;

/// Calls `cw_utils::parse_instantiate_response_data`, which decodes the
/// protobuf `MsgInstantiateContractResponse` by hand, and keeps the contract
/// address. The contract claims that the result is the address the function
/// decodes from these bytes (`None` where it fails), and that the bytes of a
/// well-formed response (field 1 the UTF-8 address, then field 2 where there
/// is data, each length a varint of at most nine bytes) decode to exactly
/// its address. What it makes of other bytes is named, not stated.
#[verifier::external_body]
fn parse_instantiate_response_data(data: &[u8]) -> (r: Option<String>)
    ensures
        r.deep_view() == instantiate_response_address(data@),
        forall|address: Seq<char>, payload: Seq<u8>|
            #[trigger] is_instantiate_response(data@, address, payload) ==> r.deep_view() == Some(
                address,
            ),
{
    match cw_utils::parse_instantiate_response_data(data) {
        Ok(res) => Some(res.contract_address),
        Err(_) => None,
    }
}

/// The address a reply reports: none for a failed sub-message or one without
/// data, else the address decoded from its data.
pub open spec fn reply_address(result: SubMsgResult) -> Option<Seq<char>> {
    match result {
        SubMsgResult::Failure(_) => None,
        SubMsgResult::Success { data } => match data {
            None => None,
            Some(d) => instantiate_response_address(d@),
        },
    }
}

/// The address of the contract a successful instantiation created, as
/// `cw_utils::parse_reply_instantiate_data` reads it from a reply.
pub fn reply_contract_address(result: &SubMsgResult) -> (r: Option<String>)
    ensures
        r.deep_view() == reply_address(*result),
        forall|address: Seq<char>, payload: Seq<u8>|
            #[trigger] reply_carries(*result, address, payload) ==> r.deep_view() == Some(address),
{
    match result {
        SubMsgResult::Failure(_) => None,
        SubMsgResult::Success { data } => match data {
            None => None,
            Some(d) => parse_instantiate_response_data(d.as_slice()),
        },
    }
}

} // verus!
