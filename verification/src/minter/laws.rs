//! Laws of the minter that span its calls.
use vstd::prelude::*;

use crate::cosmos::{Coin, MessageInfo, Response};
use crate::error::ContractError;
use crate::cw721::royalty_metadata;
use crate::minter::contract::{
    batch_mint_check, batch_mint_outcome, batch_passed, config_of, config_response_of,
    execute_outcome, first_ids, instantiate_outcome, mint_check, mint_outcome, mint_submsg,
    pop_order,
};
use crate::text::has_uri_scheme;
use crate::minter::msg::{ExecuteMsg, InstantiateMsg};
use crate::minter::state::MinterState;

verus! {

/// A token is minted at most once: once a mint of `token_id` succeeded, a
/// second mint of it fails with `TokenIdAlreadySold` and changes nothing.
pub proof fn law_token_minted_once(
    s0: MinterState,
    s1: MinterState,
    s2: MinterState,
    r1: Result<Response, ContractError>,
    r2: Result<Response, ContractError>,
    sender: Seq<char>,
    recipient1: Seq<char>,
    recipient2: Seq<char>,
    funds1: Seq<Coin>,
    funds2: Seq<Coin>,
    token_id: u32,
)
    requires
        mint_outcome(s0, s1, r1, sender, recipient1, token_id, funds1),
        r1 is Ok,
        mint_outcome(s1, s2, r2, sender, recipient2, token_id, funds2),
    ensures
        r2 == Err::<Response, ContractError>(ContractError::TokenIdAlreadySold { token_id }),
        s2 == s1,
{
    assert(!s1.mintable().contains(token_id));
}

/// No call makes a token mintable again or touches the configuration: the
/// mintable ids only ever shrink.
pub proof fn law_mintable_only_shrinks(
    old: MinterState,
    new: MinterState,
    r: Result<Response, ContractError>,
    info: MessageInfo,
    msg: ExecuteMsg,
)
    requires
        execute_outcome(old, new, r, info, msg),
    ensures
        new.mintable().subset_of(old.mintable()),
        new.config == old.config,
{
}

/// A call that fails, other than a batch mint, leaves the minter exactly as
/// it was.
pub proof fn law_failed_call_changes_nothing(
    old: MinterState,
    new: MinterState,
    r: Result<Response, ContractError>,
    info: MessageInfo,
    msg: ExecuteMsg,
)
    requires
        execute_outcome(old, new, r, info, msg),
        r is Err,
        !(msg is BatchMint),
    ensures
        new == old,
{
}

/// A batch mint that fails has still taken out the ids that passed before
/// the failing one, and counted them down: where the `k`-th id the batch
/// takes fails, the `k - 1` ids before it are no longer mintable, and the
/// error is the one the `k`-th id meets against what is left. The
/// configuration, the cw721 address and the version are kept.
pub proof fn law_failed_batch_keeps_earlier_ids(
    old: MinterState,
    new: MinterState,
    r: Result<Response, ContractError>,
    info: MessageInfo,
    token_ids: Vec<u32>,
)
    requires
        execute_outcome(old, new, r, info, ExecuteMsg::BatchMint { token_ids }),
        r is Err,
    ensures
        ({
            let order = pop_order(token_ids@, old.config.max_tokens_per_batch_mint);
            let k = batch_passed(old.mintable(), old.config.max_tokens, order);
            &&& k < order.len()
            &&& new.mintable() == old.mintable().difference(order.take(k as int).to_set())
            &&& new.mintable_num_tokens == old.mintable_num_tokens - k
            &&& new.config == old.config
            &&& new.cw721_address == old.cw721_address
            &&& new.contract_version == old.contract_version
            &&& r matches Err(e)
            &&& mint_check(new.mintable(), old.config.max_tokens, order[k as int]) == Err::<
                (),
                ContractError,
            >(e)
        }),
{
    let order = pop_order(token_ids@, old.config.max_tokens_per_batch_mint);
    lemma_batch_passed(old.mintable(), old.config.max_tokens, order);
}

/// The number of mintable tokens drops by exactly the number of tokens a
/// call mints: one for a mint, at most `max_tokens_per_batch_mint` for a
/// batch, none for a transfer.
pub proof fn law_mint_count(
    old: MinterState,
    new: MinterState,
    r: Result<Response, ContractError>,
    info: MessageInfo,
    msg: ExecuteMsg,
)
    requires
        old.wf(),
        execute_outcome(old, new, r, info, msg),
        r is Ok,
    ensures
        msg is Mint || msg is MintTo ==> new.mintable_num_tokens == old.mintable_num_tokens - 1,
        msg matches ExecuteMsg::BatchMint { token_ids } ==> old.mintable_num_tokens
            - new.mintable_num_tokens == pop_order(
            token_ids@,
            old.config.max_tokens_per_batch_mint,
        ).len(),
        msg is BatchMint ==> old.mintable_num_tokens - new.mintable_num_tokens
            <= old.config.max_tokens_per_batch_mint,
        msg is TransferNft || msg is BatchTransferNft ==> new.mintable_num_tokens
            == old.mintable_num_tokens,
{
    if let ExecuteMsg::BatchMint { token_ids } = msg {
        lemma_batch_passed(
            old.mintable(),
            old.config.max_tokens,
            pop_order(token_ids@, old.config.max_tokens_per_batch_mint),
        );
    }
}

/// `GetConfig` on a fresh minter reports what it was instantiated with: the
/// sender as owner, no cw721 address yet, the bounds, and the royalty terms as
/// metadata.
pub proof fn law_config_after_instantiate(sender: String, msg: InstantiateMsg)
    ensures
        ({
            let c = config_response_of(config_of(sender, msg));
            &&& c.owner == sender
            &&& c.cw721_code_id == msg.cw721_code_id
            &&& c.cw721_address is None
            &&& c.max_tokens == msg.num_tokens
            &&& c.max_tokens_per_mint == msg.max_tokens_per_batch_mint
            &&& c.max_tokens_per_batch_transfer == msg.max_tokens_per_batch_transfer
            &&& c.name == msg.name
            &&& c.symbol == msg.symbol
            &&& c.base_token_uri == msg.base_token_uri
            &&& c.extension == Some(
                royalty_metadata(msg.royalty_percentage, msg.royalty_payment_address),
            )
        }),
{
}

/// Instantiation succeeds exactly when the collection size and both batch
/// bounds lie in `1..=10000` and the base token URI starts with a URI scheme.
/// Otherwise the first check that fails names the error: the size, then the
/// batch-mint bound, then the batch-transfer bound, then the URI.
pub proof fn law_instantiate_accepts(
    contract_address: Seq<char>,
    info: MessageInfo,
    msg: InstantiateMsg,
    r: Result<(MinterState, Response), ContractError>,
)
    requires
        instantiate_outcome(contract_address, info, msg, r),
    ensures
        r is Ok <==> {
            &&& 1 <= msg.num_tokens <= 10000
            &&& 1 <= msg.max_tokens_per_batch_mint <= 10000
            &&& 1 <= msg.max_tokens_per_batch_transfer <= 10000
            &&& has_uri_scheme(msg.base_token_uri@)
        },
        !(1 <= msg.num_tokens <= 10000) ==> r == Err::<(MinterState, Response), ContractError>(
            ContractError::InvalidNumTokens { max: 10000, min: 1 },
        ),
        1 <= msg.num_tokens <= 10000 && !(1 <= msg.max_tokens_per_batch_mint <= 10000) ==> r
            == Err::<(MinterState, Response), ContractError>(
            ContractError::InvalidMaxTokensPerBatchMint { max: 10000, min: 1 },
        ),
        1 <= msg.num_tokens <= 10000 && 1 <= msg.max_tokens_per_batch_mint <= 10000 && !(1
            <= msg.max_tokens_per_batch_transfer <= 10000) ==> r == Err::<
            (MinterState, Response),
            ContractError,
        >(ContractError::InvalidMaxTokensPerBatchTransfer { max: 10000, min: 1 }),
        1 <= msg.num_tokens <= 10000 && 1 <= msg.max_tokens_per_batch_mint <= 10000 && 1
            <= msg.max_tokens_per_batch_transfer <= 10000 && !has_uri_scheme(
            msg.base_token_uri@,
        ) ==> r == Err::<(MinterState, Response), ContractError>(
            ContractError::InvalidBaseTokenURI {  },
        ),
{
}

/// A fresh minter keeps the message field by field: the sender as owner, the
/// collection size as `max_tokens`, the batch-mint bound and the
/// batch-transfer bound each under its own name, the cw721 code id, name,
/// symbol, base URI and royalty terms; no cw721 address yet; every id in
/// `1..=num_tokens` mintable, and no other.
pub proof fn law_instantiate_stores_message(
    contract_address: Seq<char>,
    info: MessageInfo,
    msg: InstantiateMsg,
    r: Result<(MinterState, Response), ContractError>,
)
    requires
        instantiate_outcome(contract_address, info, msg, r),
        r is Ok,
    ensures
        r matches Ok((s, _resp)) && {
            &&& s.config.owner == info.sender
            &&& s.config.cw721_code_id == msg.cw721_code_id
            &&& s.config.cw721_address is None
            &&& s.config.name == msg.name
            &&& s.config.symbol == msg.symbol
            &&& s.config.base_token_uri == msg.base_token_uri
            &&& s.config.max_tokens == msg.num_tokens
            &&& s.config.max_tokens_per_batch_mint == msg.max_tokens_per_batch_mint
            &&& s.config.max_tokens_per_batch_transfer == msg.max_tokens_per_batch_transfer
            &&& s.config.royalty_percentage == msg.royalty_percentage
            &&& s.config.royalty_payment_address == msg.royalty_payment_address
            &&& s.cw721_address is None
            &&& s.mintable_num_tokens == msg.num_tokens
            &&& forall|t: u32| s.mintable().contains(t) <==> 1 <= t <= msg.num_tokens
        },
{
    if let Ok((s, _)) = r {
        assert forall|t: u32| s.mintable().contains(t) <==> 1 <= t <= msg.num_tokens by {
            assert(first_ids(msg.num_tokens).contains(t) <==> 1 <= t <= msg.num_tokens);
        }
    }
}

/// `GetConfig` on a fresh minter reports the message back: the batch-mint
/// bound as `max_tokens_per_mint`, the batch-transfer bound as
/// `max_tokens_per_batch_transfer`, the collection size as `max_tokens`,
/// with no cw721 address yet.
pub proof fn law_get_config_after_instantiate(
    contract_address: Seq<char>,
    info: MessageInfo,
    msg: InstantiateMsg,
    r: Result<(MinterState, Response), ContractError>,
)
    requires
        instantiate_outcome(contract_address, info, msg, r),
        r is Ok,
    ensures
        r matches Ok((s, _resp)) && {
            let c = config_response_of(s.config);
            &&& c.owner == info.sender
            &&& c.cw721_code_id == msg.cw721_code_id
            &&& c.cw721_address is None
            &&& c.max_tokens == msg.num_tokens
            &&& c.max_tokens_per_mint == msg.max_tokens_per_batch_mint
            &&& c.max_tokens_per_batch_transfer == msg.max_tokens_per_batch_transfer
            &&& c.name == msg.name
            &&& c.symbol == msg.symbol
            &&& c.base_token_uri == msg.base_token_uri
        },
{
}

/// `GetConfig` reports each field of the stored configuration under its own
/// name, the royalty terms as metadata.
pub proof fn law_config_response_fields(state: MinterState)
    ensures
        ({
            let c = config_response_of(state.config);
            &&& c.owner == state.config.owner
            &&& c.cw721_code_id == state.config.cw721_code_id
            &&& c.cw721_address == state.config.cw721_address
            &&& c.max_tokens == state.config.max_tokens
            &&& c.max_tokens_per_mint == state.config.max_tokens_per_batch_mint
            &&& c.max_tokens_per_batch_transfer == state.config.max_tokens_per_batch_transfer
            &&& c.name == state.config.name
            &&& c.symbol == state.config.symbol
            &&& c.base_token_uri == state.config.base_token_uri
            &&& c.extension == Some(
                royalty_metadata(
                    state.config.royalty_percentage,
                    state.config.royalty_payment_address,
                ),
            )
        }),
{
}

/// A batch mint that succeeds mints `min(len, max_tokens_per_batch_mint)`
/// tokens of its list, taken from the end backwards, one sub-message each,
/// and counts them down; none of them is mintable afterwards.
pub proof fn law_batch_mint_size(
    old: MinterState,
    new: MinterState,
    r: Result<Response, ContractError>,
    sender: Seq<char>,
    recipient: Seq<char>,
    token_ids: Seq<u32>,
    funds: Seq<Coin>,
)
    requires
        batch_mint_outcome(old, new, r, sender, recipient, token_ids, funds),
        r is Ok,
    ensures
        ({
            let n = if token_ids.len() < old.config.max_tokens_per_batch_mint {
                token_ids.len() as int
            } else {
                old.config.max_tokens_per_batch_mint as int
            };
            &&& r matches Ok(resp)
            &&& resp.messages@.len() == n
            &&& forall|i: int|
                0 <= i < n ==> mint_submsg(
                    #[trigger] resp.messages@[i],
                    old.config,
                    recipient,
                    token_ids[token_ids.len() - 1 - i],
                    funds,
                )
            &&& new.mintable_num_tokens == old.mintable_num_tokens - n
            &&& forall|i: int|
                0 <= i < n ==> !new.mintable().contains(#[trigger] token_ids[token_ids.len() - 1 - i])
            &&& new.mintable().subset_of(old.mintable())
            &&& new.config == old.config
        }),
{
    let order = pop_order(token_ids, old.config.max_tokens_per_batch_mint);
    lemma_batch_passed(old.mintable(), old.config.max_tokens, order);
    assert(order.take(order.len() as int) =~= order);
    assert forall|i: int| 0 <= i < order.len() implies !new.mintable().contains(
        #[trigger] token_ids[token_ids.len() - 1 - i],
    ) by {
        assert(order[i] == token_ids[token_ids.len() - 1 - i]);
        assert(order.to_set().contains(order[i]));
    }
}

/// A fresh collection can mint every id in `1..=num_tokens`, and no other.
pub proof fn law_fresh_collection_mintable(s: MinterState, num_tokens: u32, token_id: u32)
    requires
        s.mintable() == first_ids(num_tokens),
        s.config.max_tokens == num_tokens,
    ensures
        mint_check(s.mintable(), s.config.max_tokens, token_id) is Ok <==> 1 <= token_id
            <= num_tokens,
{
}

/// A batch that asks for the same id twice (among the ids it takes) fails.
pub proof fn law_batch_duplicate_fails(
    mintable: Set<u32>,
    max_tokens: u32,
    order: Seq<u32>,
    i: int,
    j: int,
)
    requires
        0 <= i < j < order.len(),
        order[i] == order[j],
    ensures
        batch_mint_check(mintable, max_tokens, order) is Err,
    decreases order.len(),
{
    if i == 0 {
        lemma_batch_without(mintable.remove(order[0]), max_tokens, order.drop_first(), j - 1);
    } else {
        if mint_check(mintable, max_tokens, order[0]) is Ok {
            law_batch_duplicate_fails(
                mintable.remove(order[0]),
                max_tokens,
                order.drop_first(),
                i - 1,
                j - 1,
            );
        }
    }
}

/// How many ids of a batch pass: all of them exactly when the batch passes;
/// otherwise the error is that of the first id that fails, against the ids
/// the ones before it left.
proof fn lemma_batch_passed(mintable: Set<u32>, max_tokens: u32, order: Seq<u32>)
    ensures
        batch_passed(mintable, max_tokens, order) <= order.len(),
        batch_mint_check(mintable, max_tokens, order) is Ok <==> batch_passed(
            mintable,
            max_tokens,
            order,
        ) == order.len(),
        batch_mint_check(mintable, max_tokens, order) is Err ==> batch_mint_check(
            mintable,
            max_tokens,
            order,
        ) == mint_check(
            mintable.difference(
                order.take(batch_passed(mintable, max_tokens, order) as int).to_set(),
            ),
            max_tokens,
            order[batch_passed(mintable, max_tokens, order) as int],
        ),
    decreases order.len(),
{
    if order.len() > 0 {
        let k = batch_passed(mintable, max_tokens, order) as int;
        if mint_check(mintable, max_tokens, order[0]) is Ok {
            let m2 = mintable.remove(order[0]);
            let o2 = order.drop_first();
            lemma_batch_passed(m2, max_tokens, o2);
            if batch_mint_check(mintable, max_tokens, order) is Err {
                assert(o2[k - 1] == order[k]);
                assert forall|x: u32|
                    #![auto]
                    order.take(k).to_set().contains(x) <==> (x == order[0] || o2.take(
                        k - 1,
                    ).to_set().contains(x)) by {
                    if order.take(k).contains(x) {
                        let i = choose|i: int| 0 <= i < order.take(k).len() && #[trigger] order.take(k)[i] == x;
                        if i > 0 {
                            assert(o2.take(k - 1)[i - 1] == x);
                        }
                    }
                    if o2.take(k - 1).contains(x) {
                        let i = choose|i: int|
                            0 <= i < o2.take(k - 1).len() && #[trigger] o2.take(k - 1)[i] == x;
                        assert(order.take(k)[i + 1] == x);
                    }
                    if x == order[0] {
                        assert(order.take(k)[0] == x);
                    }
                }
                assert(m2.difference(o2.take(k - 1).to_set()) =~= mintable.difference(
                    order.take(k).to_set(),
                ));
            }
        } else {
            assert(order.take(0).to_set() =~= Set::<u32>::empty());
            assert(mintable.difference(order.take(0).to_set()) =~= mintable);
        }
    }
}

/// A batch fails if an id it takes is no longer mintable when its turn comes.
proof fn lemma_batch_without(mintable: Set<u32>, max_tokens: u32, order: Seq<u32>, j: int)
    requires
        0 <= j < order.len(),
        !mintable.contains(order[j]),
    ensures
        batch_mint_check(mintable, max_tokens, order) is Err,
    decreases order.len(),
{
    if j > 0 && mint_check(mintable, max_tokens, order[0]) is Ok {
        lemma_batch_without(mintable.remove(order[0]), max_tokens, order.drop_first(), j - 1);
    }
}

} // verus!
