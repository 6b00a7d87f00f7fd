//! What a minter keeps between calls, and the laws of its set of mintable ids.
use vstd::prelude::*;

use crate::cosmos::ContractVersion;

verus! {

/// Upper bound on the number of tokens of a collection.
pub const MAX_TOKEN_LIMIT: u32 = 10000;

/// Upper bound on the number of tokens one batch may mint or transfer.
pub const MAX_TOKEN_PER_BATCH_LIMIT: u32 = 10000;

/// The configuration a minter was instantiated with, and the address of its
/// cw721 contract once that contract exists.
#[derive(Debug, PartialEq, Eq)]
pub struct Config {
    pub owner: String,
    pub cw721_code_id: u64,
    pub cw721_address: Option<String>,
    pub name: String,
    pub symbol: String,
    pub base_token_uri: String,
    pub max_tokens: u32,
    pub max_tokens_per_batch_mint: u32,
    pub max_tokens_per_batch_transfer: u32,
    pub royalty_percentage: Option<u64>,
    pub royalty_payment_address: Option<String>,
}

/// The storage of a minter: its configuration, the token ids that can still
/// be minted (in ascending order, as the storage map walks its keys), how
/// many there are, the address of its cw721 contract, and its version.
#[derive(Debug, PartialEq, Eq)]
pub struct MinterState {
    pub config: Config,
    pub mintable_token_ids: Vec<u32>,
    pub mintable_num_tokens: u32,
    pub cw721_address: Option<String>,
    pub contract_version: ContractVersion,
}

/// Each element is smaller than the next: sorted, and nothing twice.
pub open spec fn strictly_increasing(s: Seq<u32>) -> bool {
    forall|i: int, j: int| 0 <= i < j < s.len() ==> s[i] < s[j]
}

/// A bound on the tokens of a collection or of a batch: at least 1, at most
/// the governance limit.
pub open spec fn within_limit(n: u32, limit: u32) -> bool {
    1 <= n && n <= limit
}

impl MinterState {
    /// The token ids that can still be minted.
    pub open spec fn mintable(&self) -> Set<u32> {
        self.mintable_token_ids@.to_set()
    }

    /// The invariant every call keeps: the mintable ids are ordered, lie in
    /// `1..=max_tokens`, and are counted by `mintable_num_tokens`; the bounds
    /// of the configuration are within the governance limits.
    pub open spec fn wf(&self) -> bool {
        &&& strictly_increasing(self.mintable_token_ids@)
        &&& forall|i: int|
            0 <= i < self.mintable_token_ids@.len() ==> 1 <= #[trigger] self.mintable_token_ids@[i]
                <= self.config.max_tokens
        &&& self.mintable_num_tokens == self.mintable_token_ids@.len()
        &&& within_limit(self.config.max_tokens, MAX_TOKEN_LIMIT)
        &&& within_limit(self.config.max_tokens_per_batch_mint, MAX_TOKEN_PER_BATCH_LIMIT)
        &&& within_limit(self.config.max_tokens_per_batch_transfer, MAX_TOKEN_PER_BATCH_LIMIT)
    }

    /// Whether the state keeps the invariant; a state read back from storage
    /// is checked with it before a call.
    pub fn is_well_formed(&self) -> (b: bool)
        ensures
            b == self.wf(),
    {
        let c = &self.config;
        if !(1 <= c.max_tokens && c.max_tokens <= MAX_TOKEN_LIMIT) {
            return false;
        }
        if !(1 <= c.max_tokens_per_batch_mint && c.max_tokens_per_batch_mint
            <= MAX_TOKEN_PER_BATCH_LIMIT) {
            return false;
        }
        if !(1 <= c.max_tokens_per_batch_transfer && c.max_tokens_per_batch_transfer
            <= MAX_TOKEN_PER_BATCH_LIMIT) {
            return false;
        }
        let ids = &self.mintable_token_ids;
        if ids.len() != self.mintable_num_tokens as usize {
            return false;
        }
        let mut i: usize = 0;
        while i < ids.len()
            invariant
                i <= ids@.len(),
                ids@ == self.mintable_token_ids@,
                *c == self.config,
                forall|j: int| 0 <= j < i ==> 1 <= #[trigger] ids@[j] <= c.max_tokens,
                forall|j: int, k: int| 0 <= j < k < i ==> ids@[j] < ids@[k],
            decreases ids@.len() - i,
        {
            if ids[i] < 1 || ids[i] > c.max_tokens {
                return false;
            }
            if i > 0 && ids[i - 1] >= ids[i] {
                return false;
            }
            assert forall|j: int, k: int| 0 <= j < k < i + 1 implies ids@[j] < ids@[k] by {
                if k == i && j < i - 1 {
                    assert(ids@[j] < ids@[i - 1]);
                }
            }
            i += 1;
        }
        true
    }
}

/// Removing the element at `i` keeps a strictly increasing sequence so, and
/// removes exactly that element from its set.
pub proof fn lemma_remove_sorted(s: Seq<u32>, i: int)
    requires
        strictly_increasing(s),
        0 <= i < s.len(),
    ensures
        strictly_increasing(s.remove(i)),
        s.remove(i).to_set() == s.to_set().remove(s[i]),
        forall|k: int| 0 <= k < s.remove(i).len() ==> s.to_set().contains(#[trigger] s.remove(i)[k]),
{
    let r = s.remove(i);
    assert forall|a: int, b: int| 0 <= a < b < r.len() implies r[a] < r[b] by {
        let a2 = if a < i { a } else { a + 1 };
        let b2 = if b < i { b } else { b + 1 };
        assert(r[a] == s[a2] && r[b] == s[b2]);
    }
    assert forall|k: int| 0 <= k < r.len() implies s.to_set().contains(#[trigger] r[k]) by {
        let k2 = if k < i { k } else { k + 1 };
        assert(r[k] == s[k2]);
    }
    assert forall|x: u32| r.to_set().contains(x) <==> s.to_set().remove(s[i]).contains(x) by {
        if r.to_set().contains(x) {
            let k = choose|k: int| 0 <= k < r.len() && r[k] == x;
            let k2 = if k < i { k } else { k + 1 };
            assert(s[k2] == x);
            assert(s.contains(x));
            assert(x != s[i]);
        }
        if s.to_set().remove(s[i]).contains(x) {
            let k = choose|k: int| 0 <= k < s.len() && s[k] == x;
            assert(k != i);
            let k2 = if k < i { k } else { k - 1 };
            assert(r[k2] == x);
            assert(r.contains(x));
        }
    }
    assert(r.to_set() =~= s.to_set().remove(s[i]));
}

/// A copy of a list of token ids.
pub fn copy_ids(ids: &Vec<u32>) -> (r: Vec<u32>)
    ensures
        r@ == ids@,
{
    let mut r: Vec<u32> = Vec::new();
    let mut i: usize = 0;
    while i < ids.len()
        invariant
            i <= ids@.len(),
            r@ == ids@.take(i as int),
        decreases ids@.len() - i,
    {
        r.push(ids[i]);
        assert(ids@.take(i + 1) =~= ids@.take(i as int).push(ids@[i as int]));
        i += 1;
    }
    assert(ids@.take(ids@.len() as int) =~= ids@);
    r
}

/// The position of `id` among the mintable ids, if it is there.
pub fn find_token(ids: &Vec<u32>, id: u32) -> (r: Option<usize>)
    ensures
        r matches Some(i) ==> i < ids@.len() && ids@[i as int] == id,
        r is None ==> !ids@.to_set().contains(id),
{
    let mut i: usize = 0;
    while i < ids.len()
        invariant
            i <= ids@.len(),
            forall|j: int| 0 <= j < i ==> ids@[j] != id,
        decreases ids@.len() - i,
    {
        if ids[i] == id {
            return Some(i);
        }
        i += 1;
    }
    None
}

} // verus!
