use vstd::prelude::*;

use crate::address::Address;
use crate::state::TradingPair;

verus! {

/// Index of the first pair that satisfies `f`, or the length of `pairs`
/// when none does.
pub open spec fn first_index(pairs: Seq<TradingPair>, f: spec_fn(TradingPair) -> bool) -> int
    decreases pairs.len(),
{
    if pairs.len() == 0 {
        0
    } else if f(pairs[0]) {
        0
    } else {
        1 + first_index(pairs.drop_first(), f)
    }
}

/// A pair listed for `mint`, active or not.
pub open spec fn lists_mint(mint: Seq<u8>) -> spec_fn(TradingPair) -> bool {
    |p: TradingPair| p.token_mint@ == mint
}

/// A pair listed for `mint` that is currently active.
pub open spec fn trades_mint(mint: Seq<u8>) -> spec_fn(TradingPair) -> bool {
    |p: TradingPair| p.token_mint@ == mint && p.is_active
}

/// The matcher that `position_of` searches with.
pub open spec fn pair_matcher(mint: Seq<u8>, active_only: bool) -> spec_fn(TradingPair) -> bool {
    if active_only {
        trades_mint(mint)
    } else {
        lists_mint(mint)
    }
}

/// `first_index` is the one position before which nothing matches and at
/// which, unless it is the end, something does.
pub proof fn lemma_first_index(pairs: Seq<TradingPair>, f: spec_fn(TradingPair) -> bool)
    ensures
        0 <= first_index(pairs, f) <= pairs.len(),
        forall|j: int| 0 <= j < first_index(pairs, f) ==> !f(#[trigger] pairs[j]),
        first_index(pairs, f) < pairs.len() ==> f(pairs[first_index(pairs, f)]),
    decreases pairs.len(),
{
    if pairs.len() > 0 && !f(pairs[0]) {
        let rest = pairs.drop_first();
        lemma_first_index(rest, f);
        assert forall|j: int| 0 <= j < first_index(pairs, f) implies !f(#[trigger] pairs[j]) by {
            if j > 0 {
                assert(pairs[j] == rest[j - 1]);
            }
        }
    }
}

/// Any position with the property of `lemma_first_index` is `first_index`.
pub proof fn lemma_first_index_unique(
    pairs: Seq<TradingPair>,
    f: spec_fn(TradingPair) -> bool,
    k: int,
)
    requires
        0 <= k <= pairs.len(),
        forall|j: int| 0 <= j < k ==> !f(#[trigger] pairs[j]),
        k < pairs.len() ==> f(pairs[k]),
    ensures
        k == first_index(pairs, f),
{
    lemma_first_index(pairs, f);
    let m = first_index(pairs, f);
    if m < k {
        assert(!f(pairs[m]));
    } else if k < m {
        assert(!f(pairs[k]));
    }
}

/// Position of the first pair for `mint` (only active ones when
/// `active_only`), or the number of pairs when there is none.
pub fn position_of(pairs: &Vec<TradingPair>, mint: &Address, active_only: bool) -> (r: usize)
    ensures
        r == first_index(pairs@, pair_matcher(mint@, active_only)),
{
    let ghost f = pair_matcher(mint@, active_only);
    let mut i: usize = 0;
    while i < pairs.len()
        invariant
            i <= pairs@.len(),
            f == pair_matcher(mint@, active_only),
            forall|j: int| 0 <= j < i ==> !f(#[trigger] pairs@[j]),
        decreases pairs@.len() - i,
    {
        let p = &pairs[i];
        if p.token_mint == *mint && (!active_only || p.is_active) {
            proof {
                lemma_first_index_unique(pairs@, f, i as int);
            }
            return i;
        }
        i = i + 1;
    }
    proof {
        lemma_first_index_unique(pairs@, f, i as int);
    }
    i
}

} // verus!
