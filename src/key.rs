use vstd::prelude::*;

verus! {

/// The number of distinct identities: an identity is a `u64`.
pub open spec fn identity_span() -> int {
    0x1_0000_0000_0000_0000
}

/// The storage key of the entry owned by the pair (giver, recipient).
pub open spec fn spec_pair_key(giver: u64, recipient: u64) -> u128 {
    (giver as int * identity_span() + recipient as int) as u128
}

/// Two pairs share a storage key only when they are the same pair.
pub proof fn lemma_pair_key_injective(g1: u64, r1: u64, g2: u64, r2: u64)
    requires
        spec_pair_key(g1, r1) == spec_pair_key(g2, r2),
    ensures
        g1 == g2,
        r1 == r2,
{
    lemma_pair_key_fits(g1, r1);
    lemma_pair_key_fits(g2, r2);
    let k = identity_span();
    let a1 = g1 as int;
    let a2 = g2 as int;
    if a1 < a2 {
        assert(a1 * k + k <= a2 * k) by (nonlinear_arith)
            requires
                a1 + 1 <= a2,
                k > 0,
        ;
    } else if a2 < a1 {
        assert(a2 * k + k <= a1 * k) by (nonlinear_arith)
            requires
                a2 + 1 <= a1,
                k > 0,
        ;
    }
}

/// The key of any pair fits in a `u128`.
pub proof fn lemma_pair_key_fits(giver: u64, recipient: u64)
    ensures
        0 <= giver as int * identity_span() + recipient as int <= u128::MAX,
{
    let g = giver as int;
    let k = identity_span();
    assert(0 <= g * k <= (k - 1) * k) by (nonlinear_arith)
        requires
            0 <= g <= k - 1,
            k > 0,
    ;
}

/// Computes the storage key of the entry owned by the pair (giver, recipient).
pub fn pair_key(giver: u64, recipient: u64) -> (r: u128)
    ensures
        r == spec_pair_key(giver, recipient),
{
    proof {
        lemma_pair_key_fits(giver, recipient);
    }
    (giver as u128) * 0x1_0000_0000_0000_0000u128 + (recipient as u128)
}

} // verus!
