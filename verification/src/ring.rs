//! Sizing of the kernel delivery channel.
//!
//! The channel only takes a power-of-two number of entries, so a requested
//! capacity is rounded up, never down, and never below a fixed floor.

use vstd::prelude::*;
use vstd::arithmetic::power2::{lemma2_to64, lemma_pow2_strictly_increases, lemma_pow2_unfold, pow2};

verus! {

/// The fewest entries a delivery channel is ever given.
pub const MIN_RING_ENTRIES: u64 = 4096;

/// The largest power of two that a channel's entry count can hold.
pub const MAX_POWER_OF_TWO_ENTRIES: u64 = 0x8000_0000;

/// `n` is 1, 2, 4, 8, ...
pub open spec fn is_power_of_two(n: nat) -> bool {
    exists|k: nat| n == pow2(k)
}

/// `p` is a power of two, is at least `n`, and no smaller power of two is.
pub open spec fn is_smallest_power_of_two_at_least(p: nat, n: nat) -> bool {
    &&& is_power_of_two(p)
    &&& p >= n
    &&& forall|q: nat| is_power_of_two(q) && q >= n ==> p <= q
}

/// The capacity that is rounded up: the request, or the floor if that is more.
pub open spec fn wanted_entries(requested: u64) -> nat {
    if requested < MIN_RING_ENTRIES {
        MIN_RING_ENTRIES as nat
    } else {
        requested as nat
    }
}

/// `entries` is the capacity that a request for `requested` entries is given:
/// the smallest power of two that reaches the request and the floor or,
/// where that power does not fit the entry count, the largest count there is.
pub open spec fn is_ring_capacity(entries: u32, requested: u64) -> bool {
    if wanted_entries(requested) <= MAX_POWER_OF_TWO_ENTRIES {
        is_smallest_power_of_two_at_least(entries as nat, wanted_entries(requested))
    } else {
        entries == u32::MAX
    }
}

/// A power of two that reaches `n`, while the power before it does not, is
/// the smallest power of two that reaches `n`.
proof fn lemma_smallest_by_predecessor(k: nat, n: nat)
    requires
        pow2(k) >= n,
        k > 0 ==> pow2((k - 1) as nat) < n,
        k == 0 ==> n >= 1,
    ensures
        is_smallest_power_of_two_at_least(pow2(k), n),
{
    assert forall|q: nat| is_power_of_two(q) && q >= n implies pow2(k) <= q by {
        let j = choose|j: nat| q == pow2(j);
        if j < k {
            if j < k - 1 {
                lemma_pow2_strictly_increases(j, (k - 1) as nat);
            }
        } else if j > k {
            lemma_pow2_strictly_increases(k, j);
        }
    }
}

/// The number of entries a channel is created with when `requested` entries
/// are asked for.
///
/// The result is the smallest power of two that is at least `requested` and
/// at least [`MIN_RING_ENTRIES`]. Where that power no longer fits the entry
/// count, the result is the largest count there is.
pub fn ring_capacity(requested: u64) -> (entries: u32)
    ensures
        is_ring_capacity(entries, requested),
{
    let wanted: u64 = if requested < MIN_RING_ENTRIES {
        MIN_RING_ENTRIES
    } else {
        requested
    };
    if wanted > MAX_POWER_OF_TWO_ENTRIES {
        return u32::MAX;
    }
    let mut entries: u32 = MIN_RING_ENTRIES as u32;
    let ghost mut exponent: nat = 12;
    proof {
        lemma2_to64();
    }
    while (entries as u64) < wanted
        invariant
            entries as nat == pow2(exponent),
            12 <= exponent <= 31,
            wanted == wanted_entries(requested),
            MIN_RING_ENTRIES <= wanted <= MAX_POWER_OF_TWO_ENTRIES,
            exponent > 12 ==> pow2((exponent - 1) as nat) < wanted,
        decreases 31 - exponent,
    {
        proof {
            lemma2_to64();
            lemma_pow2_unfold(exponent + 1);
            if exponent + 1 < 31 {
                lemma_pow2_strictly_increases(exponent + 1, 31);
            }
            exponent = exponent + 1;
        }
        entries = entries * 2;
    }
    proof {
        lemma2_to64();
        if exponent == 12 {
            lemma_pow2_unfold(12);
        }
        lemma_smallest_by_predecessor(exponent, wanted as nat);
    }
    entries
}

/// For every request up to the largest power of two that the entry count can
/// hold, the capacity is a power of two, reaches both the request and the
/// floor, and is the smallest number that does: no power of two that reaches
/// both is smaller.
pub proof fn lemma_capacity_is_smallest_power_of_two(entries: u32, requested: u64)
    requires
        is_ring_capacity(entries, requested),
        requested <= MAX_POWER_OF_TWO_ENTRIES,
    ensures
        is_power_of_two(entries as nat),
        entries >= requested,
        entries >= MIN_RING_ENTRIES,
        entries <= u32::MAX,
        forall|q: nat|
            is_power_of_two(q) && q >= requested && q >= MIN_RING_ENTRIES ==> entries <= q,
{
}

/// A request has one capacity.
pub proof fn lemma_capacity_is_unique(first: u32, second: u32, requested: u64)
    requires
        is_ring_capacity(first, requested),
        is_ring_capacity(second, requested),
    ensures
        first == second,
{
}

} // verus!
