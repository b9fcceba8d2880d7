//! Sizing of the proving domain: the subgroup size of a circuit is the smallest
//! power of two that is not below the circuit's total size.

use vstd::prelude::*;
use vstd::arithmetic::power2::{lemma2_to64, lemma_pow2_strictly_increases, lemma_pow2_unfold, pow2};

verus! {

/// The largest subgroup size that fits the backend's 32-bit size: `2^31`.
pub const MAX_SUBGROUP_SIZE: u32 = 0x8000_0000;

/// Whether `n` is `2^k` for some `k`.
pub open spec fn is_power_of_two(n: int) -> bool {
    exists|k: nat| n == pow2(k)
}

/// Whether `size` is the smallest power of two that is not below `total`.
pub open spec fn is_least_power_of_two_from(size: int, total: int) -> bool {
    &&& is_power_of_two(size)
    &&& size >= total
    &&& forall|other: int| is_power_of_two(other) && other >= total ==> size <= other
}

/// The base-2 logarithm of `n`, rounded up; `0` for `n <= 1`.
pub open spec fn ceil_log2(n: nat) -> nat
    decreases n,
{
    if n <= 1 {
        0
    } else {
        1 + ceil_log2((n + 1) / 2)
    }
}

/// The subgroup size of a circuit of `total` gates: `2^ceil(log2(total))`.
pub open spec fn spec_subgroup_size(total: nat) -> nat {
    pow2(ceil_log2(total))
}

/// `2^ceil_log2(n)` reaches `n`, and the power of two below it does not.
pub proof fn lemma_ceil_log2_brackets(n: nat)
    requires
        n >= 1,
    ensures
        pow2(ceil_log2(n)) >= n,
        ceil_log2(n) > 0 ==> pow2((ceil_log2(n) - 1) as nat) < n,
    decreases n,
{
    if n == 1 {
        lemma2_to64();
    } else {
        let half: nat = (n + 1) / 2;
        lemma_ceil_log2_brackets(half);
        lemma_pow2_unfold(ceil_log2(n));
        if ceil_log2(half) > 0 {
            lemma_pow2_unfold(ceil_log2(half));
        } else {
            lemma2_to64();
        }
    }
}

/// Only one exponent brackets `n` between two neighbouring powers of two.
proof fn lemma_bracket_is_unique(n: nat, a: nat, b: nat)
    requires
        pow2(a) >= n,
        a > 0 ==> pow2((a - 1) as nat) < n,
        pow2(b) >= n,
        b > 0 ==> pow2((b - 1) as nat) < n,
    ensures
        a == b,
{
    if a < b {
        if a < b - 1 {
            lemma_pow2_strictly_increases(a, (b - 1) as nat);
        }
    } else if b < a {
        if b < a - 1 {
            lemma_pow2_strictly_increases(b, (a - 1) as nat);
        }
    }
}

/// The subgroup size is the smallest power of two that is not below the
/// circuit's size: it is a power of two, it reaches `total`, and no power of two
/// that reaches `total` is smaller.
pub proof fn lemma_subgroup_size_is_least(total: nat)
    requires
        total >= 1,
    ensures
        is_least_power_of_two_from(spec_subgroup_size(total) as int, total as int),
{
    let k = ceil_log2(total);
    lemma_ceil_log2_brackets(total);
    assert(is_power_of_two(pow2(k) as int));
    assert forall|other: int| is_power_of_two(other) && other >= total implies pow2(k) <= other by {
        let j = choose|j: nat| other == pow2(j);
        if j < k {
            if j < k - 1 {
                lemma_pow2_strictly_increases(j, (k - 1) as nat);
            }
        } else if k < j {
            lemma_pow2_strictly_increases(k, j);
        }
    }
}

/// A size that is already a power of two is its own subgroup size.
pub proof fn lemma_subgroup_size_of_power_of_two(k: nat)
    ensures
        spec_subgroup_size(pow2(k)) == pow2(k),
{
    let n = pow2(k);
    vstd::arithmetic::power2::lemma_pow2_pos(k);
    lemma_ceil_log2_brackets(n);
    if k > 0 {
        lemma_pow2_strictly_increases((k - 1) as nat, k);
    }
    lemma_bracket_is_unique(n, ceil_log2(n), k);
}

/// The subgroup size for a circuit of `total` gates: `2^ceil(log2(total))`, the
/// smallest power of two that is not below `total`.
///
/// A circuit without gates has no subgroup size, and neither has one whose
/// subgroup size would not fit in 32 bits: both give `None`.
pub fn subgroup_size(total: u32) -> (r: Option<u32>)
    ensures
        r is Some <==> 1 <= total <= MAX_SUBGROUP_SIZE,
        r matches Some(size) ==> {
            &&& size == spec_subgroup_size(total as nat)
            &&& is_least_power_of_two_from(size as int, total as int)
            &&& size <= MAX_SUBGROUP_SIZE
        },
{
    if total == 0 || total > MAX_SUBGROUP_SIZE {
        return None;
    }
    let mut size: u32 = 1;
    let ghost mut exponent: nat = 0;
    proof {
        lemma2_to64();
    }
    while size < total
        invariant
            1 <= total <= MAX_SUBGROUP_SIZE,
            1 <= size,
            size == pow2(exponent),
            exponent > 0 ==> pow2((exponent - 1) as nat) < total,
        decreases
            if size < total {
                total - size
            } else {
                0
            },
    {
        proof {
            lemma_pow2_unfold(exponent + 1);
            exponent = exponent + 1;
        }
        size = 2 * size;
    }
    proof {
        lemma_ceil_log2_brackets(total as nat);
        lemma_bracket_is_unique(total as nat, exponent, ceil_log2(total as nat));
        lemma_subgroup_size_is_least(total as nat);
        assert(is_power_of_two(MAX_SUBGROUP_SIZE as int)) by {
            assert(MAX_SUBGROUP_SIZE == pow2(31));
        }
    }
    Some(size)
}

} // verus!
