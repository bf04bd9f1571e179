//! The reward estimates of a mixnode's economic statistics, kept as whole
//! `u64` units for compatibility: each already truncated estimate is narrowed
//! from `u128` to `u64` the way an `as u64` cast narrows it, keeping its low 64 bits.

use vstd::prelude::*;

verus! {

/// The estimated rewards of a mixnode for the current interval, in whole units.
#[derive(Clone, Copy, Debug, PartialEq, Eq)]
pub struct EstimatedRewards {
    pub total_node_reward: u64,
    pub operator: u64,
    pub delegates: u64,
}

/// The low 64 bits of an amount.
pub open spec fn low_64_bits(amount: u128) -> int {
    amount as int % 0x1_0000_0000_0000_0000
}

/// The low 64 bits of an amount, as `amount as u64` gives them.
pub fn compat_amount(amount: u128) -> (res: u64)
    ensures
        res == low_64_bits(amount),
{
    let res = amount as u64;
    assert(res == amount % 0x1_0000_0000_0000_0000) by (bit_vector)
        requires
            res == amount as u64,
    ;
    res
}

/// The estimates of total node reward, operator reward and delegators' reward,
/// each already truncated to whole units, narrowed to `u64`.
pub fn estimated_rewards(total_node_reward: u128, operator: u128, delegates: u128) -> (res:
    EstimatedRewards)
    ensures
        res.total_node_reward == low_64_bits(total_node_reward),
        res.operator == low_64_bits(operator),
        res.delegates == low_64_bits(delegates),
{
    EstimatedRewards {
        total_node_reward: compat_amount(total_node_reward),
        operator: compat_amount(operator),
        delegates: compat_amount(delegates),
    }
}

/// Narrowing keeps an amount that fits in 64 bits, and otherwise differs from
/// the amount by a multiple of 2^64 while staying below 2^64.
pub proof fn lemma_low_64_bits_narrows(amount: u128)
    ensures
        0 <= low_64_bits(amount) < 0x1_0000_0000_0000_0000,
        (amount - low_64_bits(amount)) % 0x1_0000_0000_0000_0000 == 0,
        amount < 0x1_0000_0000_0000_0000 ==> low_64_bits(amount) == amount,
{
    let m: int = 0x1_0000_0000_0000_0000;
    let a: int = amount as int;
    assert(a == m * (a / m) + a % m);
    assert((a - a % m) == m * (a / m));
    assert((m * (a / m)) % m == 0) by (nonlinear_arith)
        requires
            m > 0,
    ;
}

} // verus!
