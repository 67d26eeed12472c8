use vstd::prelude::*;
use crate::types::ErrorCode;

verus! {

/// Basis points in one whole (100%).
pub const BPS_DENOMINATOR: u64 = 10000;

/// Probability, in basis points, of a market with no stake on either side.
pub const EVEN_ODDS: u64 = 5000;

/// The fee taken from `amount` at `fee_bps` basis points, rounded down.
pub open spec fn fee_of(amount: nat, fee_bps: nat) -> nat {
    amount * fee_bps / 10000
}

/// The simple stake ratio of "Yes", in basis points; even odds with no stake.
pub open spec fn initial_probability_of(yes: nat, no: nat) -> nat {
    if yes == 0 && no == 0 {
        5000
    } else {
        10000 * yes / (yes + no)
    }
}

/// What a winning stake of `amount` receives out of `total_pool`, when the
/// winning side holds `winning_pool`: its pro-rata share, rounded down.
pub open spec fn payout_of(amount: nat, total_pool: nat, winning_pool: nat) -> nat {
    amount * total_pool / winning_pool
}

/// Liquidity shares minted for a deposit of `amount` into a pool that holds
/// `locked` and has issued `supply` shares.
pub open spec fn lp_shares_of(amount: nat, locked: nat, supply: nat) -> nat {
    if supply == 0 {
        amount
    } else {
        amount * supply / locked
    }
}

/// Splits a gross bet into its net stake and the fee: `(net, fee)`.
pub fn split_fee(amount: u64, fee_bps: u16) -> (r: (u64, u64))
    requires
        fee_bps <= BPS_DENOMINATOR,
    ensures
        r.1 == fee_of(amount as nat, fee_bps as nat),
        r.0 + r.1 == amount,
{
    proof {
        let a = amount as nat;
        let f = fee_bps as nat;
        assert(a * f <= u64::MAX * 10000) by (nonlinear_arith)
            requires a <= u64::MAX, f <= 10000;
        assert(a * f <= a * 10000) by (nonlinear_arith)
            requires f <= 10000;
        assert(a * f / 10000 <= a) by (nonlinear_arith)
            requires a * f <= a * 10000;
    }
    let fee_wide: u128 = (amount as u128) * (fee_bps as u128) / 10000;
    let fee = fee_wide as u64;
    (amount - fee, fee)
}

/// Probability of "Yes" from the stake ratio, in basis points: 5000 when no
/// stake has been placed, else `10000 * yes / (yes + no)`.
pub fn calculate_initial_probability(yes_amount: u64, no_amount: u64) -> (r: u64)
    ensures
        r == initial_probability_of(yes_amount as nat, no_amount as nat),
        r <= BPS_DENOMINATOR,
{
    if yes_amount == 0 && no_amount == 0 {
        return EVEN_ODDS;
    }
    let total: u128 = yes_amount as u128 + no_amount as u128;
    proof {
        let y = yes_amount as nat;
        let t = total as nat;
        assert(10000 * y <= 10000 * t) by (nonlinear_arith)
            requires y <= t;
        assert(10000 * y / t <= 10000) by (nonlinear_arith)
            requires 10000 * y <= 10000 * t, t > 0;
    }
    (yes_amount as u128 * 10000 / total) as u64
}

/// The payout owed to a winning stake: `floor(amount * total_pool / winning_pool)`.
/// Fails with `DegeneratePool` when the winning side holds nothing, and with
/// `Overflow` when the payout does not fit in 64 bits.
pub fn calculate_payout(amount: u64, total_pool: u64, winning_pool: u64) -> (r: Result<u64, ErrorCode>)
    ensures
        winning_pool == 0 ==> r == Err::<u64, ErrorCode>(ErrorCode::DegeneratePool),
        winning_pool > 0 && payout_of(amount as nat, total_pool as nat, winning_pool as nat) <= u64::MAX
            ==> r == Ok::<u64, ErrorCode>(payout_of(amount as nat, total_pool as nat, winning_pool as nat) as u64),
        winning_pool > 0 && payout_of(amount as nat, total_pool as nat, winning_pool as nat) > u64::MAX
            ==> r == Err::<u64, ErrorCode>(ErrorCode::Overflow),
{
    if winning_pool == 0 {
        return Err(ErrorCode::DegeneratePool);
    }
    proof {
        let a = amount as nat;
        let t = total_pool as nat;
        assert(a * t <= u64::MAX * u64::MAX) by (nonlinear_arith)
            requires a <= u64::MAX, t <= u64::MAX;
    }
    let wide: u128 = amount as u128 * total_pool as u128 / winning_pool as u128;
    if wide > u64::MAX as u128 {
        Err(ErrorCode::Overflow)
    } else {
        Ok(wide as u64)
    }
}

/// Liquidity shares for a deposit: the deposit itself when no shares exist,
/// else `floor(amount * supply / locked)`. Fails with `DivideByZero` when
/// shares exist but nothing is locked, and with `Overflow` when the share
/// count does not fit in 64 bits.
pub fn calculate_lp_tokens(amount: u64, locked: u64, supply: u64) -> (r: Result<u64, ErrorCode>)
    ensures
        supply == 0 ==> r == Ok::<u64, ErrorCode>(amount),
        supply > 0 && locked == 0 ==> r == Err::<u64, ErrorCode>(ErrorCode::DivideByZero),
        supply > 0 && locked > 0 && lp_shares_of(amount as nat, locked as nat, supply as nat) <= u64::MAX
            ==> r == Ok::<u64, ErrorCode>(lp_shares_of(amount as nat, locked as nat, supply as nat) as u64),
        supply > 0 && locked > 0 && lp_shares_of(amount as nat, locked as nat, supply as nat) > u64::MAX
            ==> r == Err::<u64, ErrorCode>(ErrorCode::Overflow),
{
    if supply == 0 {
        return Ok(amount);
    }
    if locked == 0 {
        return Err(ErrorCode::DivideByZero);
    }
    proof {
        let a = amount as nat;
        let s = supply as nat;
        assert(a * s <= u64::MAX * u64::MAX) by (nonlinear_arith)
            requires a <= u64::MAX, s <= u64::MAX;
    }
    let wide: u128 = amount as u128 * supply as u128 / locked as u128;
    if wide > u64::MAX as u128 {
        Err(ErrorCode::Overflow)
    } else {
        Ok(wide as u64)
    }
}

} // verus!
