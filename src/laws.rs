use vstd::prelude::*;
use crate::market::{
    bet_error, claim_error, claim_payout, claimed_bet, market_after_bet, net_of, vault_after_bet,
};
use crate::types::{BetAccount, ErrorCode, Key, Market, Outcome, Vault};

verus! {

/// A bet that was claimed once is refused with `AlreadyClaimed` from then on,
/// whatever proof comes with the second claim.
pub proof fn lemma_claim_only_once(market: Market, bet: BetAccount, proof_ok: bool, proof_ok_again: bool, now: i64)
    requires
        claim_error(market, bet, proof_ok) is None,
    ensures
        claim_error(market, claimed_bet(bet, claim_payout(market, bet), now), proof_ok_again)
            == Some(ErrorCode::AlreadyClaimed),
{
}

/// Once a bet has consumed a nullifier, the same bet placed again is refused
/// with `NullifierAlreadyUsed`.
pub proof fn lemma_nullifier_only_once(
    vault: Vault,
    market: Market,
    used: Set<Seq<u8>>,
    amount: u64,
    outcome: Outcome,
    proof_ok: bool,
    nullifier: Key,
    now: i64,
)
    requires
        bet_error(vault, market, used, amount, proof_ok, nullifier, now) is None,
    ensures
        bet_error(
            vault_after_bet(vault, amount),
            market_after_bet(market, outcome, net_of(amount, vault.fee_basis_points)),
            used.insert(nullifier@),
            amount,
            proof_ok,
            nullifier,
            now,
        ) == Some(ErrorCode::NullifierAlreadyUsed),
{
}

/// An outcome read back from its stored code is the outcome that was stored.
pub proof fn lemma_outcome_code_round_trip(outcome: Outcome)
    ensures
        Outcome::of_code(outcome.code_of()) == Some(outcome),
{
}

/// The net stakes of a list of bets.
pub open spec fn sum_stakes(bets: Seq<BetAccount>) -> nat
    decreases bets.len(),
{
    if bets.len() == 0 {
        0
    } else {
        sum_stakes(bets.drop_last()) + bets.last().amount as nat
    }
}

/// What a list of bets is paid when each is claimed on `market`.
pub open spec fn sum_payouts(market: Market, bets: Seq<BetAccount>) -> nat
    decreases bets.len(),
{
    if bets.len() == 0 {
        0
    } else {
        sum_payouts(market, bets.drop_last()) + claim_payout(market, bets.last())
    }
}

proof fn lemma_payouts_scaled(market: Market, bets: Seq<BetAccount>)
    requires
        market.winning_pool() > 0,
    ensures
        sum_payouts(market, bets) * market.winning_pool() <= sum_stakes(bets) * market.total_pool(),
    decreases bets.len(),
{
    if bets.len() > 0 {
        let rest = bets.drop_last();
        lemma_payouts_scaled(market, rest);
        let w = market.winning_pool() as int;
        let t = market.total_pool() as int;
        let a = bets.last().amount as int;
        let sp = sum_payouts(market, rest) as int;
        let ss = sum_stakes(rest) as int;
        assert((a * t / w) * w <= a * t) by (nonlinear_arith)
            requires w > 0, a >= 0, t >= 0;
        assert((sp + a * t / w) * w <= (ss + a) * t) by (nonlinear_arith)
            requires sp * w <= ss * t, (a * t / w) * w <= a * t;
        assert(claim_payout(market, bets.last()) == a * t / w);
        assert(sum_payouts(market, bets) == sp + a * t / w);
        assert(sum_stakes(bets) == ss + a);
    } else {
        assert(sum_payouts(market, bets) == 0);
        assert(sum_stakes(bets) == 0);
        assert(0 * market.winning_pool() <= 0 * market.total_pool()) by (nonlinear_arith);
    }
}

/// Conservation of the pool: the winners of a resolved market, each of whose
/// bets could be claimed and whose stakes together are at most the winning
/// side's total, are paid together no more than the whole pool.
pub proof fn lemma_payouts_within_pool(market: Market, winners: Seq<BetAccount>)
    requires
        market.wf(),
        forall|i: int| 0 <= i < winners.len() ==> claim_error(market, #[trigger] winners[i], true) is None,
        sum_stakes(winners) <= market.winning_pool(),
    ensures
        sum_payouts(market, winners) <= market.total_pool(),
{
    if winners.len() > 0 {
        assert(claim_error(market, winners[0], true) is None);
        lemma_payouts_scaled(market, winners);
        let w = market.winning_pool() as int;
        let t = market.total_pool() as int;
        let p = sum_payouts(market, winners) as int;
        let s = sum_stakes(winners) as int;
        assert(p <= t) by (nonlinear_arith)
            requires p * w <= s * t, s <= w, w > 0, t >= 0, p >= 0;
    }
}

} // verus!
