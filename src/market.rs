use vstd::prelude::*;
use crate::digest::{commitment_digest, commitment_of, fold_path, is_zero_key, keys_equal, leaf_hash, verify_merkle_proof};
use crate::math::{
    calculate_initial_probability, calculate_lp_tokens, calculate_payout, fee_of, lp_shares_of, payout_of,
    split_fee, EVEN_ODDS,
};
use crate::registry::NullifierRegistry;
use crate::types::{
    BetAccount, ErrorCode, Key, LiquidityAdded, Market, MarketResolved, Outcome, Vault, WinningsClaimed, MAX_FEE_BPS,
};

verus! {

// ----- vault -----

/// Why a vault configuration is refused, if it is.
pub open spec fn vault_config_error(fee_basis_points: u16, min_bet_amount: u64) -> Option<ErrorCode> {
    if fee_basis_points > MAX_FEE_BPS {
        Some(ErrorCode::InvalidFee)
    } else if min_bet_amount == 0 {
        Some(ErrorCode::InvalidMinBet)
    } else {
        None
    }
}

/// A fresh vault with zeroed totals.
pub open spec fn new_vault(authority: Key, merkle_root: Key, fee_basis_points: u16, min_bet_amount: u64, now: i64) -> Vault {
    Vault {
        authority,
        merkle_root,
        fee_basis_points,
        min_bet_amount,
        total_volume: 0,
        total_fees_collected: 0,
        nonce: 0,
        is_paused: false,
        creation_timestamp: now,
    }
}

/// Creates a vault; fails with `InvalidFee` above the fee cap and with
/// `InvalidMinBet` for a zero minimum bet.
pub fn initialize_vault(authority: Key, merkle_root: Key, fee_basis_points: u16, min_bet_amount: u64, now: i64) -> (r: Result<Vault, ErrorCode>)
    ensures
        match r {
            Ok(v) => vault_config_error(fee_basis_points, min_bet_amount) is None
                && v == new_vault(authority, merkle_root, fee_basis_points, min_bet_amount, now)
                && v.wf(),
            Err(e) => vault_config_error(fee_basis_points, min_bet_amount) == Some(e),
        },
{
    if fee_basis_points > MAX_FEE_BPS {
        return Err(ErrorCode::InvalidFee);
    }
    if min_bet_amount == 0 {
        return Err(ErrorCode::InvalidMinBet);
    }
    Ok(Vault {
        authority,
        merkle_root,
        fee_basis_points,
        min_bet_amount,
        total_volume: 0,
        total_fees_collected: 0,
        nonce: 0,
        is_paused: false,
        creation_timestamp: now,
    })
}

// ----- market creation -----

/// Why a market cannot be created, if it cannot.
pub open spec fn create_error(vault: Vault, resolution_time: i64, now: i64) -> Option<ErrorCode> {
    if vault.is_paused {
        Some(ErrorCode::VaultPaused)
    } else if resolution_time <= now {
        Some(ErrorCode::InvalidResolutionTime)
    } else {
        None
    }
}

/// A fresh market: no stake, no liquidity, even odds, unresolved.
pub open spec fn new_market(
    vault_key: Key,
    market_id: Key,
    resolution_time: i64,
    oracle: Key,
    commitment_hash: Key,
    creator: Key,
    now: i64,
) -> Market {
    Market {
        id: market_id,
        vault: vault_key,
        creator,
        oracle,
        resolution_time,
        commitment_hash,
        total_yes_amount: 0,
        total_no_amount: 0,
        is_resolved: false,
        winning_outcome: None,
        creation_timestamp: now,
        resolution_timestamp: 0,
        implied_probability: EVEN_ODDS,
        liquidity_locked: 0,
    }
}

/// Opens a market under `vault` that closes at `resolution_time`, which must
/// lie strictly after `now`.
pub fn create_market(
    vault: &Vault,
    vault_key: Key,
    market_id: Key,
    resolution_time: i64,
    oracle: Key,
    commitment_hash: Key,
    creator: Key,
    now: i64,
) -> (r: Result<Market, ErrorCode>)
    ensures
        match r {
            Ok(m) => create_error(*vault, resolution_time, now) is None
                && m == new_market(vault_key, market_id, resolution_time, oracle, commitment_hash, creator, now)
                && m.wf() && m.implied_probability == EVEN_ODDS,
            Err(e) => create_error(*vault, resolution_time, now) == Some(e),
        },
{
    if vault.is_paused {
        return Err(ErrorCode::VaultPaused);
    }
    if resolution_time <= now {
        return Err(ErrorCode::InvalidResolutionTime);
    }
    let implied_probability = calculate_initial_probability(0, 0);
    Ok(Market {
        id: market_id,
        vault: vault_key,
        creator,
        oracle,
        resolution_time,
        commitment_hash,
        total_yes_amount: 0,
        total_no_amount: 0,
        is_resolved: false,
        winning_outcome: None,
        creation_timestamp: now,
        resolution_timestamp: 0,
        implied_probability,
        liquidity_locked: 0,
    })
}

// ----- betting -----

/// The net stake of a bet of `amount` after the vault's fee.
pub open spec fn net_of(amount: u64, fee_bps: u16) -> nat {
    (amount - fee_of(amount as nat, fee_bps as nat)) as nat
}

/// Why a bet is refused, if it is. `proof_ok` tells whether the bettor's
/// allowlist proof verifies; it is read only where the vault is gated.
pub open spec fn bet_error(
    vault: Vault,
    market: Market,
    used: Set<Seq<u8>>,
    amount: u64,
    proof_ok: bool,
    nullifier: Key,
    now: i64,
) -> Option<ErrorCode> {
    if vault.is_paused {
        Some(ErrorCode::VaultPaused)
    } else if market.is_resolved {
        Some(ErrorCode::MarketResolved)
    } else if now >= market.resolution_time {
        Some(ErrorCode::MarketClosed)
    } else if amount < vault.min_bet_amount {
        Some(ErrorCode::BetTooSmall)
    } else if vault.is_gated() && !proof_ok {
        Some(ErrorCode::AllowlistRejected)
    } else if used.contains(nullifier@) {
        Some(ErrorCode::NullifierAlreadyUsed)
    } else if market.total_pool() + net_of(amount, vault.fee_basis_points) > u64::MAX
        || vault.total_volume + amount > u64::MAX {
        Some(ErrorCode::Overflow)
    } else {
        None
    }
}

/// The market after `net` more stake on `outcome`.
pub open spec fn market_after_bet(market: Market, outcome: Outcome, net: nat) -> Market {
    match outcome {
        Outcome::Yes => Market { total_yes_amount: (market.total_yes_amount + net) as u64, ..market },
        Outcome::No => Market { total_no_amount: (market.total_no_amount + net) as u64, ..market },
    }
}

/// The vault after accruing a bet of `amount` gross.
pub open spec fn vault_after_bet(vault: Vault, amount: u64) -> Vault {
    Vault {
        total_volume: (vault.total_volume + amount) as u64,
        total_fees_collected: (vault.total_fees_collected + fee_of(amount as nat, vault.fee_basis_points as nat)) as u64,
        ..vault
    }
}

/// The record of a new bet; it carries the market's odds at placement.
pub open spec fn new_bet(market: Market, bettor: Key, net: nat, outcome: Outcome, nullifier: Key, now: i64) -> BetAccount {
    BetAccount {
        market: market.id,
        bettor,
        amount: net as u64,
        outcome,
        timestamp: now,
        odds: market.implied_probability,
        nullifier,
        is_claimed: false,
        claimed_amount: 0,
        claimed_timestamp: 0,
    }
}

/// What a bet does: on success the stake, vault totals and registry move
/// together and the new bet is returned; on failure nothing moves.
pub open spec fn bet_step(
    v0: Vault,
    m0: Market,
    used0: Set<Seq<u8>>,
    v1: Vault,
    m1: Market,
    used1: Set<Seq<u8>>,
    bettor: Key,
    amount: u64,
    outcome: Outcome,
    proof_ok: bool,
    nullifier: Key,
    now: i64,
    r: Result<BetAccount, ErrorCode>,
) -> bool {
    let net = net_of(amount, v0.fee_basis_points);
    match r {
        Ok(bet) => {
            &&& bet_error(v0, m0, used0, amount, proof_ok, nullifier, now) is None
            &&& bet == new_bet(m0, bettor, net, outcome, nullifier, now)
            &&& v1 == vault_after_bet(v0, amount)
            &&& m1 == market_after_bet(m0, outcome, net)
            &&& used1 == used0.insert(nullifier@)
        },
        Err(e) => {
            &&& bet_error(v0, m0, used0, amount, proof_ok, nullifier, now) == Some(e)
            &&& v1 == v0
            &&& m1 == m0
            &&& used1 == used0
        },
    }
}

/// Places a bet whose allowlist verdict is already known (`proof_ok`).
/// Checks, in order: pause, resolution, closing time, minimum bet,
/// allowlist, nullifier reuse and overflow; then takes the fee, adds the net
/// stake to the chosen side, accrues the vault totals and consumes the
/// nullifier. The market's odds are left as they were.
pub fn place_bet_checked(
    vault: &mut Vault,
    market: &mut Market,
    registry: &mut NullifierRegistry,
    bettor: Key,
    amount: u64,
    outcome: Outcome,
    proof_ok: bool,
    nullifier: Key,
    now: i64,
) -> (r: Result<BetAccount, ErrorCode>)
    requires
        old(vault).wf(),
        old(market).wf(),
        old(registry).wf(),
    ensures
        final(vault).wf(),
        final(market).wf(),
        final(registry).wf(),
        bet_step(
            *old(vault), *old(market), old(registry)@, *final(vault), *final(market), final(registry)@,
            bettor, amount, outcome, proof_ok, nullifier, now, r,
        ),
        r is Err ==> *final(registry) == *old(registry),
{
    if vault.is_paused {
        return Err(ErrorCode::VaultPaused);
    }
    if market.is_resolved {
        return Err(ErrorCode::MarketResolved);
    }
    if now >= market.resolution_time {
        return Err(ErrorCode::MarketClosed);
    }
    if amount < vault.min_bet_amount {
        return Err(ErrorCode::BetTooSmall);
    }
    if !is_zero_key(&vault.merkle_root) && !proof_ok {
        return Err(ErrorCode::AllowlistRejected);
    }
    if registry.is_used(&nullifier) {
        return Err(ErrorCode::NullifierAlreadyUsed);
    }
    let (bet_amount, fee_amount) = split_fee(amount, vault.fee_basis_points);
    if market.total_yes_amount as u128 + market.total_no_amount as u128 + bet_amount as u128 > u64::MAX as u128
        || vault.total_volume as u128 + amount as u128 > u64::MAX as u128 {
        return Err(ErrorCode::Overflow);
    }
    match registry.consume(&nullifier) {
        Ok(()) => {},
        Err(e) => return Err(e),
    }
    match outcome {
        Outcome::Yes => market.total_yes_amount = market.total_yes_amount + bet_amount,
        Outcome::No => market.total_no_amount = market.total_no_amount + bet_amount,
    }
    vault.accrue(amount, fee_amount);
    Ok(BetAccount {
        market: market.id,
        bettor,
        amount: bet_amount,
        outcome,
        timestamp: now,
        odds: market.implied_probability,
        nullifier,
        is_claimed: false,
        claimed_amount: 0,
        claimed_timestamp: 0,
    })
}

/// Whether `proof` admits `bettor` to the vault's allowlist.
pub open spec fn allowlisted(vault: Vault, bettor: Key, proof: Seq<Key>) -> bool {
    fold_path(leaf_hash(bettor@), proof) == vault.merkle_root@
}

/// Places a bet: as `place_bet_checked`, where the allowlist verdict is
/// whether `proof` leads from the bettor's leaf to the vault's root. With
/// the all-zero root no proof is asked for.
pub fn place_bet(
    vault: &mut Vault,
    market: &mut Market,
    registry: &mut NullifierRegistry,
    bettor: Key,
    amount: u64,
    outcome: Outcome,
    proof: &Vec<Key>,
    nullifier: Key,
    now: i64,
) -> (r: Result<BetAccount, ErrorCode>)
    requires
        old(vault).wf(),
        old(market).wf(),
        old(registry).wf(),
    ensures
        final(vault).wf(),
        final(market).wf(),
        final(registry).wf(),
        bet_step(
            *old(vault), *old(market), old(registry)@, *final(vault), *final(market), final(registry)@,
            bettor, amount, outcome, allowlisted(*old(vault), bettor, proof@), nullifier, now, r,
        ),
        r is Err ==> *final(registry) == *old(registry),
{
    let proof_ok = if is_zero_key(&vault.merkle_root) {
        true
    } else {
        verify_merkle_proof(proof, &vault.merkle_root, &bettor)
    };
    place_bet_checked(vault, market, registry, bettor, amount, outcome, proof_ok, nullifier, now)
}

/// Records the odds recomputed after a bet, on the market and on the bet.
pub fn record_odds(market: &mut Market, bet: &mut BetAccount, odds: u64)
    requires
        old(market).wf(),
        odds <= 10000,
    ensures
        final(market).wf(),
        *final(market) == (Market { implied_probability: odds, ..*old(market) }),
        *final(bet) == (BetAccount { odds, ..*old(bet) }),
{
    market.implied_probability = odds;
    bet.odds = odds;
}

// ----- resolution -----

/// Why a resolution is refused, if it is. `reveal_digest` is the digest of
/// the revealed value and `signature_ok` the verdict on the oracle's
/// signature over the market and outcome.
pub open spec fn resolve_error(market: Market, signature_ok: bool, reveal_digest: Seq<u8>, caller: Key, now: i64) -> Option<ErrorCode> {
    if market.is_resolved {
        Some(ErrorCode::MarketAlreadyResolved)
    } else if now < market.resolution_time {
        Some(ErrorCode::TooEarlyToResolve)
    } else if caller@ != market.oracle@ {
        Some(ErrorCode::UnauthorizedOracle)
    } else if reveal_digest != market.commitment_hash@ {
        Some(ErrorCode::InvalidReveal)
    } else if !signature_ok {
        Some(ErrorCode::InvalidSignature)
    } else {
        None
    }
}

/// The market once resolved in favour of `outcome` at `now`.
pub open spec fn resolved_market(market: Market, outcome: Outcome, now: i64) -> Market {
    Market { is_resolved: true, winning_outcome: Some(outcome), resolution_timestamp: now, ..market }
}

/// What a resolution does: on success the market is resolved once and for
/// all and a notice is returned; on failure nothing moves.
pub open spec fn resolve_step(
    m0: Market,
    m1: Market,
    outcome: Outcome,
    signature_ok: bool,
    reveal_digest: Seq<u8>,
    caller: Key,
    now: i64,
    r: Result<MarketResolved, ErrorCode>,
) -> bool {
    match r {
        Ok(ev) => {
            &&& resolve_error(m0, signature_ok, reveal_digest, caller, now) is None
            &&& m1 == resolved_market(m0, outcome, now)
            &&& ev == (MarketResolved {
                market: m0.id,
                winning_outcome: outcome,
                total_yes: m0.total_yes_amount,
                total_no: m0.total_no_amount,
                timestamp: now,
            })
        },
        Err(e) => resolve_error(m0, signature_ok, reveal_digest, caller, now) == Some(e) && m1 == m0,
    }
}

/// Resolves a market given the digest of the revealed value.
pub fn resolve_market_checked(
    market: &mut Market,
    winning_outcome: Outcome,
    signature_ok: bool,
    reveal_digest: Key,
    caller: Key,
    now: i64,
) -> (r: Result<MarketResolved, ErrorCode>)
    requires
        old(market).wf(),
    ensures
        final(market).wf(),
        resolve_step(*old(market), *final(market), winning_outcome, signature_ok, reveal_digest@, caller, now, r),
{
    if market.is_resolved {
        return Err(ErrorCode::MarketAlreadyResolved);
    }
    if now < market.resolution_time {
        return Err(ErrorCode::TooEarlyToResolve);
    }
    if !keys_equal(&caller, &market.oracle) {
        return Err(ErrorCode::UnauthorizedOracle);
    }
    if !keys_equal(&reveal_digest, &market.commitment_hash) {
        return Err(ErrorCode::InvalidReveal);
    }
    if !signature_ok {
        return Err(ErrorCode::InvalidSignature);
    }
    market.is_resolved = true;
    market.winning_outcome = Some(winning_outcome);
    market.resolution_timestamp = now;
    Ok(MarketResolved {
        market: market.id,
        winning_outcome,
        total_yes: market.total_yes_amount,
        total_no: market.total_no_amount,
        timestamp: now,
    })
}

/// Resolves a market: the oracle reveals the value it committed to at
/// creation, whose digest must equal the market's commitment.
pub fn resolve_market(
    market: &mut Market,
    winning_outcome: Outcome,
    signature_ok: bool,
    reveal_value: Key,
    caller: Key,
    now: i64,
) -> (r: Result<MarketResolved, ErrorCode>)
    requires
        old(market).wf(),
    ensures
        final(market).wf(),
        resolve_step(*old(market), *final(market), winning_outcome, signature_ok, commitment_of(reveal_value@), caller, now, r),
{
    let digest = commitment_digest(&reveal_value);
    resolve_market_checked(market, winning_outcome, signature_ok, digest, caller, now)
}

// ----- claims -----

/// What a winning bet is paid out of the market.
pub open spec fn claim_payout(market: Market, bet: BetAccount) -> nat {
    payout_of(bet.amount as nat, market.total_pool(), market.winning_pool())
}

/// Why a claim is refused, if it is. `proof_ok` is the verdict on the
/// claimant's proof of ownership of the bet.
pub open spec fn claim_error(market: Market, bet: BetAccount, proof_ok: bool) -> Option<ErrorCode> {
    if !market.is_resolved {
        Some(ErrorCode::MarketNotResolved)
    } else if bet.is_claimed {
        Some(ErrorCode::AlreadyClaimed)
    } else if market.winning_outcome != Some(bet.outcome) {
        Some(ErrorCode::NotWinner)
    } else if !proof_ok {
        Some(ErrorCode::ProofRejected)
    } else if market.winning_pool() == 0 {
        Some(ErrorCode::DegeneratePool)
    } else if claim_payout(market, bet) > u64::MAX {
        Some(ErrorCode::Overflow)
    } else {
        None
    }
}

/// The bet once settled with `payout` at `now`.
pub open spec fn claimed_bet(bet: BetAccount, payout: nat, now: i64) -> BetAccount {
    BetAccount { is_claimed: true, claimed_amount: payout as u64, claimed_timestamp: now, ..bet }
}

/// Settles a winning bet: pays its pro-rata share of the whole pool, marks it
/// claimed, and returns the notice that carries the amount to transfer.
pub fn claim_winnings(
    market: &Market,
    bet: &mut BetAccount,
    claimant: Key,
    proof_ok: bool,
    now: i64,
) -> (r: Result<WinningsClaimed, ErrorCode>)
    requires
        market.wf(),
    ensures
        match r {
            Ok(ev) => {
                &&& claim_error(*market, *old(bet), proof_ok) is None
                &&& *final(bet) == claimed_bet(*old(bet), claim_payout(*market, *old(bet)), now)
                &&& ev == (WinningsClaimed {
                    market: market.id,
                    claimant,
                    amount: claim_payout(*market, *old(bet)) as u64,
                    timestamp: now,
                })
            },
            Err(e) => claim_error(*market, *old(bet), proof_ok) == Some(e) && *final(bet) == *old(bet),
        },
{
    if !market.is_resolved {
        return Err(ErrorCode::MarketNotResolved);
    }
    if bet.is_claimed {
        return Err(ErrorCode::AlreadyClaimed);
    }
    let winner = match market.winning_outcome {
        Some(o) => o,
        None => return Err(ErrorCode::MarketNotResolved),
    };
    if bet.outcome != winner {
        return Err(ErrorCode::NotWinner);
    }
    if !proof_ok {
        return Err(ErrorCode::ProofRejected);
    }
    let total_pool = market.total_yes_amount + market.total_no_amount;
    let winning_pool = match winner {
        Outcome::Yes => market.total_yes_amount,
        Outcome::No => market.total_no_amount,
    };
    let winnings = match calculate_payout(bet.amount, total_pool, winning_pool) {
        Ok(w) => w,
        Err(e) => return Err(e),
    };
    bet.is_claimed = true;
    bet.claimed_amount = winnings;
    bet.claimed_timestamp = now;
    Ok(WinningsClaimed { market: market.id, claimant, amount: winnings, timestamp: now })
}

// ----- liquidity -----

/// Why a liquidity deposit is refused, if it is.
pub open spec fn liquidity_error(market: Market, amount: u64, lp_supply: u64) -> Option<ErrorCode> {
    if lp_supply > 0 && market.liquidity_locked == 0 {
        Some(ErrorCode::DivideByZero)
    } else if lp_shares_of(amount as nat, market.liquidity_locked as nat, lp_supply as nat) > u64::MAX
        || market.liquidity_locked + amount > u64::MAX {
        Some(ErrorCode::Overflow)
    } else {
        None
    }
}

/// Deposits `amount` of liquidity into the market's curve and returns the
/// notice with the shares minted against a share supply of `lp_supply`.
pub fn add_liquidity(
    market: &mut Market,
    amount: u64,
    lp_supply: u64,
    provider: Key,
    now: i64,
) -> (r: Result<LiquidityAdded, ErrorCode>)
    requires
        old(market).wf(),
    ensures
        final(market).wf(),
        match r {
            Ok(ev) => {
                &&& liquidity_error(*old(market), amount, lp_supply) is None
                &&& *final(market) == (Market { liquidity_locked: (old(market).liquidity_locked + amount) as u64, ..*old(market) })
                &&& ev == (LiquidityAdded {
                    market: old(market).id,
                    provider,
                    amount,
                    lp_tokens: lp_shares_of(amount as nat, old(market).liquidity_locked as nat, lp_supply as nat) as u64,
                    timestamp: now,
                })
            },
            Err(e) => liquidity_error(*old(market), amount, lp_supply) == Some(e) && *final(market) == *old(market),
        },
{
    let lp_tokens = match calculate_lp_tokens(amount, market.liquidity_locked, lp_supply) {
        Ok(t) => t,
        Err(e) => return Err(e),
    };
    if market.liquidity_locked as u128 + amount as u128 > u64::MAX as u128 {
        return Err(ErrorCode::Overflow);
    }
    market.liquidity_locked = market.liquidity_locked + amount;
    Ok(LiquidityAdded { market: market.id, provider, amount, lp_tokens, timestamp: now })
}

} // verus!
