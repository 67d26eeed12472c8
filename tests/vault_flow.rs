use yes_no_vault::digest::{commitment_digest, is_zero_key, key_less, keys_equal, leaf_digest, node_digest, verify_merkle_proof};
use yes_no_vault::market::{
    add_liquidity, claim_winnings, create_market, initialize_vault, place_bet, place_bet_checked, record_odds,
    resolve_market, resolve_market_checked,
};
use yes_no_vault::math::{calculate_initial_probability, calculate_lp_tokens, calculate_payout, split_fee};
use yes_no_vault::registry::NullifierRegistry;
use yes_no_vault::types::{BetAccount, ErrorCode, Key, Market, MarketPhase, Outcome, Vault};

const NOW: i64 = 1_700_000_000;

fn key(b: u8) -> Key {
    [b; 32]
}

fn open_vault(fee_bps: u16, min_bet: u64) -> Vault {
    initialize_vault(key(1), [0u8; 32], fee_bps, min_bet, NOW).unwrap()
}

fn open_market(vault: &Vault, reveal: Key) -> Market {
    create_market(vault, key(2), key(3), NOW + 3600, key(4), commitment_digest(&reveal), key(5), NOW).unwrap()
}

fn bet(
    vault: &mut Vault,
    market: &mut Market,
    registry: &mut NullifierRegistry,
    amount: u64,
    outcome: Outcome,
    nullifier: u8,
) -> Result<BetAccount, ErrorCode> {
    place_bet(vault, market, registry, key(9), amount, outcome, &Vec::new(), key(nullifier), NOW + 10)
}

#[test]
fn initial_probability_is_even_without_stake() {
    assert_eq!(calculate_initial_probability(0, 0), 5000);
    assert_eq!(calculate_initial_probability(3, 1), 7500);
    assert_eq!(calculate_initial_probability(0, 7), 0);
    assert_eq!(calculate_initial_probability(u64::MAX, u64::MAX), 5000);
    let vault = open_vault(100, 10);
    assert_eq!(open_market(&vault, key(7)).implied_probability, 5000);
}

#[test]
fn fee_split_is_exact() {
    assert_eq!(split_fee(1000, 100), (990, 10));
    assert_eq!(split_fee(999, 100), (990, 9));
    assert_eq!(split_fee(0, 1000), (0, 0));
    assert_eq!(split_fee(u64::MAX, 1000), (u64::MAX - u64::MAX / 10, u64::MAX / 10));
    for amount in [1u64, 7, 10, 12345, 99_999] {
        let (net, fee) = split_fee(amount, 250);
        assert_eq!(net + fee, amount);
        assert_eq!(fee, amount * 250 / 10000);
    }
}

#[test]
fn vault_configuration_bounds() {
    assert_eq!(initialize_vault(key(1), [0u8; 32], 1001, 10, NOW).unwrap_err(), ErrorCode::InvalidFee);
    assert_eq!(initialize_vault(key(1), [0u8; 32], 100, 0, NOW).unwrap_err(), ErrorCode::InvalidMinBet);
    let v = initialize_vault(key(1), key(8), 1000, 1, NOW).unwrap();
    assert_eq!(v.fee_basis_points, 1000);
    assert_eq!(v.total_volume, 0);
    assert_eq!(v.total_fees_collected, 0);
    assert!(!v.is_paused);
}

#[test]
fn market_needs_future_resolution_time() {
    let mut vault = open_vault(100, 10);
    let r = create_market(&vault, key(2), key(3), NOW, key(4), key(6), key(5), NOW);
    assert_eq!(r.unwrap_err(), ErrorCode::InvalidResolutionTime);
    vault.is_paused = true;
    let r = create_market(&vault, key(2), key(3), NOW + 1, key(4), key(6), key(5), NOW);
    assert_eq!(r.unwrap_err(), ErrorCode::VaultPaused);
}

#[test]
fn scenario_single_yes_bet() {
    let mut vault = open_vault(100, 10);
    let mut market = open_market(&vault, key(7));
    let mut registry = NullifierRegistry::new();
    let b = bet(&mut vault, &mut market, &mut registry, 1000, Outcome::Yes, 20).unwrap();
    assert_eq!(b.amount, 990);
    assert_eq!(b.outcome, Outcome::Yes);
    assert!(!b.is_claimed);
    assert_eq!(market.total_yes_amount, 990);
    assert_eq!(market.total_no_amount, 0);
    assert_eq!(vault.total_volume, 1000);
    assert_eq!(vault.total_fees_collected, 10);
    let mut b = b;
    record_odds(&mut market, &mut b, 6000);
    assert_eq!(market.implied_probability, 6000);
    assert_eq!(b.odds, 6000);
}

#[test]
fn bet_rejections() {
    let mut vault = open_vault(100, 10);
    let mut market = open_market(&vault, key(7));
    let mut registry = NullifierRegistry::new();
    assert_eq!(bet(&mut vault, &mut market, &mut registry, 9, Outcome::Yes, 1).unwrap_err(), ErrorCode::BetTooSmall);
    let late = place_bet(&mut vault, &mut market, &mut registry, key(9), 100, Outcome::No, &Vec::new(), key(1), NOW + 3600);
    assert_eq!(late.unwrap_err(), ErrorCode::MarketClosed);
    vault.is_paused = true;
    assert_eq!(bet(&mut vault, &mut market, &mut registry, 100, Outcome::Yes, 1).unwrap_err(), ErrorCode::VaultPaused);
    vault.is_paused = false;
    market.total_no_amount = u64::MAX;
    assert_eq!(bet(&mut vault, &mut market, &mut registry, 100, Outcome::Yes, 1).unwrap_err(), ErrorCode::Overflow);
    assert!(!registry.is_used(&key(1)));
    assert_eq!(vault.total_volume, 0);
}

#[test]
fn nullifier_cannot_be_replayed() {
    let mut vault = open_vault(0, 10);
    let mut market = open_market(&vault, key(7));
    let mut registry = NullifierRegistry::new();
    assert!(bet(&mut vault, &mut market, &mut registry, 100, Outcome::Yes, 30).is_ok());
    assert!(registry.is_used(&key(30)));
    let again = bet(&mut vault, &mut market, &mut registry, 100, Outcome::Yes, 30);
    assert_eq!(again.unwrap_err(), ErrorCode::NullifierAlreadyUsed);
    assert_eq!(market.total_yes_amount, 100);
    assert_eq!(vault.total_volume, 100);
    let mut fresh = NullifierRegistry::new();
    assert_eq!(fresh.consume(&key(5)), Ok(()));
    assert_eq!(fresh.consume(&key(5)), Err(ErrorCode::NullifierAlreadyUsed));
}

#[test]
fn allowlist_gates_bets() {
    let member = key(40);
    let other = key(41);
    let leaf_m = leaf_digest(&member);
    let leaf_o = leaf_digest(&other);
    let root = node_digest(&leaf_m, &leaf_o);
    assert_eq!(node_digest(&leaf_o, &leaf_m), root);
    assert!(verify_merkle_proof(&vec![leaf_o], &root, &member));
    assert!(verify_merkle_proof(&vec![leaf_m], &root, &other));
    assert!(!verify_merkle_proof(&vec![leaf_o], &root, &key(42)));
    assert!(!verify_merkle_proof(&Vec::new(), &root, &member));
    assert!(verify_merkle_proof(&Vec::new(), &leaf_m, &member));

    let mut vault = initialize_vault(key(1), root, 100, 10, NOW).unwrap();
    let mut market = open_market(&vault, key(7));
    let mut registry = NullifierRegistry::new();
    let rejected = place_bet(&mut vault, &mut market, &mut registry, key(42), 100, Outcome::Yes, &vec![leaf_o], key(1), NOW);
    assert_eq!(rejected.unwrap_err(), ErrorCode::AllowlistRejected);
    let accepted = place_bet(&mut vault, &mut market, &mut registry, member, 100, Outcome::Yes, &vec![leaf_o], key(1), NOW);
    assert_eq!(accepted.unwrap().amount, 99);
    let checked = place_bet_checked(&mut vault, &mut market, &mut registry, other, 100, Outcome::No, false, key(2), NOW);
    assert_eq!(checked.unwrap_err(), ErrorCode::AllowlistRejected);
}

#[test]
fn digests_match_keccak() {
    let reveal = key(7);
    let d = commitment_digest(&reveal);
    assert_ne!(d, reveal);
    assert_eq!(d, solana_program::keccak::hash(&reveal).to_bytes());
    let mut tagged = vec![0u8];
    tagged.extend_from_slice(&reveal);
    assert_eq!(leaf_digest(&reveal), solana_program::keccak::hash(&tagged).to_bytes());
    assert!(keys_equal(&d, &d));
    assert!(!keys_equal(&d, &reveal));
    assert!(is_zero_key(&[0u8; 32]));
    assert!(!is_zero_key(&key(1)));
    assert!(key_less(&key(1), &key(2)));
    assert!(!key_less(&key(2), &key(2)));
}

#[test]
fn scenario_winner_takes_share() {
    let mut vault = open_vault(0, 10);
    let reveal = key(7);
    let mut market = open_market(&vault, reveal);
    let mut registry = NullifierRegistry::new();
    let mut yes = bet(&mut vault, &mut market, &mut registry, 600, Outcome::Yes, 1).unwrap();
    let mut no = bet(&mut vault, &mut market, &mut registry, 400, Outcome::No, 2).unwrap();
    let ev = resolve_market(&mut market, Outcome::Yes, true, reveal, key(4), NOW + 3600).unwrap();
    assert_eq!(ev.total_yes, 600);
    assert_eq!(ev.total_no, 400);
    assert!(market.is_resolved);
    assert_eq!(market.winning_outcome, Some(Outcome::Yes));
    assert_eq!(market.resolution_timestamp, NOW + 3600);
    assert_eq!(claim_winnings(&market, &mut no, key(9), true, NOW + 4000).unwrap_err(), ErrorCode::NotWinner);
    let paid = claim_winnings(&market, &mut yes, key(9), true, NOW + 4000).unwrap();
    assert_eq!(paid.amount, 1000);
    assert!(yes.is_claimed);
    assert_eq!(yes.claimed_amount, 1000);
    assert_eq!(yes.claimed_timestamp, NOW + 4000);
    let twice = claim_winnings(&market, &mut yes, key(9), true, NOW + 4001);
    assert_eq!(twice.unwrap_err(), ErrorCode::AlreadyClaimed);
    assert_eq!(yes.claimed_timestamp, NOW + 4000);
}

#[test]
fn payouts_stay_within_pool() {
    let mut vault = open_vault(0, 1);
    let reveal = key(7);
    let mut market = open_market(&vault, reveal);
    let mut registry = NullifierRegistry::new();
    let mut winners = Vec::new();
    for (i, amount) in [3u64, 5, 7].iter().enumerate() {
        winners.push(bet(&mut vault, &mut market, &mut registry, *amount, Outcome::No, i as u8).unwrap());
    }
    bet(&mut vault, &mut market, &mut registry, 11, Outcome::Yes, 50).unwrap();
    resolve_market(&mut market, Outcome::No, true, reveal, key(4), NOW + 3600).unwrap();
    let mut total = 0u64;
    for w in winners.iter_mut() {
        total += claim_winnings(&market, w, key(9), true, NOW + 3700).unwrap().amount;
    }
    assert_eq!(total, 5 + 8 + 12);
    assert!(total <= 26);
}

#[test]
fn scenario_resolution_rejections() {
    let vault = open_vault(100, 10);
    let reveal = key(7);
    let mut market = open_market(&vault, reveal);
    let early = resolve_market(&mut market, Outcome::Yes, true, reveal, key(4), NOW + 3599);
    assert_eq!(early.unwrap_err(), ErrorCode::TooEarlyToResolve);
    let wrong = resolve_market(&mut market, Outcome::Yes, true, key(8), key(4), NOW + 3600);
    assert_eq!(wrong.unwrap_err(), ErrorCode::InvalidReveal);
    let intruder = resolve_market(&mut market, Outcome::Yes, true, reveal, key(5), NOW + 3600);
    assert_eq!(intruder.unwrap_err(), ErrorCode::UnauthorizedOracle);
    let unsigned = resolve_market(&mut market, Outcome::Yes, false, reveal, key(4), NOW + 3600);
    assert_eq!(unsigned.unwrap_err(), ErrorCode::InvalidSignature);
    assert!(!market.is_resolved);
    assert_eq!(market.winning_outcome, None);
    let digest = commitment_digest(&reveal);
    assert!(resolve_market_checked(&mut market, Outcome::No, true, digest, key(4), NOW + 3600).is_ok());
    let again = resolve_market(&mut market, Outcome::Yes, true, reveal, key(4), NOW + 3601);
    assert_eq!(again.unwrap_err(), ErrorCode::MarketAlreadyResolved);
    assert_eq!(market.winning_outcome, Some(Outcome::No));
    let mut vault = vault;
    let mut registry = NullifierRegistry::new();
    assert_eq!(bet(&mut vault, &mut market, &mut registry, 100, Outcome::Yes, 1).unwrap_err(), ErrorCode::MarketResolved);
}

#[test]
fn scenario_degenerate_pool() {
    let mut vault = open_vault(0, 10);
    let reveal = key(7);
    let mut market = open_market(&vault, reveal);
    let mut registry = NullifierRegistry::new();
    let mut loser = bet(&mut vault, &mut market, &mut registry, 500, Outcome::No, 1).unwrap();
    assert_eq!(claim_winnings(&market, &mut loser, key(9), true, NOW).unwrap_err(), ErrorCode::MarketNotResolved);
    resolve_market(&mut market, Outcome::Yes, true, reveal, key(4), NOW + 3600).unwrap();
    let mut phantom = loser;
    phantom.outcome = Outcome::Yes;
    let r = claim_winnings(&market, &mut phantom, key(9), true, NOW + 3700);
    assert_eq!(r.unwrap_err(), ErrorCode::DegeneratePool);
    assert!(!phantom.is_claimed);
    assert_eq!(calculate_payout(10, 100, 0), Err(ErrorCode::DegeneratePool));
}

#[test]
fn claim_needs_ownership_proof() {
    let mut vault = open_vault(0, 10);
    let reveal = key(7);
    let mut market = open_market(&vault, reveal);
    let mut registry = NullifierRegistry::new();
    let mut b = bet(&mut vault, &mut market, &mut registry, 500, Outcome::Yes, 1).unwrap();
    resolve_market(&mut market, Outcome::Yes, true, reveal, key(4), NOW + 3600).unwrap();
    assert_eq!(claim_winnings(&market, &mut b, key(9), false, NOW + 3700).unwrap_err(), ErrorCode::ProofRejected);
    assert!(!b.is_claimed);
}

#[test]
fn payout_arithmetic() {
    assert_eq!(calculate_payout(600, 1000, 600), Ok(1000));
    assert_eq!(calculate_payout(1, 3, 2), Ok(1));
    assert_eq!(calculate_payout(u64::MAX, u64::MAX, 1), Err(ErrorCode::Overflow));
}

#[test]
fn liquidity_shares() {
    assert_eq!(calculate_lp_tokens(500, 0, 0), Ok(500));
    assert_eq!(calculate_lp_tokens(500, 1000, 200), Ok(100));
    assert_eq!(calculate_lp_tokens(500, 0, 200), Err(ErrorCode::DivideByZero));
    assert_eq!(calculate_lp_tokens(u64::MAX, 1, 2), Err(ErrorCode::Overflow));
    let vault = open_vault(0, 10);
    let mut market = open_market(&vault, key(7));
    let ev = add_liquidity(&mut market, 1000, 0, key(11), NOW).unwrap();
    assert_eq!(ev.lp_tokens, 1000);
    assert_eq!(market.liquidity_locked, 1000);
    let ev = add_liquidity(&mut market, 500, 1000, key(11), NOW).unwrap();
    assert_eq!(ev.lp_tokens, 500);
    assert_eq!(market.liquidity_locked, 1500);
    assert_eq!(add_liquidity(&mut market, u64::MAX, 0, key(11), NOW).unwrap_err(), ErrorCode::Overflow);
    assert_eq!(market.liquidity_locked, 1500);
}

#[test]
fn outcome_codes_round_trip() {
    assert_eq!(Outcome::Yes.to_code(), 0);
    assert_eq!(Outcome::No.to_code(), 1);
    assert_eq!(Outcome::from_code(Outcome::Yes.to_code()), Some(Outcome::Yes));
    assert_eq!(Outcome::from_code(Outcome::No.to_code()), Some(Outcome::No));
    assert_eq!(Outcome::from_code(2), None);
}

#[test]
fn market_phases_and_accrual() {
    let mut vault = open_vault(100, 10);
    let market = open_market(&vault, key(7));
    assert_eq!(market.phase(NOW), MarketPhase::Open);
    assert_eq!(market.phase(NOW + 3600), MarketPhase::AwaitingResolution);
    let mut resolved = market;
    resolve_market(&mut resolved, Outcome::No, true, key(7), key(4), NOW + 3600).unwrap();
    assert_eq!(resolved.phase(NOW), MarketPhase::Resolved);
    vault.accrue(200, 2);
    vault.accrue(100, 1);
    assert_eq!(vault.total_volume, 300);
    assert_eq!(vault.total_fees_collected, 3);
    vault.set_paused(true);
    assert!(vault.is_paused);
    vault.set_paused(false);
    assert!(!vault.is_paused);
}
