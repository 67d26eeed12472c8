use vstd::prelude::*;

verus! {

/// A 32-byte account identity (public key) or digest.
pub type Key = [u8; 32];

/// The two sides of a binary market.
#[derive(Clone, Copy, PartialEq, Eq, Structural, Debug)]
pub enum Outcome {
    Yes,
    No,
}

impl Outcome {
    /// The stored code of an outcome: 0 for Yes, 1 for No.
    pub open spec fn code_of(self) -> u8 {
        match self {
            Outcome::Yes => 0,
            Outcome::No => 1,
        }
    }

    /// The outcome stored under `code`; none for an unknown code.
    pub open spec fn of_code(code: u8) -> Option<Outcome> {
        if code == 0 {
            Some(Outcome::Yes)
        } else if code == 1 {
            Some(Outcome::No)
        } else {
            None
        }
    }

    /// The stored code of this outcome.
    pub fn to_code(self) -> (r: u8)
        ensures
            r == self.code_of(),
    {
        match self {
            Outcome::Yes => 0,
            Outcome::No => 1,
        }
    }

    /// The outcome stored under `code`; none for an unknown code.
    pub fn from_code(code: u8) -> (r: Option<Outcome>)
        ensures
            r == Outcome::of_code(code),
    {
        if code == 0 {
            Some(Outcome::Yes)
        } else if code == 1 {
            Some(Outcome::No)
        } else {
            None
        }
    }
}

/// Every way an operation of the vault can fail.
#[derive(Clone, Copy, PartialEq, Eq, Structural, Debug)]
pub enum ErrorCode {
    InvalidFee,
    InvalidMinBet,
    InvalidResolutionTime,
    MarketResolved,
    MarketClosed,
    BetTooSmall,
    NullifierAlreadyUsed,
    MarketAlreadyResolved,
    TooEarlyToResolve,
    UnauthorizedOracle,
    InvalidReveal,
    MarketNotResolved,
    AlreadyClaimed,
    NotWinner,
    AllowlistRejected,
    InvalidSignature,
    ProofRejected,
    DegeneratePool,
    DivideByZero,
    Overflow,
    VaultPaused,
}


/// Vault-wide configuration and running totals.
#[derive(Clone, Copy, Debug)]
pub struct Vault {
    pub authority: Key,
    pub merkle_root: Key,
    pub fee_basis_points: u16,
    pub min_bet_amount: u64,
    pub total_volume: u64,
    pub total_fees_collected: u64,
    pub nonce: u8,
    pub is_paused: bool,
    pub creation_timestamp: i64,
}

/// Highest fee a vault may charge, in basis points (10%).
pub const MAX_FEE_BPS: u16 = 1000;

impl Vault {
    /// The vault's configuration is in bounds and its totals are consistent.
    pub open spec fn wf(&self) -> bool {
        &&& self.fee_basis_points <= MAX_FEE_BPS
        &&& self.min_bet_amount > 0
        &&& self.total_fees_collected <= self.total_volume
    }

    /// Bets must carry a proof of membership in the allowlist.
    pub open spec fn is_gated(&self) -> bool {
        self.merkle_root@ != seq![0u8; 32]
    }

    /// Accrues one bet: `amount` gross to the volume and `fee` to the fees.
    /// Nothing else changes the totals, and they never decrease.
    pub fn accrue(&mut self, amount: u64, fee: u64)
        requires
            old(self).wf(),
            fee <= amount,
            old(self).total_volume + amount <= u64::MAX,
        ensures
            final(self).wf(),
            *final(self) == (Vault {
                total_volume: (old(self).total_volume + amount) as u64,
                total_fees_collected: (old(self).total_fees_collected + fee) as u64,
                ..*old(self)
            }),
    {
        self.total_volume = self.total_volume + amount;
        self.total_fees_collected = self.total_fees_collected + fee;
    }

    /// Stops or resumes the acceptance of new bets and markets.
    pub fn set_paused(&mut self, paused: bool)
        requires
            old(self).wf(),
        ensures
            final(self).wf(),
            *final(self) == (Vault { is_paused: paused, ..*old(self) }),
    {
        self.is_paused = paused;
    }
}

/// Where a market stands in its life.
#[derive(Clone, Copy, PartialEq, Eq, Structural, Debug)]
pub enum MarketPhase {
    /// Before the resolution time: bets are taken.
    Open,
    /// Past the resolution time and not yet resolved.
    AwaitingResolution,
    /// Resolved: only claims remain.
    Resolved,
}

/// One binary market and its pooled stake.
#[derive(Clone, Copy, Debug)]
pub struct Market {
    pub id: Key,
    pub vault: Key,
    pub creator: Key,
    pub oracle: Key,
    pub resolution_time: i64,
    pub commitment_hash: Key,
    pub total_yes_amount: u64,
    pub total_no_amount: u64,
    pub is_resolved: bool,
    pub winning_outcome: Option<Outcome>,
    pub creation_timestamp: i64,
    pub resolution_timestamp: i64,
    pub implied_probability: u64,
    pub liquidity_locked: u64,
}

impl Market {
    /// The pooled stake fits in 64 bits, the probability is in basis points,
    /// and a winner is recorded exactly when the market is resolved.
    pub open spec fn wf(&self) -> bool {
        &&& self.total_yes_amount + self.total_no_amount <= u64::MAX
        &&& self.implied_probability <= 10000
        &&& self.is_resolved == self.winning_outcome.is_some()
    }

    /// The phase of the market at time `now`.
    pub open spec fn phase_at(&self, now: i64) -> MarketPhase {
        if self.is_resolved {
            MarketPhase::Resolved
        } else if now < self.resolution_time {
            MarketPhase::Open
        } else {
            MarketPhase::AwaitingResolution
        }
    }

    /// The phase of the market at time `now`.
    pub fn phase(&self, now: i64) -> (r: MarketPhase)
        ensures
            r == self.phase_at(now),
    {
        if self.is_resolved {
            MarketPhase::Resolved
        } else if now < self.resolution_time {
            MarketPhase::Open
        } else {
            MarketPhase::AwaitingResolution
        }
    }

    /// All net stake of both sides.
    pub open spec fn total_pool(&self) -> nat {
        (self.total_yes_amount + self.total_no_amount) as nat
    }

    /// Net stake on one side.
    pub open spec fn side_total(&self, outcome: Outcome) -> nat {
        match outcome {
            Outcome::Yes => self.total_yes_amount as nat,
            Outcome::No => self.total_no_amount as nat,
        }
    }

    /// Net stake on the winning side; zero before resolution.
    pub open spec fn winning_pool(&self) -> nat {
        match self.winning_outcome {
            Some(o) => self.side_total(o),
            None => 0,
        }
    }
}

/// One wager and its settlement state.
#[derive(Clone, Copy, Debug)]
pub struct BetAccount {
    pub market: Key,
    pub bettor: Key,
    pub amount: u64,
    pub outcome: Outcome,
    pub timestamp: i64,
    pub odds: u64,
    pub nullifier: Key,
    pub is_claimed: bool,
    pub claimed_amount: u64,
    pub claimed_timestamp: i64,
}

/// The record of one consumed nullifier.
#[derive(Clone, Copy, Debug)]
pub struct NullifierAccount {
    pub nullifier: Key,
    pub is_used: bool,
}

/// Notice of a new vault.
#[derive(Clone, Copy, Debug)]
pub struct VaultInitialized {
    pub vault: Key,
    pub authority: Key,
    pub merkle_root: Key,
    pub timestamp: i64,
}

/// Notice of a new market.
#[derive(Clone, Copy, Debug)]
pub struct MarketCreated {
    pub market: Key,
    pub market_id: Key,
    pub creator: Key,
    pub resolution_time: i64,
    pub timestamp: i64,
}

/// Notice of a placed bet.
#[derive(Clone, Copy, Debug)]
pub struct BetPlaced {
    pub market: Key,
    pub bettor: Key,
    pub amount: u64,
    pub outcome: Outcome,
    pub odds: u64,
    pub timestamp: i64,
}

/// Notice of a resolved market.
#[derive(Clone, Copy, Debug)]
pub struct MarketResolved {
    pub market: Key,
    pub winning_outcome: Outcome,
    pub total_yes: u64,
    pub total_no: u64,
    pub timestamp: i64,
}

/// Notice of a paid claim.
#[derive(Clone, Copy, Debug)]
pub struct WinningsClaimed {
    pub market: Key,
    pub claimant: Key,
    pub amount: u64,
    pub timestamp: i64,
}

/// Notice of a liquidity deposit.
#[derive(Clone, Copy, Debug)]
pub struct LiquidityAdded {
    pub market: Key,
    pub provider: Key,
    pub amount: u64,
    pub lp_tokens: u64,
    pub timestamp: i64,
}

} // verus!
