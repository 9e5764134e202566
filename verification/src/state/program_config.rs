//! Platform parameters and the counters kept for observability.

use vstd::prelude::*;
use crate::address::{Address, contains_address, is_zeroed};
use crate::errors::AuctionError;

verus! {

/// Platform-wide parameters, read by every operation.
#[derive(Debug, Clone, PartialEq, Eq)]
pub struct ProgramConfig {
    /// Key allowed to change the configuration.
    pub authority: Address,
    /// Key allowed to upgrade the platform.
    pub upgrade_authority: Address,
    /// Account that receives platform fees.
    pub fee_collector: Address,
    /// Platform fee in basis points (250 = 2.5%).
    pub platform_fee_bps: u16,
    /// Shortest auction allowed, in seconds.
    pub min_auction_duration: i64,
    /// Longest auction allowed, in seconds.
    pub max_auction_duration: i64,
    /// Reveal phase length used when an auction names none, in seconds.
    pub default_reveal_duration: i64,
    /// Smallest bid collateral allowed.
    pub min_bid_collateral: u64,
    /// Largest bid collateral allowed.
    pub max_bid_collateral: u64,
    /// Reputation a seller needs to open an auction.
    pub min_seller_reputation: u16,
    /// Reputation a seller needs for high-value auctions.
    pub min_high_value_reputation: u16,
    /// Amount from which an auction counts as high-value.
    pub high_value_threshold: u64,
    /// While set, every mutating operation is rejected.
    pub paused: bool,
    /// State tree of the compressed index.
    pub state_tree: Address,
    /// Nullifier queue of the compressed index.
    pub nullifier_queue: Address,
    /// Configuration record of the execution session layer.
    pub per_config: Address,
    /// Payment assets that auctions may be priced in.
    pub supported_mints: Vec<Address>,
    /// Keys allowed to vote on disputes.
    pub arbitrators: Vec<Address>,
    /// Configuration version.
    pub version: u8,
    /// Address derivation seed.
    pub bump: u8,
    /// Unused space.
    pub _reserved: [u8; 64],
}

/// The fee on `amount` at `fee_bps` basis points, rounded down.
pub open spec fn fee_on(amount: int, fee_bps: int) -> int {
    amount * fee_bps / 10_000
}

/// A fee of at most 100% never exceeds the amount it is taken from.
pub proof fn lemma_fee_bounded(amount: int, fee_bps: int)
    requires
        0 <= amount,
        0 <= fee_bps <= 10_000,
    ensures
        0 <= fee_on(amount, fee_bps) <= amount,
{
    assert(0 <= amount * fee_bps <= amount * 10_000) by (nonlinear_arith)
        requires
            0 <= amount,
            0 <= fee_bps <= 10_000,
    ;
}

impl ProgramConfig {
    /// Most payment assets a configuration may list.
    pub const MAX_SUPPORTED_MINTS: usize = 10;

    /// Most arbitrators a configuration may list.
    pub const MAX_ARBITRATORS: usize = 10;

    /// Highest platform fee a configuration may carry: 10%.
    pub const MAX_PLATFORM_FEE_BPS: u16 = 1000;

    /// The bounds every stored configuration keeps.
    pub open spec fn wf(&self) -> bool {
        &&& self.platform_fee_bps <= 1000
        &&& self.min_auction_duration > 0
        &&& self.max_auction_duration > self.min_auction_duration
        &&& self.min_bid_collateral > 0
        &&& self.supported_mints@.len() <= 10
        &&& self.arbitrators@.len() <= 10
    }

    /// Checks the bounds of `wf`.
    pub fn is_well_formed(&self) -> (ok: bool)
        ensures
            ok == self.wf(),
    {
        self.platform_fee_bps <= Self::MAX_PLATFORM_FEE_BPS && self.min_auction_duration > 0
            && self.max_auction_duration > self.min_auction_duration && self.min_bid_collateral > 0
            && self.supported_mints.len() <= Self::MAX_SUPPORTED_MINTS && self.arbitrators.len()
            <= Self::MAX_ARBITRATORS
    }

    /// What `default_production` returns.
    pub open spec fn is_production_default(&self) -> bool {
        &&& is_zeroed(self.authority)
        &&& is_zeroed(self.upgrade_authority)
        &&& is_zeroed(self.fee_collector)
        &&& self.platform_fee_bps == 250
        &&& self.min_auction_duration == 3600
        &&& self.max_auction_duration == 2_592_000
        &&& self.default_reveal_duration == 86_400
        &&& self.min_bid_collateral == 1_000_000
        &&& self.max_bid_collateral == 1_000_000_000
        &&& self.min_seller_reputation == 300
        &&& self.min_high_value_reputation == 700
        &&& self.high_value_threshold == 1_000_000
        &&& !self.paused
        &&& is_zeroed(self.state_tree)
        &&& is_zeroed(self.nullifier_queue)
        &&& is_zeroed(self.per_config)
        &&& self.supported_mints@ == Seq::<Address>::empty()
        &&& self.arbitrators@ == Seq::<Address>::empty()
        &&& self.version == 1
        &&& self.bump == 0
        &&& is_zeroed(self._reserved)
    }

    /// The parameters a production deployment starts from: a 2.5% fee,
    /// auctions of one hour to thirty days, a one-day reveal phase.
    pub fn default_production() -> (config: Self)
        ensures
            config.is_production_default(),
            config.wf(),
    {
        ProgramConfig {
            authority: [0u8; 32],
            upgrade_authority: [0u8; 32],
            fee_collector: [0u8; 32],
            platform_fee_bps: 250,
            min_auction_duration: 3600,
            max_auction_duration: 2_592_000,
            default_reveal_duration: 86_400,
            min_bid_collateral: 1_000_000,
            max_bid_collateral: 1_000_000_000,
            min_seller_reputation: 300,
            min_high_value_reputation: 700,
            high_value_threshold: 1_000_000,
            paused: false,
            state_tree: [0u8; 32],
            nullifier_queue: [0u8; 32],
            per_config: [0u8; 32],
            supported_mints: Vec::new(),
            arbitrators: Vec::new(),
            version: 1,
            bump: 0,
            _reserved: [0u8; 64],
        }
    }

    /// Whether auctions may be priced in `mint`.
    pub fn is_mint_supported(&self, mint: &Address) -> (supported: bool)
        ensures
            supported == self.supported_mints@.contains(*mint),
    {
        contains_address(&self.supported_mints, mint)
    }

    /// Whether `address` is on the arbitrator roster.
    pub fn is_arbitrator(&self, address: &Address) -> (listed: bool)
        ensures
            listed == self.arbitrators@.contains(*address),
    {
        contains_address(&self.arbitrators, address)
    }

    /// The platform fee on `amount`, rounded down.
    pub fn calculate_fee(&self, amount: u64) -> (fee: u64)
        requires
            self.platform_fee_bps <= 10_000,
        ensures
            fee == fee_on(amount as int, self.platform_fee_bps as int),
            fee <= amount,
    {
        proof {
            lemma_fee_bounded(amount as int, self.platform_fee_bps as int);
            assert(amount * self.platform_fee_bps <= u64::MAX * 10_000) by (nonlinear_arith)
                requires
                    0 <= amount <= u64::MAX,
                    0 <= self.platform_fee_bps <= 10_000,
            ;
        }
        let product: u128 = (amount as u128) * (self.platform_fee_bps as u128);
        (product / 10_000) as u64
    }

    /// The verdict of `validate_auction_params`: the first bound that the
    /// duration or the collateral breaks, if any.
    pub open spec fn auction_params_verdict(&self, duration: i64, collateral: u64) -> Result<
        (),
        AuctionError,
    > {
        if duration < self.min_auction_duration {
            Err(AuctionError::DurationTooShort)
        } else if duration > self.max_auction_duration {
            Err(AuctionError::DurationTooLong)
        } else if collateral < self.min_bid_collateral {
            Err(AuctionError::CollateralTooLow)
        } else if collateral > self.max_bid_collateral {
            Err(AuctionError::CollateralTooHigh)
        } else {
            Ok(())
        }
    }

    /// Holds an auction's duration and bid collateral against the configured
    /// bounds.
    pub fn validate_auction_params(&self, duration: i64, collateral: u64) -> (verdict: Result<
        (),
        AuctionError,
    >)
        ensures
            verdict == self.auction_params_verdict(duration, collateral),
            verdict is Ok <==> self.min_auction_duration <= duration <= self.max_auction_duration
                && self.min_bid_collateral <= collateral <= self.max_bid_collateral,
    {
        if duration < self.min_auction_duration {
            return Err(AuctionError::DurationTooShort);
        }
        if duration > self.max_auction_duration {
            return Err(AuctionError::DurationTooLong);
        }
        if collateral < self.min_bid_collateral {
            return Err(AuctionError::CollateralTooLow);
        }
        if collateral > self.max_bid_collateral {
            return Err(AuctionError::CollateralTooHigh);
        }
        Ok(())
    }
}

/// Monotonic counters for observability; no rule of the marketplace reads them.
#[derive(Debug, Clone, Copy, PartialEq, Eq, Structural)]
pub struct ProgramStats {
    /// Auctions created so far.
    pub total_auctions: u64,
    /// Auctions that are neither settled nor cancelled.
    pub active_auctions: u64,
    /// Bids placed so far.
    pub total_bids: u64,
    /// Sum of all settlement payments.
    pub total_volume: u64,
    /// Sum of all platform fees.
    pub total_fees: u64,
    /// Profiles registered so far.
    pub total_users: u64,
    /// Disputes raised so far.
    pub total_disputes: u64,
    /// Disputes resolved so far.
    pub disputes_resolved: u64,
    /// Time of the last update.
    pub last_updated: i64,
    /// Address derivation seed.
    pub bump: u8,
}

impl ProgramStats {
    /// Counts a new auction.
    pub fn auction_created(&mut self, now: i64)
        requires
            old(self).total_auctions < u64::MAX,
            old(self).active_auctions < u64::MAX,
        ensures
            *final(self) == (ProgramStats {
                total_auctions: (old(self).total_auctions + 1) as u64,
                active_auctions: (old(self).active_auctions + 1) as u64,
                last_updated: now,
                ..*old(self)
            }),
    {
        self.total_auctions += 1;
        self.active_auctions += 1;
        self.last_updated = now;
    }

    /// Counts a settled auction with its payment and fee. The count of
    /// active auctions stops at zero.
    pub fn auction_completed(&mut self, volume: u64, fee: u64, now: i64)
        requires
            old(self).total_volume + volume <= u64::MAX,
            old(self).total_fees + fee <= u64::MAX,
        ensures
            *final(self) == (ProgramStats {
                active_auctions: if old(self).active_auctions == 0 {
                    0
                } else {
                    (old(self).active_auctions - 1) as u64
                },
                total_volume: (old(self).total_volume + volume) as u64,
                total_fees: (old(self).total_fees + fee) as u64,
                last_updated: now,
                ..*old(self)
            }),
    {
        self.active_auctions = self.active_auctions.saturating_sub(1);
        self.total_volume += volume;
        self.total_fees += fee;
        self.last_updated = now;
    }

    /// Counts a placed bid.
    pub fn bid_placed(&mut self, now: i64)
        requires
            old(self).total_bids < u64::MAX,
        ensures
            *final(self) == (ProgramStats {
                total_bids: (old(self).total_bids + 1) as u64,
                last_updated: now,
                ..*old(self)
            }),
    {
        self.total_bids += 1;
        self.last_updated = now;
    }

    /// Counts a newly registered profile.
    pub fn user_registered(&mut self, now: i64)
        requires
            old(self).total_users < u64::MAX,
        ensures
            *final(self) == (ProgramStats {
                total_users: (old(self).total_users + 1) as u64,
                last_updated: now,
                ..*old(self)
            }),
    {
        self.total_users += 1;
        self.last_updated = now;
    }

    /// Counts a raised dispute.
    pub fn dispute_raised(&mut self, now: i64)
        requires
            old(self).total_disputes < u64::MAX,
        ensures
            *final(self) == (ProgramStats {
                total_disputes: (old(self).total_disputes + 1) as u64,
                last_updated: now,
                ..*old(self)
            }),
    {
        self.total_disputes += 1;
        self.last_updated = now;
    }

    /// Counts a resolved dispute.
    pub fn dispute_resolved(&mut self, now: i64)
        requires
            old(self).disputes_resolved < u64::MAX,
        ensures
            *final(self) == (ProgramStats {
                disputes_resolved: (old(self).disputes_resolved + 1) as u64,
                last_updated: now,
                ..*old(self)
            }),
    {
        self.disputes_resolved += 1;
        self.last_updated = now;
    }
}

impl ProgramConfig {
    /// A configuration record with nothing entered.
    pub open spec fn is_blank(&self) -> bool {
        &&& is_zeroed(self.authority)
        &&& is_zeroed(self.upgrade_authority)
        &&& is_zeroed(self.fee_collector)
        &&& self.platform_fee_bps == 0
        &&& self.min_auction_duration == 0
        &&& self.max_auction_duration == 0
        &&& self.default_reveal_duration == 0
        &&& self.min_bid_collateral == 0
        &&& self.max_bid_collateral == 0
        &&& self.min_seller_reputation == 0
        &&& self.min_high_value_reputation == 0
        &&& self.high_value_threshold == 0
        &&& !self.paused
        &&& is_zeroed(self.state_tree)
        &&& is_zeroed(self.nullifier_queue)
        &&& is_zeroed(self.per_config)
        &&& self.supported_mints@.len() == 0
        &&& self.arbitrators@.len() == 0
        &&& self.version == 0
        &&& self.bump == 0
        &&& is_zeroed(self._reserved)
    }
}

impl Default for ProgramConfig {
    fn default() -> (config: Self)
        ensures
            config.is_blank(),
    {
        ProgramConfig {
            authority: [0u8; 32],
            upgrade_authority: [0u8; 32],
            fee_collector: [0u8; 32],
            platform_fee_bps: 0,
            min_auction_duration: 0,
            max_auction_duration: 0,
            default_reveal_duration: 0,
            min_bid_collateral: 0,
            max_bid_collateral: 0,
            min_seller_reputation: 0,
            min_high_value_reputation: 0,
            high_value_threshold: 0,
            paused: false,
            state_tree: [0u8; 32],
            nullifier_queue: [0u8; 32],
            per_config: [0u8; 32],
            supported_mints: Vec::new(),
            arbitrators: Vec::new(),
            version: 0,
            bump: 0,
            _reserved: [0u8; 64],
        }
    }
}

impl ProgramStats {
    /// Counters that have counted nothing.
    pub open spec fn is_blank(&self) -> bool {
        &&& self.total_auctions == 0
        &&& self.active_auctions == 0
        &&& self.total_bids == 0
        &&& self.total_volume == 0
        &&& self.total_fees == 0
        &&& self.total_users == 0
        &&& self.total_disputes == 0
        &&& self.disputes_resolved == 0
        &&& self.last_updated == 0
        &&& self.bump == 0
    }
}

impl Default for ProgramStats {
    fn default() -> (stats: Self)
        ensures
            stats.is_blank(),
    {
        ProgramStats {
            total_auctions: 0,
            active_auctions: 0,
            total_bids: 0,
            total_volume: 0,
            total_fees: 0,
            total_users: 0,
            total_disputes: 0,
            disputes_resolved: 0,
            last_updated: 0,
            bump: 0,
        }
    }
}

} // verus!
