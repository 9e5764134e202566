//! Setting up the platform.

use vstd::prelude::*;
use crate::address::{Address, is_zeroed};
use crate::errors::{ConfigError, MarketError};
use crate::state::program_config::{ProgramConfig, ProgramStats};

verus! {

/// The parameters a platform is set up with.
#[derive(Clone, Debug, PartialEq, Eq)]
pub struct InitializeProgramParams {
    /// Platform fee in basis points (250 = 2.5%).
    pub platform_fee_bps: u16,
    /// Shortest auction allowed, in seconds.
    pub min_auction_duration: i64,
    /// Longest auction allowed, in seconds.
    pub max_auction_duration: i64,
    /// Reveal phase length used when an auction names none, in seconds.
    pub default_reveal_duration: i64,
    /// Smallest bid collateral allowed.
    pub min_bid_collateral: u64,
    /// Largest bid collateral allowed.
    pub max_bid_collateral: u64,
    /// Reputation a seller needs to open an auction.
    pub min_seller_reputation: u16,
    /// Reputation a seller needs for high-value auctions.
    pub min_high_value_reputation: u16,
    /// Amount from which an auction counts as high-value.
    pub high_value_threshold: u64,
    /// Payment assets that auctions may be priced in.
    pub supported_mints: Vec<Address>,
    /// Keys allowed to vote on disputes.
    pub arbitrators: Vec<Address>,
}

/// The keys a setup works on.
#[derive(Clone, Copy, Debug, PartialEq, Eq)]
pub struct InitializeProgram {
    /// Whether the platform has been set up before.
    pub initialized: bool,
    /// Who sets the platform up.
    pub authority: Address,
    /// State tree of the compressed index.
    pub state_tree: Address,
    /// Nullifier queue of the compressed index.
    pub nullifier_queue: Address,
    /// Configuration record of the execution session layer.
    pub per_config: Address,
    /// Account that receives platform fees.
    pub fee_collector: Address,
    /// Address derivation seed of the configuration.
    pub config_bump: u8,
    /// Address derivation seed of the counters.
    pub stats_bump: u8,
}

/// The records that a setup creates.
#[derive(Clone, Debug, PartialEq, Eq)]
pub struct ProgramInitialized {
    /// The configuration.
    pub config: ProgramConfig,
    /// The counters, all at zero.
    pub stats: ProgramStats,
}

impl InitializeProgramParams {
    /// Whether the parameters are within their bounds: a fee of at most
    /// 10%, a positive shortest duration below the longest, a positive
    /// smallest collateral, and at most ten assets and ten arbitrators.
    pub open spec fn valid(&self) -> bool {
        &&& self.platform_fee_bps <= 1000
        &&& self.min_auction_duration > 0
        &&& self.max_auction_duration > self.min_auction_duration
        &&& self.min_bid_collateral > 0
        &&& self.supported_mints@.len() <= 10
        &&& self.arbitrators@.len() <= 10
    }
}

impl InitializeProgram {
    /// Why the platform cannot be set up, if it cannot: it has been set up
    /// before, or a parameter is out of bounds.
    pub open spec fn obstacle(&self, params: InitializeProgramParams) -> Option<MarketError> {
        if self.initialized {
            Some(MarketError::Config(ConfigError::AlreadyInitialized))
        } else if !params.valid() {
            Some(MarketError::Config(ConfigError::InvalidParameter))
        } else {
            None
        }
    }

    /// Whether `config` is the configuration that the setup creates: the
    /// parameters as given, under the authority of who set it up, running.
    pub open spec fn creates_config(&self, params: InitializeProgramParams, config: ProgramConfig)
        -> bool {
        &&& config.authority == self.authority
        &&& config.upgrade_authority == self.authority
        &&& config.fee_collector == self.fee_collector
        &&& config.platform_fee_bps == params.platform_fee_bps
        &&& config.min_auction_duration == params.min_auction_duration
        &&& config.max_auction_duration == params.max_auction_duration
        &&& config.default_reveal_duration == params.default_reveal_duration
        &&& config.min_bid_collateral == params.min_bid_collateral
        &&& config.max_bid_collateral == params.max_bid_collateral
        &&& config.min_seller_reputation == params.min_seller_reputation
        &&& config.min_high_value_reputation == params.min_high_value_reputation
        &&& config.high_value_threshold == params.high_value_threshold
        &&& !config.paused
        &&& config.state_tree == self.state_tree
        &&& config.nullifier_queue == self.nullifier_queue
        &&& config.per_config == self.per_config
        &&& config.supported_mints == params.supported_mints
        &&& config.arbitrators == params.arbitrators
        &&& config.version == 1
        &&& config.bump == self.config_bump
        &&& is_zeroed(config._reserved)
    }

    /// The counters that the setup creates.
    pub open spec fn new_stats(&self, now: i64) -> ProgramStats {
        ProgramStats {
            total_auctions: 0,
            active_auctions: 0,
            total_bids: 0,
            total_volume: 0,
            total_fees: 0,
            total_users: 0,
            total_disputes: 0,
            disputes_resolved: 0,
            last_updated: now,
            bump: self.stats_bump,
        }
    }
}

/// Sets the platform up with `params`, once. Parameters out of bounds are
/// refused with `InvalidParameter`, a second setup with
/// `AlreadyInitialized`.
pub fn handler(ctx: &InitializeProgram, params: InitializeProgramParams, now: i64) -> (result:
    Result<ProgramInitialized, MarketError>)
    ensures
        match result {
            Ok(created) => ctx.obstacle(params) is None && ctx.creates_config(
                params,
                created.config,
            ) && created.stats == ctx.new_stats(now) && created.config.wf(),
            Err(e) => ctx.obstacle(params) == Some(e),
        },
{
    if ctx.initialized {
        return Err(MarketError::Config(ConfigError::AlreadyInitialized));
    }
    if params.platform_fee_bps > ProgramConfig::MAX_PLATFORM_FEE_BPS || params.min_auction_duration
        <= 0 || params.max_auction_duration <= params.min_auction_duration
        || params.min_bid_collateral == 0 || params.supported_mints.len()
        > ProgramConfig::MAX_SUPPORTED_MINTS || params.arbitrators.len()
        > ProgramConfig::MAX_ARBITRATORS {
        return Err(MarketError::Config(ConfigError::InvalidParameter));
    }
    let config = ProgramConfig {
        authority: ctx.authority,
        upgrade_authority: ctx.authority,
        fee_collector: ctx.fee_collector,
        platform_fee_bps: params.platform_fee_bps,
        min_auction_duration: params.min_auction_duration,
        max_auction_duration: params.max_auction_duration,
        default_reveal_duration: params.default_reveal_duration,
        min_bid_collateral: params.min_bid_collateral,
        max_bid_collateral: params.max_bid_collateral,
        min_seller_reputation: params.min_seller_reputation,
        min_high_value_reputation: params.min_high_value_reputation,
        high_value_threshold: params.high_value_threshold,
        paused: false,
        state_tree: ctx.state_tree,
        nullifier_queue: ctx.nullifier_queue,
        per_config: ctx.per_config,
        supported_mints: params.supported_mints,
        arbitrators: params.arbitrators,
        version: 1,
        bump: ctx.config_bump,
        _reserved: [0u8; 64],
    };
    let stats = ProgramStats {
        total_auctions: 0,
        active_auctions: 0,
        total_bids: 0,
        total_volume: 0,
        total_fees: 0,
        total_users: 0,
        total_disputes: 0,
        disputes_resolved: 0,
        last_updated: now,
        bump: ctx.stats_bump,
    };
    Ok(ProgramInitialized { config, stats })
}

} // verus!
