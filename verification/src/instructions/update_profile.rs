//! Creating and updating a profile, and moving the stake behind it.

use vstd::prelude::*;
use crate::address::Address;
use crate::errors::{ConfigError, MarketError, ProfileError, RuntimeError};
use crate::state::profile::{KycLevel, ReputationStake, UserProfile};
use crate::state::program_config::{ProgramConfig, ProgramStats};

verus! {

/// What a participant hands in to update the profile.
#[derive(Clone, Copy, Debug, PartialEq, Eq)]
pub struct UpdateProfileParams {
    /// New encrypted preferences, if any.
    pub encrypted_preferences: Option<[u8; 64]>,
    /// New verification level, if any.
    pub kyc_level: Option<KycLevel>,
    /// Amount to add to the stake; zero for none.
    pub stake_amount: u64,
    /// Whether to take the stake out.
    pub withdraw_stake: bool,
}

/// The records and keys a profile update works on.
#[derive(Clone, Debug, PartialEq, Eq)]
pub struct UpdateProfile {
    /// Platform parameters.
    pub config: ProgramConfig,
    /// Platform counters.
    pub stats: ProgramStats,
    /// The profile; one that was never created has a creation time of zero.
    pub profile: UserProfile,
    /// The stake behind the profile.
    pub stake_account: ReputationStake,
    /// The participant.
    pub user: Address,
    /// Asset staked.
    pub stake_mint: Address,
    /// Account that holds the stake.
    pub stake_vault: Address,
    /// Address derivation seed of the profile.
    pub profile_bump: u8,
    /// Address derivation seed of the stake record.
    pub stake_bump: u8,
}

/// What a profile update reports.
#[derive(Clone, Copy, Debug, PartialEq, Eq)]
pub struct ProfileUpdated {
    /// Whether the profile was created by this update.
    pub created: bool,
    /// What the participant pays into the stake.
    pub deposited: u64,
    /// The stake after the deposit.
    pub total_stake: u64,
    /// Until when the deposit locks the stake; zero without a deposit.
    pub lock_until: i64,
    /// What the participant takes out of the stake.
    pub withdrawn: u64,
}

impl UpdateProfile {
    /// Whether the profile is yet to be created.
    pub open spec fn is_new(&self) -> bool {
        self.profile.created_at == 0
    }

    /// The profile before the update is applied: as stored, or newly
    /// created with a neutral score of 500, a rating of two and a half
    /// stars and no history.
    pub open spec fn profile_at_start(&self, now: i64) -> UserProfile {
        if self.is_new() {
            UserProfile {
                user_pubkey: self.user,
                reputation_score: 500,
                auctions_as_seller: 0,
                auctions_as_buyer: 0,
                successful_deliveries: 0,
                disputes_against: 0,
                disputes_raised: 0,
                disputes_won: 0,
                total_volume: 0,
                average_rating: 25,
                rating_count: 0,
                kyc_level: KycLevel::Unverified,
                created_at: now,
                last_active: now,
                platform_verified: false,
                staked_amount: 0,
                bump: self.profile_bump,
                ..self.profile
            }
        } else {
            self.profile
        }
    }

    /// The stake before the update is applied: as stored, or newly created
    /// and empty.
    pub open spec fn stake_at_start(&self) -> ReputationStake {
        if self.is_new() {
            ReputationStake {
                user: self.user,
                token_mint: self.stake_mint,
                token_account: self.stake_vault,
                amount: 0,
                lock_until: 0,
                locked_for_dispute: false,
                bump: self.stake_bump,
            }
        } else {
            self.stake_account
        }
    }

    /// The stake after the deposit, if one was asked for: the amount
    /// added, and all of it locked for thirty days from `now`.
    pub open spec fn stake_after_deposit(&self, params: UpdateProfileParams, now: i64)
        -> ReputationStake {
        if params.stake_amount > 0 {
            ReputationStake {
                amount: (self.stake_at_start().amount + params.stake_amount) as u64,
                lock_until: (now + 2_592_000) as i64,
                ..self.stake_at_start()
            }
        } else {
            self.stake_at_start()
        }
    }

    /// Whether the counters, the stake and its lock stay in range.
    pub open spec fn in_range(&self, params: UpdateProfileParams, now: i64) -> bool {
        &&& self.is_new() ==> self.stats.total_users < u64::MAX
        &&& params.stake_amount > 0 ==> self.stake_at_start().amount + params.stake_amount
            <= u64::MAX && now + 2_592_000 <= i64::MAX
    }

    /// Why the update is refused, if it is: the first of a paused platform,
    /// arithmetic out of range, and a withdrawal from a stake that a dispute
    /// holds or whose lock is running. A deposit locks the stake, so a
    /// deposit and a withdrawal in one update never go together.
    pub open spec fn obstacle(&self, params: UpdateProfileParams, now: i64) -> Option<MarketError> {
        if self.config.paused {
            Some(MarketError::Config(ConfigError::ProgramPaused))
        } else if !self.in_range(params, now) {
            Some(MarketError::Runtime(RuntimeError::ArithmeticOverflow))
        } else if params.withdraw_stake && !self.stake_after_deposit(params, now).withdrawable_at(
            now,
        ) {
            Some(MarketError::Profile(ProfileError::StakeLocked))
        } else {
            None
        }
    }

    /// The records after the update.
    pub open spec fn updated(self, params: UpdateProfileParams, now: i64) -> UpdateProfile {
        let deposited = self.stake_after_deposit(params, now);
        let start = self.profile_at_start(now);
        UpdateProfile {
            profile: UserProfile {
                encrypted_preferences: match params.encrypted_preferences {
                    Some(preferences) => preferences,
                    None => start.encrypted_preferences,
                },
                kyc_level: match params.kyc_level {
                    Some(level) => level,
                    None => start.kyc_level,
                },
                staked_amount: if params.withdraw_stake {
                    0
                } else if params.stake_amount > 0 {
                    deposited.amount
                } else {
                    start.staked_amount
                },
                last_active: now,
                ..start
            },
            stake_account: if params.withdraw_stake {
                ReputationStake { amount: 0, ..deposited }
            } else {
                deposited
            },
            stats: if self.is_new() {
                ProgramStats {
                    total_users: (self.stats.total_users + 1) as u64,
                    last_updated: now,
                    ..self.stats
                }
            } else {
                self.stats
            },
            ..self
        }
    }

    /// What the update reports.
    pub open spec fn report(&self, params: UpdateProfileParams, now: i64) -> ProfileUpdated {
        ProfileUpdated {
            created: self.is_new(),
            deposited: params.stake_amount,
            total_stake: self.stake_after_deposit(params, now).amount,
            lock_until: if params.stake_amount > 0 {
                (now + 2_592_000) as i64
            } else {
                0
            },
            withdrawn: if params.withdraw_stake {
                self.stake_after_deposit(params, now).amount
            } else {
                0
            },
        }
    }
}

/// Finds the first obstacle to an update, if there is one.
fn refusal(ctx: &UpdateProfile, params: &UpdateProfileParams, now: i64) -> (found: Option<
    MarketError,
>)
    ensures
        found == ctx.obstacle(*params, now),
{
    if ctx.config.paused {
        return Some(MarketError::Config(ConfigError::ProgramPaused));
    }
    let is_new = ctx.profile.created_at == 0;
    if is_new && ctx.stats.total_users == u64::MAX {
        return Some(MarketError::Runtime(RuntimeError::ArithmeticOverflow));
    }
    let held: u64 = if is_new {
        0
    } else {
        ctx.stake_account.amount
    };
    if params.stake_amount > 0 && (held > u64::MAX - params.stake_amount || now > i64::MAX
        - ReputationStake::LOCK_PERIOD) {
        return Some(MarketError::Runtime(RuntimeError::ArithmeticOverflow));
    }
    if params.withdraw_stake {
        let free = if params.stake_amount > 0 {
            false
        } else if is_new {
            now >= 0
        } else {
            ctx.stake_account.can_withdraw(now)
        };
        if !free {
            return Some(MarketError::Profile(ProfileError::StakeLocked));
        }
    }
    None
}

/// Creates the profile on first use, takes over new preferences and a new
/// verification level, adds to the stake and locks it, or takes the stake
/// out. A refused update returns the first obstacle and changes no record.
pub fn handler(ctx: &mut UpdateProfile, params: UpdateProfileParams, now: i64) -> (result: Result<
    ProfileUpdated,
    MarketError,
>)
    ensures
        match result {
            Ok(report) => old(ctx).obstacle(params, now) is None && *final(ctx) == old(
                ctx,
            ).updated(params, now) && report == old(ctx).report(params, now),
            Err(e) => old(ctx).obstacle(params, now) == Some(e) && *final(ctx) == *old(ctx),
        },
        result is Ok && old(ctx).profile.wf() ==> final(ctx).profile.wf(),
{
    if let Some(obstacle) = refusal(ctx, &params, now) {
        return Err(obstacle);
    }
    let created = ctx.profile.created_at == 0;
    if created {
        ctx.profile.user_pubkey = ctx.user;
        ctx.profile.reputation_score = UserProfile::NEUTRAL_SCORE;
        ctx.profile.auctions_as_seller = 0;
        ctx.profile.auctions_as_buyer = 0;
        ctx.profile.successful_deliveries = 0;
        ctx.profile.disputes_against = 0;
        ctx.profile.disputes_raised = 0;
        ctx.profile.disputes_won = 0;
        ctx.profile.total_volume = 0;
        ctx.profile.average_rating = 25;
        ctx.profile.rating_count = 0;
        ctx.profile.kyc_level = KycLevel::Unverified;
        ctx.profile.created_at = now;
        ctx.profile.last_active = now;
        ctx.profile.platform_verified = false;
        ctx.profile.staked_amount = 0;
        ctx.profile.bump = ctx.profile_bump;
        ctx.stake_account.user = ctx.user;
        ctx.stake_account.token_mint = ctx.stake_mint;
        ctx.stake_account.token_account = ctx.stake_vault;
        ctx.stake_account.amount = 0;
        ctx.stake_account.lock_until = 0;
        ctx.stake_account.locked_for_dispute = false;
        ctx.stake_account.bump = ctx.stake_bump;
        ctx.stats.user_registered(now);
    }
    if let Some(preferences) = params.encrypted_preferences {
        ctx.profile.encrypted_preferences = preferences;
    }
    if let Some(level) = params.kyc_level {
        ctx.profile.kyc_level = level;
    }
    let mut lock_until: i64 = 0;
    if params.stake_amount > 0 {
        ctx.stake_account.deposit(params.stake_amount, now);
        ctx.profile.staked_amount = ctx.stake_account.amount;
        lock_until = ctx.stake_account.lock_until;
    }
    let total_stake = ctx.stake_account.amount;
    let mut withdrawn: u64 = 0;
    if params.withdraw_stake {
        match ctx.stake_account.withdraw(now) {
            Ok(amount) => {
                withdrawn = amount;
            },
            Err(_) => {},
        }
        ctx.profile.staked_amount = 0;
    }
    ctx.profile.last_active = now;
    Ok(
        ProfileUpdated {
            created,
            deposited: params.stake_amount,
            total_stake,
            lock_until,
            withdrawn,
        },
    )
}

} // verus!
