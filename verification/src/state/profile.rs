//! Participant profiles, the reputation score computed from them, and the
//! stake that backs a reputation.

use vstd::prelude::*;
use crate::address::{Address, is_zeroed};
use crate::errors::ProfileError;
use crate::log_scale::{is_tenfold_log10, lemma_tenfold_log10_unique, tenfold_log10};
use crate::state::dispute::lemma_average_stays_in_range;

verus! {

/// How far a participant's identity has been verified. The levels are
/// ordered from `Unverified` up to `Accredited`.
#[derive(Clone, Copy, Debug, PartialEq, Eq, PartialOrd, Ord, Structural)]
pub enum KycLevel {
    /// Not verified.
    Unverified,
    /// E-mail or phone verified.
    Basic,
    /// Identity document verified.
    Enhanced,
    /// Identity and address verified.
    Full,
    /// Accredited investor.
    Accredited,
}

impl Default for KycLevel {
    fn default() -> (level: Self)
        ensures
            level == KycLevel::Unverified,
    {
        KycLevel::Unverified
    }
}

impl KycLevel {
    /// Position of the level in the order, from 0 for `Unverified` to 4 for
    /// `Accredited`.
    pub open spec fn rank(self) -> u8 {
        match self {
            KycLevel::Unverified => 0,
            KycLevel::Basic => 1,
            KycLevel::Enhanced => 2,
            KycLevel::Full => 3,
            KycLevel::Accredited => 4,
        }
    }

    /// Computes `rank`.
    pub fn to_rank(self) -> (rank: u8)
        ensures
            rank == self.rank(),
    {
        match self {
            KycLevel::Unverified => 0,
            KycLevel::Basic => 1,
            KycLevel::Enhanced => 2,
            KycLevel::Full => 3,
            KycLevel::Accredited => 4,
        }
    }
}

/// A participant.
#[derive(Debug, Clone, Copy, PartialEq, Eq)]
pub struct UserProfile {
    /// The participant's key.
    pub user_pubkey: Address,
    /// Reputation score, 0 to 1000; 500 is neutral.
    pub reputation_score: u16,
    /// Auctions completed as seller.
    pub auctions_as_seller: u32,
    /// Auctions completed as buyer.
    pub auctions_as_buyer: u32,
    /// Deliveries that went through.
    pub successful_deliveries: u32,
    /// Disputes decided against the participant.
    pub disputes_against: u8,
    /// Disputes the participant raised.
    pub disputes_raised: u8,
    /// Disputes the participant won.
    pub disputes_won: u8,
    /// Sum of all transactions, in cents.
    pub total_volume: u64,
    /// Average rating, 0 to 50; 25 is two and a half stars.
    pub average_rating: u8,
    /// Ratings received.
    pub rating_count: u32,
    /// Encrypted preferences.
    pub encrypted_preferences: [u8; 64],
    /// Verification level.
    pub kyc_level: KycLevel,
    /// Time of creation.
    pub created_at: i64,
    /// Time of the last activity.
    pub last_active: i64,
    /// Whether the platform has verified the profile.
    pub platform_verified: bool,
    /// Stake behind the reputation.
    pub staked_amount: u64,
    /// Address derivation seed.
    pub bump: u8,
    /// Unused space.
    pub _reserved: [u8; 32],
}

/// The bonus for transaction volume: ten times the decimal logarithm of the
/// volume, rounded down, at most 100; nothing for no volume.
pub open spec fn volume_bonus_of(total_volume: u64) -> int {
    if total_volume == 0 {
        0
    } else {
        choose|level: int| is_tenfold_log10(total_volume, level)
    }
}

/// Computes `volume_bonus_of`.
pub fn volume_bonus(total_volume: u64) -> (bonus: u16)
    ensures
        bonus == volume_bonus_of(total_volume),
        bonus <= 100,
        total_volume > 0 ==> is_tenfold_log10(total_volume, bonus as int),
{
    if total_volume == 0 {
        return 0;
    }
    let level = tenfold_log10(total_volume);
    proof {
        lemma_tenfold_log10_unique(total_volume, level as int, volume_bonus_of(total_volume));
    }
    level
}

impl UserProfile {
    /// Score of a participant without history.
    pub const NEUTRAL_SCORE: u16 = 500;

    /// What every stored profile keeps: a score within its range.
    pub open spec fn wf(&self) -> bool {
        self.reputation_score <= 1000
    }

    /// Up to 200 points for the share of sales that were delivered.
    pub open spec fn delivery_bonus(&self) -> int {
        200 * self.successful_deliveries / (if self.auctions_as_seller == 0 {
            1
        } else {
            self.auctions_as_seller as int
        })
    }

    /// Up to 300 points off for the share of auctions that ended in a
    /// dispute against the participant.
    pub open spec fn dispute_penalty(&self) -> int {
        300 * self.disputes_against / (if self.auctions_as_seller + self.auctions_as_buyer == 0 {
            1
        } else {
            self.auctions_as_seller + self.auctions_as_buyer
        })
    }

    /// Four points for each tenth of a star above or below two and a half.
    pub open spec fn rating_bonus(&self) -> int {
        4 * (self.average_rating - 25)
    }

    /// The score before it is cut to its range.
    pub open spec fn raw_score(&self) -> int {
        500 + self.delivery_bonus() - self.dispute_penalty() + volume_bonus_of(self.total_volume)
            + self.rating_bonus()
    }

    /// The reputation score: 500, plus the delivery bonus, less the dispute
    /// penalty, plus the volume bonus, plus the rating bonus, cut to the
    /// range from 0 to 1000.
    pub open spec fn score(&self) -> int {
        if self.raw_score() < 0 {
            0
        } else if self.raw_score() > 1000 {
            1000
        } else {
            self.raw_score()
        }
    }

    /// Computes the reputation score from the profile's history.
    pub fn calculate_reputation(&self) -> (score: u16)
        ensures
            score == self.score(),
            score <= 1000,
    {
        let sales: u64 = if self.auctions_as_seller == 0 {
            1
        } else {
            self.auctions_as_seller as u64
        };
        let delivery: u64 = 200 * (self.successful_deliveries as u64) / sales;
        let auctions: u64 = (self.auctions_as_seller as u64) + (self.auctions_as_buyer as u64);
        let penalty: u64 = 300 * (self.disputes_against as u64) / (if auctions == 0 {
            1
        } else {
            auctions
        });
        let volume: u16 = volume_bonus(self.total_volume);
        let rating: i64 = 4 * ((self.average_rating as i64) - 25);
        proof {
            assert(delivery <= 200 * self.successful_deliveries) by (nonlinear_arith)
                requires
                    delivery == 200 * self.successful_deliveries / (sales as int),
                    sales >= 1,
            ;
            assert(penalty <= 300 * self.disputes_against) by (nonlinear_arith)
                requires
                    penalty == 300 * self.disputes_against / (if auctions == 0 {
                        1
                    } else {
                        auctions as int
                    }),
                    auctions >= 0,
            ;
        }
        let raw: i64 = 500 + (delivery as i64) - (penalty as i64) + (volume as i64) + rating;
        if raw < 0 {
            0
        } else if raw > 1000 {
            1000
        } else {
            raw as u16
        }
    }

    /// Whether the stored score reaches `min_score`.
    pub fn meets_reputation_threshold(&self, min_score: u16) -> (meets: bool)
        ensures
            meets == (self.reputation_score >= min_score),
    {
        self.reputation_score >= min_score
    }

    /// Whether the participant may sell high-value items: a score of 700, ten
    /// completed sales, fewer than three disputes against, and an identity
    /// verified at the enhanced level or above.
    pub open spec fn high_value_seller(&self) -> bool {
        &&& self.reputation_score >= 700
        &&& self.auctions_as_seller >= 10
        &&& self.disputes_against < 3
        &&& self.kyc_level.rank() >= KycLevel::Enhanced.rank()
    }

    /// Whether the participant may sell high-value items.
    pub fn can_sell_high_value(&self) -> (allowed: bool)
        ensures
            allowed == self.high_value_seller(),
    {
        self.reputation_score >= 700 && self.auctions_as_seller >= 10 && self.disputes_against < 3
            && self.kyc_level.to_rank() >= 2
    }

    /// The profile after a completed auction, before the score is brought
    /// up to date: the counters for the side taken, and the new average
    /// where a rating came with it.
    pub open spec fn counted(self, as_seller: bool, successful: bool, rating: Option<u8>)
        -> UserProfile {
        UserProfile {
            auctions_as_seller: if as_seller {
                (self.auctions_as_seller + 1) as u32
            } else {
                self.auctions_as_seller
            },
            successful_deliveries: if as_seller && successful {
                (self.successful_deliveries + 1) as u32
            } else {
                self.successful_deliveries
            },
            auctions_as_buyer: if as_seller {
                self.auctions_as_buyer
            } else {
                (self.auctions_as_buyer + 1) as u32
            },
            average_rating: match rating {
                Some(r) => ((self.average_rating * self.rating_count + r) / (self.rating_count
                    + 1)) as u8,
                None => self.average_rating,
            },
            rating_count: if rating is Some {
                (self.rating_count + 1) as u32
            } else {
                self.rating_count
            },
            ..self
        }
    }

    /// Whether `update_after_auction` stays within the machine's range.
    pub open spec fn can_count(&self, as_seller: bool, successful: bool, rating: Option<u8>)
        -> bool {
        &&& as_seller ==> self.auctions_as_seller < u32::MAX
        &&& as_seller && successful ==> self.successful_deliveries < u32::MAX
        &&& !as_seller ==> self.auctions_as_buyer < u32::MAX
        &&& rating is Some ==> self.rating_count < u32::MAX
    }

    /// Computes `can_count`.
    pub fn fits_count(&self, as_seller: bool, successful: bool, rating: Option<u8>) -> (fits: bool)
        ensures
            fits == self.can_count(as_seller, successful, rating),
    {
        if as_seller && self.auctions_as_seller == u32::MAX {
            return false;
        }
        if as_seller && successful && self.successful_deliveries == u32::MAX {
            return false;
        }
        if !as_seller && self.auctions_as_buyer == u32::MAX {
            return false;
        }
        if rating.is_some() && self.rating_count == u32::MAX {
            return false;
        }
        true
    }

    /// Enters a completed auction: counts it on the side taken, averages in
    /// the rating if one came with it, and brings the score up to date.
    pub fn update_after_auction(
        &mut self,
        as_seller: bool,
        successful: bool,
        rating: Option<u8>,
        now: i64,
    )
        requires
            old(self).can_count(as_seller, successful, rating),
        ensures
            *final(self) == (UserProfile {
                reputation_score: old(self).counted(as_seller, successful, rating).score() as u16,
                last_active: now,
                ..old(self).counted(as_seller, successful, rating)
            }),
            final(self).wf(),
    {
        if as_seller {
            self.auctions_as_seller += 1;
            if successful {
                self.successful_deliveries += 1;
            }
        } else {
            self.auctions_as_buyer += 1;
        }
        if let Some(r) = rating {
            proof {
                lemma_average_stays_in_range(
                    self.average_rating as int,
                    self.rating_count as int,
                    r as int,
                );
            }
            let total: u64 = (self.average_rating as u64) * (self.rating_count as u64) + (
            r as u64);
            self.rating_count += 1;
            self.average_rating = (total / (self.rating_count as u64)) as u8;
        }
        self.reputation_score = self.calculate_reputation();
        self.last_active = now;
    }

    /// Counts a dispute decided against the participant and brings the
    /// score up to date.
    pub fn record_dispute_against(&mut self)
        requires
            old(self).disputes_against < u8::MAX,
        ensures
            final(self).disputes_against == old(self).disputes_against + 1,
            *final(self) == (UserProfile {
                disputes_against: final(self).disputes_against,
                reputation_score: (UserProfile {
                    disputes_against: final(self).disputes_against,
                    ..*old(self)
                }).score() as u16,
                ..*old(self)
            }),
            final(self).wf(),
    {
        self.disputes_against += 1;
        self.reputation_score = self.calculate_reputation();
    }

    /// Counts a dispute the participant raised, and a win if it was won.
    pub fn record_dispute_raised(&mut self, won: bool)
        requires
            old(self).disputes_raised < u8::MAX,
            won ==> old(self).disputes_won < u8::MAX,
        ensures
            *final(self) == (UserProfile {
                disputes_raised: (old(self).disputes_raised + 1) as u8,
                disputes_won: if won {
                    (old(self).disputes_won + 1) as u8
                } else {
                    old(self).disputes_won
                },
                ..*old(self)
            }),
    {
        self.disputes_raised += 1;
        if won {
            self.disputes_won += 1;
        }
    }
}

/// The part of a profile that goes into the compressed index.
#[derive(Clone, Debug, PartialEq, Eq)]
pub struct CompressedUserProfile {
    pub user_pubkey: [u8; 32],
    pub reputation_score: u16,
    pub auctions_completed: u32,
    pub disputes_against: u8,
    pub kyc_level: u8,
    pub created_at: i64,
}

impl CompressedUserProfile {
    /// Length of the compact record.
    pub const SERIALIZED_SIZE: usize = 48;

    /// The compact record of `profile`.
    pub fn from_profile(profile: &UserProfile) -> (compact: Self)
        requires
            profile.auctions_as_seller + profile.auctions_as_buyer <= u32::MAX,
        ensures
            compact == (CompressedUserProfile {
                user_pubkey: profile.user_pubkey,
                reputation_score: profile.reputation_score,
                auctions_completed: (profile.auctions_as_seller + profile.auctions_as_buyer) as u32,
                disputes_against: profile.disputes_against,
                kyc_level: profile.kyc_level.rank(),
                created_at: profile.created_at,
            }),
    {
        CompressedUserProfile {
            user_pubkey: profile.user_pubkey,
            reputation_score: profile.reputation_score,
            auctions_completed: profile.auctions_as_seller + profile.auctions_as_buyer,
            disputes_against: profile.disputes_against,
            kyc_level: profile.kyc_level.to_rank(),
            created_at: profile.created_at,
        }
    }
}

/// The stake behind a participant's reputation.
#[derive(Debug, Clone, Copy, PartialEq, Eq)]
pub struct ReputationStake {
    /// The participant.
    pub user: Address,
    /// Asset staked.
    pub token_mint: Address,
    /// Account that holds the stake.
    pub token_account: Address,
    /// Amount staked.
    pub amount: u64,
    /// Moment until which the stake cannot be withdrawn.
    pub lock_until: i64,
    /// Whether a dispute holds the stake.
    pub locked_for_dispute: bool,
    /// Address derivation seed.
    pub bump: u8,
}

impl ReputationStake {
    /// Stake a seller needs.
    pub const MIN_SELLER_STAKE: u64 = 100_000_000;

    /// Stake a seller of high-value items needs.
    pub const MIN_HIGH_VALUE_STAKE: u64 = 1_000_000_000;

    /// Seconds a deposit locks the stake: thirty days.
    pub const LOCK_PERIOD: i64 = 2_592_000;

    /// Whether the stake is free at `current_time`: no dispute holds it and
    /// its lock has run out.
    pub open spec fn withdrawable_at(&self, current_time: i64) -> bool {
        !self.locked_for_dispute && current_time >= self.lock_until
    }

    /// Whether the stake can be withdrawn at `current_time`.
    pub fn can_withdraw(&self, current_time: i64) -> (free: bool)
        ensures
            free == self.withdrawable_at(current_time),
    {
        !self.locked_for_dispute && current_time >= self.lock_until
    }

    /// Holds the stake for a dispute, whatever its lock says.
    pub fn lock_for_dispute(&mut self)
        ensures
            *final(self) == (ReputationStake { locked_for_dispute: true, ..*old(self) }),
            forall|t: i64| !final(self).withdrawable_at(t),
    {
        self.locked_for_dispute = true;
    }

    /// Lets go of the stake after a dispute.
    pub fn unlock(&mut self)
        ensures
            *final(self) == (ReputationStake { locked_for_dispute: false, ..*old(self) }),
    {
        self.locked_for_dispute = false;
    }

    /// Takes `percentage` percent of the stake, rounded down, and returns
    /// what was taken.
    pub fn slash(&mut self, percentage: u8) -> (slashed: u64)
        requires
            percentage <= 100,
        ensures
            slashed == old(self).amount * percentage / 100,
            *final(self) == (ReputationStake {
                amount: (old(self).amount - slashed) as u64,
                ..*old(self)
            }),
    {
        proof {
            assert(0 <= self.amount * percentage <= u64::MAX * 100 && self.amount * percentage / 100
                <= self.amount) by (nonlinear_arith)
                requires
                    0 <= self.amount <= u64::MAX,
                    0 <= percentage <= 100,
            ;
        }
        let slash_amount = (((self.amount as u128) * (percentage as u128)) / 100) as u64;
        self.amount -= slash_amount;
        slash_amount
    }

    /// Adds to the stake and locks all of it for thirty days from `now`.
    pub fn deposit(&mut self, amount: u64, now: i64)
        requires
            old(self).amount + amount <= u64::MAX,
            now + 2_592_000 <= i64::MAX,
        ensures
            *final(self) == (ReputationStake {
                amount: (old(self).amount + amount) as u64,
                lock_until: (now + 2_592_000) as i64,
                ..*old(self)
            }),
            forall|t: i64| t < now + 2_592_000 ==> !final(self).withdrawable_at(t),
    {
        self.amount += amount;
        self.lock_until = now + Self::LOCK_PERIOD;
    }

    /// Takes the whole stake out. Fails with `StakeLocked` while a dispute
    /// holds the stake or its lock is still running.
    pub fn withdraw(&mut self, now: i64) -> (taken: Result<u64, ProfileError>)
        ensures
            match taken {
                Ok(amount) => old(self).withdrawable_at(now) && amount == old(self).amount
                    && *final(self) == (ReputationStake { amount: 0, ..*old(self) }),
                Err(e) => e == ProfileError::StakeLocked && !old(self).withdrawable_at(now)
                    && *final(self) == *old(self),
            },
    {
        if !self.can_withdraw(now) {
            return Err(ProfileError::StakeLocked);
        }
        let amount = self.amount;
        self.amount = 0;
        Ok(amount)
    }
}

impl UserProfile {
    /// A profile record with nothing entered; its creation time of zero
    /// marks it as not yet created.
    pub open spec fn is_blank(&self) -> bool {
        &&& is_zeroed(self.user_pubkey)
        &&& self.reputation_score == 0
        &&& self.auctions_as_seller == 0
        &&& self.auctions_as_buyer == 0
        &&& self.successful_deliveries == 0
        &&& self.disputes_against == 0
        &&& self.disputes_raised == 0
        &&& self.disputes_won == 0
        &&& self.total_volume == 0
        &&& self.average_rating == 0
        &&& self.rating_count == 0
        &&& is_zeroed(self.encrypted_preferences)
        &&& self.kyc_level == KycLevel::Unverified
        &&& self.created_at == 0
        &&& self.last_active == 0
        &&& !self.platform_verified
        &&& self.staked_amount == 0
        &&& self.bump == 0
        &&& is_zeroed(self._reserved)
    }
}

impl Default for UserProfile {
    fn default() -> (profile: Self)
        ensures
            profile.is_blank(),
    {
        UserProfile {
            user_pubkey: [0u8; 32],
            reputation_score: 0,
            auctions_as_seller: 0,
            auctions_as_buyer: 0,
            successful_deliveries: 0,
            disputes_against: 0,
            disputes_raised: 0,
            disputes_won: 0,
            total_volume: 0,
            average_rating: 0,
            rating_count: 0,
            encrypted_preferences: [0u8; 64],
            kyc_level: KycLevel::Unverified,
            created_at: 0,
            last_active: 0,
            platform_verified: false,
            staked_amount: 0,
            bump: 0,
            _reserved: [0u8; 32],
        }
    }
}

impl ReputationStake {
    /// A stake record with nothing entered.
    pub open spec fn is_blank(&self) -> bool {
        &&& is_zeroed(self.user)
        &&& is_zeroed(self.token_mint)
        &&& is_zeroed(self.token_account)
        &&& self.amount == 0
        &&& self.lock_until == 0
        &&& !self.locked_for_dispute
        &&& self.bump == 0
    }
}

impl Default for ReputationStake {
    fn default() -> (stake: Self)
        ensures
            stake.is_blank(),
    {
        ReputationStake {
            user: [0u8; 32],
            token_mint: [0u8; 32],
            token_account: [0u8; 32],
            amount: 0,
            lock_until: 0,
            locked_for_dispute: false,
            bump: 0,
        }
    }
}

} // verus!
