//! Confirming a delivery, which releases the escrow to the seller.

use vstd::prelude::*;
use crate::address::{Address, is_address};
use crate::errors::{
    AuctionError,
    ConfigError,
    EscrowError,
    FulfillmentError,
    MarketError,
    RuntimeError,
};
use crate::state::auction::{AuctionState, AuctionStatus};
use crate::state::escrow::{
    EscrowAccount,
    EscrowStatus,
    Payout,
    lemma_payout_conserves,
    payout_of,
};
use crate::state::profile::UserProfile;
use crate::state::program_config::ProgramConfig;

verus! {

/// What a buyer hands in to confirm a delivery.
#[derive(Clone, Debug, PartialEq, Eq)]
pub struct ConfirmDeliveryParams {
    /// Proof of delivery.
    pub delivery_proof: Vec<u8>,
    /// Digest of the proof.
    pub proof_hash: [u8; 32],
    /// Rating for the seller, 0 to 50, if any.
    pub seller_rating: Option<u8>,
}

/// The records a confirmation works on.
#[derive(Clone, Debug, PartialEq, Eq)]
pub struct ConfirmDelivery {
    /// Platform parameters.
    pub config: ProgramConfig,
    /// The auction delivered on.
    pub auction: AuctionState,
    /// The escrow of the auction.
    pub escrow: EscrowAccount,
    /// Profile of the seller.
    pub seller_profile: UserProfile,
    /// Profile of the buyer.
    pub buyer_profile: UserProfile,
    /// Who confirms.
    pub buyer: Address,
}

/// What a confirmation reports.
#[derive(Clone, Copy, Debug, PartialEq, Eq)]
pub struct DeliveryConfirmed {
    /// The amount that leaves the escrow.
    pub amount: u64,
    /// How it is divided between platform and seller.
    pub payout: Payout,
}

impl ConfirmDelivery {
    /// Whether the fee and the counters of both profiles stay in range.
    pub open spec fn in_range(&self, params: ConfirmDeliveryParams) -> bool {
        &&& self.config.platform_fee_bps <= 10_000
        &&& self.seller_profile.can_count(true, true, params.seller_rating)
        &&& self.buyer_profile.can_count(false, true, None)
    }

    /// Why the confirmation is refused at `now`, if it is: the first of a
    /// paused platform, an auction that is not settled, an escrow that is
    /// not funded, a caller other than the winner, an empty proof, a
    /// time-lock that is still running, too few signatures, and arithmetic
    /// out of range. The confirmation itself is the delivery confirmation
    /// that the escrow may ask for; it lifts neither the time-lock nor the
    /// need for signatures.
    pub open spec fn obstacle(&self, params: ConfirmDeliveryParams, now: i64) -> Option<
        MarketError,
    > {
        if self.config.paused {
            Some(MarketError::Config(ConfigError::ProgramPaused))
        } else if self.auction.status != AuctionStatus::Settled {
            Some(MarketError::Auction(AuctionError::InvalidAuctionState))
        } else if self.escrow.status != EscrowStatus::Funded {
            Some(MarketError::Escrow(EscrowError::InvalidEscrowState))
        } else if self.auction.winner != Some(self.buyer) {
            Some(MarketError::Fulfillment(FulfillmentError::OnlyBuyerCanConfirm))
        } else if params.delivery_proof@.len() == 0 {
            Some(MarketError::Fulfillment(FulfillmentError::InvalidDeliveryProof))
        } else if now < self.escrow.release_conditions.release_deadline {
            Some(MarketError::Escrow(EscrowError::TimeLockNotExpired))
        } else if self.escrow.release_conditions.signatures_collected
            < self.escrow.release_conditions.multi_sig_threshold {
            Some(MarketError::Escrow(EscrowError::InsufficientSignatures))
        } else if !self.in_range(params) {
            Some(MarketError::Runtime(RuntimeError::ArithmeticOverflow))
        } else {
            None
        }
    }

    /// How the escrowed amount is divided.
    pub open spec fn payout(&self) -> Payout {
        payout_of(self.escrow.amount, self.config.platform_fee_bps)
    }

    /// The records after a confirmation at `now`: the escrow is released;
    /// the seller counts a delivered sale, with the rating if one was given;
    /// the buyer counts a purchase; both scores are brought up to date.
    pub open spec fn confirmed(self, params: ConfirmDeliveryParams, now: i64) -> ConfirmDelivery {
        let seller = self.seller_profile.counted(true, true, params.seller_rating);
        let buyer = self.buyer_profile.counted(false, true, None);
        ConfirmDelivery {
            escrow: EscrowAccount {
                status: EscrowStatus::Released,
                released_at: Some(now),
                ..self.escrow
            },
            seller_profile: UserProfile {
                reputation_score: seller.score() as u16,
                last_active: now,
                ..seller
            },
            buyer_profile: UserProfile {
                reputation_score: buyer.score() as u16,
                last_active: now,
                ..buyer
            },
            ..self
        }
    }
}

/// Finds the first obstacle to a confirmation, if there is one.
fn refusal(ctx: &ConfirmDelivery, params: &ConfirmDeliveryParams, now: i64) -> (found: Option<
    MarketError,
>)
    ensures
        found == ctx.obstacle(*params, now),
{
    if ctx.config.paused {
        return Some(MarketError::Config(ConfigError::ProgramPaused));
    }
    if ctx.auction.status != AuctionStatus::Settled {
        return Some(MarketError::Auction(AuctionError::InvalidAuctionState));
    }
    if ctx.escrow.status != EscrowStatus::Funded {
        return Some(MarketError::Escrow(EscrowError::InvalidEscrowState));
    }
    if !is_address(&ctx.auction.winner, &ctx.buyer) {
        return Some(MarketError::Fulfillment(FulfillmentError::OnlyBuyerCanConfirm));
    }
    if params.delivery_proof.len() == 0 {
        return Some(MarketError::Fulfillment(FulfillmentError::InvalidDeliveryProof));
    }
    if now < ctx.escrow.release_conditions.release_deadline {
        return Some(MarketError::Escrow(EscrowError::TimeLockNotExpired));
    }
    if ctx.escrow.release_conditions.signatures_collected
        < ctx.escrow.release_conditions.multi_sig_threshold {
        return Some(MarketError::Escrow(EscrowError::InsufficientSignatures));
    }
    if ctx.config.platform_fee_bps > 10_000 || !ctx.seller_profile.fits_count(
        true,
        true,
        params.seller_rating,
    ) || !ctx.buyer_profile.fits_count(false, true, None) {
        return Some(MarketError::Runtime(RuntimeError::ArithmeticOverflow));
    }
    None
}

/// Takes the buyer's confirmation of delivery and releases the escrow,
/// once its time-lock has run out and its signatures are in: the platform
/// keeps its fee and the seller gets the rest. Both profiles count the
/// completed auction. A refused confirmation returns the first obstacle and
/// changes no record.
pub fn handler(ctx: &mut ConfirmDelivery, params: ConfirmDeliveryParams, now: i64) -> (result:
    Result<DeliveryConfirmed, MarketError>)
    ensures
        match result {
            Ok(report) => old(ctx).obstacle(params, now) is None && *final(ctx) == old(
                ctx,
            ).confirmed(params, now) && report == (DeliveryConfirmed {
                amount: old(ctx).escrow.amount,
                payout: old(ctx).payout(),
            }),
            Err(e) => old(ctx).obstacle(params, now) == Some(e) && *final(ctx) == *old(ctx),
        },
        result is Ok ==> old(ctx).escrow.releasable_at(now),
        now < old(ctx).escrow.release_conditions.release_deadline ==> result is Err,
        old(ctx).escrow.release_conditions.signatures_collected < old(
            ctx,
        ).escrow.release_conditions.multi_sig_threshold ==> result is Err,
        result matches Ok(report) ==> report.payout.platform_fee
            + report.payout.beneficiary_receives == old(ctx).escrow.amount,
        result is Ok ==> final(ctx).seller_profile.wf() && final(ctx).buyer_profile.wf(),
        old(ctx).escrow.status.may_become(final(ctx).escrow.status),
        result is Ok && old(ctx).escrow.wf() ==> final(ctx).escrow.wf(),
        final(ctx).escrow.amount == old(ctx).escrow.amount,
{
    if let Some(obstacle) = refusal(ctx, &params, now) {
        return Err(obstacle);
    }
    let amount = ctx.escrow.amount;
    let payout = match ctx.escrow.release(ctx.config.platform_fee_bps, true, now) {
        Ok(payout) => payout,
        Err(e) => {
            return Err(MarketError::Escrow(e));
        },
    };
    ctx.seller_profile.update_after_auction(true, true, params.seller_rating, now);
    ctx.buyer_profile.update_after_auction(false, true, None, now);
    Ok(DeliveryConfirmed { amount, payout })
}

/// Conservation of a release on delivery: fee and seller's share add up to
/// the escrowed amount, exactly.
pub proof fn lemma_delivery_conserves(ctx: ConfirmDelivery)
    requires
        ctx.config.platform_fee_bps <= 10_000,
    ensures
        ctx.payout().platform_fee + ctx.payout().beneficiary_receives == ctx.escrow.amount,
{
    lemma_payout_conserves(ctx.escrow.amount, ctx.config.platform_fee_bps);
}

} // verus!
