//! Claiming back the collateral of a bid that did not win.

use vstd::prelude::*;
use crate::address::{Address, is_address, same_address};
use crate::errors::{AuctionError, BidError, ConfigError, MarketError, RuntimeError};
use crate::state::auction::{AuctionState, AuctionStatus};
use crate::state::bid::BidCommitment;
use crate::state::escrow::CollateralPool;
use crate::state::program_config::ProgramConfig;

verus! {

/// The records a refund works on.
#[derive(Clone, Debug, PartialEq, Eq)]
pub struct ClaimRefund {
    /// Platform parameters.
    pub config: ProgramConfig,
    /// The auction bid on.
    pub auction: AuctionState,
    /// The bid whose collateral is claimed.
    pub bid: BidCommitment,
    /// The collateral pool of the auction's payment asset.
    pub collateral_pool: CollateralPool,
    /// Who claims.
    pub bidder: Address,
}

/// Why a refund is paid.
#[derive(Clone, Copy, Debug, PartialEq, Eq, Structural)]
pub enum RefundReason {
    /// The bid was revealed and lost.
    Outbid,
    /// The bid was never revealed: half the collateral is forfeited.
    FailedToReveal,
    /// The auction was cancelled or expired.
    AuctionCancelled,
}

/// What a refund reports.
#[derive(Clone, Copy, Debug, PartialEq, Eq)]
pub struct RefundClaimed {
    /// What the bidder gets back.
    pub refund_amount: u64,
    /// What the bidder forfeits.
    pub forfeited: u64,
    /// Why the refund is paid.
    pub reason: RefundReason,
}

impl ClaimRefund {
    /// Whether the bid was left sealed in an auction that was settled.
    pub open spec fn failed_to_reveal(&self) -> bool {
        self.auction.status == AuctionStatus::Settled && !self.bid.revealed
    }

    /// Whether collateral can be claimed back at `now`: the auction is
    /// settled or cancelled, or has expired by then.
    pub open spec fn refundable_at(&self, now: i64) -> bool {
        self.auction.phase_at(now) == AuctionStatus::Settled || self.auction.phase_at(now)
            == AuctionStatus::Cancelled || self.auction.phase_at(now) == AuctionStatus::Expired
    }

    /// What the bidder gets back: the collateral, or half of it, rounded
    /// down, for a bid left sealed in a settled auction.
    pub open spec fn refund_amount(&self) -> u64 {
        if self.failed_to_reveal() {
            self.bid.collateral_deposited / 2
        } else {
            self.bid.collateral_deposited
        }
    }

    /// Why the refund is refused at `now`, if it is: the first of a paused
    /// platform, an auction that is neither settled nor cancelled nor
    /// expired, a bid of someone else, a collateral handed back before, a
    /// claim by the winner, and a pool that holds less than the collateral.
    pub open spec fn obstacle(&self, now: i64) -> Option<MarketError> {
        if self.config.paused {
            Some(MarketError::Config(ConfigError::ProgramPaused))
        } else if !self.refundable_at(now) {
            Some(MarketError::Auction(AuctionError::InvalidAuctionState))
        } else if self.bid.bidder != self.bidder {
            Some(MarketError::Bid(BidError::OnlyBidder))
        } else if self.bid.collateral_returned {
            Some(MarketError::Bid(BidError::RefundAlreadyClaimed))
        } else if self.auction.winner == Some(self.bidder) {
            Some(MarketError::Bid(BidError::WinnerCannotRefund))
        } else if self.bid.collateral_deposited > self.collateral_pool.total_collateral {
            Some(MarketError::Runtime(RuntimeError::InsufficientFunds))
        } else {
            None
        }
    }

    /// The records after a refund at `now`: the collateral has left the
    /// pool, the bid is marked as refunded, and the auction records the
    /// phase it is in.
    pub open spec fn refunded(self, now: i64) -> ClaimRefund {
        ClaimRefund {
            auction: AuctionState { status: self.auction.phase_at(now), ..self.auction },
            bid: BidCommitment { collateral_returned: true, ..self.bid },
            collateral_pool: CollateralPool {
                total_collateral: (self.collateral_pool.total_collateral
                    - self.bid.collateral_deposited) as u64,
                active_bids: if self.collateral_pool.active_bids > 0 {
                    (self.collateral_pool.active_bids - 1) as u32
                } else {
                    0
                },
                ..self.collateral_pool
            },
            ..self
        }
    }

    /// What a refund reports.
    pub open spec fn report(&self) -> RefundClaimed {
        RefundClaimed {
            refund_amount: self.refund_amount(),
            forfeited: (self.bid.collateral_deposited - self.refund_amount()) as u64,
            reason: if self.auction.status == AuctionStatus::Settled {
                if self.bid.revealed {
                    RefundReason::Outbid
                } else {
                    RefundReason::FailedToReveal
                }
            } else {
                RefundReason::AuctionCancelled
            },
        }
    }
}

/// Pays back the collateral of a bid that did not win, once the auction is
/// settled, cancelled or expired. A bid left sealed in a settled auction
/// gets back half. The winner gets nothing back, and no collateral is paid
/// back twice. A refused claim returns the first obstacle and changes no
/// record.
pub fn handler(ctx: &mut ClaimRefund, now: i64) -> (result: Result<RefundClaimed, MarketError>)
    ensures
        match result {
            Ok(report) => old(ctx).obstacle(now) is None && *final(ctx) == old(ctx).refunded(now)
                && report == old(ctx).report(),
            Err(e) => old(ctx).obstacle(now) == Some(e) && *final(ctx) == *old(ctx),
        },
        old(ctx).auction.winner == Some(old(ctx).bidder) ==> result is Err,
        old(ctx).bid.collateral_returned ==> result is Err,
        result matches Ok(report) ==> report.refund_amount + report.forfeited == old(
            ctx,
        ).bid.collateral_deposited && final(ctx).bid.collateral_returned,
        old(ctx).auction.status.may_become(final(ctx).auction.status),
        result is Ok && old(ctx).auction.wf() ==> final(ctx).auction.wf(),
{
    if ctx.config.paused {
        return Err(MarketError::Config(ConfigError::ProgramPaused));
    }
    let phase = ctx.auction.logical_status(now);
    if phase != AuctionStatus::Settled && phase != AuctionStatus::Cancelled && phase
        != AuctionStatus::Expired {
        return Err(MarketError::Auction(AuctionError::InvalidAuctionState));
    }
    if !same_address(&ctx.bid.bidder, &ctx.bidder) {
        return Err(MarketError::Bid(BidError::OnlyBidder));
    }
    if ctx.bid.collateral_returned {
        return Err(MarketError::Bid(BidError::RefundAlreadyClaimed));
    }
    if is_address(&ctx.auction.winner, &ctx.bidder) {
        return Err(MarketError::Bid(BidError::WinnerCannotRefund));
    }
    let deposited = ctx.bid.collateral_deposited;
    let settled = ctx.auction.status == AuctionStatus::Settled;
    let (refund_amount, reason) = if settled {
        if ctx.bid.revealed {
            (deposited, RefundReason::Outbid)
        } else {
            (deposited / 2, RefundReason::FailedToReveal)
        }
    } else {
        (deposited, RefundReason::AuctionCancelled)
    };
    if let Err(e) = ctx.collateral_pool.withdraw(deposited) {
        return Err(MarketError::Runtime(e));
    }
    ctx.bid.collateral_returned = true;
    ctx.auction.status = phase;
    Ok(RefundClaimed { refund_amount, forfeited: deposited - refund_amount, reason })
}

/// Refund exclusivity, first part: the winner of an auction never gets a
/// refund.
pub proof fn lemma_winner_cannot_refund(ctx: ClaimRefund, now: i64)
    requires
        ctx.auction.winner == Some(ctx.bidder),
    ensures
        ctx.obstacle(now) is Some,
        !ctx.config.paused && ctx.refundable_at(now) && ctx.bid.bidder == ctx.bidder
            && !ctx.bid.collateral_returned ==> ctx.obstacle(now) == Some(
            MarketError::Bid(BidError::WinnerCannotRefund),
        ),
{
}

/// Refund exclusivity, second part: once a refund has been paid, a further
/// claim on the same bid is refused with `RefundAlreadyClaimed`, whatever
/// has become of the pool in between.
pub proof fn lemma_second_refund_refused(
    ctx: ClaimRefund,
    now: i64,
    pool_later: CollateralPool,
    later: i64,
)
    requires
        ctx.obstacle(now) is None,
    ensures
        (ClaimRefund { collateral_pool: pool_later, ..ctx.refunded(now) }).obstacle(later) == Some(
            MarketError::Bid(BidError::RefundAlreadyClaimed),
        ),
{
}

} // verus!
