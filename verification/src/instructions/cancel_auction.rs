//! Cancelling an auction that has no bids.

use vstd::prelude::*;
use crate::address::{Address, same_address};
use crate::errors::{AuctionError, ConfigError, EscrowError, MarketError};
use crate::state::auction::{AuctionState, AuctionStatus, ProductType};
use crate::state::escrow::{EscrowAccount, EscrowStatus};
use crate::state::program_config::{ProgramConfig, ProgramStats};

verus! {

/// The records a cancellation works on.
#[derive(Clone, Debug, PartialEq, Eq)]
pub struct CancelAuction {
    /// Platform parameters.
    pub config: ProgramConfig,
    /// Platform counters.
    pub stats: ProgramStats,
    /// The auction to cancel.
    pub auction: AuctionState,
    /// The escrow of the auction.
    pub escrow: EscrowAccount,
    /// Who asks for the cancellation.
    pub seller: Address,
    /// Whether the account that holds the token on sale was handed in.
    pub has_nft_escrow: bool,
    /// Whether an account of the seller for the token was handed in.
    pub has_seller_nft_account: bool,
}

/// What a cancellation reports.
#[derive(Clone, Copy, Debug, PartialEq, Eq)]
pub struct AuctionCancelled {
    /// Whether the token on sale goes back to the seller.
    pub returns_token: bool,
    /// Bidders to refund: none, since only an auction without bids can be
    /// cancelled.
    pub bidders_to_refund: u32,
}

impl CancelAuction {
    /// Why the cancellation is refused, if it is: the first of a paused
    /// platform, a caller other than the seller, an auction that is not
    /// active, an auction that has bids, and an escrow that is no longer
    /// new.
    pub open spec fn obstacle(&self) -> Option<MarketError> {
        if self.config.paused {
            Some(MarketError::Config(ConfigError::ProgramPaused))
        } else if self.auction.seller != self.seller {
            Some(MarketError::Auction(AuctionError::OnlySeller))
        } else if self.auction.status != AuctionStatus::Active {
            Some(MarketError::Auction(AuctionError::InvalidAuctionState))
        } else if self.auction.bid_count != 0 {
            Some(MarketError::Auction(AuctionError::CannotCancelWithBids))
        } else if self.escrow.status != EscrowStatus::Created {
            Some(MarketError::Escrow(EscrowError::InvalidEscrowState))
        } else {
            None
        }
    }

    /// The records after a cancellation at `now`: auction and escrow are
    /// cancelled, and one auction less is active, the count stopping at zero.
    pub open spec fn cancelled(self, now: i64) -> CancelAuction {
        CancelAuction {
            auction: AuctionState { status: AuctionStatus::Cancelled, ..self.auction },
            escrow: EscrowAccount { status: EscrowStatus::Cancelled, ..self.escrow },
            stats: ProgramStats {
                active_auctions: if self.stats.active_auctions == 0 {
                    0
                } else {
                    (self.stats.active_auctions - 1) as u64
                },
                last_updated: now,
                ..self.stats
            },
            ..self
        }
    }

    /// Whether the token on sale goes back to the seller.
    pub open spec fn returns_token(&self) -> bool {
        self.auction.product_type == ProductType::Nft && self.has_nft_escrow
            && self.has_seller_nft_account
    }
}

/// Cancels an auction for its seller while it is active and has no bids. A
/// refused cancellation returns the first obstacle and changes no record.
pub fn handler(ctx: &mut CancelAuction, now: i64) -> (result: Result<AuctionCancelled, MarketError>)
    ensures
        match result {
            Ok(report) => old(ctx).obstacle() is None && *final(ctx) == old(ctx).cancelled(now)
                && report == (AuctionCancelled {
                returns_token: old(ctx).returns_token(),
                bidders_to_refund: 0,
            }),
            Err(e) => old(ctx).obstacle() == Some(e) && *final(ctx) == *old(ctx),
        },
        old(ctx).auction.status.may_become(final(ctx).auction.status),
        old(ctx).escrow.status.may_become(final(ctx).escrow.status),
        result is Ok && old(ctx).auction.wf() ==> final(ctx).auction.wf(),
        result is Ok && old(ctx).escrow.wf() ==> final(ctx).escrow.wf(),
{
    if ctx.config.paused {
        return Err(MarketError::Config(ConfigError::ProgramPaused));
    }
    if !same_address(&ctx.auction.seller, &ctx.seller) {
        return Err(MarketError::Auction(AuctionError::OnlySeller));
    }
    if ctx.auction.status != AuctionStatus::Active {
        return Err(MarketError::Auction(AuctionError::InvalidAuctionState));
    }
    if ctx.auction.bid_count != 0 {
        return Err(MarketError::Auction(AuctionError::CannotCancelWithBids));
    }
    if ctx.escrow.status != EscrowStatus::Created {
        return Err(MarketError::Escrow(EscrowError::InvalidEscrowState));
    }
    let returns_token = match ctx.auction.product_type {
        ProductType::Nft => ctx.has_nft_escrow && ctx.has_seller_nft_account,
        _ => false,
    };
    ctx.auction.status = AuctionStatus::Cancelled;
    ctx.escrow.status = EscrowStatus::Cancelled;
    ctx.stats.active_auctions = ctx.stats.active_auctions.saturating_sub(1);
    ctx.stats.last_updated = now;
    Ok(AuctionCancelled { returns_token, bidders_to_refund: 0 })
}

} // verus!
