//! Settling an auction: fixing winner and price, and funding the escrow.

use vstd::prelude::*;
use crate::address::{Address, is_address};
use crate::errors::{
    AuctionError,
    BidError,
    ConfigError,
    EscrowError,
    MarketError,
    RuntimeError,
};
use crate::second_price::{
    Reveal,
    amounts_of,
    are_top_two,
    lemma_standing_holds_top_two,
    standing_after,
};
use crate::state::auction::{AuctionState, AuctionStatus, ProductType};
use crate::state::bid::BidCommitment;
use crate::state::escrow::{
    EscrowAccount,
    EscrowSecurityLevel,
    EscrowStatus,
    Payout,
    lemma_payout_conserves,
    payout_of,
    split_payment,
    time_lock_for,
    time_lock_seconds,
};
use crate::state::program_config::{ProgramConfig, ProgramStats};

verus! {

/// The records a settlement works on.
#[derive(Clone, Debug, PartialEq, Eq)]
pub struct SettleAuction {
    /// Platform parameters.
    pub config: ProgramConfig,
    /// Platform counters.
    pub stats: ProgramStats,
    /// The auction to settle.
    pub auction: AuctionState,
    /// The escrow of the auction.
    pub escrow: EscrowAccount,
    /// The bid of the winner.
    pub winner_bid: BidCommitment,
    /// The winner.
    pub winner: Address,
    /// Whether the account that holds the token on sale was handed in.
    pub has_nft_escrow: bool,
    /// Whether an account of the winner for the token was handed in.
    pub has_winner_nft_account: bool,
}

/// What a settlement reports.
#[derive(Clone, Copy, Debug, PartialEq, Eq)]
pub struct AuctionSettled {
    /// The winner.
    pub winner: Address,
    /// The winner's bid.
    pub winning_amount: u64,
    /// What the winner pays into the escrow: the second price.
    pub payment_amount: u64,
    /// The platform's fee on the payment.
    pub platform_fee: u64,
    /// What the seller gets on release.
    pub seller_receives: u64,
    /// Guard level of the funded escrow.
    pub security_level: EscrowSecurityLevel,
    /// Whether the token on sale goes to the winner now.
    pub transfers_token: bool,
}

impl SettleAuction {
    /// What the winner pays: the second price, or the winner's own bid
    /// where no second bid was revealed.
    pub open spec fn payment(&self) -> u64 {
        match self.auction.second_price {
            Some(second) => second,
            None => self.auction.winning_amount->0,
        }
    }

    /// How the payment will be divided on release.
    pub open spec fn payout(&self) -> Payout {
        payout_of(self.payment(), self.config.platform_fee_bps)
    }

    /// Whether the arithmetic of a settlement at `now` stays in range.
    pub open spec fn in_range(&self, now: i64) -> bool {
        &&& self.config.platform_fee_bps <= 10_000
        &&& now + time_lock_for(self.auction.product_type) <= i64::MAX
        &&& self.stats.total_volume + self.payment() <= u64::MAX
        &&& self.stats.total_fees + self.payout().platform_fee <= u64::MAX
    }

    /// Why the auction cannot be settled at `now`, if it cannot: the first
    /// of a paused platform, an auction that is not in its reveal phase or
    /// whose reveal phase is still running, no revealed bid, a winner's bid
    /// that was not revealed, a winner other than the auction's, an escrow
    /// already funded or otherwise not new, and arithmetic out of range.
    pub open spec fn obstacle(&self, now: i64) -> Option<MarketError> {
        if self.config.paused {
            Some(MarketError::Config(ConfigError::ProgramPaused))
        } else if self.auction.status != AuctionStatus::Revealing || now < self.auction.end_time
            + self.auction.reveal_duration {
            Some(MarketError::Auction(AuctionError::CannotSettleYet))
        } else if self.auction.revealed_count == 0 || self.auction.winning_amount is None {
            Some(MarketError::Auction(AuctionError::NoBidsPlaced))
        } else if !self.winner_bid.revealed {
            Some(MarketError::Bid(BidError::BidNotFound))
        } else if self.auction.winner != Some(self.winner) {
            Some(MarketError::Auction(AuctionError::InvalidAuctionState))
        } else if self.escrow.status == EscrowStatus::Funded {
            Some(MarketError::Escrow(EscrowError::AlreadyFunded))
        } else if self.escrow.status != EscrowStatus::Created {
            Some(MarketError::Escrow(EscrowError::InvalidEscrowState))
        } else if !self.in_range(now) {
            Some(MarketError::Runtime(RuntimeError::ArithmeticOverflow))
        } else {
            None
        }
    }

    /// Whether the token on sale goes to the winner at settlement.
    pub open spec fn transfers_token(&self) -> bool {
        self.auction.product_type == ProductType::Nft && self.has_nft_escrow
            && self.has_winner_nft_account
    }

    /// The records after a settlement at `now`: the escrow holds the
    /// payment under the release conditions of the product type; the auction
    /// is settled and records the price paid; the counters advance.
    pub open spec fn settled(self, now: i64) -> SettleAuction {
        SettleAuction {
            escrow: self.escrow.funded(self.payment(), self.winner, self.auction.product_type, now),
            auction: AuctionState {
                status: AuctionStatus::Settled,
                second_price: Some(self.payment()),
                ..self.auction
            },
            stats: ProgramStats {
                active_auctions: if self.stats.active_auctions == 0 {
                    0
                } else {
                    (self.stats.active_auctions - 1) as u64
                },
                total_volume: (self.stats.total_volume + self.payment()) as u64,
                total_fees: (self.stats.total_fees + self.payout().platform_fee) as u64,
                last_updated: now,
                ..self.stats
            },
            ..self
        }
    }

    /// What a settlement reports.
    pub open spec fn report(&self) -> AuctionSettled {
        AuctionSettled {
            winner: self.winner,
            winning_amount: self.auction.winning_amount->0,
            payment_amount: self.payment(),
            platform_fee: self.payout().platform_fee,
            seller_receives: self.payout().beneficiary_receives,
            security_level: EscrowAccount::security_level_for(self.payment()),
            transfers_token: self.transfers_token(),
        }
    }
}

/// Finds the first obstacle to a settlement, if there is one.
fn refusal(ctx: &SettleAuction, now: i64) -> (found: Option<MarketError>)
    ensures
        found == ctx.obstacle(now),
{
    if ctx.config.paused {
        return Some(MarketError::Config(ConfigError::ProgramPaused));
    }
    if !ctx.auction.can_settle(now) {
        return Some(MarketError::Auction(AuctionError::CannotSettleYet));
    }
    if ctx.auction.revealed_count == 0 {
        return Some(MarketError::Auction(AuctionError::NoBidsPlaced));
    }
    let winning_amount = match ctx.auction.winning_amount {
        Some(amount) => amount,
        None => {
            return Some(MarketError::Auction(AuctionError::NoBidsPlaced));
        },
    };
    if !ctx.winner_bid.revealed {
        return Some(MarketError::Bid(BidError::BidNotFound));
    }
    if !is_address(&ctx.auction.winner, &ctx.winner) {
        return Some(MarketError::Auction(AuctionError::InvalidAuctionState));
    }
    if ctx.escrow.status == EscrowStatus::Funded {
        return Some(MarketError::Escrow(EscrowError::AlreadyFunded));
    }
    if ctx.escrow.status != EscrowStatus::Created {
        return Some(MarketError::Escrow(EscrowError::InvalidEscrowState));
    }
    if ctx.config.platform_fee_bps > 10_000 {
        return Some(MarketError::Runtime(RuntimeError::ArithmeticOverflow));
    }
    let payment = match ctx.auction.second_price {
        Some(second) => second,
        None => winning_amount,
    };
    let payout = split_payment(payment, ctx.config.platform_fee_bps);
    if now > i64::MAX - time_lock_seconds(ctx.auction.product_type) || ctx.stats.total_volume
        > u64::MAX - payment || ctx.stats.total_fees > u64::MAX - payout.platform_fee {
        return Some(MarketError::Runtime(RuntimeError::ArithmeticOverflow));
    }
    None
}

/// Settles an auction once its reveal phase is over. The winner pays the
/// second price, or the own bid where no second bid was revealed, into the
/// escrow; the payment divides into platform fee and seller's share without
/// remainder. A refused settlement returns the first obstacle and changes
/// no record.
pub fn handler(ctx: &mut SettleAuction, now: i64) -> (result: Result<AuctionSettled, MarketError>)
    ensures
        match result {
            Ok(report) => old(ctx).obstacle(now) is None && *final(ctx) == old(ctx).settled(now)
                && report == old(ctx).report(),
            Err(e) => old(ctx).obstacle(now) == Some(e) && *final(ctx) == *old(ctx),
        },
        result matches Ok(report) ==> report.payment_amount == report.platform_fee
            + report.seller_receives && final(ctx).escrow.amount == report.payment_amount
            && final(ctx).auction.second_price == Some(report.payment_amount),
        old(ctx).auction.status.may_become(final(ctx).auction.status),
        old(ctx).escrow.status.may_become(final(ctx).escrow.status),
        result is Ok && old(ctx).auction.wf() ==> final(ctx).auction.wf(),
        result is Ok && old(ctx).escrow.wf() ==> final(ctx).escrow.wf(),
{
    if let Some(obstacle) = refusal(ctx, now) {
        return Err(obstacle);
    }
    let winning_amount = match ctx.auction.winning_amount {
        Some(amount) => amount,
        None => 0,
    };
    let payment_amount = match ctx.auction.second_price {
        Some(second) => second,
        None => winning_amount,
    };
    let payout = split_payment(payment_amount, ctx.config.platform_fee_bps);
    let winner = ctx.winner;
    let product_type = ctx.auction.product_type;
    let funded = ctx.escrow.fund(payment_amount, winner, product_type, now);
    assert(funded is Ok);
    ctx.auction.status = AuctionStatus::Settled;
    ctx.auction.second_price = Some(payment_amount);
    ctx.stats.auction_completed(payment_amount, payout.platform_fee, now);
    let transfers_token = match product_type {
        ProductType::Nft => ctx.has_nft_escrow && ctx.has_winner_nft_account,
        _ => false,
    };
    Ok(
        AuctionSettled {
            winner,
            winning_amount,
            payment_amount,
            platform_fee: payout.platform_fee,
            seller_receives: payout.beneficiary_receives,
            security_level: ctx.escrow.security_level,
            transfers_token,
        },
    )
}

/// Conservation of a settlement: the payment is the platform fee plus what
/// the seller receives, exactly.
pub proof fn lemma_settlement_conserves(ctx: SettleAuction)
    requires
        ctx.config.platform_fee_bps <= 10_000,
    ensures
        ctx.report().payment_amount == ctx.report().platform_fee + ctx.report().seller_receives,
{
    lemma_payout_conserves(ctx.payment(), ctx.config.platform_fee_bps);
}

/// The price of a settlement. For an auction whose standing comes from the
/// reveals `reveals`, the settled auction records the largest revealed
/// amount as winning amount. With a single reveal the price paid is that
/// amount; with more, it is the second largest amount revealed.
pub proof fn lemma_settlement_pays_second_price(ctx: SettleAuction, reveals: Seq<Reveal>, now: i64)
    requires
        reveals.len() >= 1,
        ctx.auction.standing() == standing_after(reveals),
    ensures
        reveals.len() == 1 ==> ctx.settled(now).auction.second_price == Some(reveals[0].amount)
            && ctx.settled(now).auction.winning_amount == Some(reveals[0].amount),
        reveals.len() >= 2 ==> are_top_two(
            amounts_of(reveals).to_multiset(),
            ctx.settled(now).auction.winning_amount->0,
            ctx.settled(now).auction.second_price->0,
        ),
        ctx.settled(now).auction.second_price == standing_after(reveals).payment(),
        ctx.settled(now).auction.second_price->0 <= ctx.settled(now).auction.winning_amount->0,
{
    lemma_standing_holds_top_two(reveals);
    if reveals.len() >= 2 {
        let amounts = amounts_of(reveals).to_multiset();
        let first = standing_after(reveals).winning_amount->0;
        let second = standing_after(reveals).second_price->0;
        assert(amounts.remove(first).count(second) > 0);
        broadcast use vstd::multiset::group_multiset_axioms;

        assert(amounts.count(second) > 0);
    }
}

} // verus!
