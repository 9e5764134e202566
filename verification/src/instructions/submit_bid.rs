//! Submitting a sealed bid.

use vstd::prelude::*;
use crate::address::Address;
use crate::errors::{AuctionError, BidError, ConfigError, MarketError, RuntimeError};
use crate::hashing::{keccak256, keccak_hash};
use crate::state::auction::{AuctionState, AuctionStatus};
use crate::state::bid::{BidCommitment, CompressedBidCommitment};
use crate::state::escrow::CollateralPool;
use crate::state::program_config::{ProgramConfig, ProgramStats};

verus! {

/// What a bidder hands in to submit a bid.
#[derive(Clone, Debug, PartialEq, Eq)]
pub struct SubmitBidParams {
    /// Digest that binds amount, salt and bidder.
    pub commitment_hash: [u8; 32],
    /// Proof that the sealed bid is valid.
    pub proof: Vec<u8>,
    /// Digest of the proof, kept with the bid.
    pub proof_hash: [u8; 32],
}

/// The records and keys a submission works on.
#[derive(Clone, Debug, PartialEq, Eq)]
pub struct SubmitBid {
    /// Platform parameters.
    pub config: ProgramConfig,
    /// Platform counters.
    pub stats: ProgramStats,
    /// The auction bid on.
    pub auction: AuctionState,
    /// The bidder's commitment in this auction: none before the submission.
    pub bid: Option<BidCommitment>,
    /// The collateral pool of the auction's payment asset.
    pub collateral_pool: CollateralPool,
    /// The bidder.
    pub bidder: Address,
    /// Key of the bid record to create.
    pub bid_key: Address,
    /// Address derivation seed of the bid record.
    pub bid_bump: u8,
}

/// What a submission reports.
#[derive(Clone, Copy, Debug, PartialEq, Eq)]
pub struct BidSubmitted {
    /// Bids in the auction, this one included.
    pub bid_count: u32,
    /// Collateral the bidder pays into the pool.
    pub collateral: u64,
}

/// The digest of a compact bid record.
pub fn compute_merkle_root(bid: &CompressedBidCommitment) -> (root: [u8; 32])
    ensures
        root@ == keccak256(bid.encoding()),
{
    let bytes = bid.to_bytes();
    keccak_hash(bytes.as_slice())
}

impl SubmitBid {
    /// Whether every counter and the pool have room for one more bid.
    pub open spec fn in_range(&self) -> bool {
        &&& self.collateral_pool.total_collateral + self.auction.bid_collateral <= u64::MAX
        &&& self.collateral_pool.active_bids < u32::MAX
        &&& self.auction.bid_count < u32::MAX
        &&& self.stats.total_bids < u64::MAX
    }

    /// Why the bid is refused at `now`, if it is: the first of a paused
    /// platform, an auction that is not active or a moment outside its
    /// bidding window, an empty proof, a bidder who holds a commitment in
    /// this auction already, and arithmetic out of range.
    pub open spec fn obstacle(&self, params: SubmitBidParams, now: i64) -> Option<MarketError> {
        if self.config.paused {
            Some(MarketError::Config(ConfigError::ProgramPaused))
        } else if self.auction.status != AuctionStatus::Active || !(self.auction.start_time <= now
            < self.auction.end_time) {
            Some(MarketError::Auction(AuctionError::BiddingEnded))
        } else if params.proof@.len() == 0 {
            Some(MarketError::Bid(BidError::InvalidProof))
        } else if self.bid is Some {
            Some(MarketError::Bid(BidError::DuplicateBid))
        } else if !self.in_range() {
            Some(MarketError::Runtime(RuntimeError::ArithmeticOverflow))
        } else {
            None
        }
    }

    /// The commitment that a submission at `now` creates: sealed, with the
    /// auction's collateral deposited and not returned.
    pub open spec fn new_bid(&self, params: SubmitBidParams, now: i64) -> BidCommitment {
        BidCommitment {
            bid_id: self.bid_key,
            auction_id: self.auction.auction_id,
            bidder: self.bidder,
            commitment_hash: params.commitment_hash,
            timestamp: now,
            revealed: false,
            revealed_amount: None,
            proof_hash: params.proof_hash,
            collateral_deposited: self.auction.bid_collateral,
            collateral_returned: false,
            bump: self.bid_bump,
        }
    }

    /// The compact record of the new commitment.
    pub open spec fn new_compact_bid(&self, params: SubmitBidParams, now: i64)
        -> CompressedBidCommitment {
        CompressedBidCommitment {
            bid_id: self.bid_key,
            auction_id: self.auction.auction_id,
            commitment_hash: params.commitment_hash,
            timestamp: now,
            revealed: false,
        }
    }

    /// Whether `after` holds the records of `self` after a submission at
    /// `now`: the new commitment, its collateral in the pool, one more bid
    /// counted, and the digest of the compact record as the auction's root.
    pub open spec fn submits(self, params: SubmitBidParams, now: i64, after: SubmitBid) -> bool {
        &&& after.auction.bid_merkle_root@ == keccak256(
            self.new_compact_bid(params, now).encoding(),
        )
        &&& after == (SubmitBid {
            bid: Some(self.new_bid(params, now)),
            collateral_pool: CollateralPool {
                total_collateral: (self.collateral_pool.total_collateral
                    + self.auction.bid_collateral) as u64,
                active_bids: (self.collateral_pool.active_bids + 1) as u32,
                ..self.collateral_pool
            },
            auction: AuctionState {
                bid_count: (self.auction.bid_count + 1) as u32,
                bid_merkle_root: after.auction.bid_merkle_root,
                ..self.auction
            },
            stats: ProgramStats {
                total_bids: (self.stats.total_bids + 1) as u64,
                last_updated: now,
                ..self.stats
            },
            ..self
        })
    }
}

/// Finds the first obstacle to a submission, if there is one.
fn refusal(ctx: &SubmitBid, params: &SubmitBidParams, now: i64) -> (found: Option<MarketError>)
    ensures
        found == ctx.obstacle(*params, now),
{
    if ctx.config.paused {
        return Some(MarketError::Config(ConfigError::ProgramPaused));
    }
    if !ctx.auction.can_accept_bids(now) {
        return Some(MarketError::Auction(AuctionError::BiddingEnded));
    }
    if params.proof.len() == 0 {
        return Some(MarketError::Bid(BidError::InvalidProof));
    }
    if ctx.bid.is_some() {
        return Some(MarketError::Bid(BidError::DuplicateBid));
    }
    if ctx.collateral_pool.total_collateral > u64::MAX - ctx.auction.bid_collateral
        || ctx.collateral_pool.active_bids == u32::MAX || ctx.auction.bid_count == u32::MAX
        || ctx.stats.total_bids == u64::MAX {
        return Some(MarketError::Runtime(RuntimeError::ArithmeticOverflow));
    }
    None
}

/// Takes a sealed bid: records the commitment, takes the auction's
/// collateral into the pool and counts the bid. A refused bid returns the
/// first obstacle and changes no record.
pub fn handler(ctx: &mut SubmitBid, params: SubmitBidParams, now: i64) -> (result: Result<
    BidSubmitted,
    MarketError,
>)
    ensures
        match result {
            Ok(report) => old(ctx).obstacle(params, now) is None && old(ctx).submits(
                params,
                now,
                *final(ctx),
            ) && report == (BidSubmitted {
                bid_count: (old(ctx).auction.bid_count + 1) as u32,
                collateral: old(ctx).auction.bid_collateral,
            }),
            Err(e) => old(ctx).obstacle(params, now) == Some(e) && *final(ctx) == *old(ctx),
        },
        old(ctx).bid is Some ==> result is Err,
        old(ctx).auction.status.may_become(final(ctx).auction.status),
        result is Ok && old(ctx).auction.wf() ==> final(ctx).auction.wf(),
{
    if let Some(obstacle) = refusal(ctx, &params, now) {
        return Err(obstacle);
    }
    let collateral = ctx.auction.bid_collateral;
    let bid = BidCommitment {
        bid_id: ctx.bid_key,
        auction_id: ctx.auction.auction_id,
        bidder: ctx.bidder,
        commitment_hash: params.commitment_hash,
        timestamp: now,
        revealed: false,
        revealed_amount: None,
        proof_hash: params.proof_hash,
        collateral_deposited: collateral,
        collateral_returned: false,
        bump: ctx.bid_bump,
    };
    let compact = CompressedBidCommitment {
        bid_id: ctx.bid_key,
        auction_id: ctx.auction.auction_id,
        commitment_hash: params.commitment_hash,
        timestamp: now,
        revealed: false,
    };
    ctx.bid = Some(bid);
    ctx.collateral_pool.deposit(collateral);
    ctx.auction.bid_count += 1;
    ctx.auction.bid_merkle_root = compute_merkle_root(&compact);
    ctx.stats.bid_placed(now);
    Ok(BidSubmitted { bid_count: ctx.auction.bid_count, collateral })
}

} // verus!
