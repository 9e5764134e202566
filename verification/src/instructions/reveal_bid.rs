//! Revealing a sealed bid.

use vstd::prelude::*;
use crate::address::{Address, same_address};
use crate::errors::{AuctionError, BidError, ConfigError, MarketError};
use crate::state::auction::{AuctionState, AuctionStatus};
use crate::state::bid::{BidCommitment, BidReveal, commitment_of};
use crate::state::program_config::ProgramConfig;

verus! {

/// What a bidder hands in to reveal a bid.
#[derive(Clone, Debug, PartialEq, Eq)]
pub struct RevealBidParams {
    /// The amount bid.
    pub amount: u64,
    /// The salt that went into the commitment.
    pub salt: [u8; 32],
    /// Proof that the reveal is valid.
    pub proof: Vec<u8>,
}

/// The records a reveal works on.
#[derive(Clone, Debug, PartialEq, Eq)]
pub struct RevealBid {
    /// Platform parameters.
    pub config: ProgramConfig,
    /// The auction bid on.
    pub auction: AuctionState,
    /// The bid to reveal.
    pub bid: BidCommitment,
    /// Who asks for the reveal.
    pub bidder: Address,
}

/// What a successful reveal reports.
#[derive(Clone, Copy, Debug, PartialEq, Eq)]
pub struct BidRevealed {
    /// The amount revealed.
    pub amount: u64,
    /// The highest amount revealed so far, this one included.
    pub current_highest: u64,
    /// Bids revealed so far, this one included.
    pub revealed_count: u32,
    /// Whether this reveal opened the reveal phase.
    pub reveal_phase_started: bool,
}

impl RevealBid {
    /// The phase the auction is in at `now`: an active auction whose bidding
    /// has ended counts as revealing, whatever the record still says.
    pub open spec fn reveal_phase_at(&self, now: i64) -> AuctionStatus {
        if self.auction.status == AuctionStatus::Active && now >= self.auction.end_time {
            AuctionStatus::Revealing
        } else {
            self.auction.status
        }
    }

    /// Why a reveal whose values hash to `computed` is refused at `now`, if
    /// it is: the first of a paused platform, a bid of someone else, a bid
    /// revealed before, an auction outside its reveal phase, a passed
    /// deadline, a digest other than the commitment, an empty proof, and an
    /// auction that has no sealed bid left.
    pub open spec fn obstacle_given(&self, params: RevealBidParams, computed: Seq<u8>, now: i64)
        -> Option<MarketError> {
        if self.config.paused {
            Some(MarketError::Config(ConfigError::ProgramPaused))
        } else if self.bid.bidder != self.bidder {
            Some(MarketError::Bid(BidError::OnlyBidder))
        } else if self.bid.revealed {
            Some(MarketError::Bid(BidError::BidAlreadyRevealed))
        } else if self.reveal_phase_at(now) != AuctionStatus::Revealing || now
            < self.auction.end_time {
            Some(MarketError::Auction(AuctionError::NotInRevealPhase))
        } else if now >= self.auction.end_time + self.auction.reveal_duration {
            Some(MarketError::Bid(BidError::RevealDeadlinePassed))
        } else if computed != self.bid.commitment_hash@ {
            Some(MarketError::Bid(BidError::CommitmentMismatch))
        } else if params.proof@.len() == 0 {
            Some(MarketError::Bid(BidError::InvalidProof))
        } else if self.auction.revealed_count >= self.auction.bid_count {
            Some(MarketError::Auction(AuctionError::InvalidAuctionState))
        } else {
            None
        }
    }

    /// Why a reveal is refused at `now`, if it is, with the digest of the
    /// revealed amount, the salt and the bidder's key held against the
    /// commitment.
    pub open spec fn obstacle(&self, params: RevealBidParams, now: i64) -> Option<MarketError> {
        self.obstacle_given(params, commitment_of(params.amount, params.salt, self.bidder), now)
    }

    /// The records after a successful reveal: the auction is in its reveal
    /// phase, counts one more revealed bid and has the amount in its
    /// standing; the bid is marked as revealed at that amount.
    pub open spec fn revealed(self, params: RevealBidParams) -> RevealBid {
        let standing = self.auction.standing().after_reveal(self.bidder, params.amount);
        RevealBid {
            auction: AuctionState {
                status: AuctionStatus::Revealing,
                revealed_count: (self.auction.revealed_count + 1) as u32,
                winner: standing.winner,
                winning_amount: standing.winning_amount,
                second_price: standing.second_price,
                ..self.auction
            },
            bid: BidCommitment {
                revealed: true,
                revealed_amount: Some(params.amount),
                ..self.bid
            },
            ..self
        }
    }

    /// What a successful reveal reports.
    pub open spec fn report(&self, params: RevealBidParams) -> BidRevealed {
        BidRevealed {
            amount: params.amount,
            current_highest: self.revealed(params).auction.winning_amount->0,
            revealed_count: (self.auction.revealed_count + 1) as u32,
            reveal_phase_started: self.auction.status == AuctionStatus::Active,
        }
    }
}

/// Reveals a bid, given the digest `computed` of the revealed values. The
/// reveal goes through exactly when nothing of `obstacle_given` holds;
/// otherwise the first obstacle is returned and no record changes.
pub fn reveal_with_commitment(
    ctx: &mut RevealBid,
    params: &RevealBidParams,
    computed: &[u8; 32],
    now: i64,
) -> (result: Result<BidRevealed, MarketError>)
    ensures
        match result {
            Ok(report) => old(ctx).obstacle_given(*params, computed@, now) is None && *final(ctx)
                == old(ctx).revealed(*params) && report == old(ctx).report(*params),
            Err(e) => old(ctx).obstacle_given(*params, computed@, now) == Some(e) && *final(ctx)
                == *old(ctx),
        },
        old(ctx).auction.status.may_become(final(ctx).auction.status),
        result is Ok && old(ctx).auction.wf() ==> final(ctx).auction.wf(),
{
    if ctx.config.paused {
        return Err(MarketError::Config(ConfigError::ProgramPaused));
    }
    if !same_address(&ctx.bid.bidder, &ctx.bidder) {
        return Err(MarketError::Bid(BidError::OnlyBidder));
    }
    if !ctx.bid.can_reveal() {
        return Err(MarketError::Bid(BidError::BidAlreadyRevealed));
    }
    let opens_phase = ctx.auction.is_active() && now >= ctx.auction.end_time;
    if !(opens_phase || ctx.auction.is_revealing()) || now < ctx.auction.end_time {
        return Err(MarketError::Auction(AuctionError::NotInRevealPhase));
    }
    if (now as i128) >= (ctx.auction.end_time as i128) + (ctx.auction.reveal_duration as i128) {
        return Err(MarketError::Bid(BidError::RevealDeadlinePassed));
    }
    assert(*computed == ctx.bid.commitment_hash <==> computed@ == ctx.bid.commitment_hash@) by {
        assert(computed@ == ctx.bid.commitment_hash@ ==> *computed =~= ctx.bid.commitment_hash);
    }
    if !same_address(computed, &ctx.bid.commitment_hash) {
        return Err(MarketError::Bid(BidError::CommitmentMismatch));
    }
    if params.proof.len() == 0 {
        return Err(MarketError::Bid(BidError::InvalidProof));
    }
    if ctx.auction.revealed_count >= ctx.auction.bid_count {
        return Err(MarketError::Auction(AuctionError::InvalidAuctionState));
    }
    ctx.auction.status = AuctionStatus::Revealing;
    ctx.bid.reveal_amount(params.amount);
    ctx.auction.revealed_count += 1;
    let bidder = ctx.bidder;
    ctx.auction.record_reveal(bidder, params.amount);
    let current_highest = match ctx.auction.winning_amount {
        Some(high) => high,
        None => params.amount,
    };
    Ok(
        BidRevealed {
            amount: params.amount,
            current_highest,
            revealed_count: ctx.auction.revealed_count,
            reveal_phase_started: opens_phase,
        },
    )
}

/// Reveals a bid: hashes the revealed amount and salt with the bidder's key
/// and goes on as `reveal_with_commitment` does.
pub fn handler(ctx: &mut RevealBid, params: RevealBidParams, now: i64) -> (result: Result<
    BidRevealed,
    MarketError,
>)
    ensures
        match result {
            Ok(report) => old(ctx).obstacle(params, now) is None && *final(ctx) == old(
                ctx,
            ).revealed(params) && report == old(ctx).report(params),
            Err(e) => old(ctx).obstacle(params, now) == Some(e) && *final(ctx) == *old(ctx),
        },
        result is Ok ==> final(ctx).bid.revealed && final(ctx).bid.revealed_amount == Some(
            params.amount,
        ),
        old(ctx).bid.revealed ==> result is Err,
        old(ctx).auction.status.may_become(final(ctx).auction.status),
        result is Ok && old(ctx).auction.wf() ==> final(ctx).auction.wf(),
{
    let computed = BidReveal::compute_commitment(params.amount, &params.salt, &ctx.bidder);
    reveal_with_commitment(ctx, &params, &computed, now)
}

/// At most one reveal: once a reveal has gone through, any further reveal
/// of the same bid by its bidder, with whatever values and at whatever
/// time, is refused with `BidAlreadyRevealed`.
pub proof fn lemma_second_reveal_refused(
    ctx: RevealBid,
    first: RevealBidParams,
    first_time: i64,
    second: RevealBidParams,
    second_time: i64,
)
    requires
        ctx.obstacle(first, first_time) is None,
    ensures
        ctx.revealed(first).obstacle(second, second_time) == Some(
            MarketError::Bid(BidError::BidAlreadyRevealed),
        ),
{
}

/// A reveal that does not open the commitment is refused: where it clears
/// every earlier check, the error is `CommitmentMismatch`, and in no case
/// does it go through.
pub proof fn lemma_reveal_needs_commitment(ctx: RevealBid, params: RevealBidParams, now: i64)
    requires
        commitment_of(params.amount, params.salt, ctx.bidder) != ctx.bid.commitment_hash@,
    ensures
        ctx.obstacle(params, now) is Some,
{
}

} // verus!
