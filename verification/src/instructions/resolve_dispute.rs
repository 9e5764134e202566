//! Voting on a dispute, and resolving it once the quorum is in.

use vstd::prelude::*;
use crate::address::{Address, is_address};
use crate::errors::{
    AuctionError,
    ConfigError,
    DisputeError,
    EscrowError,
    MarketError,
    RuntimeError,
};
use crate::state::auction::{AuctionState, AuctionStatus};
use crate::state::dispute::{
    ArbitratorRecord,
    Dispute,
    DisputeOutcome,
    DisputePayout,
    DisputeStatus,
    dispute_payout,
    dispute_payout_of,
    lemma_dispute_payout_conserves,
    outcome_of,
    status_after,
    tally_outcome,
};
use crate::state::escrow::{EscrowAccount, EscrowStatus};
use crate::state::profile::UserProfile;
use crate::state::program_config::{ProgramConfig, ProgramStats, fee_on};

verus! {

/// An arbitrator's vote.
#[derive(Clone, Copy, Debug, PartialEq, Eq)]
pub struct ResolveDisputeParams {
    /// For the buyer, or else for the seller.
    pub vote_for_buyer: bool,
    /// Encrypted notes, if any.
    pub notes_encrypted: Option<[u8; 256]>,
}

/// The records a vote works on.
#[derive(Clone, Debug, PartialEq, Eq)]
pub struct ResolveDispute {
    /// Platform parameters.
    pub config: ProgramConfig,
    /// Platform counters.
    pub stats: ProgramStats,
    /// The auction in dispute.
    pub auction: AuctionState,
    /// The dispute.
    pub dispute: Dispute,
    /// The escrow in dispute.
    pub escrow: EscrowAccount,
    /// Profile of the buyer.
    pub buyer_profile: UserProfile,
    /// Profile of the seller.
    pub seller_profile: UserProfile,
    /// Track record of the dispute's arbitrator of record: the first to
    /// vote on it.
    pub arbitrator_record: ArbitratorRecord,
    /// Who votes.
    pub arbitrator: Address,
}

/// What a vote that resolves the dispute reports.
#[derive(Clone, Copy, Debug, PartialEq, Eq)]
pub struct DisputeResolved {
    /// How the dispute ended.
    pub outcome: DisputeOutcome,
    /// How the escrowed amount is divided.
    pub payout: DisputePayout,
    /// What accrues to the arbitrator: a tenth of the platform fee.
    pub arbitrator_fee: u64,
    /// Seconds from the opening of the dispute to its resolution.
    pub resolution_time: u64,
    /// Votes for the buyer.
    pub votes_for_buyer: u8,
    /// Votes for the seller.
    pub votes_for_seller: u8,
}

impl ResolveDispute {
    /// Votes needed before a dispute is resolved.
    pub open spec fn quorum() -> int {
        2
    }

    /// Whether this vote brings the tally to the quorum.
    pub open spec fn completes_quorum(&self) -> bool {
        self.dispute.votes_collected + 1 >= Self::quorum()
    }

    /// The tally for the buyer with this vote counted.
    pub open spec fn buyer_votes_with(&self, params: ResolveDisputeParams) -> u8 {
        if params.vote_for_buyer {
            (self.dispute.votes_for_buyer + 1) as u8
        } else {
            self.dispute.votes_for_buyer
        }
    }

    /// The tally for the seller with this vote counted.
    pub open spec fn seller_votes_with(&self, params: ResolveDisputeParams) -> u8 {
        if params.vote_for_buyer {
            self.dispute.votes_for_seller
        } else {
            (self.dispute.votes_for_seller + 1) as u8
        }
    }

    /// The arbitrator of record with this vote counted: the voter, where
    /// the vote is the first, and else whoever the dispute names.
    pub open spec fn arbitrator_of_record(&self) -> Option<Address> {
        if self.dispute.status == DisputeStatus::EvidenceSubmitted {
            Some(self.arbitrator)
        } else {
            self.dispute.arbitrator
        }
    }

    /// The outcome of the tally with this vote counted.
    pub open spec fn outcome_with(&self, params: ResolveDisputeParams) -> DisputeOutcome {
        outcome_of(self.buyer_votes_with(params), self.seller_votes_with(params))
    }

    /// What accrues to the arbitrator on resolution.
    pub open spec fn arbitrator_fee(&self) -> int {
        fee_on(self.escrow.amount as int, self.config.platform_fee_bps as int) / 10
    }

    /// Whether the arithmetic of a resolution at `now` stays in range: a
    /// fee of at most 100%, a resolution not before the opening, and room
    /// in every counter that the resolution advances.
    pub open spec fn resolution_in_range(&self, params: ResolveDisputeParams, now: i64) -> bool {
        &&& self.config.platform_fee_bps <= 10_000
        &&& now >= self.dispute.opened_at
        &&& self.arbitrator_record.can_complete(
            (now - self.dispute.opened_at) as u64,
            self.arbitrator_fee() as u64,
        )
        &&& self.stats.disputes_resolved < u64::MAX
        &&& (self.outcome_with(params) == DisputeOutcome::FullRefund ==> {
            &&& self.buyer_profile.disputes_raised < u8::MAX
            &&& self.buyer_profile.disputes_won < u8::MAX
            &&& self.seller_profile.disputes_against < u8::MAX
        })
    }

    /// Why a vote is refused at `now`, if it is. Every vote needs a running
    /// platform, an arbitrator on the roster, a dispute under vote and room
    /// in the tally. A vote that completes the quorum needs, besides, a
    /// dispute without outcome, an escrow and an auction that are both in
    /// dispute, the track record of the arbitrator of record, and
    /// arithmetic that stays in range.
    pub open spec fn obstacle(&self, params: ResolveDisputeParams, now: i64) -> Option<
        MarketError,
    > {
        if self.config.paused {
            Some(MarketError::Config(ConfigError::ProgramPaused))
        } else if !self.config.arbitrators@.contains(self.arbitrator) {
            Some(MarketError::Dispute(DisputeError::OnlyArbitrator))
        } else if self.dispute.status != DisputeStatus::EvidenceSubmitted && self.dispute.status
            != DisputeStatus::UnderReview {
            Some(MarketError::Dispute(DisputeError::InvalidDisputeState))
        } else if self.dispute.votes_collected == u8::MAX || self.dispute.votes_for_buyer
            == u8::MAX || self.dispute.votes_for_seller == u8::MAX {
            Some(MarketError::Runtime(RuntimeError::ArithmeticOverflow))
        } else if !self.completes_quorum() {
            None
        } else if self.dispute.outcome is Some {
            Some(MarketError::Dispute(DisputeError::DisputeAlreadyResolved))
        } else if self.escrow.status != EscrowStatus::Disputed {
            Some(MarketError::Escrow(EscrowError::InvalidEscrowState))
        } else if self.auction.status != AuctionStatus::Disputed {
            Some(MarketError::Auction(AuctionError::InvalidAuctionState))
        } else if self.arbitrator_of_record() != Some(self.arbitrator_record.arbitrator) {
            Some(MarketError::Runtime(RuntimeError::ConstraintOwner))
        } else if !self.resolution_in_range(params, now) {
            Some(MarketError::Runtime(RuntimeError::ArithmeticOverflow))
        } else {
            None
        }
    }

    /// The dispute with the vote counted: the first vote puts it under
    /// review and makes the voter the arbitrator of record.
    pub open spec fn dispute_voted(&self, params: ResolveDisputeParams, now: i64) -> Dispute {
        Dispute {
            status: DisputeStatus::UnderReview,
            arbitrator: if self.dispute.status == DisputeStatus::EvidenceSubmitted {
                Some(self.arbitrator)
            } else {
                self.dispute.arbitrator
            },
            votes_collected: (self.dispute.votes_collected + 1) as u8,
            votes_for_buyer: self.buyer_votes_with(params),
            votes_for_seller: self.seller_votes_with(params),
            arbitrator_notes: if params.notes_encrypted is Some {
                params.notes_encrypted
            } else {
                self.dispute.arbitrator_notes
            },
            last_activity: now,
            ..self.dispute
        }
    }

    /// How the escrowed amount is divided on resolution.
    pub open spec fn payout(&self, params: ResolveDisputeParams) -> DisputePayout {
        dispute_payout_of(
            self.outcome_with(params),
            self.escrow.amount,
            self.config.platform_fee_bps,
        )
    }

    /// The records after a vote that does not complete the quorum.
    pub open spec fn voted(self, params: ResolveDisputeParams, now: i64) -> ResolveDispute {
        ResolveDispute { dispute: self.dispute_voted(params, now), ..self }
    }

    /// The buyer's profile with the resolution counted: a refund counts as
    /// a dispute raised and won.
    pub open spec fn buyer_counted(&self, params: ResolveDisputeParams) -> UserProfile {
        if self.outcome_with(params) == DisputeOutcome::FullRefund {
            UserProfile {
                disputes_raised: (self.buyer_profile.disputes_raised + 1) as u8,
                disputes_won: (self.buyer_profile.disputes_won + 1) as u8,
                ..self.buyer_profile
            }
        } else {
            self.buyer_profile
        }
    }

    /// The seller's profile with the resolution counted: a refund counts as
    /// a dispute against the seller.
    pub open spec fn seller_counted(&self, params: ResolveDisputeParams) -> UserProfile {
        if self.outcome_with(params) == DisputeOutcome::FullRefund {
            UserProfile {
                disputes_against: (self.seller_profile.disputes_against + 1) as u8,
                ..self.seller_profile
            }
        } else {
            self.seller_profile
        }
    }

    /// The records after a vote that completes the quorum. The dispute
    /// ends with the outcome of the tally; the escrow is refunded or
    /// released; the auction is settled again; a refund counts for the
    /// buyer and against the seller, and both scores are brought up to
    /// date; the record of the arbitrator of record and the platform
    /// counters advance.
    pub open spec fn resolved(self, params: ResolveDisputeParams, now: i64) -> ResolveDispute {
        let outcome = self.outcome_with(params);
        let voted = self.dispute_voted(params, now);
        let refunds = outcome == DisputeOutcome::FullRefund;
        ResolveDispute {
            dispute: Dispute {
                outcome: Some(outcome),
                refund_amount: if outcome == DisputeOutcome::SplitFault {
                    Some(self.payout(params).buyer_portion)
                } else {
                    voted.refund_amount
                },
                resolved_at: Some(now),
                status: status_after(outcome),
                ..voted
            },
            escrow: EscrowAccount {
                status: if refunds {
                    EscrowStatus::Refunded
                } else {
                    EscrowStatus::Released
                },
                released_at: Some(now),
                ..self.escrow
            },
            auction: AuctionState { status: AuctionStatus::Settled, ..self.auction },
            buyer_profile: UserProfile {
                reputation_score: self.buyer_counted(params).score() as u16,
                ..self.buyer_counted(params)
            },
            seller_profile: UserProfile {
                reputation_score: self.seller_counted(params).score() as u16,
                ..self.seller_counted(params)
            },
            arbitrator_record: ArbitratorRecord {
                active_cases: if self.arbitrator_record.active_cases == 0 {
                    0
                } else {
                    (self.arbitrator_record.active_cases - 1) as u8
                },
                cases_resolved: (self.arbitrator_record.cases_resolved + 1) as u32,
                fees_earned: (self.arbitrator_record.fees_earned + self.arbitrator_fee()) as u64,
                avg_resolution_time: self.arbitrator_record.average_after(
                    (now - self.dispute.opened_at) as u64,
                ) as u64,
                last_activity: now,
                ..self.arbitrator_record
            },
            stats: ProgramStats {
                disputes_resolved: (self.stats.disputes_resolved + 1) as u64,
                last_updated: now,
                ..self.stats
            },
            ..self
        }
    }

    /// What a vote that completes the quorum reports.
    pub open spec fn report(&self, params: ResolveDisputeParams, now: i64) -> DisputeResolved {
        DisputeResolved {
            outcome: self.outcome_with(params),
            payout: self.payout(params),
            arbitrator_fee: self.arbitrator_fee() as u64,
            resolution_time: (now - self.dispute.opened_at) as u64,
            votes_for_buyer: self.buyer_votes_with(params),
            votes_for_seller: self.seller_votes_with(params),
        }
    }
}

/// Finds the first obstacle to a vote, if there is one.
fn refusal(ctx: &ResolveDispute, params: &ResolveDisputeParams, now: i64) -> (found: Option<
    MarketError,
>)
    ensures
        found == ctx.obstacle(*params, now),
{
    if ctx.config.paused {
        return Some(MarketError::Config(ConfigError::ProgramPaused));
    }
    if !ctx.config.is_arbitrator(&ctx.arbitrator) {
        return Some(MarketError::Dispute(DisputeError::OnlyArbitrator));
    }
    if ctx.dispute.status != DisputeStatus::EvidenceSubmitted && ctx.dispute.status
        != DisputeStatus::UnderReview {
        return Some(MarketError::Dispute(DisputeError::InvalidDisputeState));
    }
    if ctx.dispute.votes_collected == u8::MAX || ctx.dispute.votes_for_buyer == u8::MAX
        || ctx.dispute.votes_for_seller == u8::MAX {
        return Some(MarketError::Runtime(RuntimeError::ArithmeticOverflow));
    }
    if ctx.dispute.votes_collected + 1 < Dispute::MIN_VOTES_FOR_RESOLUTION {
        return None;
    }
    if ctx.dispute.outcome.is_some() {
        return Some(MarketError::Dispute(DisputeError::DisputeAlreadyResolved));
    }
    if ctx.escrow.status != EscrowStatus::Disputed {
        return Some(MarketError::Escrow(EscrowError::InvalidEscrowState));
    }
    if ctx.auction.status != AuctionStatus::Disputed {
        return Some(MarketError::Auction(AuctionError::InvalidAuctionState));
    }
    let of_record = if ctx.dispute.status == DisputeStatus::EvidenceSubmitted {
        Some(ctx.arbitrator)
    } else {
        ctx.dispute.arbitrator
    };
    if !is_address(&of_record, &ctx.arbitrator_record.arbitrator) {
        return Some(MarketError::Runtime(RuntimeError::ConstraintOwner));
    }
    if ctx.config.platform_fee_bps > 10_000 || now < ctx.dispute.opened_at {
        return Some(MarketError::Runtime(RuntimeError::ArithmeticOverflow));
    }
    let resolution_time = ((now as i128) - (ctx.dispute.opened_at as i128)) as u64;
    let arbitrator_fee = ctx.config.calculate_fee(ctx.escrow.amount) / 10;
    if !ctx.arbitrator_record.fits_completion(resolution_time, arbitrator_fee)
        || ctx.stats.disputes_resolved == u64::MAX {
        return Some(MarketError::Runtime(RuntimeError::ArithmeticOverflow));
    }
    let buyer_votes = if params.vote_for_buyer {
        ctx.dispute.votes_for_buyer + 1
    } else {
        ctx.dispute.votes_for_buyer
    };
    let seller_votes = if params.vote_for_buyer {
        ctx.dispute.votes_for_seller
    } else {
        ctx.dispute.votes_for_seller + 1
    };
    if tally_outcome(buyer_votes, seller_votes) == DisputeOutcome::FullRefund && (
    ctx.buyer_profile.disputes_raised == u8::MAX || ctx.buyer_profile.disputes_won == u8::MAX
        || ctx.seller_profile.disputes_against == u8::MAX) {
        return Some(MarketError::Runtime(RuntimeError::ArithmeticOverflow));
    }
    None
}

/// Counts the vote in the dispute.
fn count_vote(ctx: &mut ResolveDispute, params: &ResolveDisputeParams, now: i64)
    requires
        old(ctx).obstacle(*params, now) is None,
    ensures
        *final(ctx) == old(ctx).voted(*params, now),
{
    if ctx.dispute.status == DisputeStatus::EvidenceSubmitted {
        ctx.dispute.status = DisputeStatus::UnderReview;
        ctx.dispute.arbitrator = Some(ctx.arbitrator);
    }
    ctx.dispute.record_vote(params.vote_for_buyer);
    if let Some(notes) = params.notes_encrypted {
        ctx.dispute.arbitrator_notes = Some(notes);
    }
    ctx.dispute.last_activity = now;
}

/// Counts an arbitrator's vote and, where it completes the quorum of two,
/// resolves the dispute. A vote short of the quorum returns `None`; a
/// resolving vote returns how the escrowed amount is divided. A refused
/// vote returns the first obstacle and changes no record.
pub fn handler(ctx: &mut ResolveDispute, params: ResolveDisputeParams, now: i64) -> (result: Result<
    Option<DisputeResolved>,
    MarketError,
>)
    ensures
        match result {
            Ok(None) => old(ctx).obstacle(params, now) is None && !old(ctx).completes_quorum()
                && *final(ctx) == old(ctx).voted(params, now),
            Ok(Some(report)) => old(ctx).obstacle(params, now) is None && old(
                ctx,
            ).completes_quorum() && *final(ctx) == old(ctx).resolved(params, now) && report == old(
                ctx,
            ).report(params, now),
            Err(e) => old(ctx).obstacle(params, now) == Some(e) && *final(ctx) == *old(ctx),
        },
        result matches Ok(Some(report)) ==> final(ctx).dispute.votes_collected >= 2
            && report.payout.fee_taken + report.payout.buyer_portion + report.payout.seller_portion
            == old(ctx).escrow.amount,
        result is Ok && old(ctx).dispute.wf() ==> final(ctx).dispute.wf(),
        old(ctx).dispute.status.may_become(final(ctx).dispute.status),
        old(ctx).auction.status.may_become(final(ctx).auction.status),
        old(ctx).escrow.status.may_become(final(ctx).escrow.status),
        result is Ok && old(ctx).auction.wf() ==> final(ctx).auction.wf(),
        result is Ok && old(ctx).escrow.wf() ==> final(ctx).escrow.wf(),
        final(ctx).escrow.amount == old(ctx).escrow.amount,
        result is Ok && old(ctx).arbitrator_record.wf() && old(ctx).arbitrator_record.cases_resolved
            < old(ctx).arbitrator_record.cases_handled ==> final(ctx).arbitrator_record.wf(),
        result matches Ok(Some(_)) ==> final(ctx).dispute.arbitrator == Some(
            final(ctx).arbitrator_record.arbitrator,
        ),
        result matches Ok(Some(_)) ==> final(ctx).buyer_profile.wf(),
        result matches Ok(Some(_)) ==> final(ctx).seller_profile.wf(),
{
    if let Some(obstacle) = refusal(ctx, &params, now) {
        return Err(obstacle);
    }
    let completes = ctx.dispute.votes_collected + 1 >= Dispute::MIN_VOTES_FOR_RESOLUTION;
    let amount = ctx.escrow.amount;
    let opened_at = ctx.dispute.opened_at;
    count_vote(ctx, &params, now);
    if !completes {
        return Ok(None);
    }
    let outcome = ctx.dispute.determine_outcome();
    let payout = dispute_payout(outcome, amount, ctx.config.platform_fee_bps);
    let resolution_time = ((now as i128) - (opened_at as i128)) as u64;
    let arbitrator_fee = ctx.config.calculate_fee(amount) / 10;
    match outcome {
        DisputeOutcome::FullRefund => {
            let refunded = ctx.escrow.refund(now);
            assert(refunded is Ok);
            ctx.buyer_profile.record_dispute_raised(true);
            ctx.seller_profile.record_dispute_against();
        },
        DisputeOutcome::ReleaseToSeller => {
            ctx.escrow.status = EscrowStatus::Released;
        },
        _ => {
            ctx.escrow.status = EscrowStatus::Released;
            ctx.dispute.refund_amount = Some(payout.buyer_portion);
        },
    }
    ctx.buyer_profile.reputation_score = ctx.buyer_profile.calculate_reputation();
    ctx.seller_profile.reputation_score = ctx.seller_profile.calculate_reputation();
    let refund_amount = ctx.dispute.refund_amount;
    ctx.dispute.resolve(outcome, refund_amount, now);
    ctx.escrow.released_at = Some(now);
    ctx.auction.status = AuctionStatus::Settled;
    ctx.arbitrator_record.complete_case(resolution_time, arbitrator_fee, now);
    ctx.stats.dispute_resolved(now);
    Ok(
        Some(
            DisputeResolved {
                outcome,
                payout,
                arbitrator_fee,
                resolution_time,
                votes_for_buyer: ctx.dispute.votes_for_buyer,
                votes_for_seller: ctx.dispute.votes_for_seller,
            },
        ),
    )
}

/// The quorum: a vote resolves a dispute only if it brings the tally to
/// two votes or more, and a first vote never resolves.
pub proof fn lemma_resolution_needs_quorum(
    ctx: ResolveDispute,
    params: ResolveDisputeParams,
    now: i64,
)
    requires
        ctx.obstacle(params, now) is None,
    ensures
        ctx.completes_quorum() <==> ctx.dispute.votes_collected >= 1,
        ctx.completes_quorum() ==> ctx.dispute_voted(params, now).votes_collected >= 2,
        !ctx.completes_quorum() ==> ctx.voted(params, now).dispute.outcome
            == ctx.dispute.outcome,
{
}

/// What the quorum decides. One vote for each side puts both at fault; two
/// votes for the buyer and none for the seller refund the buyer in full;
/// and in general the side with more votes wins, a tie dividing the amount.
pub proof fn lemma_tally_decides(votes_for_buyer: u8, votes_for_seller: u8)
    ensures
        votes_for_buyer == 1 && votes_for_seller == 1 ==> outcome_of(
            votes_for_buyer,
            votes_for_seller,
        ) == DisputeOutcome::SplitFault,
        votes_for_buyer == 2 && votes_for_seller == 0 ==> outcome_of(
            votes_for_buyer,
            votes_for_seller,
        ) == DisputeOutcome::FullRefund,
        votes_for_buyer > votes_for_seller <==> outcome_of(votes_for_buyer, votes_for_seller)
            == DisputeOutcome::FullRefund,
        votes_for_seller > votes_for_buyer <==> outcome_of(votes_for_buyer, votes_for_seller)
            == DisputeOutcome::ReleaseToSeller,
        votes_for_buyer == votes_for_seller <==> outcome_of(votes_for_buyer, votes_for_seller)
            == DisputeOutcome::SplitFault,
{
}

/// Conservation of a resolution: whatever the tally, the fee taken and the
/// portions of buyer and seller add up to the escrowed amount; a refund
/// takes no fee.
pub proof fn lemma_resolution_conserves(ctx: ResolveDispute, params: ResolveDisputeParams)
    requires
        ctx.config.platform_fee_bps <= 10_000,
    ensures
        ctx.payout(params).fee_taken + ctx.payout(params).buyer_portion + ctx.payout(
            params,
        ).seller_portion == ctx.escrow.amount,
        ctx.outcome_with(params) == DisputeOutcome::FullRefund ==> ctx.payout(params).fee_taken
            == 0 && ctx.payout(params).buyer_portion == ctx.escrow.amount,
{
    lemma_dispute_payout_conserves(
        ctx.outcome_with(params),
        ctx.escrow.amount,
        ctx.config.platform_fee_bps,
    );
}

} // verus!
