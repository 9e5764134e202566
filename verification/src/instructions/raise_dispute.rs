//! Raising a dispute over a settled auction.

use vstd::prelude::*;
use crate::address::{Address, is_address, same_address};
use crate::errors::{
    AuctionError,
    ConfigError,
    DisputeError,
    EscrowError,
    MarketError,
    RuntimeError,
};
use crate::state::auction::{AuctionState, AuctionStatus};
use crate::state::dispute::{Dispute, DisputeReason, DisputeStatus, Evidence};
use crate::state::escrow::{EscrowAccount, EscrowStatus};
use crate::state::profile::UserProfile;
use crate::state::program_config::{ProgramConfig, ProgramStats};

verus! {

/// What a party hands in to raise a dispute.
#[derive(Clone, Copy, Debug, PartialEq, Eq)]
pub struct RaiseDisputeParams {
    /// Why the dispute is raised.
    pub reason: DisputeReason,
    /// Encrypted description.
    pub description_encrypted: [u8; 256],
    /// A first piece of evidence, if any.
    pub initial_evidence: Option<Evidence>,
}

/// The records and keys a new dispute works on.
#[derive(Clone, Debug, PartialEq, Eq)]
pub struct RaiseDispute {
    /// Platform parameters.
    pub config: ProgramConfig,
    /// Platform counters.
    pub stats: ProgramStats,
    /// The auction in dispute.
    pub auction: AuctionState,
    /// The escrow of the auction.
    pub escrow: EscrowAccount,
    /// The dispute of the auction: none before it is raised.
    pub dispute: Option<Dispute>,
    /// Profile of the party that raises the dispute.
    pub disputer_profile: UserProfile,
    /// Who raises the dispute.
    pub disputer: Address,
    /// Key of the dispute record to create.
    pub dispute_key: Address,
    /// Address derivation seed of the dispute record.
    pub dispute_bump: u8,
}

/// What a raised dispute reports.
#[derive(Clone, Copy, Debug, PartialEq, Eq)]
pub struct DisputeRaised {
    /// Amount in dispute.
    pub amount: u64,
    /// Until when evidence is taken: seven days from now.
    pub evidence_deadline: i64,
    /// Until when the dispute should be resolved: fourteen days from now.
    pub resolution_deadline: i64,
}

impl RaiseDispute {
    /// Whether the deadlines and the counters stay in range.
    pub open spec fn in_range(&self, now: i64) -> bool {
        &&& now + 1_209_600 <= i64::MAX
        &&& self.disputer_profile.disputes_raised < u8::MAX
        &&& self.stats.total_disputes < u64::MAX
    }

    /// Why the dispute cannot be raised, if it cannot: the first of a
    /// paused platform, a caller who is neither the winner nor the seller, a
    /// dispute that exists already, an auction that is not settled or has no
    /// winner, an escrow that is not funded, and arithmetic out of range.
    pub open spec fn obstacle(&self, now: i64) -> Option<MarketError> {
        if self.config.paused {
            Some(MarketError::Config(ConfigError::ProgramPaused))
        } else if self.auction.winner != Some(self.disputer) && self.disputer
            != self.auction.seller {
            Some(MarketError::Dispute(DisputeError::NotAParty))
        } else if self.dispute is Some {
            Some(MarketError::Dispute(DisputeError::DisputeAlreadyExists))
        } else if self.auction.status != AuctionStatus::Settled || self.auction.winner is None {
            Some(MarketError::Auction(AuctionError::InvalidAuctionState))
        } else if self.escrow.status != EscrowStatus::Funded {
            Some(MarketError::Escrow(EscrowError::InvalidEscrowState))
        } else if !self.in_range(now) {
            Some(MarketError::Runtime(RuntimeError::ArithmeticOverflow))
        } else {
            None
        }
    }

    /// Whether `dispute` is the dispute that is raised at `now`: opened
    /// between the winner as buyer and the seller, over the escrowed amount,
    /// without votes or outcome, holding the first piece of evidence if one
    /// came with it.
    pub open spec fn raises(&self, params: RaiseDisputeParams, now: i64, dispute: Dispute) -> bool {
        let by_buyer = self.disputer == self.auction.winner->0;
        &&& dispute.dispute_id == self.dispute_key
        &&& dispute.auction_id == self.auction.auction_id
        &&& dispute.escrow_id == self.escrow.escrow_id
        &&& dispute.buyer == self.auction.winner->0
        &&& dispute.seller == self.auction.seller
        &&& dispute.raised_by == self.disputer
        &&& dispute.reason == params.reason
        &&& dispute.description_encrypted == params.description_encrypted
        &&& dispute.status == if params.initial_evidence is Some {
            DisputeStatus::EvidenceSubmitted
        } else {
            DisputeStatus::Opened
        }
        &&& dispute.amount == self.escrow.amount
        &&& dispute.buyer_evidence@ == if params.initial_evidence is Some && by_buyer {
            seq![params.initial_evidence->0]
        } else {
            Seq::<Evidence>::empty()
        }
        &&& dispute.seller_evidence@ == if params.initial_evidence is Some && !by_buyer {
            seq![params.initial_evidence->0]
        } else {
            Seq::<Evidence>::empty()
        }
        &&& dispute.arbitrator is None
        &&& dispute.arbitrator_notes is None
        &&& dispute.outcome is None
        &&& dispute.refund_amount is None
        &&& dispute.opened_at == now
        &&& dispute.last_activity == now
        &&& dispute.resolved_at is None
        &&& dispute.evidence_deadline == now + 604_800
        &&& dispute.resolution_deadline == now + 1_209_600
        &&& dispute.votes_collected == 0
        &&& dispute.votes_for_buyer == 0
        &&& dispute.votes_for_seller == 0
        &&& dispute.bump == self.dispute_bump
    }

    /// Whether `after` holds the records of `self` after a dispute was
    /// raised at `now`: the new dispute; escrow and auction in dispute; one
    /// more dispute raised by the party and counted by the platform.
    pub open spec fn disputed(self, params: RaiseDisputeParams, now: i64, after: RaiseDispute)
        -> bool {
        &&& after.dispute is Some
        &&& self.raises(params, now, after.dispute->0)
        &&& after == (RaiseDispute {
            dispute: after.dispute,
            escrow: EscrowAccount { status: EscrowStatus::Disputed, ..self.escrow },
            auction: AuctionState { status: AuctionStatus::Disputed, ..self.auction },
            disputer_profile: UserProfile {
                disputes_raised: (self.disputer_profile.disputes_raised + 1) as u8,
                ..self.disputer_profile
            },
            stats: ProgramStats {
                total_disputes: (self.stats.total_disputes + 1) as u64,
                last_updated: now,
                ..self.stats
            },
            ..self
        })
    }
}

/// Finds the first obstacle to a new dispute, if there is one.
fn refusal(ctx: &RaiseDispute, now: i64) -> (found: Option<MarketError>)
    ensures
        found == ctx.obstacle(now),
{
    if ctx.config.paused {
        return Some(MarketError::Config(ConfigError::ProgramPaused));
    }
    if !is_address(&ctx.auction.winner, &ctx.disputer) && !same_address(
        &ctx.disputer,
        &ctx.auction.seller,
    ) {
        return Some(MarketError::Dispute(DisputeError::NotAParty));
    }
    if ctx.dispute.is_some() {
        return Some(MarketError::Dispute(DisputeError::DisputeAlreadyExists));
    }
    if ctx.auction.status != AuctionStatus::Settled || ctx.auction.winner.is_none() {
        return Some(MarketError::Auction(AuctionError::InvalidAuctionState));
    }
    if ctx.escrow.status != EscrowStatus::Funded {
        return Some(MarketError::Escrow(EscrowError::InvalidEscrowState));
    }
    if now > i64::MAX - Dispute::DEFAULT_RESOLUTION_PERIOD || ctx.disputer_profile.disputes_raised
        == u8::MAX || ctx.stats.total_disputes == u64::MAX {
        return Some(MarketError::Runtime(RuntimeError::ArithmeticOverflow));
    }
    None
}

/// Raises a dispute over a settled auction for its winner or its seller:
/// opens the dispute with its deadlines, locks the escrow and puts the
/// auction in dispute. One dispute can be raised for an auction, ever. A
/// refused dispute returns the first obstacle and changes no record.
pub fn handler(ctx: &mut RaiseDispute, params: RaiseDisputeParams, now: i64) -> (result: Result<
    DisputeRaised,
    MarketError,
>)
    ensures
        match result {
            Ok(report) => old(ctx).obstacle(now) is None && old(ctx).disputed(
                params,
                now,
                *final(ctx),
            ) && report == (DisputeRaised {
                amount: old(ctx).escrow.amount,
                evidence_deadline: (now + 604_800) as i64,
                resolution_deadline: (now + 1_209_600) as i64,
            }),
            Err(e) => old(ctx).obstacle(now) == Some(e) && *final(ctx) == *old(ctx),
        },
        old(ctx).dispute is Some ==> result is Err,
        result is Ok ==> final(ctx).dispute->0.wf(),
        old(ctx).auction.status.may_become(final(ctx).auction.status),
        old(ctx).escrow.status.may_become(final(ctx).escrow.status),
        result is Ok && old(ctx).auction.wf() ==> final(ctx).auction.wf(),
        result is Ok && old(ctx).escrow.wf() ==> final(ctx).escrow.wf(),
        final(ctx).escrow.amount == old(ctx).escrow.amount,
{
    if let Some(obstacle) = refusal(ctx, now) {
        return Err(obstacle);
    }
    let buyer = match ctx.auction.winner {
        Some(winner) => winner,
        None => ctx.disputer,
    };
    let mut dispute = Dispute {
        dispute_id: ctx.dispute_key,
        auction_id: ctx.auction.auction_id,
        escrow_id: ctx.escrow.escrow_id,
        buyer,
        seller: ctx.auction.seller,
        raised_by: ctx.disputer,
        reason: params.reason,
        description_encrypted: params.description_encrypted,
        status: DisputeStatus::Opened,
        amount: ctx.escrow.amount,
        buyer_evidence: Vec::new(),
        seller_evidence: Vec::new(),
        arbitrator: None,
        arbitrator_notes: None,
        outcome: None,
        refund_amount: None,
        opened_at: now,
        last_activity: now,
        resolved_at: None,
        evidence_deadline: now + Dispute::DEFAULT_EVIDENCE_PERIOD,
        resolution_deadline: now + Dispute::DEFAULT_RESOLUTION_PERIOD,
        votes_collected: 0,
        votes_for_buyer: 0,
        votes_for_seller: 0,
        bump: ctx.dispute_bump,
    };
    if let Some(evidence) = params.initial_evidence {
        let by_buyer = same_address(&ctx.disputer, &buyer);
        let added = dispute.add_evidence(evidence, by_buyer, now);
        assert(added is Ok);
        assert(Seq::<Evidence>::empty().push(evidence) =~= seq![evidence]);
    }
    let report = DisputeRaised {
        amount: ctx.escrow.amount,
        evidence_deadline: dispute.evidence_deadline,
        resolution_deadline: dispute.resolution_deadline,
    };
    ctx.dispute = Some(dispute);
    let locked = ctx.escrow.lock_for_dispute();
    assert(locked is Ok);
    ctx.auction.status = AuctionStatus::Disputed;
    ctx.disputer_profile.record_dispute_raised(false);
    ctx.stats.dispute_raised(now);
    Ok(report)
}

} // verus!
