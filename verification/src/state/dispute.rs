//! Disputes over a settled auction: evidence, arbitrator votes, the outcome
//! they add up to, and how each outcome divides the escrowed amount.

use vstd::prelude::*;
use crate::address::{Address, same_address, is_zeroed};
use crate::errors::DisputeError;
use crate::state::program_config::{fee_on, lemma_fee_bounded};

verus! {

/// Why a dispute was raised.
#[derive(Clone, Copy, Debug, PartialEq, Eq, Structural)]
pub enum DisputeReason {
    /// Item not delivered.
    NonDelivery,
    /// Item differs from its description.
    NotAsDescribed,
    /// Item damaged in transit.
    DamagedInTransit,
    /// Item is a counterfeit.
    Counterfeit,
    /// Seller did not ship.
    SellerNotShipping,
    /// Buyer denies a delivery that tracking shows.
    FalseNonDelivery,
    /// Service not provided as agreed.
    ServiceNotProvided,
    /// Digital product cannot be accessed.
    DigitalAccessIssue,
    /// Anything else.
    Other,
}

impl Default for DisputeReason {
    fn default() -> (reason: Self)
        ensures
            reason == DisputeReason::Other,
    {
        DisputeReason::Other
    }
}

/// Where a dispute stands.
#[derive(Clone, Copy, Debug, PartialEq, Eq, Structural)]
pub enum DisputeStatus {
    /// Opened, waiting for evidence.
    Opened,
    /// Evidence is in, waiting for review.
    EvidenceSubmitted,
    /// Arbitrators are voting.
    UnderReview,
    /// More information was asked for.
    AwaitingInfo,
    /// Resolved for the buyer.
    ResolvedBuyer,
    /// Resolved for the seller.
    ResolvedSeller,
    /// Resolved with the amount divided.
    ResolvedPartial,
    /// Withdrawn.
    Cancelled,
    /// Passed on to a higher authority.
    Escalated,
}

impl Default for DisputeStatus {
    fn default() -> (status: Self)
        ensures
            status == DisputeStatus::Opened,
    {
        DisputeStatus::Opened
    }
}

impl DisputeStatus {
    /// Whether a dispute in this state may be in state `next` after one
    /// operation. An opened dispute receives evidence; one with evidence
    /// comes under review with the first vote; one under vote is resolved
    /// at the quorum. Every other state stays as it is.
    pub open spec fn may_become(self, next: DisputeStatus) -> bool {
        self == next || match self {
            DisputeStatus::Opened => next == DisputeStatus::EvidenceSubmitted,
            DisputeStatus::EvidenceSubmitted => next == DisputeStatus::UnderReview
                || next.is_resolved(),
            DisputeStatus::UnderReview => next.is_resolved(),
            _ => false,
        }
    }

    /// Whether the dispute has ended with an outcome.
    pub open spec fn is_resolved(self) -> bool {
        self == DisputeStatus::ResolvedBuyer || self == DisputeStatus::ResolvedSeller || self
            == DisputeStatus::ResolvedPartial
    }
}

/// How a dispute ends.
#[derive(Clone, Copy, Debug, PartialEq, Eq, Structural)]
pub enum DisputeOutcome {
    /// The buyer gets everything back.
    FullRefund,
    /// The buyer gets back the given percentage of what is left after the
    /// fee.
    PartialRefund { percentage: u8 },
    /// The seller is paid as after a delivery.
    ReleaseToSeller,
    /// The item goes back and the buyer gets everything back.
    ReturnForRefund,
    /// Both at fault: what is left after the fee is halved.
    SplitFault,
}

/// What kind of evidence was handed in.
#[derive(Clone, Copy, Debug, PartialEq, Eq, Structural)]
pub enum EvidenceType {
    /// Photo or screenshot.
    Photo,
    /// Video.
    Video,
    /// Log of messages.
    MessageLog,
    /// Tracking information.
    Tracking,
    /// Receipt or invoice.
    Receipt,
    /// Expert opinion.
    ExpertOpinion,
    /// Any other document.
    Other,
}

impl Default for EvidenceType {
    fn default() -> (kind: Self)
        ensures
            kind == EvidenceType::Other,
    {
        EvidenceType::Other
    }
}

/// One piece of evidence.
#[derive(Clone, Copy, Debug, PartialEq, Eq)]
pub struct Evidence {
    /// Who handed it in.
    pub submitter: Address,
    /// What kind it is.
    pub evidence_type: EvidenceType,
    /// Reference to the encrypted material.
    pub encrypted_data: [u8; 64],
    /// When it was handed in.
    pub submitted_at: i64,
    /// Whether an arbitrator has looked at it.
    pub reviewed: bool,
}

/// How the escrowed amount of a resolved dispute is divided.
#[derive(Clone, Copy, Debug, PartialEq, Eq, Structural)]
pub struct DisputePayout {
    /// What the platform keeps.
    pub fee_taken: u64,
    /// What goes back to the buyer.
    pub buyer_portion: u64,
    /// What goes to the seller.
    pub seller_portion: u64,
}

/// The outcome that a tally adds up to: the side with more votes wins, and
/// a tie puts both at fault.
pub open spec fn outcome_of(votes_for_buyer: u8, votes_for_seller: u8) -> DisputeOutcome {
    if votes_for_buyer > votes_for_seller {
        DisputeOutcome::FullRefund
    } else if votes_for_seller > votes_for_buyer {
        DisputeOutcome::ReleaseToSeller
    } else {
        DisputeOutcome::SplitFault
    }
}

/// Computes `outcome_of`.
pub fn tally_outcome(votes_for_buyer: u8, votes_for_seller: u8) -> (outcome: DisputeOutcome)
    ensures
        outcome == outcome_of(votes_for_buyer, votes_for_seller),
{
    if votes_for_buyer > votes_for_seller {
        DisputeOutcome::FullRefund
    } else if votes_for_seller > votes_for_buyer {
        DisputeOutcome::ReleaseToSeller
    } else {
        DisputeOutcome::SplitFault
    }
}

/// The status that a dispute ends in under an outcome.
pub open spec fn status_after(outcome: DisputeOutcome) -> DisputeStatus {
    match outcome {
        DisputeOutcome::FullRefund => DisputeStatus::ResolvedBuyer,
        DisputeOutcome::ReleaseToSeller => DisputeStatus::ResolvedSeller,
        DisputeOutcome::PartialRefund { .. } => DisputeStatus::ResolvedPartial,
        DisputeOutcome::SplitFault => DisputeStatus::ResolvedPartial,
        DisputeOutcome::ReturnForRefund => DisputeStatus::ResolvedBuyer,
    }
}

/// The share of the buyer, in percent, of what is left after the fee under
/// a dividing outcome: half on split fault, and the stated percentage, at
/// most 100, on a partial refund.
pub open spec fn buyer_percentage(outcome: DisputeOutcome) -> int {
    match outcome {
        DisputeOutcome::PartialRefund { percentage } => if percentage > 100 {
            100
        } else {
            percentage as int
        },
        _ => 50,
    }
}

/// How an outcome divides `amount` at `fee_bps` basis points. A refund
/// gives the buyer everything and the platform takes no fee. A release pays
/// the seller all but the fee. A dividing outcome takes the fee first, gives
/// the buyer a share of the rest rounded down, and the seller what remains,
/// so that rounding never loses anything.
pub open spec fn dispute_payout_of(outcome: DisputeOutcome, amount: u64, fee_bps: u16)
    -> DisputePayout {
    let fee = fee_on(amount as int, fee_bps as int);
    let rest = amount - fee;
    match outcome {
        DisputeOutcome::FullRefund | DisputeOutcome::ReturnForRefund => DisputePayout {
            fee_taken: 0,
            buyer_portion: amount,
            seller_portion: 0,
        },
        DisputeOutcome::ReleaseToSeller => DisputePayout {
            fee_taken: fee as u64,
            buyer_portion: 0,
            seller_portion: rest as u64,
        },
        DisputeOutcome::SplitFault | DisputeOutcome::PartialRefund { .. } => DisputePayout {
            fee_taken: fee as u64,
            buyer_portion: (rest * buyer_percentage(outcome) / 100) as u64,
            seller_portion: (rest - rest * buyer_percentage(outcome) / 100) as u64,
        },
    }
}

/// Conservation of a resolved dispute: fee, buyer's portion and seller's
/// portion add up to the escrowed amount, exactly, under every outcome; a
/// refund takes no fee, and every other outcome takes the platform fee.
pub proof fn lemma_dispute_payout_conserves(outcome: DisputeOutcome, amount: u64, fee_bps: u16)
    requires
        fee_bps <= 10_000,
    ensures
        dispute_payout_of(outcome, amount, fee_bps).fee_taken + dispute_payout_of(
            outcome,
            amount,
            fee_bps,
        ).buyer_portion + dispute_payout_of(outcome, amount, fee_bps).seller_portion == amount,
        outcome == DisputeOutcome::FullRefund || outcome == DisputeOutcome::ReturnForRefund
            ==> dispute_payout_of(outcome, amount, fee_bps).fee_taken == 0,
        outcome != DisputeOutcome::FullRefund && outcome != DisputeOutcome::ReturnForRefund
            ==> dispute_payout_of(outcome, amount, fee_bps).fee_taken == fee_on(
            amount as int,
            fee_bps as int,
        ),
{
    lemma_fee_bounded(amount as int, fee_bps as int);
    let fee = fee_on(amount as int, fee_bps as int);
    let rest = amount - fee;
    let share = buyer_percentage(outcome);
    assert(0 <= rest * share / 100 <= rest) by (nonlinear_arith)
        requires
            0 <= rest,
            0 <= share <= 100,
    ;
}

/// Computes `dispute_payout_of`.
pub fn dispute_payout(outcome: DisputeOutcome, amount: u64, fee_bps: u16) -> (payout: DisputePayout)
    requires
        fee_bps <= 10_000,
    ensures
        payout == dispute_payout_of(outcome, amount, fee_bps),
        payout.fee_taken + payout.buyer_portion + payout.seller_portion == amount,
{
    proof {
        lemma_dispute_payout_conserves(outcome, amount, fee_bps);
        lemma_fee_bounded(amount as int, fee_bps as int);
        assert(amount * fee_bps <= u64::MAX * 10_000) by (nonlinear_arith)
            requires
                0 <= amount <= u64::MAX,
                0 <= fee_bps <= 10_000,
        ;
    }
    let fee = (((amount as u128) * (fee_bps as u128)) / 10_000) as u64;
    let rest = amount - fee;
    match outcome {
        DisputeOutcome::FullRefund | DisputeOutcome::ReturnForRefund => DisputePayout {
            fee_taken: 0,
            buyer_portion: amount,
            seller_portion: 0,
        },
        DisputeOutcome::ReleaseToSeller => DisputePayout {
            fee_taken: fee,
            buyer_portion: 0,
            seller_portion: rest,
        },
        DisputeOutcome::SplitFault => {
            let buyer_portion = rest / 2;
            assert(rest * 50 / 100 == rest / 2);
            DisputePayout { fee_taken: fee, buyer_portion, seller_portion: rest - buyer_portion }
        },
        DisputeOutcome::PartialRefund { percentage } => {
            let share: u8 = if percentage > 100 {
                100
            } else {
                percentage
            };
            proof {
                assert(0 <= rest * share <= u64::MAX * 100 && 0 <= rest * share / 100 <= rest)
                    by (nonlinear_arith)
                    requires
                        0 <= rest <= u64::MAX,
                        0 <= share <= 100,
                ;
            }
            let buyer_portion = (((rest as u128) * (share as u128)) / 100) as u64;
            DisputePayout { fee_taken: fee, buyer_portion, seller_portion: rest - buyer_portion }
        },
    }
}

/// A dispute.
#[derive(Debug, Clone, PartialEq, Eq)]
pub struct Dispute {
    /// Key of this record.
    pub dispute_id: Address,
    /// The auction in dispute.
    pub auction_id: Address,
    /// The escrow in dispute.
    pub escrow_id: Address,
    /// The buyer.
    pub buyer: Address,
    /// The seller.
    pub seller: Address,
    /// Who raised the dispute.
    pub raised_by: Address,
    /// Why it was raised.
    pub reason: DisputeReason,
    /// Encrypted description.
    pub description_encrypted: [u8; 256],
    /// Where the dispute stands.
    pub status: DisputeStatus,
    /// Amount in dispute.
    pub amount: u64,
    /// Evidence from the buyer.
    pub buyer_evidence: Vec<Evidence>,
    /// Evidence from the seller.
    pub seller_evidence: Vec<Evidence>,
    /// Arbitrator of record: the first to vote.
    pub arbitrator: Option<Address>,
    /// Encrypted notes of the arbitrators.
    pub arbitrator_notes: Option<[u8; 256]>,
    /// The outcome, once resolved.
    pub outcome: Option<DisputeOutcome>,
    /// What the buyer gets back under a dividing outcome.
    pub refund_amount: Option<u64>,
    /// When the dispute was opened.
    pub opened_at: i64,
    /// Time of the last change.
    pub last_activity: i64,
    /// When the dispute was resolved.
    pub resolved_at: Option<i64>,
    /// Until when evidence is taken.
    pub evidence_deadline: i64,
    /// Until when the dispute should be resolved.
    pub resolution_deadline: i64,
    /// Votes cast.
    pub votes_collected: u8,
    /// Votes for the buyer.
    pub votes_for_buyer: u8,
    /// Votes for the seller.
    pub votes_for_seller: u8,
    /// Address derivation seed.
    pub bump: u8,
}

impl Dispute {
    /// Most pieces of evidence each party may hand in.
    pub const MAX_EVIDENCE_PER_PARTY: usize = 10;

    /// Seconds during which evidence is taken: seven days.
    pub const DEFAULT_EVIDENCE_PERIOD: i64 = 604_800;

    /// Seconds within which a dispute should be resolved: fourteen days.
    pub const DEFAULT_RESOLUTION_PERIOD: i64 = 1_209_600;

    /// Votes needed to resolve.
    pub const MIN_VOTES_FOR_RESOLUTION: u8 = 2;

    /// What every stored dispute keeps: the tally adds up; each party's
    /// evidence stays within its bound; and an outcome, with the time it was
    /// reached, is present exactly when the dispute is resolved.
    pub open spec fn wf(&self) -> bool {
        &&& self.votes_collected == self.votes_for_buyer + self.votes_for_seller
        &&& self.buyer_evidence@.len() <= 10
        &&& self.seller_evidence@.len() <= 10
        &&& (self.outcome is Some <==> self.status.is_resolved())
        &&& (self.resolved_at is Some <==> self.outcome is Some)
    }

    /// Whether the dispute takes evidence at `current_time`.
    pub open spec fn takes_evidence_at(&self, current_time: i64) -> bool {
        (self.status == DisputeStatus::Opened || self.status == DisputeStatus::AwaitingInfo)
            && current_time < self.evidence_deadline
    }

    /// Whether the dispute is under vote and has its quorum.
    pub open spec fn resolvable(&self) -> bool {
        (self.status == DisputeStatus::UnderReview || self.status
            == DisputeStatus::EvidenceSubmitted) && self.votes_collected >= 2
    }

    /// Whether evidence may be handed in at `current_time`.
    pub fn can_submit_evidence(&self, current_time: i64) -> (open: bool)
        ensures
            open == self.takes_evidence_at(current_time),
    {
        (self.status == DisputeStatus::Opened || self.status == DisputeStatus::AwaitingInfo)
            && current_time < self.evidence_deadline
    }

    /// Whether the dispute can be resolved: it is under vote and at least
    /// two votes are in.
    pub fn can_resolve(&self, current_time: i64) -> (ready: bool)
        ensures
            ready == self.resolvable(),
            ready ==> self.votes_collected >= 2,
    {
        (self.status == DisputeStatus::UnderReview || self.status
            == DisputeStatus::EvidenceSubmitted) && self.votes_collected
            >= Self::MIN_VOTES_FOR_RESOLUTION
    }

    /// Files a piece of evidence under the buyer or the seller. Fails with
    /// `MaxEvidenceReached` where that party's list is full. The first
    /// evidence moves an opened dispute on to `EvidenceSubmitted`.
    pub fn add_evidence(&mut self, evidence: Evidence, is_buyer: bool, now: i64) -> (added: Result<
        (),
        DisputeError,
    >)
        ensures
            added is Err <==> (if is_buyer {
                old(self).buyer_evidence@.len() >= 10
            } else {
                old(self).seller_evidence@.len() >= 10
            }),
            added is Err ==> added == Err::<(), DisputeError>(DisputeError::MaxEvidenceReached)
                && *final(self) == *old(self),
            added is Ok ==> {
                &&& final(self).buyer_evidence@ == if is_buyer {
                    old(self).buyer_evidence@.push(evidence)
                } else {
                    old(self).buyer_evidence@
                }
                &&& final(self).seller_evidence@ == if is_buyer {
                    old(self).seller_evidence@
                } else {
                    old(self).seller_evidence@.push(evidence)
                }
                &&& *final(self) == (Dispute {
                    buyer_evidence: final(self).buyer_evidence,
                    seller_evidence: final(self).seller_evidence,
                    last_activity: now,
                    status: if old(self).status == DisputeStatus::Opened {
                        DisputeStatus::EvidenceSubmitted
                    } else {
                        old(self).status
                    },
                    ..*old(self)
                })
            },
            old(self).status.may_become(final(self).status),
            old(self).wf() ==> final(self).wf(),
    {
        if is_buyer {
            if self.buyer_evidence.len() >= Self::MAX_EVIDENCE_PER_PARTY {
                return Err(DisputeError::MaxEvidenceReached);
            }
            self.buyer_evidence.push(evidence);
        } else {
            if self.seller_evidence.len() >= Self::MAX_EVIDENCE_PER_PARTY {
                return Err(DisputeError::MaxEvidenceReached);
            }
            self.seller_evidence.push(evidence);
        }
        self.last_activity = now;
        if self.status == DisputeStatus::Opened {
            self.status = DisputeStatus::EvidenceSubmitted;
        }
        Ok(())
    }

    /// Why evidence from `submitter` is not taken at `now`, if it is not:
    /// the first of not a party, wrong state, deadline passed, list full.
    pub open spec fn evidence_obstacle(&self, submitter: Address, now: i64) -> Option<
        DisputeError,
    > {
        if submitter != self.buyer && submitter != self.seller {
            Some(DisputeError::NotAParty)
        } else if self.status != DisputeStatus::Opened && self.status
            != DisputeStatus::AwaitingInfo {
            Some(DisputeError::CannotSubmitEvidence)
        } else if now >= self.evidence_deadline {
            Some(DisputeError::EvidenceDeadlinePassed)
        } else if submitter == self.buyer && self.buyer_evidence@.len() >= 10 {
            Some(DisputeError::MaxEvidenceReached)
        } else if submitter != self.buyer && self.seller_evidence@.len() >= 10 {
            Some(DisputeError::MaxEvidenceReached)
        } else {
            None
        }
    }

    /// Takes a piece of evidence from the buyer or the seller, while the
    /// dispute is open for evidence and that party's list has room.
    pub fn submit_evidence(&mut self, submitter: &Address, evidence: Evidence, now: i64) -> (taken:
        Result<(), DisputeError>)
        ensures
            match taken {
                Ok(_) => {
                    &&& old(self).evidence_obstacle(*submitter, now) is None
                    &&& final(self).buyer_evidence@ == if *submitter == old(self).buyer {
                        old(self).buyer_evidence@.push(evidence)
                    } else {
                        old(self).buyer_evidence@
                    }
                    &&& final(self).seller_evidence@ == if *submitter == old(self).buyer {
                        old(self).seller_evidence@
                    } else {
                        old(self).seller_evidence@.push(evidence)
                    }
                    &&& *final(self) == (Dispute {
                        buyer_evidence: final(self).buyer_evidence,
                        seller_evidence: final(self).seller_evidence,
                        last_activity: now,
                        status: if old(self).status == DisputeStatus::Opened {
                            DisputeStatus::EvidenceSubmitted
                        } else {
                            old(self).status
                        },
                        ..*old(self)
                    })
                },
                Err(e) => old(self).evidence_obstacle(*submitter, now) == Some(e) && *final(self)
                    == *old(self),
            },
            old(self).wf() ==> final(self).wf(),
    {
        let is_buyer = same_address(submitter, &self.buyer);
        if !is_buyer && !same_address(submitter, &self.seller) {
            return Err(DisputeError::NotAParty);
        }
        if self.status != DisputeStatus::Opened && self.status != DisputeStatus::AwaitingInfo {
            return Err(DisputeError::CannotSubmitEvidence);
        }
        if now >= self.evidence_deadline {
            return Err(DisputeError::EvidenceDeadlinePassed);
        }
        self.add_evidence(evidence, is_buyer, now)
    }

    /// Counts one vote.
    pub fn record_vote(&mut self, for_buyer: bool)
        requires
            old(self).votes_collected < u8::MAX,
            old(self).votes_for_buyer < u8::MAX,
            old(self).votes_for_seller < u8::MAX,
        ensures
            *final(self) == (Dispute {
                votes_collected: (old(self).votes_collected + 1) as u8,
                votes_for_buyer: if for_buyer {
                    (old(self).votes_for_buyer + 1) as u8
                } else {
                    old(self).votes_for_buyer
                },
                votes_for_seller: if for_buyer {
                    old(self).votes_for_seller
                } else {
                    (old(self).votes_for_seller + 1) as u8
                },
                ..*old(self)
            }),
            old(self).wf() ==> final(self).wf(),
    {
        self.votes_collected += 1;
        if for_buyer {
            self.votes_for_buyer += 1;
        } else {
            self.votes_for_seller += 1;
        }
    }

    /// The outcome that the tally adds up to.
    pub fn determine_outcome(&self) -> (outcome: DisputeOutcome)
        ensures
            outcome == outcome_of(self.votes_for_buyer, self.votes_for_seller),
    {
        tally_outcome(self.votes_for_buyer, self.votes_for_seller)
    }

    /// Ends the dispute with `outcome`. An outcome is set once: a dispute
    /// that has one cannot be resolved again.
    pub fn resolve(&mut self, outcome: DisputeOutcome, refund_amount: Option<u64>, now: i64)
        requires
            old(self).outcome is None,
        ensures
            *final(self) == (Dispute {
                outcome: Some(outcome),
                refund_amount,
                resolved_at: Some(now),
                status: status_after(outcome),
                ..*old(self)
            }),
            final(self).status.is_resolved(),
            old(self).wf() ==> final(self).wf(),
    {
        self.outcome = Some(outcome);
        self.refund_amount = refund_amount;
        self.resolved_at = Some(now);
        self.status = match outcome {
            DisputeOutcome::FullRefund => DisputeStatus::ResolvedBuyer,
            DisputeOutcome::ReleaseToSeller => DisputeStatus::ResolvedSeller,
            DisputeOutcome::PartialRefund { .. } => DisputeStatus::ResolvedPartial,
            DisputeOutcome::SplitFault => DisputeStatus::ResolvedPartial,
            DisputeOutcome::ReturnForRefund => DisputeStatus::ResolvedBuyer,
        };
    }
}

/// The track record of an arbitrator.
#[derive(Debug, Clone, Copy, PartialEq, Eq)]
pub struct ArbitratorRecord {
    /// The arbitrator.
    pub arbitrator: Address,
    /// Cases taken on.
    pub cases_handled: u32,
    /// Cases resolved.
    pub cases_resolved: u32,
    /// Running average of the time to resolve, in seconds.
    pub avg_resolution_time: u64,
    /// Average rating by the parties, 0 to 50.
    pub rating: u8,
    /// Ratings received.
    pub rating_count: u32,
    /// Fees earned.
    pub fees_earned: u64,
    /// Cases in progress.
    pub active_cases: u8,
    /// Most cases allowed in progress at once.
    pub max_cases: u8,
    /// Whether the arbitrator takes cases.
    pub active: bool,
    /// When the arbitrator joined.
    pub joined_at: i64,
    /// Time of the last change.
    pub last_activity: i64,
    /// Address derivation seed.
    pub bump: u8,
}

impl ArbitratorRecord {
    /// Cases an arbitrator may have in progress unless told otherwise.
    pub const DEFAULT_MAX_CASES: u8 = 10;

    /// What every stored record keeps: no more cases in progress than
    /// allowed, and no more cases resolved than taken on.
    pub open spec fn wf(&self) -> bool {
        &&& self.active_cases <= self.max_cases
        &&& self.cases_resolved <= self.cases_handled
    }

    /// Whether the arbitrator can take another case.
    pub fn can_take_case(&self) -> (free: bool)
        ensures
            free == (self.active && self.active_cases < self.max_cases),
    {
        self.active && self.active_cases < self.max_cases
    }

    /// Takes on a case.
    pub fn assign_case(&mut self, now: i64)
        requires
            old(self).active_cases < u8::MAX,
            old(self).cases_handled < u32::MAX,
        ensures
            *final(self) == (ArbitratorRecord {
                active_cases: (old(self).active_cases + 1) as u8,
                cases_handled: (old(self).cases_handled + 1) as u32,
                last_activity: now,
                ..*old(self)
            }),
            old(self).wf() && old(self).active_cases < old(self).max_cases ==> final(self).wf(),
    {
        self.active_cases += 1;
        self.cases_handled += 1;
        self.last_activity = now;
    }

    /// The running average after one more case that took `resolution_time`:
    /// the old average weighted by the cases it stood for, plus the new
    /// time, over the new number of cases, rounded down.
    pub open spec fn average_after(&self, resolution_time: u64) -> int {
        (self.avg_resolution_time * self.cases_resolved + resolution_time) / (self.cases_resolved
            + 1)
    }

    /// Whether `complete_case` stays within the machine's range.
    pub open spec fn can_complete(&self, resolution_time: u64, fee: u64) -> bool {
        &&& self.cases_resolved < u32::MAX
        &&& self.fees_earned + fee <= u64::MAX
        &&& self.avg_resolution_time * self.cases_resolved + resolution_time <= u64::MAX
    }

    /// Computes `can_complete`.
    pub fn fits_completion(&self, resolution_time: u64, fee: u64) -> (fits: bool)
        ensures
            fits == self.can_complete(resolution_time, fee),
    {
        if self.cases_resolved == u32::MAX {
            return false;
        }
        if self.fees_earned > u64::MAX - fee {
            return false;
        }
        proof {
            assert(self.avg_resolution_time * self.cases_resolved <= u64::MAX * u32::MAX)
                by (nonlinear_arith)
                requires
                    0 <= self.avg_resolution_time <= u64::MAX,
                    0 <= self.cases_resolved <= u32::MAX,
            ;
        }
        let weighted: u128 = (self.avg_resolution_time as u128) * (self.cases_resolved as u128);
        weighted + (resolution_time as u128) <= u64::MAX as u128
    }

    /// Closes a case: one case less in progress, stopping at zero; one more
    /// resolved; the fee earned; and the running average brought up to date.
    pub fn complete_case(&mut self, resolution_time: u64, fee: u64, now: i64)
        requires
            old(self).can_complete(resolution_time, fee),
        ensures
            *final(self) == (ArbitratorRecord {
                active_cases: if old(self).active_cases == 0 {
                    0
                } else {
                    (old(self).active_cases - 1) as u8
                },
                cases_resolved: (old(self).cases_resolved + 1) as u32,
                fees_earned: (old(self).fees_earned + fee) as u64,
                avg_resolution_time: old(self).average_after(resolution_time) as u64,
                last_activity: now,
                ..*old(self)
            }),
            final(self).avg_resolution_time == old(self).average_after(resolution_time),
            old(self).wf() && old(self).cases_resolved < old(self).cases_handled ==> final(
                self
            ).wf(),
    {
        let average = self.avg_resolution_time;
        let resolved = self.cases_resolved;
        proof {
            let total = average * resolved + resolution_time;
            assert(0 <= average * resolved) by (nonlinear_arith)
                requires
                    0 <= average,
                    0 <= resolved,
            ;
            assert(0 <= total / (resolved + 1) <= total) by (nonlinear_arith)
                requires
                    0 <= total,
                    0 <= resolved,
            ;
        }
        self.active_cases = self.active_cases.saturating_sub(1);
        self.cases_resolved += 1;
        self.fees_earned += fee;
        let total_time = average * (resolved as u64) + resolution_time;
        self.avg_resolution_time = total_time / (self.cases_resolved as u64);
        self.last_activity = now;
    }

    /// The average rating after one more rating, rounded down.
    pub open spec fn rating_after(&self, new_rating: u8) -> int {
        (self.rating * self.rating_count + new_rating) / (self.rating_count + 1)
    }

    /// Enters one more rating into the average.
    pub fn update_rating(&mut self, new_rating: u8)
        requires
            old(self).rating_count < u32::MAX,
        ensures
            *final(self) == (ArbitratorRecord {
                rating: old(self).rating_after(new_rating) as u8,
                rating_count: (old(self).rating_count + 1) as u32,
                ..*old(self)
            }),
            final(self).rating == old(self).rating_after(new_rating),
    {
        proof {
            lemma_average_stays_in_range(
                self.rating as int,
                self.rating_count as int,
                new_rating as int,
            );
        }
        let total: u64 = (self.rating as u64) * (self.rating_count as u64) + (new_rating as u64);
        self.rating_count += 1;
        self.rating = (total / (self.rating_count as u64)) as u8;
    }
}

/// Averaging one more value of at most 255 into an average of at most 255
/// gives at most 255, and the sum behind it fits in 64 bits.
pub proof fn lemma_average_stays_in_range(average: int, count: int, value: int)
    requires
        0 <= average <= 255,
        0 <= count <= u32::MAX,
        0 <= value <= 255,
    ensures
        0 <= average * count + value <= u64::MAX,
        0 <= (average * count + value) / (count + 1) <= 255,
{
    assert(0 <= average * count <= 255 * count) by (nonlinear_arith)
        requires
            0 <= average <= 255,
            0 <= count,
    ;
    assert((average * count + value) / (count + 1) <= 255) by (nonlinear_arith)
        requires
            0 <= average * count + value <= 255 * (count + 1),
            0 <= count,
    ;
    assert(0 <= (average * count + value) / (count + 1)) by (nonlinear_arith)
        requires
            0 <= average * count + value,
            0 <= count,
    ;
}

impl Dispute {
    /// A dispute record with nothing entered: opened, without evidence, votes or outcome.
    pub open spec fn is_blank(&self) -> bool {
        &&& is_zeroed(self.dispute_id)
        &&& is_zeroed(self.auction_id)
        &&& is_zeroed(self.escrow_id)
        &&& is_zeroed(self.buyer)
        &&& is_zeroed(self.seller)
        &&& is_zeroed(self.raised_by)
        &&& self.reason == DisputeReason::Other
        &&& is_zeroed(self.description_encrypted)
        &&& self.status == DisputeStatus::Opened
        &&& self.amount == 0
        &&& self.buyer_evidence@.len() == 0
        &&& self.seller_evidence@.len() == 0
        &&& self.arbitrator is None
        &&& self.arbitrator_notes is None
        &&& self.outcome is None
        &&& self.refund_amount is None
        &&& self.opened_at == 0
        &&& self.last_activity == 0
        &&& self.resolved_at is None
        &&& self.evidence_deadline == 0
        &&& self.resolution_deadline == 0
        &&& self.votes_collected == 0
        &&& self.votes_for_buyer == 0
        &&& self.votes_for_seller == 0
        &&& self.bump == 0
    }
}

impl Default for Dispute {
    fn default() -> (dispute: Self)
        ensures
            dispute.is_blank(),
    {
        Dispute {
            dispute_id: [0u8; 32],
            auction_id: [0u8; 32],
            escrow_id: [0u8; 32],
            buyer: [0u8; 32],
            seller: [0u8; 32],
            raised_by: [0u8; 32],
            reason: DisputeReason::Other,
            description_encrypted: [0u8; 256],
            status: DisputeStatus::Opened,
            amount: 0,
            buyer_evidence: Vec::new(),
            seller_evidence: Vec::new(),
            arbitrator: None,
            arbitrator_notes: None,
            outcome: None,
            refund_amount: None,
            opened_at: 0,
            last_activity: 0,
            resolved_at: None,
            evidence_deadline: 0,
            resolution_deadline: 0,
            votes_collected: 0,
            votes_for_buyer: 0,
            votes_for_seller: 0,
            bump: 0,
        }
    }
}

impl ArbitratorRecord {
    /// An arbitrator record with nothing entered.
    pub open spec fn is_blank(&self) -> bool {
        &&& is_zeroed(self.arbitrator)
        &&& self.cases_handled == 0
        &&& self.cases_resolved == 0
        &&& self.avg_resolution_time == 0
        &&& self.rating == 0
        &&& self.rating_count == 0
        &&& self.fees_earned == 0
        &&& self.active_cases == 0
        &&& self.max_cases == 0
        &&& !self.active
        &&& self.joined_at == 0
        &&& self.last_activity == 0
        &&& self.bump == 0
    }
}

impl Default for ArbitratorRecord {
    fn default() -> (record: Self)
        ensures
            record.is_blank(),
    {
        ArbitratorRecord {
            arbitrator: [0u8; 32],
            cases_handled: 0,
            cases_resolved: 0,
            avg_resolution_time: 0,
            rating: 0,
            rating_count: 0,
            fees_earned: 0,
            active_cases: 0,
            max_cases: 0,
            active: false,
            joined_at: 0,
            last_activity: 0,
            bump: 0,
        }
    }
}

} // verus!
