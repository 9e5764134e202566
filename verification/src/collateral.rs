//! Why the collateral pool always holds exactly the collateral of the bids
//! that have not been refunded.

use vstd::prelude::*;
use crate::instructions::claim_refund::ClaimRefund;
use crate::instructions::reveal_bid::{RevealBid, RevealBidParams};
use crate::instructions::submit_bid::{SubmitBid, SubmitBidParams};
use crate::state::bid::BidCommitment;
use crate::state::escrow::CollateralPool;

verus! {

/// What a bid has standing in the pool: its collateral until it is handed
/// back, and nothing after.
pub open spec fn collateral_at_stake(bid: BidCommitment) -> int {
    if bid.collateral_returned {
        0
    } else {
        bid.collateral_deposited as int
    }
}

/// The collateral that the bids `bids` have standing in the pool, in all.
pub open spec fn outstanding_collateral(bids: Seq<BidCommitment>) -> int
    decreases bids.len(),
{
    if bids.len() == 0 {
        0
    } else {
        outstanding_collateral(bids.drop_last()) + collateral_at_stake(bids.last())
    }
}

/// Whether the pool holds exactly what the bids have standing in it.
pub open spec fn pool_balanced(pool: CollateralPool, bids: Seq<BidCommitment>) -> bool {
    pool.total_collateral == outstanding_collateral(bids)
}

/// Replacing one bid changes the outstanding collateral by the difference
/// between what the new and the old bid have at stake.
pub proof fn lemma_outstanding_after_update(
    bids: Seq<BidCommitment>,
    index: int,
    replacement: BidCommitment,
)
    requires
        0 <= index < bids.len(),
    ensures
        outstanding_collateral(bids.update(index, replacement)) == outstanding_collateral(bids)
            - collateral_at_stake(bids[index]) + collateral_at_stake(replacement),
    decreases bids.len(),
{
    let updated = bids.update(index, replacement);
    if index == bids.len() - 1 {
        assert(updated.drop_last() =~= bids.drop_last());
    } else {
        assert(updated.drop_last() =~= bids.drop_last().update(index, replacement));
        lemma_outstanding_after_update(bids.drop_last(), index, replacement);
    }
}

/// No bid has more at stake than all bids together.
pub proof fn lemma_stake_within_outstanding(bids: Seq<BidCommitment>, index: int)
    requires
        0 <= index < bids.len(),
    ensures
        0 <= collateral_at_stake(bids[index]) <= outstanding_collateral(bids),
        0 <= outstanding_collateral(bids),
    decreases bids.len(),
{
    lemma_outstanding_nonnegative(bids.drop_last());
    if index < bids.len() - 1 {
        lemma_stake_within_outstanding(bids.drop_last(), index);
    }
}

/// The outstanding collateral is never negative.
pub proof fn lemma_outstanding_nonnegative(bids: Seq<BidCommitment>)
    ensures
        0 <= outstanding_collateral(bids),
    decreases bids.len(),
{
    if bids.len() > 0 {
        lemma_outstanding_nonnegative(bids.drop_last());
    }
}

/// An empty pool is balanced with no bids.
pub proof fn lemma_empty_pool_balanced(pool: CollateralPool)
    requires
        pool.total_collateral == 0,
    ensures
        pool_balanced(pool, Seq::<BidCommitment>::empty()),
{
}

/// Collateral conservation on submission: a balanced pool is balanced
/// again, with the new bid among its bids, after a submission.
pub proof fn lemma_submission_keeps_balance(
    ctx: SubmitBid,
    params: SubmitBidParams,
    now: i64,
    after: SubmitBid,
    bids: Seq<BidCommitment>,
)
    requires
        pool_balanced(ctx.collateral_pool, bids),
        ctx.obstacle(params, now) is None,
        ctx.submits(params, now, after),
    ensures
        pool_balanced(after.collateral_pool, bids.push(after.bid->0)),
{
    assert(bids.push(after.bid->0).drop_last() =~= bids);
}

/// Collateral conservation on reveal: a reveal changes neither the pool nor
/// what the revealed bid has at stake.
pub proof fn lemma_reveal_keeps_balance(
    ctx: RevealBid,
    params: RevealBidParams,
    pool: CollateralPool,
    bids: Seq<BidCommitment>,
    index: int,
)
    requires
        pool_balanced(pool, bids),
        0 <= index < bids.len(),
        bids[index] == ctx.bid,
    ensures
        pool_balanced(pool, bids.update(index, ctx.revealed(params).bid)),
{
    lemma_outstanding_after_update(bids, index, ctx.revealed(params).bid);
}

/// Collateral conservation on refund: a balanced pool holds enough for
/// every bid that is not yet refunded, so that no refund fails for lack of
/// funds; and after the refund the pool is balanced again, with the bid
/// marked as refunded.
pub proof fn lemma_refund_keeps_balance(
    ctx: ClaimRefund,
    now: i64,
    bids: Seq<BidCommitment>,
    index: int,
)
    requires
        pool_balanced(ctx.collateral_pool, bids),
        0 <= index < bids.len(),
        bids[index] == ctx.bid,
        !ctx.bid.collateral_returned,
    ensures
        ctx.bid.collateral_deposited <= ctx.collateral_pool.total_collateral,
        pool_balanced(
            ctx.refunded(now).collateral_pool,
            bids.update(index, ctx.refunded(now).bid),
        ),
{
    lemma_stake_within_outstanding(bids, index);
    lemma_outstanding_after_update(bids, index, ctx.refunded(now).bid);
}

} // verus!
