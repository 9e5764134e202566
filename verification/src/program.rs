//! The entry points of the marketplace, one for each operation.

use vstd::prelude::*;
use crate::errors::MarketError;
use crate::instructions::cancel_auction::{AuctionCancelled, CancelAuction};
use crate::instructions::claim_refund::{ClaimRefund, RefundClaimed};
use crate::instructions::confirm_delivery::{
    ConfirmDelivery,
    ConfirmDeliveryParams,
    DeliveryConfirmed,
};
use crate::instructions::create_auction::{AuctionCreated, CreateAuction, CreateAuctionParams};
use crate::instructions::initialize_program::{
    InitializeProgram,
    InitializeProgramParams,
    ProgramInitialized,
};
use crate::instructions::raise_dispute::{DisputeRaised, RaiseDispute, RaiseDisputeParams};
use crate::instructions::resolve_dispute::{DisputeResolved, ResolveDispute, ResolveDisputeParams};
use crate::instructions::reveal_bid::{BidRevealed, RevealBid, RevealBidParams};
use crate::instructions::settle_auction::{AuctionSettled, SettleAuction};
use crate::instructions::submit_bid::{BidSubmitted, SubmitBid, SubmitBidParams};
use crate::instructions::update_profile::{ProfileUpdated, UpdateProfile, UpdateProfileParams};

verus! {

/// Sets the platform up with its parameters.
pub fn initialize_program(
    ctx: &InitializeProgram,
    params: InitializeProgramParams,
    now: i64,
) -> (result: Result<ProgramInitialized, MarketError>)
    ensures
        match result {
            Ok(created) => ctx.obstacle(params) is None && ctx.creates_config(
                params,
                created.config,
            ) && created.stats == ctx.new_stats(now) && created.config.wf(),
            Err(e) => ctx.obstacle(params) == Some(e),
        },
{
    crate::instructions::initialize_program::handler(ctx, params, now)
}

/// Opens an auction.
pub fn create_auction(ctx: &mut CreateAuction, params: CreateAuctionParams, now: i64) -> (result:
    Result<AuctionCreated, MarketError>)
    ensures
        match result {
            Ok(created) => {
                &&& old(ctx).obstacle(params, now) is None
                &&& *final(ctx) == old(ctx).opened(now)
                &&& old(ctx).creates_auction(params, now, created.auction)
                &&& old(ctx).creates_product(params, now, created.product_metadata)
                &&& old(ctx).creates_escrow(params, now, created.escrow)
                &&& created.transfers_token == old(ctx).transfers_token(params)
            },
            Err(e) => old(ctx).obstacle(params, now) == Some(e) && *final(ctx) == *old(ctx),
        },
{
    crate::instructions::create_auction::handler(ctx, params, now)
}

/// Takes a sealed bid.
pub fn submit_bid(ctx: &mut SubmitBid, params: SubmitBidParams, now: i64) -> (result: Result<
    BidSubmitted,
    MarketError,
>)
    ensures
        match result {
            Ok(report) => old(ctx).obstacle(params, now) is None && old(ctx).submits(
                params,
                now,
                *final(ctx),
            ) && report == (BidSubmitted {
                bid_count: (old(ctx).auction.bid_count + 1) as u32,
                collateral: old(ctx).auction.bid_collateral,
            }),
            Err(e) => old(ctx).obstacle(params, now) == Some(e) && *final(ctx) == *old(ctx),
        },
{
    crate::instructions::submit_bid::handler(ctx, params, now)
}

/// Reveals a sealed bid.
pub fn reveal_bid(ctx: &mut RevealBid, params: RevealBidParams, now: i64) -> (result: Result<
    BidRevealed,
    MarketError,
>)
    ensures
        match result {
            Ok(report) => old(ctx).obstacle(params, now) is None && *final(ctx) == old(
                ctx,
            ).revealed(params) && report == old(ctx).report(params),
            Err(e) => old(ctx).obstacle(params, now) == Some(e) && *final(ctx) == *old(ctx),
        },
{
    crate::instructions::reveal_bid::handler(ctx, params, now)
}

/// Settles an auction and funds its escrow.
pub fn settle_auction(ctx: &mut SettleAuction, now: i64) -> (result: Result<
    AuctionSettled,
    MarketError,
>)
    ensures
        match result {
            Ok(report) => old(ctx).obstacle(now) is None && *final(ctx) == old(ctx).settled(now)
                && report == old(ctx).report(),
            Err(e) => old(ctx).obstacle(now) == Some(e) && *final(ctx) == *old(ctx),
        },
{
    crate::instructions::settle_auction::handler(ctx, now)
}

/// Cancels an auction that has no bids.
pub fn cancel_auction(ctx: &mut CancelAuction, now: i64) -> (result: Result<
    AuctionCancelled,
    MarketError,
>)
    ensures
        match result {
            Ok(report) => old(ctx).obstacle() is None && *final(ctx) == old(ctx).cancelled(now)
                && report == (AuctionCancelled {
                returns_token: old(ctx).returns_token(),
                bidders_to_refund: 0,
            }),
            Err(e) => old(ctx).obstacle() == Some(e) && *final(ctx) == *old(ctx),
        },
{
    crate::instructions::cancel_auction::handler(ctx, now)
}

/// Takes the buyer's confirmation of delivery and releases the escrow once
/// its time-lock has run out and its signatures are in.
pub fn confirm_delivery(
    ctx: &mut ConfirmDelivery,
    params: ConfirmDeliveryParams,
    now: i64,
) -> (result: Result<DeliveryConfirmed, MarketError>)
    ensures
        match result {
            Ok(report) => old(ctx).obstacle(params, now) is None && *final(ctx) == old(
                ctx,
            ).confirmed(params, now) && report == (DeliveryConfirmed {
                amount: old(ctx).escrow.amount,
                payout: old(ctx).payout(),
            }),
            Err(e) => old(ctx).obstacle(params, now) == Some(e) && *final(ctx) == *old(ctx),
        },
{
    crate::instructions::confirm_delivery::handler(ctx, params, now)
}

/// Raises a dispute over a settled auction.
pub fn raise_dispute(ctx: &mut RaiseDispute, params: RaiseDisputeParams, now: i64) -> (result:
    Result<DisputeRaised, MarketError>)
    ensures
        match result {
            Ok(report) => old(ctx).obstacle(now) is None && old(ctx).disputed(
                params,
                now,
                *final(ctx),
            ) && report == (DisputeRaised {
                amount: old(ctx).escrow.amount,
                evidence_deadline: (now + 604_800) as i64,
                resolution_deadline: (now + 1_209_600) as i64,
            }),
            Err(e) => old(ctx).obstacle(now) == Some(e) && *final(ctx) == *old(ctx),
        },
{
    crate::instructions::raise_dispute::handler(ctx, params, now)
}

/// Counts an arbitrator's vote and resolves the dispute at the quorum.
pub fn resolve_dispute(ctx: &mut ResolveDispute, params: ResolveDisputeParams, now: i64) -> (result:
    Result<Option<DisputeResolved>, MarketError>)
    ensures
        match result {
            Ok(None) => old(ctx).obstacle(params, now) is None && !old(ctx).completes_quorum()
                && *final(ctx) == old(ctx).voted(params, now),
            Ok(Some(report)) => old(ctx).obstacle(params, now) is None && old(
                ctx,
            ).completes_quorum() && *final(ctx) == old(ctx).resolved(params, now) && report == old(
                ctx,
            ).report(params, now),
            Err(e) => old(ctx).obstacle(params, now) == Some(e) && *final(ctx) == *old(ctx),
        },
{
    crate::instructions::resolve_dispute::handler(ctx, params, now)
}

/// Creates or updates a profile and moves its stake.
pub fn update_profile(ctx: &mut UpdateProfile, params: UpdateProfileParams, now: i64) -> (result:
    Result<ProfileUpdated, MarketError>)
    ensures
        match result {
            Ok(report) => old(ctx).obstacle(params, now) is None && *final(ctx) == old(
                ctx,
            ).updated(params, now) && report == old(ctx).report(params, now),
            Err(e) => old(ctx).obstacle(params, now) == Some(e) && *final(ctx) == *old(ctx),
        },
{
    crate::instructions::update_profile::handler(ctx, params, now)
}

/// Pays back the collateral of a bid that did not win.
pub fn claim_refund(ctx: &mut ClaimRefund, now: i64) -> (result: Result<RefundClaimed, MarketError>)
    ensures
        match result {
            Ok(report) => old(ctx).obstacle(now) is None && *final(ctx) == old(ctx).refunded(now)
                && report == old(ctx).report(),
            Err(e) => old(ctx).obstacle(now) == Some(e) && *final(ctx) == *old(ctx),
        },
{
    crate::instructions::claim_refund::handler(ctx, now)
}

} // verus!
