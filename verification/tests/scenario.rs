use private_auction::errors::{BidError, EscrowError, MarketError};
use private_auction::instructions::claim_refund;
use private_auction::instructions::claim_refund::{ClaimRefund, RefundReason};
use private_auction::instructions::confirm_delivery;
use private_auction::instructions::confirm_delivery::{ConfirmDelivery, ConfirmDeliveryParams};
use private_auction::instructions::create_auction;
use private_auction::instructions::create_auction::{CreateAuction, CreateAuctionParams};
use private_auction::instructions::initialize_program;
use private_auction::instructions::initialize_program::{
    InitializeProgram, InitializeProgramParams,
};
use private_auction::instructions::reveal_bid;
use private_auction::instructions::reveal_bid::{RevealBid, RevealBidParams};
use private_auction::instructions::settle_auction;
use private_auction::instructions::settle_auction::SettleAuction;
use private_auction::instructions::submit_bid;
use private_auction::instructions::submit_bid::{SubmitBid, SubmitBidParams};
use private_auction::instructions::update_profile;
use private_auction::instructions::update_profile::{UpdateProfile, UpdateProfileParams};
use private_auction::state::auction::{AuctionState, AuctionStatus, ProductType};
use private_auction::state::bid::{BidCommitment, BidReveal};
use private_auction::state::escrow::{
    CollateralPool, EscrowAccount, EscrowSecurityLevel, EscrowStatus,
};
use private_auction::state::product::{Category, DigitalDelivery};
use private_auction::state::profile::{KycLevel, ReputationStake, UserProfile};
use private_auction::state::program_config::{ProgramConfig, ProgramStats};

fn key(tag: u8) -> [u8; 32] {
    [tag; 32]
}

fn blank_profile() -> UserProfile {
    UserProfile {
        user_pubkey: [0; 32],
        reputation_score: 0,
        auctions_as_seller: 0,
        auctions_as_buyer: 0,
        successful_deliveries: 0,
        disputes_against: 0,
        disputes_raised: 0,
        disputes_won: 0,
        total_volume: 0,
        average_rating: 0,
        rating_count: 0,
        encrypted_preferences: [0; 64],
        kyc_level: KycLevel::Unverified,
        created_at: 0,
        last_active: 0,
        platform_verified: false,
        staked_amount: 0,
        bump: 0,
        _reserved: [0; 32],
    }
}

fn blank_stake() -> ReputationStake {
    ReputationStake {
        user: [0; 32],
        token_mint: [0; 32],
        token_account: [0; 32],
        amount: 0,
        lock_until: 0,
        locked_for_dispute: false,
        bump: 0,
    }
}

fn platform(now: i64) -> (ProgramConfig, ProgramStats) {
    let ctx = InitializeProgram {
        initialized: false,
        authority: key(1),
        state_tree: key(2),
        nullifier_queue: key(3),
        per_config: key(4),
        fee_collector: key(5),
        config_bump: 255,
        stats_bump: 254,
    };
    let params = InitializeProgramParams {
        platform_fee_bps: 250,
        min_auction_duration: 3600,
        max_auction_duration: 2_592_000,
        default_reveal_duration: 86_400,
        min_bid_collateral: 10,
        max_bid_collateral: 1_000_000,
        min_seller_reputation: 300,
        min_high_value_reputation: 700,
        high_value_threshold: 1_000_000,
        supported_mints: vec![key(9)],
        arbitrators: vec![key(20), key(21)],
    };
    let created = initialize_program::handler(&ctx, params, now).unwrap();
    (created.config, created.stats)
}

fn new_profile(
    config: &ProgramConfig,
    stats: &mut ProgramStats,
    user: [u8; 32],
    now: i64,
) -> UserProfile {
    let mut ctx = UpdateProfile {
        config: config.clone(),
        stats: *stats,
        profile: blank_profile(),
        stake_account: blank_stake(),
        user,
        stake_mint: key(9),
        stake_vault: key(8),
        profile_bump: 1,
        stake_bump: 2,
    };
    let params = UpdateProfileParams {
        encrypted_preferences: None,
        kyc_level: None,
        stake_amount: 0,
        withdraw_stake: false,
    };
    let report = update_profile::handler(&mut ctx, params, now).unwrap();
    assert!(report.created);
    *stats = ctx.stats;
    ctx.profile
}

fn open_auction(
    config: &ProgramConfig,
    stats: &mut ProgramStats,
    seller_profile: &UserProfile,
    now: i64,
) -> (AuctionState, EscrowAccount) {
    let mut ctx = CreateAuction {
        config: config.clone(),
        stats: *stats,
        seller_profile: *seller_profile,
        seller: key(10),
        auction_key: key(30),
        product_key: key(31),
        escrow_key: key(32),
        escrow_vault_key: key(33),
        has_nft_token_account: false,
        has_nft_escrow_account: false,
        auction_bump: 3,
        product_bump: 4,
        escrow_bump: 5,
    };
    let params = CreateAuctionParams {
        product_type: ProductType::Digital,
        category: Category::Software,
        reserve_price_hash: [7; 32],
        duration: 3600,
        reveal_duration: 0,
        ipfs_hash: String::from("Qm"),
        title: String::from("Editor licence"),
        description: String::from("One seat"),
        images: vec![],
        payment_mint: key(9),
        min_bid_increment: 1,
        bid_collateral: 100,
        nft_mint: None,
        shipping: None,
        digital_delivery: Some(DigitalDelivery::default()),
        service_details: None,
    };
    let created = create_auction::handler(&mut ctx, params, now).unwrap();
    *stats = ctx.stats;
    (created.auction, created.escrow)
}

fn place_bid(
    config: &ProgramConfig,
    stats: &mut ProgramStats,
    auction: &mut AuctionState,
    pool: &mut CollateralPool,
    bidder: [u8; 32],
    amount: u64,
    now: i64,
) -> BidCommitment {
    let commitment = BidReveal::compute_commitment(amount, &[bidder[0]; 32], &bidder);
    let mut ctx = SubmitBid {
        config: config.clone(),
        stats: *stats,
        auction: auction.clone(),
        bid: None,
        collateral_pool: *pool,
        bidder,
        bid_key: [bidder[0] + 100; 32],
        bid_bump: 6,
    };
    let params = SubmitBidParams {
        commitment_hash: commitment,
        proof: vec![1],
        proof_hash: [2; 32],
    };
    let report = submit_bid::handler(&mut ctx, params, now).unwrap();
    assert_eq!(report.collateral, 100);
    *stats = ctx.stats;
    *auction = ctx.auction;
    *pool = ctx.collateral_pool;
    ctx.bid.unwrap()
}

fn open_bid(
    config: &ProgramConfig,
    auction: &mut AuctionState,
    bid: &mut BidCommitment,
    amount: u64,
    now: i64,
) -> Result<reveal_bid::BidRevealed, MarketError> {
    let bidder = bid.bidder;
    let mut ctx = RevealBid {
        config: config.clone(),
        auction: auction.clone(),
        bid: bid.clone(),
        bidder,
    };
    let params = RevealBidParams {
        amount,
        salt: [bidder[0]; 32],
        proof: vec![1],
    };
    let result = reveal_bid::handler(&mut ctx, params, now);
    *auction = ctx.auction;
    *bid = ctx.bid;
    result
}

#[test]
fn end_to_end_second_price_with_tie() {
    let (config, mut stats) = platform(1_000);
    let seller_profile = new_profile(&config, &mut stats, key(10), 1_000);
    assert_eq!(seller_profile.reputation_score, 500);
    let (mut auction, escrow) = open_auction(&config, &mut stats, &seller_profile, 2_000);
    assert_eq!(auction.status, AuctionStatus::Active);
    assert_eq!(auction.end_time, 5_600);
    assert_eq!(auction.reveal_duration, 86_400);
    assert_eq!(escrow.status, EscrowStatus::Created);

    let mut pool = CollateralPool {
        authority: key(6),
        token_mint: key(9),
        token_account: key(7),
        total_collateral: 0,
        active_bids: 0,
        bump: 0,
    };
    let mut first = place_bid(&config, &mut stats, &mut auction, &mut pool, key(11), 50, 2_100);
    let mut second = place_bid(&config, &mut stats, &mut auction, &mut pool, key(12), 80, 2_200);
    let mut third = place_bid(&config, &mut stats, &mut auction, &mut pool, key(13), 80, 2_300);
    assert_eq!(auction.bid_count, 3);
    assert_eq!(pool.total_collateral, 300);
    assert_eq!(pool.active_bids, 3);
    assert_eq!(stats.total_bids, 3);

    let report = open_bid(&config, &mut auction, &mut first, 50, 5_600).unwrap();
    assert!(report.reveal_phase_started);
    assert_eq!(auction.status, AuctionStatus::Revealing);
    assert_eq!(auction.winner, Some(key(11)));
    assert_eq!(auction.winning_amount, Some(50));
    assert_eq!(auction.second_price, None);

    let report = open_bid(&config, &mut auction, &mut second, 80, 5_700).unwrap();
    assert!(!report.reveal_phase_started);
    assert_eq!(report.current_highest, 80);
    assert_eq!(auction.winner, Some(key(12)));
    assert_eq!(auction.second_price, Some(50));

    open_bid(&config, &mut auction, &mut third, 80, 5_800).unwrap();
    assert_eq!(auction.winner, Some(key(12)));
    assert_eq!(auction.winning_amount, Some(80));
    assert_eq!(auction.second_price, Some(80));
    assert_eq!(auction.revealed_count, 3);

    let again = open_bid(&config, &mut auction, &mut third, 80, 5_900);
    assert_eq!(again, Err(MarketError::Bid(BidError::BidAlreadyRevealed)));

    let mut settle = SettleAuction {
        config: config.clone(),
        stats,
        auction: auction.clone(),
        escrow,
        winner_bid: second.clone(),
        winner: key(12),
        has_nft_escrow: false,
        has_winner_nft_account: false,
    };
    let settled = settle_auction::handler(&mut settle, 5_600 + 86_400).unwrap();
    assert_eq!(settled.winner, key(12));
    assert_eq!(settled.winning_amount, 80);
    assert_eq!(settled.payment_amount, 80);
    assert_eq!(settled.platform_fee, 2);
    assert_eq!(settled.seller_receives, 78);
    assert_eq!(settled.security_level, EscrowSecurityLevel::Standard);
    assert!(!settled.transfers_token);
    assert_eq!(settle.auction.status, AuctionStatus::Settled);
    assert_eq!(settle.auction.second_price, Some(80));
    assert_eq!(settle.escrow.status, EscrowStatus::Funded);
    assert_eq!(settle.escrow.amount, 80);
    assert_eq!(settle.escrow.payer, Some(key(12)));
    assert_eq!(settle.stats.total_volume, 80);
    assert_eq!(settle.stats.total_fees, 2);

    let mut loser = ClaimRefund {
        config: config.clone(),
        auction: settle.auction.clone(),
        bid: first.clone(),
        collateral_pool: pool,
        bidder: key(11),
    };
    let refund = claim_refund::handler(&mut loser, 100_000).unwrap();
    assert_eq!(refund.refund_amount, 100);
    assert_eq!(refund.forfeited, 0);
    assert_eq!(refund.reason, RefundReason::Outbid);
    assert_eq!(loser.collateral_pool.total_collateral, 200);
    assert!(loser.bid.collateral_returned);
    assert_eq!(
        claim_refund::handler(&mut loser, 100_001),
        Err(MarketError::Bid(BidError::RefundAlreadyClaimed))
    );

    let mut winner = ClaimRefund {
        config: config.clone(),
        auction: settle.auction.clone(),
        bid: second.clone(),
        collateral_pool: loser.collateral_pool,
        bidder: key(12),
    };
    assert_eq!(
        claim_refund::handler(&mut winner, 100_002),
        Err(MarketError::Bid(BidError::WinnerCannotRefund))
    );
    assert_eq!(winner.collateral_pool.total_collateral, 200);

    let buyer_profile = new_profile(&config, &mut settle.stats, key(12), 100_000);
    settle.escrow.release_conditions.signatures_collected = 1;
    assert_eq!(settle.escrow.release_conditions.release_deadline, 92_000 + 86_400);
    let mut delivery = ConfirmDelivery {
        config: config.clone(),
        auction: settle.auction.clone(),
        escrow: settle.escrow.clone(),
        seller_profile,
        buyer_profile,
        buyer: key(12),
    };
    let params = ConfirmDeliveryParams {
        delivery_proof: vec![9],
        proof_hash: [3; 32],
        seller_rating: Some(45),
    };
    let early = ConfirmDeliveryParams {
        delivery_proof: vec![9],
        proof_hash: [3; 32],
        seller_rating: Some(45),
    };
    assert_eq!(
        confirm_delivery::handler(&mut delivery, early, 178_399),
        Err(MarketError::Escrow(EscrowError::TimeLockNotExpired))
    );
    assert_eq!(delivery.escrow.status, EscrowStatus::Funded);
    let confirmed = confirm_delivery::handler(&mut delivery, params, 178_400).unwrap();
    assert_eq!(confirmed.amount, 80);
    assert_eq!(confirmed.payout.platform_fee, 2);
    assert_eq!(confirmed.payout.beneficiary_receives, 78);
    assert_eq!(delivery.escrow.status, EscrowStatus::Released);
    assert_eq!(delivery.escrow.released_at, Some(178_400));
    assert_eq!(delivery.seller_profile.auctions_as_seller, 1);
    assert_eq!(delivery.seller_profile.successful_deliveries, 1);
    assert_eq!(delivery.seller_profile.average_rating, 45);
    assert_eq!(delivery.seller_profile.reputation_score, 780);
    assert_eq!(delivery.buyer_profile.auctions_as_buyer, 1);
    assert_eq!(delivery.buyer_profile.reputation_score, 500);
}
