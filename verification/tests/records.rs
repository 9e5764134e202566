use private_auction::address::{contains_address, is_address, same_address};
use private_auction::encoding::{append_bytes, array32_at};
use private_auction::errors::{AuctionError, DisputeError, EscrowError, RuntimeError};
use private_auction::instructions::submit_bid::compute_merkle_root;
use private_auction::state::auction::{
    AuctionState, AuctionStatus, CompressedAuctionState, ProductType,
};
use private_auction::state::bid::{BidCommitment, BidReveal, BidStatus, CompressedBidCommitment};
use private_auction::state::dispute::{
    dispute_payout, tally_outcome, ArbitratorRecord, Dispute, DisputeOutcome, DisputePayout,
    DisputeReason, DisputeStatus, Evidence, EvidenceType,
};
use private_auction::state::escrow::{
    confirmation_required, split_payment, time_lock_seconds, CollateralPool, EscrowAccount,
    EscrowSecurityLevel, EscrowStatus, Payout, ReleaseConditions,
};
use private_auction::state::product::{
    required_terms_present, Category, Condition, DigitalDelivery, LicenseType, ProductMetadata,
    ServiceDetails, ShippingOptions,
};
use private_auction::state::program_config::{ProgramConfig, ProgramStats};

fn key(tag: u8) -> [u8; 32] {
    [tag; 32]
}

fn auction_between(start: i64, end: i64, reveal: i64, status: AuctionStatus) -> AuctionState {
    AuctionState {
        start_time: start,
        end_time: end,
        reveal_duration: reveal,
        status,
        ..AuctionState::default()
    }
}

fn evidence(from: u8) -> Evidence {
    Evidence {
        submitter: key(from),
        evidence_type: EvidenceType::Photo,
        encrypted_data: [from; 64],
        submitted_at: 10,
        reviewed: false,
    }
}

fn open_dispute() -> Dispute {
    Dispute {
        buyer: key(1),
        seller: key(2),
        raised_by: key(1),
        amount: 1_000,
        opened_at: 100,
        evidence_deadline: 100 + Dispute::DEFAULT_EVIDENCE_PERIOD,
        resolution_deadline: 100 + Dispute::DEFAULT_RESOLUTION_PERIOD,
        ..Dispute::default()
    }
}

#[test]
fn addresses_compare_byte_by_byte() {
    let mut other = key(5);
    assert!(same_address(&key(5), &other));
    other[31] = 6;
    assert!(!same_address(&key(5), &other));
    assert!(is_address(&Some(key(5)), &key(5)));
    assert!(!is_address(&Some(other), &key(5)));
    assert!(!is_address(&None, &key(5)));
    let list = vec![key(1), key(2), key(3)];
    assert!(contains_address(&list, &key(3)));
    assert!(!contains_address(&list, &key(4)));
    assert!(!contains_address(&vec![], &key(1)));
}

#[test]
fn byte_helpers_copy_in_order() {
    let mut out = vec![9u8];
    append_bytes(&mut out, &[1, 2, 3]);
    append_bytes(&mut out, &[]);
    assert_eq!(out, vec![9, 1, 2, 3]);
    let mut source = vec![0u8; 40];
    for (i, byte) in source.iter_mut().enumerate() {
        *byte = i as u8;
    }
    let field = array32_at(&source, 8);
    assert_eq!(field[0], 8);
    assert_eq!(field[31], 39);
}

#[test]
fn enum_defaults_and_codes() {
    assert_eq!(AuctionStatus::default(), AuctionStatus::Active);
    assert_eq!(ProductType::default(), ProductType::Nft);
    assert_eq!(BidStatus::default(), BidStatus::Committed);
    assert_eq!(DisputeReason::default(), DisputeReason::Other);
    assert_eq!(DisputeStatus::default(), DisputeStatus::Opened);
    assert_eq!(EvidenceType::default(), EvidenceType::Other);
    assert_eq!(EscrowSecurityLevel::default(), EscrowSecurityLevel::Standard);
    assert_eq!(EscrowStatus::default(), EscrowStatus::Created);
    assert_eq!(Category::default(), Category::Other);
    assert_eq!(Condition::default(), Condition::New);
    assert_eq!(LicenseType::default(), LicenseType::Personal);
    assert_eq!(AuctionStatus::Disputed.to_code(), 5);
    assert_eq!(AuctionStatus::Expired.to_code(), AuctionStatus::Expired as u8);
    assert_eq!(ProductType::Service.to_code(), 3);
    assert_eq!(ProductType::Digital.to_code(), ProductType::Digital as u8);
}

#[test]
fn blank_records() {
    let auction = AuctionState::default();
    assert_eq!(auction.status, AuctionStatus::Active);
    assert_eq!(auction.winner, None);
    assert_eq!(auction._reserved, [0u8; 64]);
    let escrow = EscrowAccount::default();
    assert_eq!(escrow.status, EscrowStatus::Created);
    assert_eq!(escrow.release_conditions, ReleaseConditions::default());
    let dispute = Dispute::default();
    assert_eq!(dispute.status, DisputeStatus::Opened);
    assert!(dispute.buyer_evidence.is_empty());
    assert_eq!(dispute.description_encrypted, [0u8; 256]);
    assert_eq!(BidCommitment::default().revealed_amount, None);
    assert_eq!(CollateralPool::default().total_collateral, 0);
    assert_eq!(ArbitratorRecord::default().max_cases, 0);
    assert_eq!(ProgramStats::default().total_bids, 0);
    assert!(!ProgramConfig::default().paused);
    assert_eq!(ProductMetadata::default().title, "");
}

#[test]
fn bidding_window_is_half_open() {
    let auction = auction_between(100, 200, 50, AuctionStatus::Active);
    assert!(auction.is_active());
    assert!(!auction.is_revealing());
    assert!(!auction.can_accept_bids(99));
    assert!(auction.can_accept_bids(100));
    assert!(auction.can_accept_bids(199));
    assert!(!auction.can_accept_bids(200));
    let revealing = auction_between(100, 200, 50, AuctionStatus::Revealing);
    assert!(!revealing.can_accept_bids(150));
}

#[test]
fn reveal_window_and_settlement() {
    let auction = auction_between(100, 200, 50, AuctionStatus::Revealing);
    assert!(auction.is_revealing());
    assert_eq!(auction.reveal_deadline(), 250);
    assert!(!auction.can_reveal_bids(199));
    assert!(auction.can_reveal_bids(200));
    assert!(auction.can_reveal_bids(249));
    assert!(!auction.can_reveal_bids(250));
    assert!(!auction.can_settle(249));
    assert!(auction.can_settle(250));
    let active = auction_between(100, 200, 50, AuctionStatus::Active);
    assert!(!active.can_reveal_bids(210));
    assert!(!active.can_settle(300));
}

#[test]
fn windows_near_the_end_of_time() {
    let auction = auction_between(0, i64::MAX, i64::MAX, AuctionStatus::Revealing);
    assert!(auction.can_reveal_bids(i64::MAX));
    assert!(!auction.can_settle(i64::MAX));
}

#[test]
fn logical_phase_follows_the_clock() {
    let mut with_bids = auction_between(100, 200, 50, AuctionStatus::Active);
    with_bids.bid_count = 2;
    assert_eq!(with_bids.logical_status(199), AuctionStatus::Active);
    assert_eq!(with_bids.logical_status(200), AuctionStatus::Revealing);
    assert_eq!(with_bids.logical_status(250), AuctionStatus::Expired);
    let without_bids = auction_between(100, 200, 50, AuctionStatus::Active);
    assert_eq!(without_bids.logical_status(199), AuctionStatus::Active);
    assert_eq!(without_bids.logical_status(200), AuctionStatus::Expired);
    let mut revealing = auction_between(100, 200, 50, AuctionStatus::Revealing);
    revealing.bid_count = 2;
    assert_eq!(revealing.logical_status(249), AuctionStatus::Revealing);
    assert_eq!(revealing.logical_status(250), AuctionStatus::Expired);
    revealing.revealed_count = 1;
    revealing.winner = Some(key(1));
    revealing.winning_amount = Some(5);
    assert_eq!(revealing.logical_status(250), AuctionStatus::Revealing);
    let settled = auction_between(100, 200, 50, AuctionStatus::Settled);
    assert_eq!(settled.logical_status(1_000), AuctionStatus::Settled);
    let mut stale = without_bids.clone();
    stale.refresh(500);
    assert_eq!(stale.status, AuctionStatus::Expired);
    assert_eq!(stale.end_time, 200);
}

#[test]
fn standing_tracks_the_two_highest() {
    let mut auction = AuctionState::default();
    auction.record_reveal(key(1), 50);
    assert_eq!(
        (auction.winner, auction.winning_amount, auction.second_price),
        (Some(key(1)), Some(50), None)
    );
    auction.record_reveal(key(2), 80);
    assert_eq!(
        (auction.winner, auction.winning_amount, auction.second_price),
        (Some(key(2)), Some(80), Some(50))
    );
    auction.record_reveal(key(3), 80);
    assert_eq!(
        (auction.winner, auction.winning_amount, auction.second_price),
        (Some(key(2)), Some(80), Some(80))
    );
    auction.record_reveal(key(4), 10);
    assert_eq!(
        (auction.winner, auction.winning_amount, auction.second_price),
        (Some(key(2)), Some(80), Some(80))
    );
    auction.record_reveal(key(5), 90);
    assert_eq!(
        (auction.winner, auction.winning_amount, auction.second_price),
        (Some(key(5)), Some(90), Some(80))
    );
}

#[test]
fn standing_is_the_same_in_every_order() {
    let amounts = [30u64, 70, 70, 10, 0, 55];
    let orders: [[usize; 6]; 5] = [
        [0, 1, 2, 3, 4, 5],
        [5, 4, 3, 2, 1, 0],
        [2, 0, 4, 1, 5, 3],
        [4, 3, 0, 5, 2, 1],
        [1, 2, 5, 0, 3, 4],
    ];
    for order in orders.iter() {
        let mut auction = AuctionState::default();
        for &i in order.iter() {
            auction.record_reveal(key(i as u8), amounts[i]);
        }
        assert_eq!(auction.winning_amount, Some(70));
        assert_eq!(auction.second_price, Some(70));
    }
}

#[test]
fn zero_amounts_count_as_bids() {
    let mut auction = AuctionState::default();
    auction.record_reveal(key(1), 0);
    assert_eq!(
        (auction.winner, auction.winning_amount, auction.second_price),
        (Some(key(1)), Some(0), None)
    );
    auction.record_reveal(key(2), 0);
    assert_eq!(
        (auction.winner, auction.winning_amount, auction.second_price),
        (Some(key(1)), Some(0), Some(0))
    );
    let mut other = AuctionState::default();
    other.record_reveal(key(1), 5);
    other.record_reveal(key(2), 0);
    assert_eq!(
        (other.winner, other.winning_amount, other.second_price),
        (Some(key(1)), Some(5), Some(0))
    );
}

#[test]
fn compact_auction_record() {
    let mut auction = auction_between(5, 9, 3, AuctionStatus::Settled);
    auction.auction_id = key(1);
    auction.seller = key(2);
    auction.product_type = ProductType::Physical;
    auction.reserve_price_hash = key(3);
    auction.bid_count = 4;
    auction.bid_merkle_root = key(6);
    let compact = CompressedAuctionState::from_auction_state(&auction);
    assert_eq!(
        compact,
        CompressedAuctionState {
            auction_id: key(1),
            seller: key(2),
            product_type: 1,
            reserve_price_hash: key(3),
            start_time: 5,
            end_time: 9,
            reveal_duration: 3,
            status: 2,
            bid_count: 4,
            bid_merkle_root: key(6),
        }
    );
}

#[test]
fn bid_is_revealed_once_marked() {
    let mut bid = BidCommitment::default();
    assert!(bid.can_reveal());
    bid.reveal_amount(77);
    assert!(!bid.can_reveal());
    assert!(bid.revealed);
    assert_eq!(bid.revealed_amount, Some(77));
}

#[test]
fn compact_bid_encoding_layout() {
    let record = CompressedBidCommitment {
        bid_id: key(1),
        auction_id: key(2),
        commitment_hash: key(3),
        timestamp: -2,
        revealed: true,
    };
    let bytes = record.to_bytes();
    assert_eq!(bytes.len(), CompressedBidCommitment::SERIALIZED_SIZE);
    assert_eq!(bytes.len(), 105);
    assert_eq!(&bytes[0..32], &key(1)[..]);
    assert_eq!(&bytes[32..64], &key(2)[..]);
    assert_eq!(&bytes[64..96], &key(3)[..]);
    assert_eq!(&bytes[96..], &[254, 255, 255, 255, 255, 255, 255, 255, 1][..]);
    let sealed = CompressedBidCommitment {
        timestamp: 0x0102_0304_0506_0708,
        revealed: false,
        ..record.clone()
    };
    assert_eq!(&sealed.to_bytes()[96..], &[8, 7, 6, 5, 4, 3, 2, 1, 0][..]);
}

#[test]
fn compact_bid_round_trip() {
    for (timestamp, revealed) in [(0i64, false), (1_700_000_000, true), (i64::MIN, false), (i64::MAX, true)] {
        let record = CompressedBidCommitment {
            bid_id: key(9),
            auction_id: key(8),
            commitment_hash: key(7),
            timestamp,
            revealed,
        };
        assert_eq!(CompressedBidCommitment::from_bytes(&record.to_bytes()), Ok(record));
    }
}

#[test]
fn compact_bid_decoding_edges() {
    assert_eq!(
        CompressedBidCommitment::from_bytes(&[0u8; 104]),
        Err(RuntimeError::AccountDidNotDeserialize)
    );
    assert_eq!(
        CompressedBidCommitment::from_bytes(&[]),
        Err(RuntimeError::AccountDidNotDeserialize)
    );
    let mut long = vec![0u8; 120];
    long[104] = 7;
    long[105] = 99;
    let decoded = CompressedBidCommitment::from_bytes(&long).unwrap();
    assert!(decoded.revealed);
    assert_eq!(decoded.timestamp, 0);
    assert_eq!(decoded.bid_id, [0u8; 32]);
}

#[test]
fn commitment_is_the_keccak_digest() {
    let digest = BidReveal::compute_commitment(80, &[7; 32], &key(12));
    assert_eq!(
        digest,
        [
            216, 208, 36, 16, 97, 233, 38, 128, 60, 145, 78, 57, 218, 41, 179, 3, 131, 255, 130,
            162, 101, 46, 217, 135, 84, 227, 85, 205, 164, 22, 63, 135
        ]
    );
    let zero = BidReveal::compute_commitment(0, &[0; 32], &[0; 32]);
    assert_eq!(
        zero,
        [
            60, 172, 49, 121, 8, 198, 153, 254, 135, 58, 127, 110, 228, 232, 205, 99, 251, 233,
            145, 139, 35, 21, 201, 123, 233, 21, 133, 89, 1, 104, 227, 1
        ]
    );
}

#[test]
fn reveal_opens_only_its_own_commitment() {
    let commitment = BidReveal::compute_commitment(80, &[7; 32], &key(12));
    let reveal = BidReveal { amount: 80, salt: [7; 32], proof: vec![1] };
    assert!(reveal.verify_commitment(&commitment, &key(12)));
    assert!(!reveal.verify_commitment(&commitment, &key(13)));
    let other_amount = BidReveal { amount: 81, salt: [7; 32], proof: vec![1] };
    assert!(!other_amount.verify_commitment(&commitment, &key(12)));
    let other_salt = BidReveal { amount: 80, salt: [8; 32], proof: vec![1] };
    assert!(!other_salt.verify_commitment(&commitment, &key(12)));
}

#[test]
fn merkle_root_is_the_digest_of_the_compact_bid() {
    let record = CompressedBidCommitment {
        bid_id: key(1),
        auction_id: key(2),
        commitment_hash: key(3),
        timestamp: 1000,
        revealed: false,
    };
    assert_eq!(
        compute_merkle_root(&record),
        [
            140, 192, 99, 212, 255, 164, 140, 127, 206, 101, 212, 3, 174, 17, 103, 7, 32, 205,
            156, 107, 198, 181, 65, 48, 114, 164, 215, 200, 79, 55, 232, 221
        ]
    );
}

#[test]
fn security_level_tiers() {
    assert_eq!(EscrowAccount::determine_security_level(0), EscrowSecurityLevel::Standard);
    assert_eq!(EscrowAccount::determine_security_level(100_000), EscrowSecurityLevel::Standard);
    assert_eq!(EscrowAccount::determine_security_level(100_001), EscrowSecurityLevel::Enhanced);
    assert_eq!(EscrowAccount::determine_security_level(1_000_000), EscrowSecurityLevel::Enhanced);
    assert_eq!(EscrowAccount::determine_security_level(1_000_001), EscrowSecurityLevel::Maximum);
    assert_eq!(EscrowAccount::determine_security_level(u64::MAX), EscrowSecurityLevel::Maximum);
}

#[test]
fn release_terms_by_product_type() {
    assert_eq!(time_lock_seconds(ProductType::Nft), 0);
    assert_eq!(time_lock_seconds(ProductType::Physical), 30 * 24 * 60 * 60);
    assert_eq!(time_lock_seconds(ProductType::Digital), 24 * 60 * 60);
    assert_eq!(time_lock_seconds(ProductType::Service), 14 * 24 * 60 * 60);
    assert!(!confirmation_required(ProductType::Nft));
    assert!(confirmation_required(ProductType::Physical));
    assert!(!confirmation_required(ProductType::Digital));
    assert!(confirmation_required(ProductType::Service));
}

#[test]
fn payment_splits_without_remainder() {
    assert_eq!(split_payment(80, 250), Payout { platform_fee: 2, beneficiary_receives: 78 });
    assert_eq!(split_payment(10_000, 250), Payout { platform_fee: 250, beneficiary_receives: 9_750 });
    assert_eq!(split_payment(39, 250), Payout { platform_fee: 0, beneficiary_receives: 39 });
    assert_eq!(split_payment(0, 1000), Payout { platform_fee: 0, beneficiary_receives: 0 });
    assert_eq!(split_payment(1_000, 10_000), Payout { platform_fee: 1_000, beneficiary_receives: 0 });
    let large = split_payment(u64::MAX, 1000);
    assert_eq!(large.platform_fee, 1_844_674_407_370_955_161);
    assert_eq!(large.platform_fee + large.beneficiary_receives, u64::MAX);
}

#[test]
fn funding_sets_amount_and_conditions() {
    let mut escrow = EscrowAccount { beneficiary: key(2), ..EscrowAccount::default() };
    assert_eq!(escrow.fund(500_000, key(1), ProductType::Physical, 1_000), Ok(()));
    assert_eq!(escrow.status, EscrowStatus::Funded);
    assert_eq!(escrow.amount, 500_000);
    assert_eq!(escrow.payer, Some(key(1)));
    assert_eq!(escrow.security_level, EscrowSecurityLevel::Enhanced);
    assert!(escrow.release_conditions.requires_delivery_confirmation);
    assert_eq!(escrow.release_conditions.time_lock_duration, 2_592_000);
    assert_eq!(escrow.release_conditions.release_deadline, 2_593_000);
    assert_eq!(escrow.release_conditions.multi_sig_threshold, 1);
    let before = escrow.clone();
    assert_eq!(
        escrow.fund(1, key(3), ProductType::Nft, 2_000),
        Err(EscrowError::AlreadyFunded)
    );
    assert_eq!(escrow, before);
    let mut released = EscrowAccount { status: EscrowStatus::Released, ..EscrowAccount::default() };
    assert_eq!(
        released.fund(1, key(3), ProductType::Nft, 2_000),
        Err(EscrowError::InvalidEscrowState)
    );
    let mut token = EscrowAccount::default();
    assert_eq!(token.fund(7, key(1), ProductType::Nft, 50), Ok(()));
    assert!(!token.release_conditions.requires_delivery_confirmation);
    assert_eq!(token.release_conditions.release_deadline, 50);
}

#[test]
fn release_conditions_in_order() {
    let mut escrow = EscrowAccount::default();
    assert!(!escrow.can_release(0));
    assert_eq!(escrow.release(250, true, 0), Err(EscrowError::InvalidEscrowState));
    escrow.fund(80, key(1), ProductType::Service, 1_000).unwrap();
    let deadline = 1_000 + 1_209_600;
    assert!(!escrow.can_release(deadline - 1));
    assert_eq!(
        escrow.release(250, true, deadline - 1),
        Err(EscrowError::TimeLockNotExpired)
    );
    assert!(!escrow.can_release(deadline));
    assert_eq!(
        escrow.release(250, true, deadline),
        Err(EscrowError::InsufficientSignatures)
    );
    escrow.release_conditions.signers = vec![key(7)];
    assert_eq!(escrow.add_signature(&key(8)), Err(RuntimeError::ConstraintOwner));
    assert_eq!(escrow.release_conditions.signatures_collected, 0);
    assert_eq!(escrow.add_signature(&key(7)), Ok(()));
    assert_eq!(escrow.release_conditions.signatures_collected, 1);
    assert!(escrow.can_release(deadline));
    assert_eq!(
        escrow.release(250, false, deadline),
        Err(EscrowError::DeliveryNotConfirmed)
    );
    assert_eq!(escrow.status, EscrowStatus::Funded);
    assert_eq!(
        escrow.release(250, true, deadline),
        Ok(Payout { platform_fee: 2, beneficiary_receives: 78 })
    );
    assert_eq!(escrow.status, EscrowStatus::Released);
    assert_eq!(escrow.released_at, Some(deadline));
    assert_eq!(escrow.amount, 80);
    assert_eq!(escrow.release(250, true, deadline), Err(EscrowError::InvalidEscrowState));
}

#[test]
fn signature_count_has_a_limit() {
    let mut escrow = EscrowAccount::default();
    escrow.release_conditions.signers = vec![key(7)];
    escrow.release_conditions.signatures_collected = 255;
    assert_eq!(escrow.add_signature(&key(7)), Err(RuntimeError::ArithmeticOverflow));
    assert_eq!(escrow.release_conditions.signatures_collected, 255);
}

#[test]
fn digital_goods_release_without_confirmation() {
    let mut escrow = EscrowAccount::default();
    escrow.fund(1_000, key(1), ProductType::Digital, 0).unwrap();
    escrow.release_conditions.signatures_collected = 1;
    assert_eq!(escrow.release(0, false, 86_399), Err(EscrowError::TimeLockNotExpired));
    assert_eq!(
        escrow.release(0, false, 86_400),
        Ok(Payout { platform_fee: 0, beneficiary_receives: 1_000 })
    );
}

#[test]
fn refund_and_dispute_lock() {
    let mut escrow = EscrowAccount::default();
    assert_eq!(escrow.refund(5), Err(EscrowError::InvalidEscrowState));
    assert_eq!(escrow.lock_for_dispute(), Err(EscrowError::InvalidEscrowState));
    assert_eq!(escrow.unlock_from_dispute(), Err(EscrowError::InvalidEscrowState));
    escrow.fund(300, key(1), ProductType::Nft, 0).unwrap();
    assert_eq!(escrow.lock_for_dispute(), Ok(()));
    assert_eq!(escrow.status, EscrowStatus::Disputed);
    assert_eq!(escrow.lock_for_dispute(), Err(EscrowError::InvalidEscrowState));
    assert_eq!(escrow.unlock_from_dispute(), Ok(()));
    assert_eq!(escrow.status, EscrowStatus::Funded);
    escrow.lock_for_dispute().unwrap();
    assert_eq!(escrow.refund(9), Ok(300));
    assert_eq!(escrow.status, EscrowStatus::Refunded);
    assert_eq!(escrow.released_at, Some(9));
    assert_eq!(escrow.refund(10), Err(EscrowError::InvalidEscrowState));
    let mut funded = EscrowAccount::default();
    funded.fund(40, key(1), ProductType::Nft, 0).unwrap();
    assert_eq!(funded.refund(1), Ok(40));
}

#[test]
fn collateral_pool_accounting() {
    let mut pool = CollateralPool::default();
    pool.deposit(100);
    pool.deposit(250);
    assert_eq!((pool.total_collateral, pool.active_bids), (350, 2));
    assert_eq!(pool.withdraw(351), Err(RuntimeError::InsufficientFunds));
    assert_eq!((pool.total_collateral, pool.active_bids), (350, 2));
    assert_eq!(pool.withdraw(100), Ok(()));
    assert_eq!(pool.withdraw(250), Ok(()));
    assert_eq!((pool.total_collateral, pool.active_bids), (0, 0));
    assert_eq!(pool.withdraw(0), Ok(()));
    assert_eq!((pool.total_collateral, pool.active_bids), (0, 0));
}

#[test]
fn tally_decides_the_outcome() {
    assert_eq!(tally_outcome(1, 1), DisputeOutcome::SplitFault);
    assert_eq!(tally_outcome(2, 0), DisputeOutcome::FullRefund);
    assert_eq!(tally_outcome(0, 2), DisputeOutcome::ReleaseToSeller);
    assert_eq!(tally_outcome(0, 0), DisputeOutcome::SplitFault);
    assert_eq!(tally_outcome(255, 254), DisputeOutcome::FullRefund);
    let dispute = Dispute { votes_for_buyer: 1, votes_for_seller: 2, votes_collected: 3, ..open_dispute() };
    assert_eq!(dispute.determine_outcome(), DisputeOutcome::ReleaseToSeller);
}

#[test]
fn dispute_payouts_conserve_the_amount() {
    assert_eq!(
        dispute_payout(DisputeOutcome::FullRefund, 1_000, 250),
        DisputePayout { fee_taken: 0, buyer_portion: 1_000, seller_portion: 0 }
    );
    assert_eq!(
        dispute_payout(DisputeOutcome::ReturnForRefund, 1_000, 250),
        DisputePayout { fee_taken: 0, buyer_portion: 1_000, seller_portion: 0 }
    );
    assert_eq!(
        dispute_payout(DisputeOutcome::ReleaseToSeller, 1_000, 250),
        DisputePayout { fee_taken: 25, buyer_portion: 0, seller_portion: 975 }
    );
    assert_eq!(
        dispute_payout(DisputeOutcome::SplitFault, 1_000, 250),
        DisputePayout { fee_taken: 25, buyer_portion: 487, seller_portion: 488 }
    );
    assert_eq!(
        dispute_payout(DisputeOutcome::SplitFault, 80, 250),
        DisputePayout { fee_taken: 2, buyer_portion: 39, seller_portion: 39 }
    );
    assert_eq!(
        dispute_payout(DisputeOutcome::PartialRefund { percentage: 30 }, 1_000, 250),
        DisputePayout { fee_taken: 25, buyer_portion: 292, seller_portion: 683 }
    );
    assert_eq!(
        dispute_payout(DisputeOutcome::PartialRefund { percentage: 200 }, 1_000, 250),
        DisputePayout { fee_taken: 25, buyer_portion: 975, seller_portion: 0 }
    );
    for outcome in [
        DisputeOutcome::FullRefund,
        DisputeOutcome::ReleaseToSeller,
        DisputeOutcome::SplitFault,
        DisputeOutcome::ReturnForRefund,
        DisputeOutcome::PartialRefund { percentage: 33 },
    ] {
        for amount in [0u64, 1, 3, 999, u64::MAX] {
            let payout = dispute_payout(outcome, amount, 1000);
            assert_eq!(
                payout.fee_taken as u128 + payout.buyer_portion as u128 + payout.seller_portion as u128,
                amount as u128
            );
        }
    }
}

#[test]
fn evidence_goes_to_its_party() {
    let mut dispute = open_dispute();
    assert!(dispute.can_submit_evidence(100));
    assert_eq!(dispute.add_evidence(evidence(1), true, 150), Ok(()));
    assert_eq!(dispute.status, DisputeStatus::EvidenceSubmitted);
    assert_eq!(dispute.last_activity, 150);
    assert_eq!(dispute.buyer_evidence, vec![evidence(1)]);
    assert!(dispute.seller_evidence.is_empty());
    assert_eq!(dispute.add_evidence(evidence(2), false, 160), Ok(()));
    assert_eq!(dispute.seller_evidence, vec![evidence(2)]);
    assert_eq!(dispute.status, DisputeStatus::EvidenceSubmitted);
    assert!(!dispute.can_submit_evidence(161));
}

#[test]
fn evidence_lists_are_bounded() {
    let mut dispute = open_dispute();
    for _ in 0..Dispute::MAX_EVIDENCE_PER_PARTY {
        dispute.status = DisputeStatus::Opened;
        assert_eq!(dispute.add_evidence(evidence(1), true, 150), Ok(()));
    }
    let before = dispute.clone();
    assert_eq!(
        dispute.add_evidence(evidence(1), true, 151),
        Err(DisputeError::MaxEvidenceReached)
    );
    assert_eq!(dispute, before);
    assert_eq!(dispute.add_evidence(evidence(2), false, 152), Ok(()));
    assert_eq!(dispute.buyer_evidence.len(), 10);
    assert_eq!(dispute.seller_evidence.len(), 1);
}

#[test]
fn evidence_submission_rules() {
    let deadline = 100 + 7 * 24 * 60 * 60;
    let mut dispute = open_dispute();
    assert_eq!(
        dispute.submit_evidence(&key(3), evidence(3), 150),
        Err(DisputeError::NotAParty)
    );
    assert_eq!(
        dispute.submit_evidence(&key(1), evidence(1), deadline),
        Err(DisputeError::EvidenceDeadlinePassed)
    );
    assert_eq!(dispute.submit_evidence(&key(2), evidence(2), deadline - 1), Ok(()));
    assert_eq!(dispute.seller_evidence, vec![evidence(2)]);
    assert_eq!(dispute.status, DisputeStatus::EvidenceSubmitted);
    assert_eq!(
        dispute.submit_evidence(&key(1), evidence(1), 200),
        Err(DisputeError::CannotSubmitEvidence)
    );
    dispute.status = DisputeStatus::AwaitingInfo;
    assert!(dispute.can_submit_evidence(200));
    assert_eq!(dispute.submit_evidence(&key(1), evidence(1), 200), Ok(()));
    assert_eq!(dispute.status, DisputeStatus::AwaitingInfo);
    assert_eq!(dispute.buyer_evidence, vec![evidence(1)]);
    for _ in 0..9 {
        dispute.submit_evidence(&key(1), evidence(1), 201).unwrap();
    }
    assert_eq!(
        dispute.submit_evidence(&key(1), evidence(1), 202),
        Err(DisputeError::MaxEvidenceReached)
    );
}

#[test]
fn votes_and_quorum() {
    let mut dispute = open_dispute();
    dispute.status = DisputeStatus::UnderReview;
    assert!(!dispute.can_resolve(0));
    dispute.record_vote(true);
    assert_eq!(
        (dispute.votes_collected, dispute.votes_for_buyer, dispute.votes_for_seller),
        (1, 1, 0)
    );
    assert!(!dispute.can_resolve(0));
    dispute.record_vote(false);
    assert_eq!(
        (dispute.votes_collected, dispute.votes_for_buyer, dispute.votes_for_seller),
        (2, 1, 1)
    );
    assert!(dispute.can_resolve(0));
    dispute.status = DisputeStatus::Opened;
    assert!(!dispute.can_resolve(0));
}

#[test]
fn resolving_sets_status_by_outcome() {
    let cases = [
        (DisputeOutcome::FullRefund, DisputeStatus::ResolvedBuyer),
        (DisputeOutcome::ReleaseToSeller, DisputeStatus::ResolvedSeller),
        (DisputeOutcome::SplitFault, DisputeStatus::ResolvedPartial),
        (DisputeOutcome::PartialRefund { percentage: 10 }, DisputeStatus::ResolvedPartial),
        (DisputeOutcome::ReturnForRefund, DisputeStatus::ResolvedBuyer),
    ];
    for (outcome, status) in cases {
        let mut dispute = open_dispute();
        dispute.resolve(outcome, Some(5), 999);
        assert_eq!(dispute.outcome, Some(outcome));
        assert_eq!(dispute.status, status);
        assert_eq!(dispute.refund_amount, Some(5));
        assert_eq!(dispute.resolved_at, Some(999));
    }
}

#[test]
fn arbitrator_case_load() {
    let mut record = ArbitratorRecord { active: true, max_cases: 2, ..ArbitratorRecord::default() };
    assert!(record.can_take_case());
    record.assign_case(10);
    record.assign_case(11);
    assert_eq!((record.active_cases, record.cases_handled, record.last_activity), (2, 2, 11));
    assert!(!record.can_take_case());
    assert!(record.fits_completion(100, 5));
    record.complete_case(100, 5, 20);
    assert_eq!(record.avg_resolution_time, 100);
    record.complete_case(201, 7, 30);
    assert_eq!(record.avg_resolution_time, 150);
    assert_eq!((record.active_cases, record.cases_resolved, record.fees_earned), (0, 2, 12));
    record.complete_case(0, 0, 40);
    assert_eq!(record.avg_resolution_time, 100);
    assert_eq!((record.active_cases, record.cases_resolved), (0, 3));
    assert_eq!(record.last_activity, 40);
    let idle = ArbitratorRecord { active: false, max_cases: 2, ..ArbitratorRecord::default() };
    assert!(!idle.can_take_case());
}

#[test]
fn arbitrator_completion_limits() {
    let full = ArbitratorRecord { fees_earned: u64::MAX, ..ArbitratorRecord::default() };
    assert!(!full.fits_completion(0, 1));
    assert!(full.fits_completion(0, 0));
    let busy = ArbitratorRecord { cases_resolved: u32::MAX, ..ArbitratorRecord::default() };
    assert!(!busy.fits_completion(0, 0));
    let slow = ArbitratorRecord {
        avg_resolution_time: u64::MAX / 2,
        cases_resolved: 2,
        ..ArbitratorRecord::default()
    };
    assert!(slow.fits_completion(1, 0));
    assert!(!slow.fits_completion(2, 0));
}

#[test]
fn arbitrator_rating_average() {
    let mut record = ArbitratorRecord::default();
    record.update_rating(40);
    assert_eq!((record.rating, record.rating_count), (40, 1));
    record.update_rating(45);
    assert_eq!((record.rating, record.rating_count), (42, 2));
    record.update_rating(255);
    assert_eq!((record.rating, record.rating_count), (113, 3));
}

#[test]
fn product_terms_by_type() {
    assert!(required_terms_present(ProductType::Nft, true, true, false, false, false));
    assert!(!required_terms_present(ProductType::Nft, true, false, true, true, true));
    assert!(!required_terms_present(ProductType::Nft, false, true, true, true, true));
    assert!(required_terms_present(ProductType::Physical, false, false, true, false, false));
    assert!(!required_terms_present(ProductType::Physical, true, true, false, true, true));
    assert!(required_terms_present(ProductType::Digital, false, false, false, true, false));
    assert!(!required_terms_present(ProductType::Digital, true, true, true, false, true));
    assert!(required_terms_present(ProductType::Service, false, false, false, false, true));
    assert!(!required_terms_present(ProductType::Service, true, true, true, true, false));
}

#[test]
fn product_terms_defaults() {
    let shipping = ShippingOptions::default();
    assert!(shipping.domestic);
    assert!(!shipping.international);
    assert_eq!(shipping.estimated_days, 7);
    assert_eq!(shipping.ships_from, "US");
    assert!(shipping.carriers.is_empty());
    let digital = DigitalDelivery::default();
    assert_eq!(digital.max_downloads, 3);
    assert_eq!(digital.license_type, LicenseType::Personal);
    assert_eq!(digital.format, "");
    let service = ServiceDetails::default();
    assert_eq!(service.duration_hours, 1);
    assert!(service.remote);
}

#[test]
fn product_description_limits() {
    let mut product = ProductMetadata::default();
    product.title = "a".repeat(100);
    product.description = "b".repeat(500);
    product.images = vec![String::from("i"); 10];
    assert_eq!(product.validate(), Ok(()));
    product.title.push('a');
    assert_eq!(product.validate(), Err(RuntimeError::AccountDidNotSerialize));
    product.title = "é".repeat(50);
    assert_eq!(product.validate(), Ok(()));
    product.title = "é".repeat(51);
    assert_eq!(product.validate(), Err(RuntimeError::AccountDidNotSerialize));
    product.title = String::new();
    product.description.push('b');
    assert_eq!(product.validate(), Err(RuntimeError::AccountDidNotSerialize));
    product.description = String::new();
    product.images.push(String::from("i"));
    assert_eq!(product.validate(), Err(RuntimeError::AccountDidNotSerialize));
}

#[test]
fn production_defaults() {
    let config = ProgramConfig::default_production();
    assert_eq!(config.platform_fee_bps, 250);
    assert_eq!(config.min_auction_duration, 3600);
    assert_eq!(config.max_auction_duration, 2_592_000);
    assert_eq!(config.default_reveal_duration, 86_400);
    assert_eq!(config.min_bid_collateral, 1_000_000);
    assert_eq!(config.max_bid_collateral, 1_000_000_000);
    assert_eq!(config.min_seller_reputation, 300);
    assert_eq!(config.min_high_value_reputation, 700);
    assert_eq!(config.high_value_threshold, 1_000_000);
    assert!(!config.paused);
    assert_eq!(config.version, 1);
    assert!(config.supported_mints.is_empty());
    assert!(config.arbitrators.is_empty());
    assert_eq!(config.authority, [0u8; 32]);
    assert!(config.is_well_formed());
    assert!(!ProgramConfig::default().is_well_formed());
}

#[test]
fn config_lists_and_fee() {
    let mut config = ProgramConfig::default_production();
    config.supported_mints = vec![key(1), key(2)];
    config.arbitrators = vec![key(3)];
    assert!(config.is_mint_supported(&key(2)));
    assert!(!config.is_mint_supported(&key(3)));
    assert!(config.is_arbitrator(&key(3)));
    assert!(!config.is_arbitrator(&key(1)));
    assert_eq!(config.calculate_fee(80), 2);
    assert_eq!(config.calculate_fee(10_000), 250);
    assert_eq!(config.calculate_fee(39), 0);
    assert_eq!(config.calculate_fee(40), 1);
    assert_eq!(config.calculate_fee(u64::MAX), 461_168_601_842_738_790);
    config.supported_mints = vec![key(1); 11];
    assert!(!config.is_well_formed());
}

#[test]
fn auction_parameter_bounds() {
    let config = ProgramConfig::default_production();
    assert_eq!(config.validate_auction_params(3600, 1_000_000), Ok(()));
    assert_eq!(config.validate_auction_params(2_592_000, 1_000_000_000), Ok(()));
    assert_eq!(
        config.validate_auction_params(3599, 1_000_000),
        Err(AuctionError::DurationTooShort)
    );
    assert_eq!(
        config.validate_auction_params(2_592_001, 1_000_000),
        Err(AuctionError::DurationTooLong)
    );
    assert_eq!(
        config.validate_auction_params(3600, 999_999),
        Err(AuctionError::CollateralTooLow)
    );
    assert_eq!(
        config.validate_auction_params(3600, 1_000_000_001),
        Err(AuctionError::CollateralTooHigh)
    );
    assert_eq!(config.validate_auction_params(0, 0), Err(AuctionError::DurationTooShort));
}

#[test]
fn platform_counters() {
    let mut stats = ProgramStats::default();
    stats.auction_created(1);
    stats.auction_created(2);
    assert_eq!((stats.total_auctions, stats.active_auctions, stats.last_updated), (2, 2, 2));
    stats.auction_completed(500, 12, 3);
    assert_eq!((stats.active_auctions, stats.total_volume, stats.total_fees), (1, 500, 12));
    stats.auction_completed(1, 1, 4);
    stats.auction_completed(1, 1, 5);
    assert_eq!((stats.active_auctions, stats.total_volume, stats.total_fees), (0, 502, 14));
    stats.bid_placed(6);
    stats.user_registered(7);
    stats.dispute_raised(8);
    stats.dispute_resolved(9);
    assert_eq!(
        (stats.total_bids, stats.total_users, stats.total_disputes, stats.disputes_resolved),
        (1, 1, 1, 1)
    );
    assert_eq!(stats.last_updated, 9);
    assert_eq!(stats.total_auctions, 2);
}
