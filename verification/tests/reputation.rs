use private_auction::errors::ProfileError;
use private_auction::log_scale::{tenfold_log10, LEVEL_THRESHOLDS};
use private_auction::state::profile::{
    volume_bonus, CompressedUserProfile, KycLevel, ReputationStake, UserProfile,
};

fn newcomer() -> UserProfile {
    UserProfile {
        user_pubkey: [4; 32],
        reputation_score: 500,
        average_rating: 25,
        created_at: 1,
        ..UserProfile::default()
    }
}

#[test]
fn newcomer_is_neutral() {
    assert_eq!(newcomer().calculate_reputation(), 500);
    assert_eq!(UserProfile::NEUTRAL_SCORE, 500);
}

#[test]
fn delivery_bonus_is_the_share_of_deliveries() {
    let mut profile = newcomer();
    profile.auctions_as_seller = 4;
    profile.successful_deliveries = 4;
    assert_eq!(profile.calculate_reputation(), 700);
    profile.successful_deliveries = 3;
    assert_eq!(profile.calculate_reputation(), 650);
    profile.auctions_as_seller = 3;
    profile.successful_deliveries = 1;
    assert_eq!(profile.calculate_reputation(), 566);
    profile.auctions_as_seller = 0;
    profile.successful_deliveries = 2;
    assert_eq!(profile.calculate_reputation(), 900);
}

#[test]
fn dispute_penalty_is_the_share_of_disputes() {
    let mut profile = newcomer();
    profile.auctions_as_seller = 2;
    profile.auctions_as_buyer = 2;
    profile.disputes_against = 1;
    assert_eq!(profile.calculate_reputation(), 425);
    profile.disputes_against = 4;
    assert_eq!(profile.calculate_reputation(), 200);
    profile.auctions_as_seller = 0;
    profile.auctions_as_buyer = 0;
    profile.disputes_against = 1;
    assert_eq!(profile.calculate_reputation(), 200);
    profile.auctions_as_buyer = 7;
    profile.disputes_against = 1;
    assert_eq!(profile.calculate_reputation(), 458);
}

#[test]
fn volume_bonus_is_logarithmic() {
    let mut profile = newcomer();
    profile.total_volume = 1;
    assert_eq!(profile.calculate_reputation(), 500);
    profile.total_volume = 1_000;
    assert_eq!(profile.calculate_reputation(), 530);
    profile.total_volume = 2;
    assert_eq!(profile.calculate_reputation(), 503);
    profile.total_volume = 9_999_999_999;
    assert_eq!(profile.calculate_reputation(), 599);
    profile.total_volume = 10_000_000_000;
    assert_eq!(profile.calculate_reputation(), 600);
    profile.total_volume = u64::MAX;
    assert_eq!(profile.calculate_reputation(), 600);
}

#[test]
fn rating_bonus_is_centred_at_two_and_a_half_stars() {
    let mut profile = newcomer();
    profile.average_rating = 50;
    assert_eq!(profile.calculate_reputation(), 600);
    profile.average_rating = 0;
    assert_eq!(profile.calculate_reputation(), 400);
    profile.average_rating = 26;
    assert_eq!(profile.calculate_reputation(), 504);
}

#[test]
fn score_is_cut_to_its_range() {
    let mut best = newcomer();
    best.auctions_as_seller = 1;
    best.successful_deliveries = 1;
    best.total_volume = u64::MAX;
    best.average_rating = 255;
    assert_eq!(best.calculate_reputation(), 1000);
    best.successful_deliveries = u32::MAX;
    assert_eq!(best.calculate_reputation(), 1000);
    let mut worst = newcomer();
    worst.auctions_as_buyer = 1;
    worst.disputes_against = 255;
    worst.average_rating = 0;
    assert_eq!(worst.calculate_reputation(), 0);
    let mut all = newcomer();
    all.auctions_as_seller = 10;
    all.auctions_as_buyer = 10;
    all.successful_deliveries = 9;
    all.disputes_against = 1;
    all.total_volume = 250_000;
    all.average_rating = 44;
    assert_eq!(all.calculate_reputation(), 500 + 180 - 15 + 53 + 76);
}

#[test]
fn volume_bonus_values() {
    assert_eq!(volume_bonus(0), 0);
    assert_eq!(volume_bonus(1), 0);
    assert_eq!(volume_bonus(9), 9);
    assert_eq!(volume_bonus(10), 10);
    assert_eq!(volume_bonus(99), 19);
    assert_eq!(volume_bonus(100), 20);
    assert_eq!(volume_bonus(1_258), 30);
    assert_eq!(volume_bonus(1_259), 31);
    assert_eq!(volume_bonus(1_000_000), 60);
    assert_eq!(volume_bonus(u64::MAX), 100);
}

#[test]
fn volume_bonus_agrees_with_the_decimal_logarithm() {
    let mut values: Vec<u64> = (1..5_000).collect();
    let mut power: u64 = 1;
    for _ in 0..19 {
        values.push(power);
        values.push(power + 1);
        if power > 1 {
            values.push(power - 1);
        }
        values.push(power * 3);
        values.push(power * 7);
        power *= 10;
    }
    for value in values {
        let expected = ((value as f64).log10() * 10.0) as i32;
        assert_eq!(volume_bonus(value) as i32, expected.min(100), "volume {}", value);
    }
}

#[test]
fn thresholds_are_the_smallest_values_of_their_level() {
    assert_eq!(LEVEL_THRESHOLDS.len(), 101);
    assert_eq!(LEVEL_THRESHOLDS[0], 1);
    assert_eq!(LEVEL_THRESHOLDS[10], 10);
    assert_eq!(LEVEL_THRESHOLDS[100], 10_000_000_000);
    for level in 1..=100usize {
        let threshold = LEVEL_THRESHOLDS[level];
        assert!(tenfold_log10(threshold) as usize >= level);
        assert!((tenfold_log10(threshold - 1) as usize) < level);
        assert!(LEVEL_THRESHOLDS[level - 1] <= threshold);
    }
    assert_eq!(tenfold_log10(1), 0);
    assert_eq!(tenfold_log10(3), 4);
    assert_eq!(tenfold_log10(u64::MAX), 100);
}

#[test]
fn completed_sale_updates_counters_rating_and_score() {
    let mut seller = newcomer();
    assert!(seller.fits_count(true, true, Some(45)));
    seller.update_after_auction(true, true, Some(45), 900);
    assert_eq!(seller.auctions_as_seller, 1);
    assert_eq!(seller.successful_deliveries, 1);
    assert_eq!(seller.auctions_as_buyer, 0);
    assert_eq!((seller.average_rating, seller.rating_count), (45, 1));
    assert_eq!(seller.reputation_score, 780);
    assert_eq!(seller.last_active, 900);
    seller.update_after_auction(true, false, Some(20), 901);
    assert_eq!(seller.auctions_as_seller, 2);
    assert_eq!(seller.successful_deliveries, 1);
    assert_eq!((seller.average_rating, seller.rating_count), (32, 2));
    assert_eq!(seller.reputation_score, 500 + 100 + 28);
    let mut buyer = newcomer();
    buyer.update_after_auction(false, true, None, 902);
    assert_eq!(buyer.auctions_as_buyer, 1);
    assert_eq!(buyer.auctions_as_seller, 0);
    assert_eq!(buyer.successful_deliveries, 0);
    assert_eq!((buyer.average_rating, buyer.rating_count), (25, 0));
    assert_eq!(buyer.reputation_score, 500);
}

#[test]
fn counters_at_their_limit_do_not_fit() {
    let mut profile = newcomer();
    profile.auctions_as_seller = u32::MAX;
    assert!(!profile.fits_count(true, false, None));
    assert!(profile.fits_count(false, false, None));
    profile.auctions_as_seller = 0;
    profile.successful_deliveries = u32::MAX;
    assert!(!profile.fits_count(true, true, None));
    assert!(profile.fits_count(true, false, None));
    profile.auctions_as_buyer = u32::MAX;
    assert!(!profile.fits_count(false, true, None));
    profile.rating_count = u32::MAX;
    assert!(!profile.fits_count(true, false, Some(1)));
    assert!(profile.fits_count(true, false, None));
}

#[test]
fn disputes_are_counted() {
    let mut profile = newcomer();
    profile.auctions_as_seller = 3;
    profile.record_dispute_against();
    assert_eq!(profile.disputes_against, 1);
    assert_eq!(profile.reputation_score, 400);
    profile.record_dispute_raised(false);
    assert_eq!((profile.disputes_raised, profile.disputes_won), (1, 0));
    profile.record_dispute_raised(true);
    assert_eq!((profile.disputes_raised, profile.disputes_won), (2, 1));
    assert_eq!(profile.reputation_score, 400);
}

#[test]
fn reputation_thresholds() {
    let mut profile = newcomer();
    assert!(profile.meets_reputation_threshold(500));
    assert!(profile.meets_reputation_threshold(300));
    assert!(!profile.meets_reputation_threshold(501));
    profile.reputation_score = 700;
    profile.auctions_as_seller = 10;
    profile.disputes_against = 2;
    profile.kyc_level = KycLevel::Enhanced;
    assert!(profile.can_sell_high_value());
    profile.kyc_level = KycLevel::Accredited;
    assert!(profile.can_sell_high_value());
    profile.kyc_level = KycLevel::Basic;
    assert!(!profile.can_sell_high_value());
    profile.kyc_level = KycLevel::Full;
    profile.disputes_against = 3;
    assert!(!profile.can_sell_high_value());
    profile.disputes_against = 0;
    profile.auctions_as_seller = 9;
    assert!(!profile.can_sell_high_value());
    profile.auctions_as_seller = 10;
    profile.reputation_score = 699;
    assert!(!profile.can_sell_high_value());
}

#[test]
fn verification_levels_are_ordered() {
    assert_eq!(KycLevel::default(), KycLevel::Unverified);
    let levels = [
        KycLevel::Unverified,
        KycLevel::Basic,
        KycLevel::Enhanced,
        KycLevel::Full,
        KycLevel::Accredited,
    ];
    for (rank, level) in levels.iter().enumerate() {
        assert_eq!(level.to_rank() as usize, rank);
    }
    for pair in levels.windows(2) {
        assert!(pair[0] < pair[1]);
        assert!(pair[0].to_rank() < pair[1].to_rank());
    }
}

#[test]
fn compact_profile() {
    let mut profile = newcomer();
    profile.auctions_as_seller = 3;
    profile.auctions_as_buyer = 4;
    profile.disputes_against = 1;
    profile.kyc_level = KycLevel::Full;
    profile.reputation_score = 612;
    assert_eq!(
        CompressedUserProfile::from_profile(&profile),
        CompressedUserProfile {
            user_pubkey: [4; 32],
            reputation_score: 612,
            auctions_completed: 7,
            disputes_against: 1,
            kyc_level: 3,
            created_at: 1,
        }
    );
}

#[test]
fn stake_locks_for_thirty_days() {
    let mut stake = ReputationStake::default();
    assert!(stake.can_withdraw(0));
    stake.deposit(500, 1_000);
    assert_eq!(stake.amount, 500);
    assert_eq!(stake.lock_until, 1_000 + 30 * 24 * 60 * 60);
    assert!(!stake.can_withdraw(1_000));
    assert!(!stake.can_withdraw(2_592_999));
    assert!(stake.can_withdraw(2_593_000));
    assert_eq!(stake.withdraw(2_592_999), Err(ProfileError::StakeLocked));
    assert_eq!(stake.amount, 500);
    stake.deposit(100, 2_000);
    assert_eq!(stake.amount, 600);
    assert_eq!(stake.lock_until, 2_594_000);
    assert_eq!(stake.withdraw(2_594_000), Ok(600));
    assert_eq!(stake.amount, 0);
    assert_eq!(stake.withdraw(2_594_001), Ok(0));
}

#[test]
fn dispute_holds_the_stake() {
    let mut stake = ReputationStake { amount: 90, ..ReputationStake::default() };
    stake.lock_for_dispute();
    assert!(stake.locked_for_dispute);
    assert!(!stake.can_withdraw(i64::MAX));
    assert_eq!(stake.withdraw(i64::MAX), Err(ProfileError::StakeLocked));
    stake.unlock();
    assert!(stake.can_withdraw(0));
    assert_eq!(stake.withdraw(0), Ok(90));
}

#[test]
fn slashing_takes_a_percentage() {
    let mut stake = ReputationStake { amount: 1_000, ..ReputationStake::default() };
    assert_eq!(stake.slash(10), 100);
    assert_eq!(stake.amount, 900);
    assert_eq!(stake.slash(0), 0);
    assert_eq!(stake.amount, 900);
    assert_eq!(stake.slash(33), 297);
    assert_eq!(stake.amount, 603);
    assert_eq!(stake.slash(100), 603);
    assert_eq!(stake.amount, 0);
    let mut large = ReputationStake { amount: u64::MAX, ..ReputationStake::default() };
    assert_eq!(large.slash(50), u64::MAX / 2);
    assert_eq!(ReputationStake::MIN_SELLER_STAKE, 100_000_000);
    assert_eq!(ReputationStake::MIN_HIGH_VALUE_STAKE, 1_000_000_000);
}
