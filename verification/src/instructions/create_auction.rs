//! Opening an auction.

use vstd::prelude::*;
use vstd::utf8::encode_utf8;
use crate::address::{Address, is_zeroed};
use crate::errors::{
    AuctionError,
    ConfigError,
    MarketError,
    ProfileError,
    RuntimeError,
};
use crate::state::auction::{AuctionState, AuctionStatus, ProductType};
use crate::state::escrow::{EscrowAccount, EscrowSecurityLevel, EscrowStatus, ReleaseConditions};
use crate::state::product::{
    Category,
    DigitalDelivery,
    ProductMetadata,
    ServiceDetails,
    ShippingOptions,
    has_required_terms,
    required_terms_present,
};
use crate::state::profile::UserProfile;
use crate::state::program_config::{ProgramConfig, ProgramStats};

verus! {

/// What a seller hands in to open an auction.
#[derive(Clone, Debug, PartialEq, Eq)]
pub struct CreateAuctionParams {
    /// Kind of good on sale.
    pub product_type: ProductType,
    /// Marketplace category.
    pub category: Category,
    /// Commitment to the reserve price.
    pub reserve_price_hash: [u8; 32],
    /// Length of the bidding phase, in seconds.
    pub duration: i64,
    /// Length of the reveal phase, in seconds; zero or less for the
    /// platform's default.
    pub reveal_duration: i64,
    /// Content address of the full description.
    pub ipfs_hash: String,
    /// Title.
    pub title: String,
    /// Short description.
    pub description: String,
    /// Image locations.
    pub images: Vec<String>,
    /// Payment asset.
    pub payment_mint: Address,
    /// Smallest step between bids.
    pub min_bid_increment: u64,
    /// Collateral each bidder deposits.
    pub bid_collateral: u64,
    /// Token on sale, for token auctions.
    pub nft_mint: Option<Address>,
    /// Shipping terms, for physical goods.
    pub shipping: Option<ShippingOptions>,
    /// Delivery terms, for digital goods.
    pub digital_delivery: Option<DigitalDelivery>,
    /// Terms, for services.
    pub service_details: Option<ServiceDetails>,
}

/// The records and keys an opening works on.
#[derive(Clone, Debug, PartialEq, Eq)]
pub struct CreateAuction {
    /// Platform parameters.
    pub config: ProgramConfig,
    /// Platform counters.
    pub stats: ProgramStats,
    /// Profile of the seller.
    pub seller_profile: UserProfile,
    /// The seller.
    pub seller: Address,
    /// Key of the auction record to create.
    pub auction_key: Address,
    /// Key of the product record to create.
    pub product_key: Address,
    /// Key of the escrow record to create.
    pub escrow_key: Address,
    /// Key of the account that will hold the escrowed funds.
    pub escrow_vault_key: Address,
    /// Whether the seller's account for the token on sale was handed in.
    pub has_nft_token_account: bool,
    /// Whether an account to hold the token during the auction was handed in.
    pub has_nft_escrow_account: bool,
    /// Address derivation seed of the auction record.
    pub auction_bump: u8,
    /// Address derivation seed of the product record.
    pub product_bump: u8,
    /// Address derivation seed of the escrow record.
    pub escrow_bump: u8,
}

/// The records that an opening creates.
#[derive(Clone, Debug, PartialEq, Eq)]
pub struct AuctionCreated {
    /// The auction, in its bidding phase.
    pub auction: AuctionState,
    /// The product description.
    pub product_metadata: ProductMetadata,
    /// The escrow, holding nothing yet.
    pub escrow: EscrowAccount,
    /// Whether the token on sale moves into custody now.
    pub transfers_token: bool,
}

impl CreateAuction {
    /// The reveal phase of the new auction: as asked for, or the platform's
    /// default where nothing positive was asked for.
    pub open spec fn reveal_duration_for(&self, params: CreateAuctionParams) -> i64 {
        if params.reveal_duration > 0 {
            params.reveal_duration
        } else {
            self.config.default_reveal_duration
        }
    }

    /// Whether the timestamps of the new auction and the counters stay in
    /// range.
    pub open spec fn in_range(&self, params: CreateAuctionParams, now: i64) -> bool {
        &&& i64::MIN <= now + params.duration <= i64::MAX
        &&& i64::MIN <= now + params.duration + self.reveal_duration_for(params) <= i64::MAX
        &&& self.stats.total_auctions < u64::MAX
        &&& self.stats.active_auctions < u64::MAX
    }

    /// Why the auction cannot be opened, if it cannot: the first of a
    /// paused platform, a seller below the reputation threshold, a duration
    /// or collateral outside the configured bounds, an unsupported payment
    /// asset, missing terms for the product type, a description that
    /// exceeds its space, and arithmetic out of range.
    pub open spec fn obstacle(&self, params: CreateAuctionParams, now: i64) -> Option<MarketError> {
        if self.config.paused {
            Some(MarketError::Config(ConfigError::ProgramPaused))
        } else if self.seller_profile.reputation_score < self.config.min_seller_reputation {
            Some(MarketError::Profile(ProfileError::InsufficientReputation))
        } else if self.config.auction_params_verdict(params.duration, params.bid_collateral)
            is Err {
            Some(
                MarketError::Auction(
                    self.config.auction_params_verdict(
                        params.duration,
                        params.bid_collateral,
                    )->Err_0,
                ),
            )
        } else if !self.config.supported_mints@.contains(params.payment_mint) {
            Some(MarketError::Config(ConfigError::UnsupportedMint))
        } else if !has_required_terms(
            params.product_type,
            params.nft_mint is Some,
            self.has_nft_token_account,
            params.shipping is Some,
            params.digital_delivery is Some,
            params.service_details is Some,
        ) {
            Some(MarketError::Auction(AuctionError::InvalidProductType))
        } else if encode_utf8(params.title@).len() > 100 || encode_utf8(params.description@).len()
            > 500 || params.images@.len() > 10 {
            Some(MarketError::Runtime(RuntimeError::AccountDidNotSerialize))
        } else if !self.in_range(params, now) {
            Some(MarketError::Runtime(RuntimeError::ArithmeticOverflow))
        } else {
            None
        }
    }

    /// Whether `auction` is the auction that an opening at `now` creates:
    /// active from `now` for the duration asked for, with no bids, no
    /// winner and no price.
    pub open spec fn creates_auction(
        &self,
        params: CreateAuctionParams,
        now: i64,
        auction: AuctionState,
    ) -> bool {
        &&& auction.auction_id == self.auction_key
        &&& auction.seller == self.seller
        &&& auction.product_type == params.product_type
        &&& auction.reserve_price_hash == params.reserve_price_hash
        &&& auction.start_time == now
        &&& auction.end_time == now + params.duration
        &&& auction.reveal_duration == self.reveal_duration_for(params)
        &&& auction.status == AuctionStatus::Active
        &&& auction.bid_count == 0
        &&& auction.revealed_count == 0
        &&& is_zeroed(auction.bid_merkle_root)
        &&& auction.product_metadata == self.product_key
        &&& auction.escrow_account == self.escrow_key
        &&& auction.winner is None
        &&& auction.winning_amount is None
        &&& auction.second_price is None
        &&& auction.nft_mint == params.nft_mint
        &&& auction.payment_mint == params.payment_mint
        &&& auction.min_bid_increment == params.min_bid_increment
        &&& auction.bid_collateral == params.bid_collateral
        &&& is_zeroed(auction.per_session_id)
        &&& auction.bump == self.auction_bump
        &&& is_zeroed(auction._reserved)
    }

    /// Whether `product` is the description that an opening at `now`
    /// creates.
    pub open spec fn creates_product(
        &self,
        params: CreateAuctionParams,
        now: i64,
        product: ProductMetadata,
    ) -> bool {
        &&& product.product_id == self.product_key
        &&& product.auction_id == self.auction_key
        &&& product.product_type == params.product_type
        &&& product.category == params.category
        &&& product.ipfs_hash == params.ipfs_hash
        &&& product.title == params.title
        &&& product.description == params.description
        &&& product.images == params.images
        &&& product.seller == self.seller
        &&& product.condition is None
        &&& product.shipping == params.shipping
        &&& product.digital_delivery == params.digital_delivery
        &&& product.service_details == params.service_details
        &&& product.nft_mint == params.nft_mint
        &&& product.created_at == now
        &&& !product.verified
        &&& product.bump == self.product_bump
    }

    /// Whether `escrow` is the escrow that an opening at `now` creates:
    /// new, empty, for the seller, under the default release conditions.
    pub open spec fn creates_escrow(
        &self,
        params: CreateAuctionParams,
        now: i64,
        escrow: EscrowAccount,
    ) -> bool {
        &&& escrow.escrow_id == self.escrow_key
        &&& escrow.auction_id == self.auction_key
        &&& escrow.amount == 0
        &&& escrow.token_mint == params.payment_mint
        &&& escrow.token_account == self.escrow_vault_key
        &&& escrow.beneficiary == self.seller
        &&& escrow.payer is None
        &&& escrow.security_level == EscrowSecurityLevel::Standard
        &&& !escrow.release_conditions.requires_delivery_confirmation
        &&& escrow.release_conditions.time_lock_duration == 0
        &&& escrow.release_conditions.multi_sig_threshold == 1
        &&& escrow.release_conditions.signers@ == Seq::<Address>::empty()
        &&& escrow.release_conditions.signatures_collected == 0
        &&& escrow.release_conditions.release_deadline == 0
        &&& escrow.status == EscrowStatus::Created
        &&& escrow.created_at == now
        &&& escrow.released_at is None
        &&& escrow.bump == self.escrow_bump
        &&& is_zeroed(escrow._reserved)
    }

    /// Whether the token on sale moves into custody at the opening.
    pub open spec fn transfers_token(&self, params: CreateAuctionParams) -> bool {
        params.product_type == ProductType::Nft && self.has_nft_token_account
            && self.has_nft_escrow_account
    }

    /// The records after an opening at `now`: one more auction counted.
    pub open spec fn opened(self, now: i64) -> CreateAuction {
        CreateAuction {
            stats: ProgramStats {
                total_auctions: (self.stats.total_auctions + 1) as u64,
                active_auctions: (self.stats.active_auctions + 1) as u64,
                last_updated: now,
                ..self.stats
            },
            ..self
        }
    }
}

/// Opens an auction: checks the seller and the terms against the platform
/// parameters and creates the auction, its product description and its
/// escrow. A refused opening returns the first obstacle and changes no
/// record.
pub fn handler(ctx: &mut CreateAuction, params: CreateAuctionParams, now: i64) -> (result: Result<
    AuctionCreated,
    MarketError,
>)
    ensures
        match result {
            Ok(created) => {
                &&& old(ctx).obstacle(params, now) is None
                &&& *final(ctx) == old(ctx).opened(now)
                &&& old(ctx).creates_auction(params, now, created.auction)
                &&& old(ctx).creates_product(params, now, created.product_metadata)
                &&& old(ctx).creates_escrow(params, now, created.escrow)
                &&& created.transfers_token == old(ctx).transfers_token(params)
            },
            Err(e) => old(ctx).obstacle(params, now) == Some(e) && *final(ctx) == *old(ctx),
        },
        result matches Ok(created) ==> (old(ctx).config.wf() ==> created.auction.wf()),
        result matches Ok(created) ==> created.escrow.wf(),
{
    if ctx.config.paused {
        return Err(MarketError::Config(ConfigError::ProgramPaused));
    }
    if !ctx.seller_profile.meets_reputation_threshold(ctx.config.min_seller_reputation) {
        return Err(MarketError::Profile(ProfileError::InsufficientReputation));
    }
    if let Err(e) = ctx.config.validate_auction_params(params.duration, params.bid_collateral) {
        return Err(MarketError::Auction(e));
    }
    if !ctx.config.is_mint_supported(&params.payment_mint) {
        return Err(MarketError::Config(ConfigError::UnsupportedMint));
    }
    if !required_terms_present(
        params.product_type,
        params.nft_mint.is_some(),
        ctx.has_nft_token_account,
        params.shipping.is_some(),
        params.digital_delivery.is_some(),
        params.service_details.is_some(),
    ) {
        return Err(MarketError::Auction(AuctionError::InvalidProductType));
    }
    let product_type = params.product_type;
    let reveal_duration = if params.reveal_duration > 0 {
        params.reveal_duration
    } else {
        ctx.config.default_reveal_duration
    };
    let end: i128 = (now as i128) + (params.duration as i128);
    let deadline: i128 = end + (reveal_duration as i128);
    let in_range = (i64::MIN as i128) <= end && end <= (i64::MAX as i128) && (i64::MIN as i128)
        <= deadline && deadline <= (i64::MAX as i128) && ctx.stats.total_auctions < u64::MAX
        && ctx.stats.active_auctions < u64::MAX;
    let auction = AuctionState {
        auction_id: ctx.auction_key,
        seller: ctx.seller,
        product_type,
        reserve_price_hash: params.reserve_price_hash,
        start_time: now,
        end_time: if in_range {
            now + params.duration
        } else {
            now
        },
        reveal_duration,
        status: AuctionStatus::Active,
        bid_count: 0,
        revealed_count: 0,
        bid_merkle_root: [0u8; 32],
        product_metadata: ctx.product_key,
        escrow_account: ctx.escrow_key,
        winner: None,
        winning_amount: None,
        second_price: None,
        nft_mint: params.nft_mint,
        payment_mint: params.payment_mint,
        min_bid_increment: params.min_bid_increment,
        bid_collateral: params.bid_collateral,
        per_session_id: [0u8; 32],
        bump: ctx.auction_bump,
        _reserved: [0u8; 64],
    };
    let escrow = EscrowAccount {
        escrow_id: ctx.escrow_key,
        auction_id: ctx.auction_key,
        amount: 0,
        token_mint: params.payment_mint,
        token_account: ctx.escrow_vault_key,
        beneficiary: ctx.seller,
        payer: None,
        security_level: EscrowSecurityLevel::Standard,
        release_conditions: ReleaseConditions::default(),
        status: EscrowStatus::Created,
        created_at: now,
        released_at: None,
        bump: ctx.escrow_bump,
        _reserved: [0u8; 32],
    };
    let product_metadata = ProductMetadata {
        product_id: ctx.product_key,
        auction_id: ctx.auction_key,
        product_type,
        category: params.category,
        ipfs_hash: params.ipfs_hash,
        title: params.title,
        description: params.description,
        images: params.images,
        seller: ctx.seller,
        condition: None,
        shipping: params.shipping,
        digital_delivery: params.digital_delivery,
        service_details: params.service_details,
        nft_mint: params.nft_mint,
        created_at: now,
        verified: false,
        bump: ctx.product_bump,
    };
    if product_metadata.validate().is_err() {
        return Err(MarketError::Runtime(RuntimeError::AccountDidNotSerialize));
    }
    if !in_range {
        return Err(MarketError::Runtime(RuntimeError::ArithmeticOverflow));
    }
    ctx.stats.auction_created(now);
    let transfers_token = match product_type {
        ProductType::Nft => ctx.has_nft_token_account && ctx.has_nft_escrow_account,
        _ => false,
    };
    Ok(AuctionCreated { auction, product_metadata, escrow, transfers_token })
}

} // verus!
