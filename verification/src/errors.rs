//! Typed failures of the marketplace, grouped by the component that raises them.

use vstd::prelude::*;

verus! {

/// Failures of the auction lifecycle.
#[derive(Clone, Copy, Debug, PartialEq, Eq, Structural)]
pub enum AuctionError {
    /// Auction duration is below the configured minimum.
    DurationTooShort,
    /// Auction duration exceeds the configured maximum.
    DurationTooLong,
    /// Bid collateral is below the configured minimum.
    CollateralTooLow,
    /// Bid collateral exceeds the configured maximum.
    CollateralTooHigh,
    /// Auction is not in the bidding phase.
    AuctionNotActive,
    /// Auction is not in the reveal phase.
    NotInRevealPhase,
    /// The reveal phase has not run out yet.
    CannotSettleYet,
    /// Auction has already been settled.
    AuctionAlreadySettled,
    /// Auction has been cancelled.
    AuctionCancelled,
    /// Auction has expired.
    AuctionExpired,
    /// The bidding window is closed.
    BiddingEnded,
    /// The reveal window is closed.
    RevealPeriodEnded,
    /// Reserve price not met.
    ReserveNotMet,
    /// No bid is available to settle on.
    NoBidsPlaced,
    /// The product type lacks the fields it needs.
    InvalidProductType,
    /// Seller reputation is too low.
    InsufficientSellerReputation,
    /// An auction that has bids cannot be cancelled.
    CannotCancelWithBids,
    /// Only the seller may do this.
    OnlySeller,
    /// The auction is in the wrong state for the operation.
    InvalidAuctionState,
}

/// Failures of bid submission, reveal and refund.
#[derive(Clone, Copy, Debug, PartialEq, Eq, Structural)]
pub enum BidError {
    /// Bid amount is below the reserve price.
    BidBelowReserve,
    /// The bid was revealed before.
    BidAlreadyRevealed,
    /// The revealed values do not hash to the stored commitment.
    CommitmentMismatch,
    /// The accompanying proof was rejected.
    InvalidProof,
    /// The bidder already holds a commitment in this auction.
    DuplicateBid,
    /// Bid not found.
    BidNotFound,
    /// Only the bidder may act on the bid.
    OnlyBidder,
    /// Collateral not deposited.
    CollateralNotDeposited,
    /// The collateral was handed back before.
    RefundAlreadyClaimed,
    /// The winner's collateral is not refundable.
    WinnerCannotRefund,
    /// The reveal deadline has passed.
    RevealDeadlinePassed,
}

/// Failures of the escrow engine.
#[derive(Clone, Copy, Debug, PartialEq, Eq, Structural)]
pub enum EscrowError {
    /// Escrow is not funded.
    NotFunded,
    /// Escrow is already funded.
    AlreadyFunded,
    /// Escrow is locked.
    EscrowLocked,
    /// Too few signatures for release.
    InsufficientSignatures,
    /// The signer is not among the escrow's signers.
    InvalidSigner,
    /// The time-lock has not run out.
    TimeLockNotExpired,
    /// Escrow already released.
    AlreadyReleased,
    /// The escrow is in the wrong state for the operation.
    InvalidEscrowState,
    /// Delivery has not been confirmed.
    DeliveryNotConfirmed,
    /// Invalid token mint.
    InvalidTokenMint,
    /// Amount mismatch.
    AmountMismatch,
}

/// Failures of dispute arbitration.
#[derive(Clone, Copy, Debug, PartialEq, Eq, Structural)]
pub enum DisputeError {
    /// A dispute is already open for the auction.
    DisputeAlreadyExists,
    /// Dispute not found.
    DisputeNotFound,
    /// Dispute already resolved.
    DisputeAlreadyResolved,
    /// The dispute does not take evidence in its current state.
    CannotSubmitEvidence,
    /// The evidence deadline has passed.
    EvidenceDeadlinePassed,
    /// The party's evidence list is full.
    MaxEvidenceReached,
    /// Only a rostered arbitrator may do this.
    OnlyArbitrator,
    /// The caller is neither buyer nor seller.
    NotAParty,
    /// The dispute is in the wrong state for the operation.
    InvalidDisputeState,
    /// Voting period not open.
    VotingNotOpen,
    /// Arbitrator has already voted.
    AlreadyVoted,
    /// Resolution deadline passed.
    ResolutionDeadlinePassed,
}

/// Failures of the reputation engine.
#[derive(Clone, Copy, Debug, PartialEq, Eq, Structural)]
pub enum ProfileError {
    /// Profile already exists.
    ProfileAlreadyExists,
    /// Profile not found.
    ProfileNotFound,
    /// Reputation is below the threshold.
    InsufficientReputation,
    /// KYC verification required.
    KycRequired,
    /// Stake amount too low.
    InsufficientStake,
    /// The stake cannot be withdrawn yet.
    StakeLocked,
    /// Invalid stake amount.
    InvalidStakeAmount,
}

/// Failures tied to the platform configuration.
#[derive(Clone, Copy, Debug, PartialEq, Eq, Structural)]
pub enum ConfigError {
    /// The platform is paused.
    ProgramPaused,
    /// Invalid authority.
    InvalidAuthority,
    /// The payment asset is not on the supported list.
    UnsupportedMint,
    /// A configuration parameter is out of range.
    InvalidParameter,
    /// Already initialized.
    AlreadyInitialized,
    /// Not initialized.
    NotInitialized,
}

/// Failures of the compressed index.
#[derive(Clone, Copy, Debug, PartialEq, Eq, Structural)]
pub enum CompressionError {
    /// Compression failed.
    CompressionFailed,
    /// Decompression failed.
    DecompressionFailed,
    /// Merkle proof verification failed.
    InvalidMerkleProof,
    /// State tree not initialized.
    StateTreeNotInitialized,
    /// Invalid compressed account data.
    InvalidCompressedData,
}

/// Failures of delivery and fulfilment.
#[derive(Clone, Copy, Debug, PartialEq, Eq, Structural)]
pub enum FulfillmentError {
    /// Delivery already confirmed.
    DeliveryAlreadyConfirmed,
    /// The delivery proof was rejected.
    InvalidDeliveryProof,
    /// Only the buyer may confirm delivery.
    OnlyBuyerCanConfirm,
    /// Shipping address required.
    ShippingAddressRequired,
    /// Invalid tracking number.
    InvalidTrackingNumber,
    /// Redemption period expired.
    RedemptionExpired,
    /// Service already redeemed.
    ServiceAlreadyRedeemed,
}

/// Failures that belong to no single component: records that do not decode,
/// accounts that do not match, and arithmetic that leaves the machine's range.
#[derive(Clone, Copy, Debug, PartialEq, Eq, Structural)]
pub enum RuntimeError {
    /// A stored record is too short or malformed.
    AccountDidNotDeserialize,
    /// A record exceeds the space reserved for it.
    AccountDidNotSerialize,
    /// The acting key is not among the owners of the record.
    ConstraintOwner,
    /// A withdrawal exceeds what is held.
    InsufficientFunds,
    /// An amount, a counter or a timestamp would leave its range.
    ArithmeticOverflow,
}

/// Any failure an operation of the marketplace can end in.
#[derive(Clone, Copy, Debug, PartialEq, Eq, Structural)]
pub enum MarketError {
    Auction(AuctionError),
    Bid(BidError),
    Escrow(EscrowError),
    Dispute(DisputeError),
    Profile(ProfileError),
    Config(ConfigError),
    Compression(CompressionError),
    Fulfillment(FulfillmentError),
    Runtime(RuntimeError),
}

} // verus!
