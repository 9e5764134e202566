//! The auction record: its phases, its time windows, and the running
//! second-price standing that reveals feed.

use vstd::prelude::*;
use crate::address::{Address, is_zeroed};

verus! {

/// Phase of an auction.
#[derive(Clone, Copy, Debug, PartialEq, Eq, Structural)]
pub enum AuctionStatus {
    /// Accepting sealed bids.
    Active,
    /// Bidders disclose their bids.
    Revealing,
    /// Winner and price are fixed.
    Settled,
    /// Withdrawn by the seller before any bid.
    Cancelled,
    /// Ended with nothing to settle on.
    Expired,
    /// Settled, with the delivery contested.
    Disputed,
}

impl Default for AuctionStatus {
    fn default() -> (status: Self)
        ensures
            status == AuctionStatus::Active,
    {
        AuctionStatus::Active
    }
}

impl AuctionStatus {
    /// Whether an auction in this phase may be in phase `next` after one
    /// operation. An active auction goes on to its reveal phase, or is
    /// cancelled, or expires; a revealing one is settled or expires; a
    /// settled one may come into dispute and, with the dispute resolved, be
    /// settled again. A cancelled or expired auction stays as it is.
    pub open spec fn may_become(self, next: AuctionStatus) -> bool {
        self == next || match self {
            AuctionStatus::Active => next == AuctionStatus::Revealing || next
                == AuctionStatus::Cancelled || next == AuctionStatus::Expired,
            AuctionStatus::Revealing => next == AuctionStatus::Settled || next
                == AuctionStatus::Expired,
            AuctionStatus::Settled => next == AuctionStatus::Disputed,
            AuctionStatus::Disputed => next == AuctionStatus::Settled,
            AuctionStatus::Cancelled => false,
            AuctionStatus::Expired => false,
        }
    }

    /// The byte that stands for the phase in compact records.
    pub open spec fn code(self) -> u8 {
        match self {
            AuctionStatus::Active => 0,
            AuctionStatus::Revealing => 1,
            AuctionStatus::Settled => 2,
            AuctionStatus::Cancelled => 3,
            AuctionStatus::Expired => 4,
            AuctionStatus::Disputed => 5,
        }
    }

    /// Computes `code`.
    pub fn to_code(self) -> (code: u8)
        ensures
            code == self.code(),
    {
        match self {
            AuctionStatus::Active => 0,
            AuctionStatus::Revealing => 1,
            AuctionStatus::Settled => 2,
            AuctionStatus::Cancelled => 3,
            AuctionStatus::Expired => 4,
            AuctionStatus::Disputed => 5,
        }
    }
}

/// What kind of good an auction sells.
#[derive(Clone, Copy, Debug, PartialEq, Eq, Structural)]
pub enum ProductType {
    /// A transferable token, handed over at settlement.
    Nft,
    /// Physical goods, shipped to the buyer.
    Physical,
    /// Digital goods, delivered as a download.
    Digital,
    /// A service, redeemed later.
    Service,
}

impl Default for ProductType {
    fn default() -> (kind: Self)
        ensures
            kind == ProductType::Nft,
    {
        ProductType::Nft
    }
}

impl ProductType {
    /// The byte that stands for the product type in compact records.
    pub open spec fn code(self) -> u8 {
        match self {
            ProductType::Nft => 0,
            ProductType::Physical => 1,
            ProductType::Digital => 2,
            ProductType::Service => 3,
        }
    }

    /// Computes `code`.
    pub fn to_code(self) -> (code: u8)
        ensures
            code == self.code(),
    {
        match self {
            ProductType::Nft => 0,
            ProductType::Physical => 1,
            ProductType::Digital => 2,
            ProductType::Service => 3,
        }
    }
}

/// The leader, the highest revealed amount and the second-highest, as far
/// as bids have been revealed.
pub struct Standing {
    /// Bidder of the highest amount; the earlier one on a tie.
    pub winner: Option<Address>,
    /// Highest amount revealed.
    pub winning_amount: Option<u64>,
    /// Second-highest amount revealed, counting a tie at the top twice.
    pub second_price: Option<u64>,
}

impl Standing {
    /// The standing before any reveal.
    pub open spec fn empty() -> Standing {
        Standing { winner: None, winning_amount: None, second_price: None }
    }

    /// The standing after one more reveal. A strictly higher amount takes
    /// the lead and demotes the old leader's amount to second place; any
    /// other amount only competes for second place.
    pub open spec fn after_reveal(self, bidder: Address, amount: u64) -> Standing {
        match self.winning_amount {
            None => Standing {
                winner: Some(bidder),
                winning_amount: Some(amount),
                second_price: None,
            },
            Some(high) => if amount > high {
                Standing {
                    winner: Some(bidder),
                    winning_amount: Some(amount),
                    second_price: Some(high),
                }
            } else if self.second_price is None || amount > self.second_price->0 {
                Standing { second_price: Some(amount), ..self }
            } else {
                self
            },
        }
    }

    /// What the winner pays: the second-highest amount, or the winner's own
    /// amount where no second bid was revealed.
    pub open spec fn payment(self) -> Option<u64> {
        match self.winning_amount {
            None => None,
            Some(high) => match self.second_price {
                Some(second) => Some(second),
                None => Some(high),
            },
        }
    }
}

/// An auction.
#[derive(Debug, Clone, PartialEq, Eq)]
pub struct AuctionState {
    /// Key of this record.
    pub auction_id: Address,
    /// The seller.
    pub seller: Address,
    /// Kind of good on sale.
    pub product_type: ProductType,
    /// Commitment to the reserve price.
    pub reserve_price_hash: [u8; 32],
    /// Start of bidding.
    pub start_time: i64,
    /// End of bidding and start of the reveal phase.
    pub end_time: i64,
    /// Length of the reveal phase, in seconds.
    pub reveal_duration: i64,
    /// Current phase.
    pub status: AuctionStatus,
    /// Commitments submitted.
    pub bid_count: u32,
    /// Commitments revealed.
    pub revealed_count: u32,
    /// Digest of the latest commitment record.
    pub bid_merkle_root: [u8; 32],
    /// Key of the product description.
    pub product_metadata: Address,
    /// Key of the escrow.
    pub escrow_account: Address,
    /// Leading bidder, once a bid is revealed.
    pub winner: Option<Address>,
    /// Highest revealed amount.
    pub winning_amount: Option<u64>,
    /// Second-highest revealed amount; after settlement, the price paid.
    pub second_price: Option<u64>,
    /// Token on sale, for token auctions.
    pub nft_mint: Option<Address>,
    /// Payment asset.
    pub payment_mint: Address,
    /// Smallest step between bids.
    pub min_bid_increment: u64,
    /// Collateral each bidder deposits.
    pub bid_collateral: u64,
    /// Session of the execution layer.
    pub per_session_id: [u8; 32],
    /// Address derivation seed.
    pub bump: u8,
    /// Unused space.
    pub _reserved: [u8; 64],
}

impl AuctionState {
    /// What every stored auction keeps: it ends after it starts; no more
    /// bids are revealed than were submitted; a winner is set exactly while
    /// revealed bids exist, which is only in the reveal phase and after
    /// settlement; and the second price never exceeds the winning amount.
    pub open spec fn wf(&self) -> bool {
        &&& self.end_time > self.start_time
        &&& self.revealed_count <= self.bid_count
        &&& (self.winner is Some <==> self.revealed_count > 0)
        &&& (self.winning_amount is Some <==> self.revealed_count > 0)
        &&& (self.revealed_count > 0 ==> self.status == AuctionStatus::Revealing || self.status
            == AuctionStatus::Settled || self.status == AuctionStatus::Disputed)
        &&& (self.second_price is Some ==> self.winning_amount is Some && self.second_price->0
            <= self.winning_amount->0)
    }

    /// The running second-price standing held in the record.
    pub open spec fn standing(&self) -> Standing {
        Standing {
            winner: self.winner,
            winning_amount: self.winning_amount,
            second_price: self.second_price,
        }
    }

    /// Whether the auction is in the bidding phase.
    pub fn is_active(&self) -> (active: bool)
        ensures
            active == (self.status == AuctionStatus::Active),
    {
        self.status == AuctionStatus::Active
    }

    /// Whether the auction is in the reveal phase.
    pub fn is_revealing(&self) -> (revealing: bool)
        ensures
            revealing == (self.status == AuctionStatus::Revealing),
    {
        self.status == AuctionStatus::Revealing
    }

    /// Whether a bid may be submitted at `current_time`.
    pub fn can_accept_bids(&self, current_time: i64) -> (open: bool)
        ensures
            open == (self.status == AuctionStatus::Active && self.start_time <= current_time
                < self.end_time),
    {
        self.is_active() && current_time >= self.start_time && current_time < self.end_time
    }

    /// Whether a bid may be revealed at `current_time`.
    pub fn can_reveal_bids(&self, current_time: i64) -> (open: bool)
        ensures
            open == (self.status == AuctionStatus::Revealing && self.end_time <= current_time
                < self.end_time + self.reveal_duration),
    {
        self.is_revealing() && current_time >= self.end_time && (current_time as i128) < (
        self.end_time as i128) + (self.reveal_duration as i128)
    }

    /// Whether the auction may be settled at `current_time`.
    pub fn can_settle(&self, current_time: i64) -> (ready: bool)
        ensures
            ready == (self.status == AuctionStatus::Revealing && current_time >= self.end_time
                + self.reveal_duration),
    {
        self.is_revealing() && (current_time as i128) >= (self.end_time as i128) + (
        self.reveal_duration as i128)
    }

    /// The moment the reveal phase ends.
    pub fn reveal_deadline(&self) -> (deadline: i64)
        requires
            i64::MIN <= self.end_time + self.reveal_duration <= i64::MAX,
        ensures
            deadline == self.end_time + self.reveal_duration,
    {
        self.end_time + self.reveal_duration
    }

    /// The phase the auction is in at `now`, going by its timestamps and
    /// counters where the recorded phase has fallen behind. An active
    /// auction whose bidding has ended is in its reveal phase if it has bids
    /// and expired if it has none; an auction whose reveal phase has ended
    /// with no bid revealed is expired. In every other case the recorded
    /// phase stands.
    pub open spec fn phase_at(&self, now: i64) -> AuctionStatus {
        if self.status == AuctionStatus::Active && now >= self.end_time {
            if self.bid_count == 0 {
                AuctionStatus::Expired
            } else if self.revealed_count == 0 && now >= self.end_time + self.reveal_duration {
                AuctionStatus::Expired
            } else {
                AuctionStatus::Revealing
            }
        } else if self.status == AuctionStatus::Revealing && self.revealed_count == 0 && now
            >= self.end_time + self.reveal_duration {
            AuctionStatus::Expired
        } else {
            self.status
        }
    }

    /// Computes `phase_at`.
    pub fn logical_status(&self, now: i64) -> (phase: AuctionStatus)
        ensures
            phase == self.phase_at(now),
    {
        let reveal_over = (now as i128) >= (self.end_time as i128) + (self.reveal_duration as i128);
        match self.status {
            AuctionStatus::Active => {
                if now < self.end_time {
                    AuctionStatus::Active
                } else if self.bid_count == 0 || (self.revealed_count == 0 && reveal_over) {
                    AuctionStatus::Expired
                } else {
                    AuctionStatus::Revealing
                }
            },
            AuctionStatus::Revealing => {
                if self.revealed_count == 0 && reveal_over {
                    AuctionStatus::Expired
                } else {
                    AuctionStatus::Revealing
                }
            },
            other => other,
        }
    }

    /// Brings the recorded phase up to date with `now`.
    pub fn refresh(&mut self, now: i64)
        ensures
            *final(self) == (AuctionState { status: old(self).phase_at(now), ..*old(self) }),
            old(self).status.may_become(final(self).status),
            old(self).wf() ==> final(self).wf(),
    {
        self.status = self.logical_status(now);
    }

    /// Enters a revealed amount into the running standing.
    pub fn record_reveal(&mut self, bidder: Address, amount: u64)
        ensures
            final(self).standing() == old(self).standing().after_reveal(bidder, amount),
            *final(self) == (AuctionState {
                winner: final(self).winner,
                winning_amount: final(self).winning_amount,
                second_price: final(self).second_price,
                ..*old(self)
            }),
    {
        match self.winning_amount {
            None => {
                self.winner = Some(bidder);
                self.winning_amount = Some(amount);
                self.second_price = None;
            },
            Some(high) => {
                if amount > high {
                    self.second_price = Some(high);
                    self.winning_amount = Some(amount);
                    self.winner = Some(bidder);
                } else {
                    let takes_second = match self.second_price {
                        None => true,
                        Some(second) => amount > second,
                    };
                    if takes_second {
                        self.second_price = Some(amount);
                    }
                }
            },
        }
    }
}

/// The part of an auction that goes into the compressed index.
#[derive(Clone, Debug, PartialEq, Eq)]
pub struct CompressedAuctionState {
    pub auction_id: [u8; 32],
    pub seller: [u8; 32],
    pub product_type: u8,
    pub reserve_price_hash: [u8; 32],
    pub start_time: i64,
    pub end_time: i64,
    pub reveal_duration: i64,
    pub status: u8,
    pub bid_count: u32,
    pub bid_merkle_root: [u8; 32],
}

impl CompressedAuctionState {
    /// The compact record of `state`.
    pub fn from_auction_state(state: &AuctionState) -> (compact: Self)
        ensures
            compact == (CompressedAuctionState {
                auction_id: state.auction_id,
                seller: state.seller,
                product_type: state.product_type.code(),
                reserve_price_hash: state.reserve_price_hash,
                start_time: state.start_time,
                end_time: state.end_time,
                reveal_duration: state.reveal_duration,
                status: state.status.code(),
                bid_count: state.bid_count,
                bid_merkle_root: state.bid_merkle_root,
            }),
    {
        CompressedAuctionState {
            auction_id: state.auction_id,
            seller: state.seller,
            product_type: state.product_type.to_code(),
            reserve_price_hash: state.reserve_price_hash,
            start_time: state.start_time,
            end_time: state.end_time,
            reveal_duration: state.reveal_duration,
            status: state.status.to_code(),
            bid_count: state.bid_count,
            bid_merkle_root: state.bid_merkle_root,
        }
    }
}

impl AuctionState {
    /// An auction record with nothing entered: zero keys, times and
    /// counters, the first product type, active, no winner and no price.
    pub open spec fn is_blank(&self) -> bool {
        &&& is_zeroed(self.auction_id)
        &&& is_zeroed(self.seller)
        &&& self.product_type == ProductType::Nft
        &&& is_zeroed(self.reserve_price_hash)
        &&& self.start_time == 0
        &&& self.end_time == 0
        &&& self.reveal_duration == 0
        &&& self.status == AuctionStatus::Active
        &&& self.bid_count == 0
        &&& self.revealed_count == 0
        &&& is_zeroed(self.bid_merkle_root)
        &&& is_zeroed(self.product_metadata)
        &&& is_zeroed(self.escrow_account)
        &&& self.winner is None
        &&& self.winning_amount is None
        &&& self.second_price is None
        &&& self.nft_mint is None
        &&& is_zeroed(self.payment_mint)
        &&& self.min_bid_increment == 0
        &&& self.bid_collateral == 0
        &&& is_zeroed(self.per_session_id)
        &&& self.bump == 0
        &&& is_zeroed(self._reserved)
    }
}

impl Default for AuctionState {
    fn default() -> (auction: Self)
        ensures
            auction.is_blank(),
    {
        AuctionState {
            auction_id: [0u8; 32],
            seller: [0u8; 32],
            product_type: ProductType::Nft,
            reserve_price_hash: [0u8; 32],
            start_time: 0,
            end_time: 0,
            reveal_duration: 0,
            status: AuctionStatus::Active,
            bid_count: 0,
            revealed_count: 0,
            bid_merkle_root: [0u8; 32],
            product_metadata: [0u8; 32],
            escrow_account: [0u8; 32],
            winner: None,
            winning_amount: None,
            second_price: None,
            nft_mint: None,
            payment_mint: [0u8; 32],
            min_bid_increment: 0,
            bid_collateral: 0,
            per_session_id: [0u8; 32],
            bump: 0,
            _reserved: [0u8; 64],
        }
    }
}

} // verus!
