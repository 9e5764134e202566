//! Bid commitments: the sealed record, its compact encoding, and the check
//! that a reveal opens the commitment.

use vstd::prelude::*;
use vstd::bytes::{
    spec_u64_to_le_bytes,
    spec_u64_from_le_bytes,
    u64_to_le_bytes,
    u64_from_le_bytes,
    lemma_auto_spec_u64_to_from_le_bytes,
};
use vstd::slice::slice_subrange;
use crate::address::{Address, same_address, is_zeroed};
use crate::encoding::{append_bytes, array32_at};
use crate::errors::RuntimeError;
use crate::hashing::{keccak256, keccak_hash};

verus! {

/// A sealed bid.
#[derive(Debug, Clone, PartialEq, Eq)]
pub struct BidCommitment {
    /// Key of this record.
    pub bid_id: Address,
    /// The auction bid on.
    pub auction_id: Address,
    /// The bidder.
    pub bidder: Address,
    /// Digest that binds amount, salt and bidder.
    pub commitment_hash: [u8; 32],
    /// Time of submission.
    pub timestamp: i64,
    /// Whether the bid has been revealed.
    pub revealed: bool,
    /// The amount, once revealed.
    pub revealed_amount: Option<u64>,
    /// Digest of the proof that came with the bid.
    pub proof_hash: [u8; 32],
    /// Collateral taken at submission.
    pub collateral_deposited: u64,
    /// Whether the collateral has been handed back.
    pub collateral_returned: bool,
    /// Address derivation seed.
    pub bump: u8,
}

impl BidCommitment {
    /// Whether the bid is still sealed.
    pub fn can_reveal(&self) -> (sealed: bool)
        ensures
            sealed == !self.revealed,
    {
        !self.revealed
    }

    /// Marks the bid as revealed at `amount`.
    pub fn reveal_amount(&mut self, amount: u64)
        ensures
            *final(self) == (BidCommitment {
                revealed: true,
                revealed_amount: Some(amount),
                ..*old(self)
            }),
    {
        self.revealed = true;
        self.revealed_amount = Some(amount);
    }
}

/// The part of a bid that goes into the compressed index.
#[derive(Clone, Debug, PartialEq, Eq)]
pub struct CompressedBidCommitment {
    pub bid_id: [u8; 32],
    pub auction_id: [u8; 32],
    pub commitment_hash: [u8; 32],
    pub timestamp: i64,
    pub revealed: bool,
}

impl CompressedBidCommitment {
    /// Length of the encoding: three keys, a timestamp and a flag.
    pub const SERIALIZED_SIZE: usize = 105;

    /// The encoding: record key, auction key and commitment, then the
    /// timestamp as eight little-endian bytes in two's complement, then one
    /// byte that is 1 for a revealed bid and 0 otherwise.
    pub open spec fn encoding(&self) -> Seq<u8> {
        self.bid_id@ + self.auction_id@ + self.commitment_hash@ + spec_u64_to_le_bytes(
            self.timestamp as u64,
        ) + seq![if self.revealed { 1u8 } else { 0u8 }]
    }

    /// Whether the first 105 bytes of `bytes` hold the fields of `record`;
    /// any nonzero flag byte reads as revealed.
    pub open spec fn decodes_to(bytes: Seq<u8>, record: Self) -> bool {
        &&& bytes.len() >= 105
        &&& record.bid_id@ == bytes.subrange(0, 32)
        &&& record.auction_id@ == bytes.subrange(32, 64)
        &&& record.commitment_hash@ == bytes.subrange(64, 96)
        &&& record.timestamp == spec_u64_from_le_bytes(bytes.subrange(96, 104)) as i64
        &&& record.revealed == (bytes[104] != 0)
    }

    /// Encodes the record.
    pub fn to_bytes(&self) -> (bytes: Vec<u8>)
        ensures
            bytes@ == self.encoding(),
            bytes@.len() == 105,
    {
        let mut bytes: Vec<u8> = Vec::with_capacity(Self::SERIALIZED_SIZE);
        append_bytes(&mut bytes, &self.bid_id);
        append_bytes(&mut bytes, &self.auction_id);
        append_bytes(&mut bytes, &self.commitment_hash);
        let stamp = u64_to_le_bytes(self.timestamp as u64);
        append_bytes(&mut bytes, stamp.as_slice());
        bytes.push(if self.revealed { 1 } else { 0 });
        assert(bytes@ =~= self.encoding());
        bytes
    }

    /// Decodes a record from the first 105 bytes of `bytes`, and fails with
    /// `AccountDidNotDeserialize` on a shorter input.
    pub fn from_bytes(bytes: &[u8]) -> (decoded: Result<Self, RuntimeError>)
        ensures
            bytes@.len() < 105 <==> decoded is Err,
            decoded is Err ==> decoded == Err::<Self, RuntimeError>(
                RuntimeError::AccountDidNotDeserialize,
            ),
            decoded is Ok ==> Self::decodes_to(bytes@, decoded->Ok_0),
    {
        if bytes.len() < Self::SERIALIZED_SIZE {
            return Err(RuntimeError::AccountDidNotDeserialize);
        }
        let stamp = u64_from_le_bytes(slice_subrange(bytes, 96, 104));
        Ok(
            CompressedBidCommitment {
                bid_id: array32_at(bytes, 0),
                auction_id: array32_at(bytes, 32),
                commitment_hash: array32_at(bytes, 64),
                timestamp: stamp as i64,
                revealed: bytes[104] != 0,
            },
        )
    }

    /// Decoding an encoding gives the record back.
    pub proof fn lemma_encoding_round_trip(record: Self)
        ensures
            record.encoding().len() == 105,
            Self::decodes_to(record.encoding(), record),
    {
        let bytes = record.encoding();
        let stamp = spec_u64_to_le_bytes(record.timestamp as u64);
        lemma_auto_spec_u64_to_from_le_bytes();
        assert(stamp.len() == 8);
        assert(bytes.subrange(0, 32) =~= record.bid_id@);
        assert(bytes.subrange(32, 64) =~= record.auction_id@);
        assert(bytes.subrange(64, 96) =~= record.commitment_hash@);
        assert(bytes.subrange(96, 104) =~= stamp);
        let t = record.timestamp;
        assert((t as u64) as i64 == t) by (bit_vector);
    }
}

/// What a bidder discloses in the reveal phase.
#[derive(Clone, Debug, PartialEq, Eq)]
pub struct BidReveal {
    /// The amount bid.
    pub amount: u64,
    /// The salt that went into the commitment.
    pub salt: [u8; 32],
    /// Proof that the reveal is valid.
    pub proof: Vec<u8>,
}

/// The bytes a commitment is the digest of: the amount as eight
/// little-endian bytes, then the salt, then the bidder's key.
pub open spec fn commitment_preimage(amount: u64, salt: [u8; 32], bidder: Address) -> Seq<u8> {
    spec_u64_to_le_bytes(amount) + salt@ + bidder@
}

/// The commitment that binds `amount`, `salt` and `bidder`.
pub open spec fn commitment_of(amount: u64, salt: [u8; 32], bidder: Address) -> Seq<u8> {
    keccak256(commitment_preimage(amount, salt, bidder))
}

impl BidReveal {
    /// Whether the disclosed amount and salt, with `bidder`, hash to
    /// `commitment_hash`.
    pub fn verify_commitment(&self, commitment_hash: &[u8; 32], bidder: &Address) -> (opens: bool)
        ensures
            opens == (commitment_of(self.amount, self.salt, *bidder) == commitment_hash@),
    {
        let computed = Self::compute_commitment(self.amount, &self.salt, bidder);
        assert(computed == *commitment_hash <==> computed@ == commitment_hash@) by {
            assert(computed@ == commitment_hash@ ==> computed =~= *commitment_hash);
        }
        same_address(&computed, commitment_hash)
    }

    /// The commitment for `amount`, `salt` and `bidder`.
    pub fn compute_commitment(amount: u64, salt: &[u8; 32], bidder: &Address) -> (digest: [u8; 32])
        ensures
            digest@ == commitment_of(amount, *salt, *bidder),
    {
        let mut data: Vec<u8> = Vec::new();
        let amount_bytes = u64_to_le_bytes(amount);
        append_bytes(&mut data, amount_bytes.as_slice());
        append_bytes(&mut data, salt);
        append_bytes(&mut data, bidder);
        assert(data@ =~= commitment_preimage(amount, *salt, *bidder));
        keccak_hash(data.as_slice())
    }
}

/// Where a bid stands.
#[derive(Clone, Copy, Debug, PartialEq, Eq, Structural)]
pub enum BidStatus {
    /// Submitted, not yet revealed.
    Committed,
    /// Revealed.
    Revealed,
    /// Won the auction.
    Won,
    /// Lost; the collateral can be claimed.
    Lost,
    /// Never revealed.
    Forfeited,
    /// Collateral handed back.
    Refunded,
}

impl Default for BidStatus {
    fn default() -> (status: Self)
        ensures
            status == BidStatus::Committed,
    {
        BidStatus::Committed
    }
}

impl BidCommitment {
    /// A bid record with nothing entered.
    pub open spec fn is_blank(&self) -> bool {
        &&& is_zeroed(self.bid_id)
        &&& is_zeroed(self.auction_id)
        &&& is_zeroed(self.bidder)
        &&& is_zeroed(self.commitment_hash)
        &&& self.timestamp == 0
        &&& !self.revealed
        &&& self.revealed_amount is None
        &&& is_zeroed(self.proof_hash)
        &&& self.collateral_deposited == 0
        &&& !self.collateral_returned
        &&& self.bump == 0
    }
}

impl Default for BidCommitment {
    fn default() -> (bid: Self)
        ensures
            bid.is_blank(),
    {
        BidCommitment {
            bid_id: [0u8; 32],
            auction_id: [0u8; 32],
            bidder: [0u8; 32],
            commitment_hash: [0u8; 32],
            timestamp: 0,
            revealed: false,
            revealed_amount: None,
            proof_hash: [0u8; 32],
            collateral_deposited: 0,
            collateral_returned: false,
            bump: 0,
        }
    }
}

} // verus!
