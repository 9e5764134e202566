//! The escrow that holds a settlement payment until it is released or
//! refunded, and the pool that holds bid collateral.

use vstd::prelude::*;
use crate::address::{Address, contains_address, is_zeroed};
use crate::errors::{EscrowError, RuntimeError};
use crate::state::auction::ProductType;
use crate::state::program_config::{fee_on, lemma_fee_bounded};

verus! {

/// How strictly an escrow is guarded, by the value it holds.
#[derive(Clone, Copy, Debug, PartialEq, Eq, Structural)]
pub enum EscrowSecurityLevel {
    /// Up to 1,000.00: one signature.
    Standard,
    /// Up to 10,000.00: two of three signatures.
    Enhanced,
    /// Above 10,000.00: three of five signatures and a time-lock.
    Maximum,
}

impl Default for EscrowSecurityLevel {
    fn default() -> (level: Self)
        ensures
            level == EscrowSecurityLevel::Standard,
    {
        EscrowSecurityLevel::Standard
    }
}

/// What has to hold before an escrow pays out.
#[derive(Clone, Debug, PartialEq, Eq)]
pub struct ReleaseConditions {
    /// Whether the buyer has to confirm delivery.
    pub requires_delivery_confirmation: bool,
    /// Seconds the funds stay locked after settlement.
    pub time_lock_duration: i64,
    /// Signatures needed.
    pub multi_sig_threshold: u8,
    /// Keys that may sign.
    pub signers: Vec<Address>,
    /// Signatures given so far.
    pub signatures_collected: u8,
    /// Moment from which the funds may be released.
    pub release_deadline: i64,
}

impl Default for ReleaseConditions {
    fn default() -> (conditions: Self)
        ensures
            !conditions.requires_delivery_confirmation,
            conditions.time_lock_duration == 0,
            conditions.multi_sig_threshold == 1,
            conditions.signers@ == Seq::<Address>::empty(),
            conditions.signatures_collected == 0,
            conditions.release_deadline == 0,
    {
        ReleaseConditions {
            requires_delivery_confirmation: false,
            time_lock_duration: 0,
            multi_sig_threshold: 1,
            signers: Vec::new(),
            signatures_collected: 0,
            release_deadline: 0,
        }
    }
}

/// Where an escrow stands.
#[derive(Clone, Copy, Debug, PartialEq, Eq, Structural)]
pub enum EscrowStatus {
    /// Opened with the auction, holding nothing.
    Created,
    /// Holding the settlement payment.
    Funded,
    /// Paid out to the beneficiary.
    Released,
    /// Paid back to the payer.
    Refunded,
    /// Locked while a dispute is open.
    Disputed,
    /// Closed with the cancelled auction.
    Cancelled,
}

impl EscrowStatus {
    /// Whether an escrow in this state may be in state `next` after one
    /// operation. A created escrow is funded, or cancelled with its
    /// auction; a funded one is released, refunded or locked for a dispute;
    /// a disputed one is released, refunded or unlocked. A released,
    /// refunded or cancelled escrow stays as it is.
    pub open spec fn may_become(self, next: EscrowStatus) -> bool {
        self == next || match self {
            EscrowStatus::Created => next == EscrowStatus::Funded || next
                == EscrowStatus::Cancelled,
            EscrowStatus::Funded => next == EscrowStatus::Released || next
                == EscrowStatus::Refunded || next == EscrowStatus::Disputed,
            EscrowStatus::Disputed => next == EscrowStatus::Released || next
                == EscrowStatus::Refunded || next == EscrowStatus::Funded,
            EscrowStatus::Released => false,
            EscrowStatus::Refunded => false,
            EscrowStatus::Cancelled => false,
        }
    }
}

impl Default for EscrowStatus {
    fn default() -> (status: Self)
        ensures
            status == EscrowStatus::Created,
    {
        EscrowStatus::Created
    }
}

/// How a released amount is divided.
#[derive(Clone, Copy, Debug, PartialEq, Eq, Structural)]
pub struct Payout {
    /// What the platform keeps.
    pub platform_fee: u64,
    /// What the beneficiary gets.
    pub beneficiary_receives: u64,
}

/// The division of `amount` at `fee_bps` basis points: the fee rounded
/// down, and the rest to the beneficiary.
pub open spec fn payout_of(amount: u64, fee_bps: u16) -> Payout {
    Payout {
        platform_fee: fee_on(amount as int, fee_bps as int) as u64,
        beneficiary_receives: (amount - fee_on(amount as int, fee_bps as int)) as u64,
    }
}

/// Conservation of a release: fee and beneficiary share add up to the
/// amount, exactly.
pub proof fn lemma_payout_conserves(amount: u64, fee_bps: u16)
    requires
        fee_bps <= 10_000,
    ensures
        payout_of(amount, fee_bps).platform_fee + payout_of(amount, fee_bps).beneficiary_receives
            == amount,
        payout_of(amount, fee_bps).platform_fee == fee_on(amount as int, fee_bps as int),
{
    lemma_fee_bounded(amount as int, fee_bps as int);
}

/// Divides `amount` between platform and beneficiary.
pub fn split_payment(amount: u64, fee_bps: u16) -> (payout: Payout)
    requires
        fee_bps <= 10_000,
    ensures
        payout == payout_of(amount, fee_bps),
        payout.platform_fee + payout.beneficiary_receives == amount,
{
    proof {
        lemma_fee_bounded(amount as int, fee_bps as int);
        assert(amount * fee_bps <= u64::MAX * 10_000) by (nonlinear_arith)
            requires
                0 <= amount <= u64::MAX,
                0 <= fee_bps <= 10_000,
        ;
    }
    let product: u128 = (amount as u128) * (fee_bps as u128);
    let platform_fee = (product / 10_000) as u64;
    Payout { platform_fee, beneficiary_receives: amount - platform_fee }
}

/// The time-lock on a payment for a product of the given type, in seconds:
/// none for tokens, thirty days for physical goods, one day for digital
/// goods, fourteen days for services.
pub open spec fn time_lock_for(product_type: ProductType) -> i64 {
    match product_type {
        ProductType::Nft => 0,
        ProductType::Physical => 2_592_000,
        ProductType::Digital => 86_400,
        ProductType::Service => 1_209_600,
    }
}

/// Whether a payment for a product of the given type waits for the buyer to
/// confirm delivery: physical goods and services do.
pub open spec fn needs_confirmation(product_type: ProductType) -> bool {
    product_type == ProductType::Physical || product_type == ProductType::Service
}

/// Computes `time_lock_for`.
pub fn time_lock_seconds(product_type: ProductType) -> (seconds: i64)
    ensures
        seconds == time_lock_for(product_type),
{
    match product_type {
        ProductType::Nft => 0,
        ProductType::Physical => 2_592_000,
        ProductType::Digital => 86_400,
        ProductType::Service => 1_209_600,
    }
}

/// Computes `needs_confirmation`.
pub fn confirmation_required(product_type: ProductType) -> (required: bool)
    ensures
        required == needs_confirmation(product_type),
{
    match product_type {
        ProductType::Nft => false,
        ProductType::Physical => true,
        ProductType::Digital => false,
        ProductType::Service => true,
    }
}

/// The custody of one auction's payment.
#[derive(Debug, Clone, PartialEq, Eq)]
pub struct EscrowAccount {
    /// Key of this record.
    pub escrow_id: Address,
    /// The auction paid for.
    pub auction_id: Address,
    /// Amount held; set once, at funding.
    pub amount: u64,
    /// Payment asset.
    pub token_mint: Address,
    /// Account that holds the funds.
    pub token_account: Address,
    /// The seller.
    pub beneficiary: Address,
    /// The winner, once the escrow is funded.
    pub payer: Option<Address>,
    /// Guard level, from the amount.
    pub security_level: EscrowSecurityLevel,
    /// What has to hold before release.
    pub release_conditions: ReleaseConditions,
    /// Where the escrow stands.
    pub status: EscrowStatus,
    /// Time of creation.
    pub created_at: i64,
    /// Time of release or refund.
    pub released_at: Option<i64>,
    /// Address derivation seed.
    pub bump: u8,
    /// Unused space.
    pub _reserved: [u8; 32],
}

impl EscrowAccount {
    /// What every stored escrow keeps: it holds nothing and names no payer
    /// until it is funded; from then on it names its payer; and the time of
    /// release is set exactly when it has been released or refunded.
    pub open spec fn wf(&self) -> bool {
        &&& (self.status == EscrowStatus::Created || self.status == EscrowStatus::Cancelled
            ==> self.amount == 0 && self.payer is None)
        &&& (self.status == EscrowStatus::Funded || self.status == EscrowStatus::Disputed
            || self.status == EscrowStatus::Released || self.status == EscrowStatus::Refunded
            ==> self.payer is Some)
        &&& (self.released_at is Some <==> self.status == EscrowStatus::Released || self.status
            == EscrowStatus::Refunded)
    }

    /// Largest amount guarded at the standard level: 1,000.00 in cents.
    pub const STANDARD_LIMIT: u64 = 100_000;

    /// Largest amount guarded at the enhanced level: 10,000.00 in cents.
    pub const ENHANCED_LIMIT: u64 = 1_000_000;

    /// The guard level for an amount.
    pub open spec fn security_level_for(amount_usd: u64) -> EscrowSecurityLevel {
        if amount_usd <= 100_000 {
            EscrowSecurityLevel::Standard
        } else if amount_usd <= 1_000_000 {
            EscrowSecurityLevel::Enhanced
        } else {
            EscrowSecurityLevel::Maximum
        }
    }

    /// The guard level for an amount given in cents.
    pub fn determine_security_level(amount_usd: u64) -> (level: EscrowSecurityLevel)
        ensures
            level == Self::security_level_for(amount_usd),
    {
        if amount_usd <= Self::STANDARD_LIMIT {
            EscrowSecurityLevel::Standard
        } else if amount_usd <= Self::ENHANCED_LIMIT {
            EscrowSecurityLevel::Enhanced
        } else {
            EscrowSecurityLevel::Maximum
        }
    }

    /// Whether the escrow is funded, past its time-lock and signed often
    /// enough.
    pub open spec fn releasable_at(&self, current_time: i64) -> bool {
        &&& self.status == EscrowStatus::Funded
        &&& current_time >= self.release_conditions.release_deadline
        &&& self.release_conditions.signatures_collected
            >= self.release_conditions.multi_sig_threshold
    }

    /// Whether the escrow may be released at `current_time`, leaving aside
    /// delivery confirmation.
    pub fn can_release(&self, current_time: i64) -> (releasable: bool)
        ensures
            releasable == self.releasable_at(current_time),
    {
        if self.status != EscrowStatus::Funded {
            return false;
        }
        if current_time < self.release_conditions.release_deadline {
            return false;
        }
        if self.release_conditions.signatures_collected
            < self.release_conditions.multi_sig_threshold {
            return false;
        }
        true
    }

    /// Counts a signature of `signer` towards release. Fails with
    /// `ConstraintOwner` where `signer` is not among the escrow's signers,
    /// and with `ArithmeticOverflow` where the count is at its limit.
    pub fn add_signature(&mut self, signer: &Address) -> (added: Result<(), RuntimeError>)
        ensures
            added == (if !old(self).release_conditions.signers@.contains(*signer) {
                Err::<(), RuntimeError>(RuntimeError::ConstraintOwner)
            } else if old(self).release_conditions.signatures_collected == u8::MAX {
                Err::<(), RuntimeError>(RuntimeError::ArithmeticOverflow)
            } else {
                Ok::<(), RuntimeError>(())
            }),
            added is Err ==> *final(self) == *old(self),
            added is Ok ==> final(self).release_conditions.signatures_collected == old(
                self
            ).release_conditions.signatures_collected + 1,
            added is Ok ==> *final(self) == (EscrowAccount {
                release_conditions: ReleaseConditions {
                    signatures_collected: final(self).release_conditions.signatures_collected,
                    ..old(self).release_conditions
                },
                ..*old(self)
            }),
    {
        if !contains_address(&self.release_conditions.signers, signer) {
            return Err(RuntimeError::ConstraintOwner);
        }
        if self.release_conditions.signatures_collected == u8::MAX {
            return Err(RuntimeError::ArithmeticOverflow);
        }
        self.release_conditions.signatures_collected += 1;
        Ok(())
    }

    /// The escrow after `fund`.
    pub open spec fn funded(self, amount: u64, payer: Address, product_type: ProductType, now: i64)
        -> EscrowAccount {
        EscrowAccount {
            amount,
            payer: Some(payer),
            status: EscrowStatus::Funded,
            security_level: Self::security_level_for(amount),
            release_conditions: ReleaseConditions {
                requires_delivery_confirmation: needs_confirmation(product_type),
                time_lock_duration: time_lock_for(product_type),
                release_deadline: (now + time_lock_for(product_type)) as i64,
                ..self.release_conditions
            },
            ..self
        }
    }

    /// Takes the settlement payment into custody. The amount fixes the
    /// guard level and the product type fixes the release conditions. Only
    /// a newly created escrow can be funded: a funded one answers
    /// `AlreadyFunded`, any other `InvalidEscrowState`.
    pub fn fund(
        &mut self,
        amount: u64,
        payer: Address,
        product_type: ProductType,
        now: i64,
    ) -> (done: Result<(), EscrowError>)
        requires
            now + time_lock_for(product_type) <= i64::MAX,
        ensures
            done == (match old(self).status {
                EscrowStatus::Created => Ok::<(), EscrowError>(()),
                EscrowStatus::Funded => Err::<(), EscrowError>(EscrowError::AlreadyFunded),
                _ => Err::<(), EscrowError>(EscrowError::InvalidEscrowState),
            }),
            done is Err ==> *final(self) == *old(self),
            done is Ok ==> *final(self) == old(self).funded(amount, payer, product_type, now),
            old(self).status.may_become(final(self).status),
            old(self).wf() ==> final(self).wf(),
    {
        match self.status {
            EscrowStatus::Created => {},
            EscrowStatus::Funded => {
                return Err(EscrowError::AlreadyFunded);
            },
            _ => {
                return Err(EscrowError::InvalidEscrowState);
            },
        }
        let lock = time_lock_seconds(product_type);
        self.amount = amount;
        self.payer = Some(payer);
        self.status = EscrowStatus::Funded;
        self.security_level = Self::determine_security_level(amount);
        self.release_conditions.requires_delivery_confirmation = confirmation_required(
            product_type,
        );
        self.release_conditions.time_lock_duration = lock;
        self.release_conditions.release_deadline = now + lock;
        Ok(())
    }

    /// Why the escrow cannot be released, if it cannot: the first of wrong
    /// state, running time-lock, missing signatures, missing confirmation.
    pub open spec fn release_obstacle(&self, delivery_confirmed: bool, now: i64) -> Option<
        EscrowError,
    > {
        if self.status != EscrowStatus::Funded {
            Some(EscrowError::InvalidEscrowState)
        } else if now < self.release_conditions.release_deadline {
            Some(EscrowError::TimeLockNotExpired)
        } else if self.release_conditions.signatures_collected
            < self.release_conditions.multi_sig_threshold {
            Some(EscrowError::InsufficientSignatures)
        } else if self.release_conditions.requires_delivery_confirmation && !delivery_confirmed {
            Some(EscrowError::DeliveryNotConfirmed)
        } else {
            None
        }
    }

    /// Releases the funds: the platform keeps its fee and the beneficiary
    /// gets the rest. The escrow has to be funded, past its time-lock,
    /// signed often enough and, where its conditions ask for it, confirmed
    /// as delivered.
    pub fn release(&mut self, fee_bps: u16, delivery_confirmed: bool, now: i64) -> (released:
        Result<Payout, EscrowError>)
        requires
            fee_bps <= 10_000,
        ensures
            match released {
                Ok(payout) => old(self).release_obstacle(delivery_confirmed, now) is None
                    && payout == payout_of(old(self).amount, fee_bps) && payout.platform_fee
                    + payout.beneficiary_receives == old(self).amount && *final(self) == (
                EscrowAccount {
                    status: EscrowStatus::Released,
                    released_at: Some(now),
                    ..*old(self)
                }),
                Err(e) => old(self).release_obstacle(delivery_confirmed, now) == Some(e)
                    && *final(self) == *old(self),
            },
            old(self).status.may_become(final(self).status),
            old(self).wf() ==> final(self).wf(),
    {
        if self.status != EscrowStatus::Funded {
            return Err(EscrowError::InvalidEscrowState);
        }
        if now < self.release_conditions.release_deadline {
            return Err(EscrowError::TimeLockNotExpired);
        }
        if self.release_conditions.signatures_collected
            < self.release_conditions.multi_sig_threshold {
            return Err(EscrowError::InsufficientSignatures);
        }
        if self.release_conditions.requires_delivery_confirmation && !delivery_confirmed {
            return Err(EscrowError::DeliveryNotConfirmed);
        }
        let payout = split_payment(self.amount, fee_bps);
        self.status = EscrowStatus::Released;
        self.released_at = Some(now);
        Ok(payout)
    }

    /// Hands the full amount back to the payer. Only a funded or disputed
    /// escrow can be refunded.
    pub fn refund(&mut self, now: i64) -> (refunded: Result<u64, EscrowError>)
        ensures
            match refunded {
                Ok(amount) => (old(self).status == EscrowStatus::Funded || old(self).status
                    == EscrowStatus::Disputed) && amount == old(self).amount && *final(self) == (
                EscrowAccount {
                    status: EscrowStatus::Refunded,
                    released_at: Some(now),
                    ..*old(self)
                }),
                Err(e) => e == EscrowError::InvalidEscrowState && old(self).status
                    != EscrowStatus::Funded && old(self).status != EscrowStatus::Disputed
                    && *final(self) == *old(self),
            },
            old(self).status.may_become(final(self).status),
            old(self).wf() ==> final(self).wf(),
    {
        if self.status != EscrowStatus::Funded && self.status != EscrowStatus::Disputed {
            return Err(EscrowError::InvalidEscrowState);
        }
        self.status = EscrowStatus::Refunded;
        self.released_at = Some(now);
        Ok(self.amount)
    }

    /// Locks a funded escrow while a dispute is open.
    pub fn lock_for_dispute(&mut self) -> (locked: Result<(), EscrowError>)
        ensures
            match locked {
                Ok(_) => old(self).status == EscrowStatus::Funded && *final(self) == (
                EscrowAccount { status: EscrowStatus::Disputed, ..*old(self) }),
                Err(e) => e == EscrowError::InvalidEscrowState && old(self).status
                    != EscrowStatus::Funded && *final(self) == *old(self),
            },
            old(self).status.may_become(final(self).status),
            old(self).wf() ==> final(self).wf(),
    {
        if self.status != EscrowStatus::Funded {
            return Err(EscrowError::InvalidEscrowState);
        }
        self.status = EscrowStatus::Disputed;
        Ok(())
    }

    /// Returns a disputed escrow to the funded state.
    pub fn unlock_from_dispute(&mut self) -> (unlocked: Result<(), EscrowError>)
        ensures
            match unlocked {
                Ok(_) => old(self).status == EscrowStatus::Disputed && *final(self) == (
                EscrowAccount { status: EscrowStatus::Funded, ..*old(self) }),
                Err(e) => e == EscrowError::InvalidEscrowState && old(self).status
                    != EscrowStatus::Disputed && *final(self) == *old(self),
            },
            old(self).status.may_become(final(self).status),
            old(self).wf() ==> final(self).wf(),
    {
        if self.status != EscrowStatus::Disputed {
            return Err(EscrowError::InvalidEscrowState);
        }
        self.status = EscrowStatus::Funded;
        Ok(())
    }
}

/// The bid collateral held for one payment asset.
#[derive(Debug, Clone, Copy, PartialEq, Eq)]
pub struct CollateralPool {
    /// Key allowed to move the collateral.
    pub authority: Address,
    /// Payment asset.
    pub token_mint: Address,
    /// Account that holds the collateral.
    pub token_account: Address,
    /// Collateral held.
    pub total_collateral: u64,
    /// Bids whose collateral is held.
    pub active_bids: u32,
    /// Address derivation seed.
    pub bump: u8,
}

impl CollateralPool {
    /// Takes in the collateral of one bid.
    pub fn deposit(&mut self, amount: u64)
        requires
            old(self).total_collateral + amount <= u64::MAX,
            old(self).active_bids < u32::MAX,
        ensures
            *final(self) == (CollateralPool {
                total_collateral: (old(self).total_collateral + amount) as u64,
                active_bids: (old(self).active_bids + 1) as u32,
                ..*old(self)
            }),
    {
        self.total_collateral += amount;
        self.active_bids += 1;
    }

    /// Gives out the collateral of one bid. Fails with `InsufficientFunds`
    /// where the pool holds less than `amount`. The count of bids stops at
    /// zero.
    pub fn withdraw(&mut self, amount: u64) -> (done: Result<(), RuntimeError>)
        ensures
            match done {
                Ok(_) => amount <= old(self).total_collateral && *final(self) == (CollateralPool {
                    total_collateral: (old(self).total_collateral - amount) as u64,
                    active_bids: if old(self).active_bids > 0 {
                        (old(self).active_bids - 1) as u32
                    } else {
                        0
                    },
                    ..*old(self)
                }),
                Err(e) => e == RuntimeError::InsufficientFunds && amount > old(
                    self
                ).total_collateral && *final(self) == *old(self),
            },
    {
        if amount > self.total_collateral {
            return Err(RuntimeError::InsufficientFunds);
        }
        self.total_collateral -= amount;
        if self.active_bids > 0 {
            self.active_bids -= 1;
        }
        Ok(())
    }
}

impl EscrowAccount {
    /// An escrow record with nothing entered: created, empty, under the default release conditions.
    pub open spec fn is_blank(&self) -> bool {
        &&& is_zeroed(self.escrow_id)
        &&& is_zeroed(self.auction_id)
        &&& self.amount == 0
        &&& is_zeroed(self.token_mint)
        &&& is_zeroed(self.token_account)
        &&& is_zeroed(self.beneficiary)
        &&& self.payer is None
        &&& self.security_level == EscrowSecurityLevel::Standard
        &&& !self.release_conditions.requires_delivery_confirmation
        &&& self.release_conditions.time_lock_duration == 0
        &&& self.release_conditions.multi_sig_threshold == 1
        &&& self.release_conditions.signers@.len() == 0
        &&& self.release_conditions.signatures_collected == 0
        &&& self.release_conditions.release_deadline == 0
        &&& self.status == EscrowStatus::Created
        &&& self.created_at == 0
        &&& self.released_at is None
        &&& self.bump == 0
        &&& is_zeroed(self._reserved)
    }
}

impl Default for EscrowAccount {
    fn default() -> (escrow: Self)
        ensures
            escrow.is_blank(),
    {
        EscrowAccount {
            escrow_id: [0u8; 32],
            auction_id: [0u8; 32],
            amount: 0,
            token_mint: [0u8; 32],
            token_account: [0u8; 32],
            beneficiary: [0u8; 32],
            payer: None,
            security_level: EscrowSecurityLevel::Standard,
            release_conditions: ReleaseConditions::default(),
            status: EscrowStatus::Created,
            created_at: 0,
            released_at: None,
            bump: 0,
            _reserved: [0u8; 32],
        }
    }
}

impl CollateralPool {
    /// A pool record with nothing entered.
    pub open spec fn is_blank(&self) -> bool {
        &&& is_zeroed(self.authority)
        &&& is_zeroed(self.token_mint)
        &&& is_zeroed(self.token_account)
        &&& self.total_collateral == 0
        &&& self.active_bids == 0
        &&& self.bump == 0
    }
}

impl Default for CollateralPool {
    fn default() -> (pool: Self)
        ensures
            pool.is_blank(),
    {
        CollateralPool {
            authority: [0u8; 32],
            token_mint: [0u8; 32],
            token_account: [0u8; 32],
            total_collateral: 0,
            active_bids: 0,
            bump: 0,
        }
    }
}

} // verus!
