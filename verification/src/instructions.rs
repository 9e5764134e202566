//! The operations of the marketplace. Each takes the records it works on,
//! decides, and either changes them and reports what is to be paid, or
//! names the first reason why it cannot and leaves every record as it was.

pub mod cancel_auction;
pub mod claim_refund;
pub mod confirm_delivery;
pub mod create_auction;
pub mod initialize_program;
pub mod raise_dispute;
pub mod resolve_dispute;
pub mod reveal_bid;
pub mod settle_auction;
pub mod submit_bid;
pub mod update_profile;
