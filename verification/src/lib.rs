//! Sealed-bid, second-price auctions with escrowed settlement and arbitrated
//! disputes: the state machine of the marketplace and its reputation engine.

pub mod address;
pub mod collateral;
pub mod encoding;
pub mod errors;
pub mod hashing;
pub mod instructions;
pub mod log_scale;
pub mod program;
pub mod second_price;
pub mod state;
