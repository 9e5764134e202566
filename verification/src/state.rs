//! The records of the marketplace and the rules each one keeps.

pub mod auction;
pub mod bid;
pub mod dispute;
pub mod escrow;
pub mod product;
pub mod profile;
pub mod program_config;
