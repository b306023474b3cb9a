//! Pricing and instruction assembly for buying tokens from a constant-product
//! bonding curve, with every step stated and proved.

pub mod address;
pub mod bot;
pub mod curve;
pub mod error;
pub mod instruction;
pub mod pricing;
