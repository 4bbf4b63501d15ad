//! Pricing core of a two-token automated market maker.
//!
//! The library computes swap outputs, liquidity deposit/withdrawal
//! conversions and protocol fees as pure checked integer arithmetic.
//! Custody of funds, account validation and persistence belong to the
//! settlement layer around it; nothing here holds state or performs I/O.

pub mod base;
pub mod calculator;
pub mod constant_product;
pub mod constant_price;
pub mod error;
pub mod fees;
pub mod offset;
pub mod stable;
