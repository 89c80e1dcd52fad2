//! Verified core of a constant-product AMM pool: the decisions that the
//! `deposit` and `swap` instructions make, expressed as plans of token-program
//! operations over a plain-value model of the accounts they read.
pub mod error;
pub mod token;
pub mod deposit;
pub mod swap;
