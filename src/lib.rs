//! Token vesting: release curves, the vesting record, and the payment state
//! machine that distributes and cancels it.
pub mod contract;
pub mod curve;
pub mod error;
pub mod payment;
