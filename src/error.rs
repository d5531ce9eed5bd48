//! Errors of vesting construction and of the payment lifecycle.
use vstd::prelude::*;

use crate::curve::CurveError;

verus! {

/// Every way an operation on a vesting payment can fail.
#[derive(Clone, Copy, Debug, PartialEq, Eq, Structural)]
pub enum ContractError {
    /// The total to vest is zero.
    ZeroVest,
    /// The schedule would end before it starts, or has no duration.
    Instavest,
    /// A piecewise schedule with fewer than two points.
    ConstantVest,
    /// The schedule's points do not describe a non-decreasing curve.
    Curve(CurveError),
    /// The curve does not run from zero to the total.
    VestRange { min: u128, max: u128 },
    /// The payment is already funded.
    Funded,
    /// The payment is already canceled.
    Cancelled,
    /// The balance held does not cover the total.
    WrongFundAmount { sent: u128, expected: u128 },
    /// The requested amount is zero or above what may be distributed.
    InvalidWithdrawal { request: u128, claimable: u128 },
    /// Only native tokens can be vested.
    WrongCw20,
    /// No vesting payment has been initialized.
    NotFound,
    /// An amount would fall below zero: the time lies before an earlier
    /// withdrawal, or the balance is below what the recipient is owed.
    Overflow,
}

} // verus!
