//! The decisions behind the contract's entry points, on plain values; the
//! host supplies the time and balances and carries out the transfers.
use vstd::prelude::*;

use crate::error::ContractError;
use crate::payment::{CheckedDenom, Payment, Schedule, Status, Vest, VestInit};

verus! {

/// What instantiation is given, with the denomination and the recipient
/// already checked by the host.
pub struct InstantiateMsg {
    /// The owner of the contract, who may cancel.
    pub owner: String,
    pub recipient: String,
    pub title: String,
    pub description: Option<String>,
    pub total: u128,
    pub denom: CheckedDenom,
    pub schedule: Schedule,
    /// In seconds; `None` starts vesting at instantiation.
    pub start_time: Option<u64>,
    pub vesting_duration_seconds: u64,
}

/// The start time of `msg` when instantiated at `now`.
pub open spec fn start_of(msg: InstantiateMsg, now: u64) -> u64 {
    match msg.start_time {
        Some(s) => s,
        None => now,
    }
}

/// The vest that `msg` asks for when instantiated at `now`.
pub open spec fn init_of(msg: InstantiateMsg, now: u64) -> VestInit {
    VestInit {
        total: msg.total,
        schedule: msg.schedule,
        start_time: start_of(msg, now),
        duration_seconds: msg.vesting_duration_seconds,
        denom: msg.denom,
        recipient: msg.recipient,
        title: msg.title,
        description: msg.description,
    }
}

/// Sets up the payment at time `now`. Only native tokens can be vested, and
/// vesting must end after `now`; otherwise the vest is validated and stored
/// as `Payment::initialize` does. On any error nothing changes.
pub fn instantiate(payment: &mut Payment, now: u64, msg: InstantiateMsg) -> (r: Result<
    (),
    ContractError,
>)
    requires
        old(payment).wf(),
    ensures
        final(payment).wf(),
        r is Err ==> *final(payment) == *old(payment),
        msg.denom is Cw20 ==> r == Err::<(), ContractError>(ContractError::WrongCw20),
        msg.denom is Native && start_of(msg, now) + msg.vesting_duration_seconds <= now ==> r
            == Err::<(), ContractError>(ContractError::Instavest),
        msg.denom is Native && start_of(msg, now) + msg.vesting_duration_seconds > now ==> match Vest::new_spec(
            init_of(msg, now),
        ) {
            Ok(v) => r is Ok && final(payment).vesting == Some(v),
            Err(e) => r == Err::<(), ContractError>(e),
        },
{
    match msg.denom {
        CheckedDenom::Native(_) => {},
        CheckedDenom::Cw20(_) => {
            return Err(ContractError::WrongCw20);
        },
    }
    let start_time = match msg.start_time {
        Some(s) => s,
        None => now,
    };
    if (start_time as u128) + (msg.vesting_duration_seconds as u128) <= now as u128 {
        return Err(ContractError::Instavest);
    }
    payment.initialize(
        VestInit {
            total: msg.total,
            schedule: msg.schedule,
            start_time,
            duration_seconds: msg.vesting_duration_seconds,
            denom: msg.denom,
            recipient: msg.recipient,
            title: msg.title,
            description: msg.description,
        },
    )
}

/// Marks the payment funded once `balance`, the amount the contract holds,
/// covers the total. Fails, changing nothing, where the payment is not
/// unfunded or the balance falls short.
pub fn execute_fund(payment: &mut Payment, balance: u128) -> (r: Result<(), ContractError>)
    requires
        old(payment).wf(),
    ensures
        final(payment).wf(),
        r is Err ==> *final(payment) == *old(payment),
        match old(payment).vesting {
            None => r == Err::<(), ContractError>(ContractError::NotFound),
            Some(v) => match v.status {
                Status::Funded => r == Err::<(), ContractError>(ContractError::Funded),
                Status::Canceled => r == Err::<(), ContractError>(ContractError::Cancelled),
                Status::Unfunded => if balance < v.total_spec() {
                    r == Err::<(), ContractError>(
                        ContractError::WrongFundAmount {
                            sent: balance,
                            expected: v.total_spec() as u128,
                        },
                    )
                } else {
                    r is Ok && *final(payment) == (Payment {
                        vesting: Some(Vest { status: Status::Funded, ..v }),
                        ..*old(payment)
                    })
                },
            },
        },
{
    let v = payment.get_vest()?;
    match v.status {
        Status::Unfunded => {},
        Status::Funded => {
            return Err(ContractError::Funded);
        },
        Status::Canceled => {
            return Err(ContractError::Cancelled);
        },
    }
    let total = v.total();
    if balance < total {
        return Err(ContractError::WrongFundAmount { sent: balance, expected: total });
    }
    payment.set_funded()
}

} // verus!
