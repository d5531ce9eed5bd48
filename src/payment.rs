//! The vesting record and the payment that owns it.
use vstd::prelude::*;

use crate::curve::{lemma_value_monotonic, Curve};
use crate::error::ContractError;

verus! {

/// The lifecycle of a payment: `Unfunded`, then `Funded`, then `Canceled`,
/// or `Unfunded` straight to `Canceled`.
#[derive(Clone, Copy, Debug, PartialEq, Eq, Structural)]
pub enum Status {
    Unfunded,
    Funded,
    Canceled,
}

/// The token being vested.
#[derive(Clone, Debug, PartialEq, Eq)]
pub enum CheckedDenom {
    /// A native token, by denomination.
    Native(String),
    /// A cw20 token, by contract address.
    Cw20(String),
}

/// A transfer that the host is asked to carry out.
#[derive(Clone, Copy, Debug, PartialEq, Eq, Structural)]
pub enum TransferIntent {
    /// Send `amount` of the vested token to the recipient.
    ToRecipient { amount: u128 },
    /// Return `amount` of the vested token to the admin pool.
    ToAdminPool { amount: u128 },
}

/// How the total is released over time.
#[derive(Clone, Debug, PartialEq, Eq)]
pub enum Schedule {
    /// Vests linearly from `0` to `total` over the duration.
    SaturatingLinear,
    /// Vests by linear interpolation between `(seconds, amount)` points,
    /// `seconds` counted from the start time. The first amount must be zero,
    /// the last the total, and the first `seconds` at least 1.
    PiecewiseLinear(Vec<(u64, u128)>),
}

/// A vesting agreement.
#[derive(Clone, Debug, PartialEq, Eq)]
pub struct Vest {
    /// The amount vested `t` seconds after `start_time`.
    pub vested: Curve,
    /// Start of vesting, in seconds.
    pub start_time: u64,
    pub status: Status,
    pub recipient: String,
    pub denom: CheckedDenom,
    /// The amount paid to the recipient so far.
    pub claimed: u128,
    pub title: String,
    pub description: Option<String>,
}

/// What a vesting agreement is made from.
#[derive(Clone, Debug, PartialEq, Eq)]
pub struct VestInit {
    pub total: u128,
    pub schedule: Schedule,
    /// In seconds.
    pub start_time: u64,
    pub duration_seconds: u64,
    pub denom: CheckedDenom,
    pub recipient: String,
    pub title: String,
    pub description: Option<String>,
}

/// `a - b`, or 0 where `b` is the larger.
pub open spec fn saturating_sub(a: int, b: int) -> int {
    if a > b {
        a - b
    } else {
        0
    }
}

/// The lesser of `a` and `b`.
pub open spec fn min(a: int, b: int) -> int {
    if a <= b {
        a
    } else {
        b
    }
}

impl Schedule {
    /// The curve that this schedule describes for `total` over `duration`.
    pub open spec fn curve_spec(self, total: u128, duration: u64) -> Curve {
        match self {
            Schedule::SaturatingLinear => Curve::SaturatingLinear {
                min_x: 0,
                min_y: 0,
                max_x: duration,
                max_y: total,
            },
            Schedule::PiecewiseLinear(steps) => Curve::PiecewiseLinear { steps },
        }
    }

    /// The outcome of building the curve.
    pub open spec fn into_curve_spec(self, total: u128, duration: u64) -> Result<
        Curve,
        ContractError,
    > {
        let c = self.curve_spec(total, duration);
        if self matches Schedule::PiecewiseLinear(steps) && steps@.len() < 2 {
            Err(ContractError::ConstantVest)
        } else if c.check_spec() is Err {
            Err(ContractError::Curve(c.check_spec()->Err_0))
        } else if c.min_value() != 0 || c.max_value() != total {
            Err(
                ContractError::VestRange {
                    min: c.min_value() as u128,
                    max: c.max_value() as u128,
                },
            )
        } else {
            Ok(c)
        }
    }

    /// Builds and validates the curve: it must never decrease and must run
    /// from exactly 0 to `total`.
    pub fn into_curve(self, total: u128, duration_seconds: u64) -> (r: Result<
        Curve,
        ContractError,
    >)
        ensures
            r == self.into_curve_spec(total, duration_seconds),
            r matches Ok(c) ==> c.wf() && c.min_value() == 0 && c.max_value() == total,
    {
        let c = match self {
            Schedule::SaturatingLinear => Curve::SaturatingLinear {
                min_x: 0,
                min_y: 0,
                max_x: duration_seconds,
                max_y: total,
            },
            Schedule::PiecewiseLinear(steps) => {
                if steps.len() < 2 {
                    return Err(ContractError::ConstantVest);
                }
                Curve::PiecewiseLinear { steps }
            },
        };
        match c.validate_monotonic_increasing() {
            Ok(()) => {},
            Err(e) => {
                return Err(ContractError::Curve(e));
            },
        }
        let range = c.range();
        if range.0 != 0 || range.1 != total {
            return Err(ContractError::VestRange { min: range.0, max: range.1 });
        }
        Ok(c)
    }
}

impl Vest {
    /// A valid curve, and no more claimed than the curve's total.
    pub open spec fn wf(&self) -> bool {
        &&& self.vested.wf()
        &&& self.claimed <= self.vested.max_value()
    }

    /// The amount vested at time `t`.
    pub open spec fn vested_spec(&self, t: int) -> int {
        self.vested.value_spec(saturating_sub(t, self.start_time as int))
    }

    /// The amount that will ever vest.
    pub open spec fn total_spec(&self) -> int {
        self.vested.max_value()
    }

    /// The outcome of constructing a vest from `init`.
    pub open spec fn new_spec(init: VestInit) -> Result<Vest, ContractError> {
        if init.total == 0 {
            Err(ContractError::ZeroVest)
        } else if init.duration_seconds == 0 {
            Err(ContractError::Instavest)
        } else {
            match init.schedule.into_curve_spec(init.total, init.duration_seconds) {
                Err(e) => Err(e),
                Ok(c) => Ok(
                    Vest {
                        vested: c,
                        start_time: init.start_time,
                        status: Status::Unfunded,
                        recipient: init.recipient,
                        denom: init.denom,
                        claimed: 0,
                        title: init.title,
                        description: init.description,
                    },
                ),
            }
        }
    }

    /// This vest canceled at time `t`: the curve frozen at its value then.
    pub open spec fn cancel_spec(self, t: int) -> Vest {
        Vest {
            status: Status::Canceled,
            vested: Curve::Constant { y: self.vested_spec(t) as u128 },
            ..self
        }
    }

    /// Seconds from the curve's first point to its last, none once frozen.
    pub open spec fn duration_spec(&self) -> Option<u64> {
        match self.vested {
            Curve::Constant { .. } => None,
            Curve::SaturatingLinear { min_x, max_x, .. } => Some((max_x - min_x) as u64),
            Curve::PiecewiseLinear { steps } => Some((steps@.last().0 - steps@[0].0) as u64),
        }
    }

    /// Validates `init` and makes an unfunded vest with nothing claimed.
    pub fn new(init: VestInit) -> (r: Result<Vest, ContractError>)
        ensures
            r == Vest::new_spec(init),
            r matches Ok(v) ==> v.wf(),
    {
        if init.total == 0 {
            Err(ContractError::ZeroVest)
        } else if init.duration_seconds == 0 {
            Err(ContractError::Instavest)
        } else {
            match init.schedule.into_curve(init.total, init.duration_seconds) {
                Err(e) => Err(e),
                Ok(c) => Ok(
                    Vest {
                        vested: c,
                        start_time: init.start_time,
                        status: Status::Unfunded,
                        recipient: init.recipient,
                        denom: init.denom,
                        claimed: 0,
                        title: init.title,
                        description: init.description,
                    },
                ),
            }
        }
    }

    /// The amount that will ever vest; it drops to the frozen amount on
    /// cancellation.
    pub fn total(&self) -> (r: u128)
        requires
            self.wf(),
        ensures
            r == self.total_spec(),
    {
        self.vested.range().1
    }

    /// The amount vested at time `t`; nothing vests before the start.
    pub fn vested(&self, t: u64) -> (r: u128)
        requires
            self.wf(),
        ensures
            r == self.vested_spec(t as int),
    {
        let elapsed: u64 = t.saturating_sub(self.start_time);
        self.vested.value(elapsed)
    }

    /// Cancels the vest at `t`: nothing more vests after `t`.
    pub fn cancel(&mut self, t: u64)
        requires
            old(self).wf(),
            old(self).status != Status::Canceled,
        ensures
            *final(self) == old(self).cancel_spec(t as int),
    {
        let y = self.vested(t);
        self.status = Status::Canceled;
        self.vested = Curve::Constant { y };
    }

    /// The time from start to end of vesting, or `None` once canceled.
    pub fn duration(&self) -> (r: Option<u64>)
        requires
            self.wf(),
        ensures
            r == self.duration_spec(),
    {
        match &self.vested {
            Curve::Constant { .. } => None,
            Curve::SaturatingLinear { min_x, max_x, .. } => Some(*max_x - *min_x),
            Curve::PiecewiseLinear { steps } => {
                proof {
                    crate::curve::lemma_xs_ordered_first_last(steps@);
                }
                Some(steps[steps.len() - 1].0 - steps[0].0)
            },
        }
    }
}

/// The single slot that holds a payment's vest.
pub struct Payment {
    /// The name under which the host stores the vest.
    pub namespace: String,
    /// The vest, once initialized.
    pub vesting: Option<Vest>,
}

/// What may be paid out at once: `total - claimed` while funded, else 0.
pub open spec fn liquid_spec(v: Vest) -> int {
    if v.status == Status::Funded {
        v.total_spec() - v.claimed
    } else {
        0
    }
}

/// The amount that may be distributed at `t`: the lesser of what is liquid
/// and what has vested but not been claimed.
pub open spec fn distributable_spec(v: Vest, t: int) -> Result<u128, ContractError> {
    if v.vested_spec(t) < v.claimed {
        Err(ContractError::Overflow)
    } else {
        Ok(min(liquid_spec(v), v.vested_spec(t) - v.claimed) as u128)
    }
}

/// The transfers that settle a cancellation: `to_recipient` and `to_admin`,
/// each only where it is not zero.
pub open spec fn cancel_intents(to_recipient: u128, to_admin: u128) -> Seq<TransferIntent> {
    (if to_recipient > 0 {
        seq![TransferIntent::ToRecipient { amount: to_recipient }]
    } else {
        seq![]
    }) + (if to_admin > 0 {
        seq![TransferIntent::ToAdminPool { amount: to_admin }]
    } else {
        seq![]
    })
}

/// The sum of the amounts of `s`.
pub open spec fn intents_total(s: Seq<TransferIntent>) -> int
    decreases s.len(),
{
    if s.len() == 0 {
        0
    } else {
        (match s.last() {
            TransferIntent::ToRecipient { amount } => amount as int,
            TransferIntent::ToAdminPool { amount } => amount as int,
        }) + intents_total(s.drop_last())
    }
}

impl Payment {
    /// A valid vest, where there is one.
    pub open spec fn wf(&self) -> bool {
        self.vesting matches Some(v) ==> v.wf()
    }

    /// The amount requested of `distribute`: the one given, or everything
    /// distributable.
    pub open spec fn request_spec(request: Option<u128>, d: u128) -> u128 {
        match request {
            Some(a) => a,
            None => d,
        }
    }

    /// The outcome of `distribute(t, request)`.
    pub open spec fn distribute_result(self, t: int, request: Option<u128>) -> Result<
        TransferIntent,
        ContractError,
    > {
        match self.vesting {
            None => Err(ContractError::NotFound),
            Some(v) => match distributable_spec(v, t) {
                Err(e) => Err(e),
                Ok(d) => {
                    let a = Payment::request_spec(request, d);
                    if a > d || a == 0 {
                        Err(ContractError::InvalidWithdrawal { request: a, claimable: d })
                    } else {
                        Ok(TransferIntent::ToRecipient { amount: a })
                    }
                },
            },
        }
    }

    /// The payment after `distribute(t, request)`: `claimed` grows by the
    /// amount paid, and nothing changes on an error.
    pub open spec fn distribute_post(self, t: int, request: Option<u128>) -> Payment {
        match self.distribute_result(t, request) {
            Ok(TransferIntent::ToRecipient { amount }) => Payment {
                vesting: Some(
                    Vest { claimed: (self.vesting->Some_0.claimed + amount) as u128, ..self.vesting->Some_0 },
                ),
                ..self
            },
            _ => self,
        }
    }

    /// The outcome of `cancel(t, total_balance)`.
    pub open spec fn cancel_result(self, t: int, total_balance: u128) -> Result<
        Seq<TransferIntent>,
        ContractError,
    > {
        match self.vesting {
            None => Err(ContractError::NotFound),
            Some(v) => if v.status == Status::Canceled {
                Err(ContractError::Cancelled)
            } else if v.vested_spec(t) < v.claimed || total_balance < v.vested_spec(t)
                - v.claimed {
                Err(ContractError::Overflow)
            } else {
                let to_recipient = (v.vested_spec(t) - v.claimed) as u128;
                Ok(cancel_intents(to_recipient, (total_balance - to_recipient) as u128))
            },
        }
    }

    /// The payment after `cancel(t, total_balance)`: the vest frozen at `t`
    /// on success, nothing changed on an error.
    pub open spec fn cancel_post(self, t: int, total_balance: u128) -> Payment {
        if self.cancel_result(t, total_balance) is Ok {
            Payment { vesting: Some(self.vesting->Some_0.cancel_spec(t)), ..self }
        } else {
            self
        }
    }

    /// An empty slot stored under `vesting_prefix`.
    pub fn new(vesting_prefix: &str) -> (r: Payment)
        ensures
            r.namespace@ == vesting_prefix@,
            r.vesting is None,
    {
        Payment { namespace: vesting_prefix.to_string(), vesting: None }
    }

    /// Validates `init` and stores the resulting vest. On an error the slot
    /// is left as it was.
    pub fn initialize(&mut self, init: VestInit) -> (r: Result<(), ContractError>)
        requires
            old(self).wf(),
        ensures
            final(self).wf(),
            final(self).namespace == old(self).namespace,
            match Vest::new_spec(init) {
                Ok(v) => r is Ok && final(self).vesting == Some(v),
                Err(e) => r == Err::<(), ContractError>(e) && *final(self) == *old(self),
            },
    {
        let v = Vest::new(init)?;
        self.vesting = Some(v);
        Ok(())
    }

    /// The stored vest.
    pub fn get_vest(&self) -> (r: Result<&Vest, ContractError>)
        ensures
            match self.vesting {
                Some(v) => r == Ok::<&Vest, ContractError>(&v),
                None => r == Err::<&Vest, ContractError>(ContractError::NotFound),
            },
    {
        match &self.vesting {
            Some(v) => Ok(v),
            None => Err(ContractError::NotFound),
        }
    }

    /// What may be paid out at once: `total - claimed` while funded, else 0.
    fn liquid(&self, vesting: &Vest) -> (r: u128)
        requires
            vesting.wf(),
        ensures
            r == liquid_spec(*vesting),
    {
        match vesting.status {
            Status::Unfunded => 0,
            Status::Funded => vesting.total() - vesting.claimed,
            Status::Canceled => 0,
        }
    }

    /// The amount of `vesting` that may be distributed at `t`: the lesser of
    /// what is liquid and what has vested but not been claimed. Fails where
    /// `t` is so early that less has vested than was claimed.
    pub fn distributable(&self, vesting: &Vest, t: u64) -> (r: Result<u128, ContractError>)
        requires
            vesting.wf(),
        ensures
            r == distributable_spec(*vesting, t as int),
    {
        let liquid = self.liquid(vesting);
        let vested = vesting.vested(t);
        if vested < vesting.claimed {
            return Err(ContractError::Overflow);
        }
        let claimable = vested - vesting.claimed;
        Ok(if liquid <= claimable {
            liquid
        } else {
            claimable
        })
    }

    /// Pays out `request`, or everything distributable at `t` where it is
    /// `None`. The request must be neither zero nor above what is
    /// distributable; on any error nothing changes.
    pub fn distribute(&mut self, t: u64, request: Option<u128>) -> (r: Result<
        TransferIntent,
        ContractError,
    >)
        requires
            old(self).wf(),
        ensures
            r == old(self).distribute_result(t as int, request),
            *final(self) == old(self).distribute_post(t as int, request),
            final(self).wf(),
    {
        let d = match &self.vesting {
            None => {
                return Err(ContractError::NotFound);
            },
            Some(v) => self.distributable(v, t)?,
        };
        let request = match request {
            Some(a) => a,
            None => d,
        };
        if request > d || request == 0 {
            return Err(ContractError::InvalidWithdrawal { request, claimable: d });
        }
        let mut v = self.vesting.take().unwrap();
        v.claimed = v.claimed + request;
        self.vesting = Some(v);
        Ok(TransferIntent::ToRecipient { amount: request })
    }

    /// Cancels the payment at `t`, with `total_balance` held. The recipient
    /// is sent what has vested and not been claimed, the admin pool the
    /// rest of the balance, each only where it is not zero; then the curve
    /// is frozen at its value at `t`. On any error nothing changes.
    pub fn cancel(&mut self, t: u64, total_balance: u128) -> (r: Result<
        Vec<TransferIntent>,
        ContractError,
    >)
        requires
            old(self).wf(),
        ensures
            match old(self).cancel_result(t as int, total_balance) {
                Ok(s) => r matches Ok(msgs) && msgs@ == s,
                Err(e) => r == Err::<Vec<TransferIntent>, ContractError>(e),
            },
            *final(self) == old(self).cancel_post(t as int, total_balance),
            final(self).wf(),
    {
        let (to_vestee, to_owner) = match &self.vesting {
            None => {
                return Err(ContractError::NotFound);
            },
            Some(v) => {
                if v.status == Status::Canceled {
                    return Err(ContractError::Cancelled);
                }
                let vested = v.vested(t);
                if vested < v.claimed {
                    return Err(ContractError::Overflow);
                }
                let to_vestee = vested - v.claimed;
                if total_balance < to_vestee {
                    return Err(ContractError::Overflow);
                }
                (to_vestee, total_balance - to_vestee)
            },
        };
        let mut msgs: Vec<TransferIntent> = Vec::new();
        if to_vestee > 0 {
            msgs.push(TransferIntent::ToRecipient { amount: to_vestee });
        }
        if to_owner > 0 {
            msgs.push(TransferIntent::ToAdminPool { amount: to_owner });
        }
        let mut v = self.vesting.take().unwrap();
        v.cancel(t);
        self.vesting = Some(v);
        assert(msgs@ =~= cancel_intents(to_vestee, to_owner));
        Ok(msgs)
    }

    /// Marks an unfunded payment funded; fails, changing nothing, in any
    /// other status.
    pub fn set_funded(&mut self) -> (r: Result<(), ContractError>)
        requires
            old(self).wf(),
        ensures
            final(self).wf(),
            match old(self).vesting {
                None => r == Err::<(), ContractError>(ContractError::NotFound) && *final(self)
                    == *old(self),
                Some(v) => match v.status {
                    Status::Unfunded => r is Ok && *final(self) == (Payment {
                        vesting: Some(Vest { status: Status::Funded, ..v }),
                        ..*old(self)
                    }),
                    Status::Funded => r == Err::<(), ContractError>(ContractError::Funded)
                        && *final(self) == *old(self),
                    Status::Canceled => r == Err::<(), ContractError>(ContractError::Cancelled)
                        && *final(self) == *old(self),
                },
            },
    {
        match &self.vesting {
            None => {
                return Err(ContractError::NotFound);
            },
            Some(v) => match v.status {
                Status::Unfunded => {},
                Status::Funded => {
                    return Err(ContractError::Funded);
                },
                Status::Canceled => {
                    return Err(ContractError::Cancelled);
                },
            },
        }
        let mut v = self.vesting.take().unwrap();
        v.status = Status::Funded;
        self.vesting = Some(v);
        Ok(())
    }

    /// The vest's duration in seconds, `None` once canceled.
    pub fn duration(&self) -> (r: Result<Option<u64>, ContractError>)
        requires
            self.wf(),
        ensures
            match self.vesting {
                Some(v) => r == Ok::<Option<u64>, ContractError>(v.duration_spec()),
                None => r == Err::<Option<u64>, ContractError>(ContractError::NotFound),
            },
    {
        match &self.vesting {
            Some(v) => Ok(v.duration()),
            None => Err(ContractError::NotFound),
        }
    }
}

/// The amount vested never decreases with time: for `t1 <= t2`,
/// `vested(t1) <= vested(t2)`.
pub proof fn lemma_vested_monotonic(v: Vest, t1: u64, t2: u64)
    requires
        v.wf(),
        t1 <= t2,
    ensures
        v.vested_spec(t1 as int) <= v.vested_spec(t2 as int),
{
    lemma_value_monotonic(
        v.vested,
        saturating_sub(t1 as int, v.start_time as int),
        saturating_sub(t2 as int, v.start_time as int),
    );
}

/// A new vest on a linear schedule has vested nothing at its start time and
/// everything at its start time plus its duration.
pub proof fn lemma_linear_schedule_ends(init: VestInit)
    requires
        init.schedule == Schedule::SaturatingLinear,
        Vest::new_spec(init) is Ok,
    ensures
        ({
            let v = Vest::new_spec(init)->Ok_0;
            &&& v.vested_spec(init.start_time as int) == 0
            &&& v.vested_spec(init.start_time + init.duration_seconds) == init.total
        }),
{
    let v = Vest::new_spec(init)->Ok_0;
    assert(v.vested == init.schedule.curve_spec(init.total, init.duration_seconds));
    assert(0 * (0 - 0) / (init.duration_seconds - 0) == 0) by (nonlinear_arith)
        requires
            init.duration_seconds > 0,
    ;
    assert((init.total - 0) * (init.duration_seconds - 0) / (init.duration_seconds - 0)
        == init.total) by (nonlinear_arith)
        requires
            init.duration_seconds > 0,
    ;
}

/// After a successful distribution at `t` no more has been claimed than has
/// vested at `t`, and the payment stays valid.
pub proof fn lemma_distribute_within_vested(p: Payment, t: u64, request: Option<u128>)
    requires
        p.wf(),
        p.distribute_result(t as int, request) is Ok,
    ensures
        ({
            let v = p.distribute_post(t as int, request).vesting->Some_0;
            v.claimed <= v.vested_spec(t as int)
        }),
        p.distribute_post(t as int, request).wf(),
{
}

/// Distributing with no amount given pays out exactly what is distributable
/// and adds it to `claimed`, where that is not zero.
pub proof fn lemma_distribute_everything(p: Payment, t: u64)
    requires
        p.wf(),
        p.vesting is Some,
        distributable_spec(p.vesting->Some_0, t as int) matches Ok(d) && d > 0,
    ensures
        ({
            let v = p.vesting->Some_0;
            let d = distributable_spec(v, t as int)->Ok_0;
            &&& p.distribute_result(t as int, None) == Ok::<TransferIntent, ContractError>(
                TransferIntent::ToRecipient { amount: d },
            )
            &&& p.distribute_post(t as int, None).vesting->Some_0.claimed == v.claimed + d
        }),
{
}

/// A request of zero, or of more than is distributable, fails with
/// `InvalidWithdrawal` and changes nothing.
pub proof fn lemma_distribute_rejects(p: Payment, t: u64, a: u128)
    requires
        p.vesting is Some,
        distributable_spec(p.vesting->Some_0, t as int) matches Ok(d) && (a == 0 || a > d),
    ensures
        p.distribute_result(t as int, Some(a)) == Err::<TransferIntent, ContractError>(
            ContractError::InvalidWithdrawal {
                request: a,
                claimable: distributable_spec(p.vesting->Some_0, t as int)->Ok_0,
            },
        ),
        p.distribute_post(t as int, Some(a)) == p,
{
}

/// After a cancellation at `t` the amount vested at any time is the amount
/// that had vested at `t`, and the vest has no duration.
pub proof fn lemma_cancel_freezes(p: Payment, t: u64, total_balance: u128, t2: u64)
    requires
        p.wf(),
        p.cancel_result(t as int, total_balance) is Ok,
    ensures
        ({
            let v = p.cancel_post(t as int, total_balance).vesting->Some_0;
            &&& v.vested_spec(t2 as int) == p.vesting->Some_0.vested_spec(t as int)
            &&& v.duration_spec() is None
        }),
{
    let v = p.vesting->Some_0;
    let e = saturating_sub(t as int, v.start_time as int);
    lemma_value_monotonic(v.vested, e, e);
}

/// A cancellation hands out exactly the balance held: what goes to the
/// recipient and what goes to the admin pool add up to `total_balance`.
pub proof fn lemma_cancel_conserves(p: Payment, t: u64, total_balance: u128)
    requires
        p.cancel_result(t as int, total_balance) is Ok,
    ensures
        intents_total(p.cancel_result(t as int, total_balance)->Ok_0) == total_balance,
{
    let v = p.vesting->Some_0;
    let a = (v.vested_spec(t as int) - v.claimed) as u128;
    let b = (total_balance - a) as u128;
    let s = cancel_intents(a, b);
    let first = if a > 0 {
        seq![TransferIntent::ToRecipient { amount: a }]
    } else {
        seq![]
    };
    let second = if b > 0 {
        seq![TransferIntent::ToAdminPool { amount: b }]
    } else {
        seq![]
    };
    assert(s == first + second);
    if a > 0 {
        assert(first.len() == 1 && first.last() == TransferIntent::ToRecipient { amount: a });
        assert(first.drop_last() =~= Seq::<TransferIntent>::empty());
        assert(intents_total(first.drop_last()) == 0);
    } else {
        assert(first.len() == 0);
    }
    assert(intents_total(first) == a);
    if b > 0 {
        assert(s.drop_last() =~= first);
        assert(intents_total(s) == b + intents_total(first));
    } else {
        assert(s =~= first);
    }
}

} // verus!
