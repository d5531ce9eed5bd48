use tc_vesting::contract::{execute_fund, instantiate, InstantiateMsg};
use tc_vesting::curve::{Curve, CurveError};
use tc_vesting::error::ContractError;
use tc_vesting::payment::{CheckedDenom, Payment, Schedule, Status, TransferIntent, Vest, VestInit};

fn init(total: u128, schedule: Schedule, start_time: u64, duration_seconds: u64) -> VestInit {
    VestInit {
        total,
        schedule,
        start_time,
        duration_seconds,
        denom: CheckedDenom::Native("uluna".to_string()),
        recipient: "recv".to_string(),
        title: "t".to_string(),
        description: None,
    }
}

fn funded(v: VestInit) -> Payment {
    let mut p = Payment::new("vesting");
    p.initialize(v).unwrap();
    p.set_funded().unwrap();
    p
}

fn msg(denom: CheckedDenom, start_time: Option<u64>, duration: u64) -> InstantiateMsg {
    InstantiateMsg {
        owner: "owner".to_string(),
        recipient: "recv".to_string(),
        title: "t".to_string(),
        description: None,
        total: 100,
        denom,
        schedule: Schedule::SaturatingLinear,
        start_time,
        vesting_duration_seconds: duration,
    }
}

#[test]
fn vested_never_decreases() {
    let v = Vest::new(init(8, Schedule::PiecewiseLinear(vec![(1, 0), (3, 4), (5, 8)]), 10, 5))
        .unwrap();
    let mut last = 0;
    for t in 0..30u64 {
        let now = v.vested(t);
        assert!(now >= last);
        last = now;
    }
    assert_eq!(v.vested(12), 2);
    assert_eq!(v.vested(u64::MAX), 8);
}

#[test]
fn linear_schedule_starts_at_zero_and_ends_at_total() {
    let v = Vest::new(init(1000, Schedule::SaturatingLinear, 40, 60)).unwrap();
    assert_eq!(v.vested(0), 0);
    assert_eq!(v.vested(40), 0);
    assert_eq!(v.vested(100), 1000);
    assert_eq!(v.vested(1000), 1000);
    assert_eq!(v.total(), 1000);
    assert_eq!(v.duration(), Some(60));
}

#[test]
fn interpolation_rounds_down() {
    let v = Vest::new(init(100, Schedule::SaturatingLinear, 0, 300)).unwrap();
    assert_eq!(v.vested(1), 0);
    assert_eq!(v.vested(3), 1);
    assert_eq!(v.vested(299), 99);
    let c = Curve::SaturatingLinear { min_x: 100, min_y: 0, max_x: 200, max_y: 50 };
    assert_eq!(c.value(103), 1);
    assert_eq!(c.value(150), 25);
}

#[test]
fn interpolation_of_largest_amounts() {
    let v = Vest::new(init(u128::MAX, Schedule::SaturatingLinear, 0, u64::MAX)).unwrap();
    assert_eq!(v.vested(u64::MAX), u128::MAX);
    assert_eq!(v.vested(u64::MAX / 2), (1u128 << 127) - (1u128 << 63) - 1);
}

#[test]
fn claimed_stays_within_vested() {
    let mut p = funded(init(100, Schedule::SaturatingLinear, 0, 100));
    p.distribute(30, Some(10)).unwrap();
    p.distribute(30, None).unwrap();
    let v = p.get_vest().unwrap();
    assert_eq!(v.claimed, 30);
    assert!(v.claimed <= v.vested(30));
}

#[test]
fn distribute_without_amount_takes_everything() {
    let mut p = funded(init(100, Schedule::SaturatingLinear, 0, 100));
    p.distribute(20, Some(5)).unwrap();
    let d = p.distributable(p.get_vest().unwrap(), 70).unwrap();
    assert_eq!(d, 65);
    assert_eq!(p.distribute(70, None), Ok(TransferIntent::ToRecipient { amount: 65 }));
    assert_eq!(p.get_vest().unwrap().claimed, 70);
    assert_eq!(p.distributable(p.get_vest().unwrap(), 70), Ok(0));
}

#[test]
fn distribute_rejects_zero_and_excess() {
    let mut p = funded(init(100, Schedule::SaturatingLinear, 0, 100));
    assert_eq!(
        p.distribute(40, Some(0)),
        Err(ContractError::InvalidWithdrawal { request: 0, claimable: 40 })
    );
    assert_eq!(
        p.distribute(40, Some(41)),
        Err(ContractError::InvalidWithdrawal { request: 41, claimable: 40 })
    );
    assert_eq!(p.get_vest().unwrap().claimed, 0);
}

#[test]
fn unfunded_payment_distributes_nothing() {
    let mut p = Payment::new("vesting");
    p.initialize(init(100, Schedule::SaturatingLinear, 0, 100)).unwrap();
    assert_eq!(p.distributable(p.get_vest().unwrap(), 50), Ok(0));
    assert_eq!(
        p.distribute(50, Some(1)),
        Err(ContractError::InvalidWithdrawal { request: 1, claimable: 0 })
    );
}

#[test]
fn earlier_time_than_claims_overflows() {
    let mut p = funded(init(100, Schedule::SaturatingLinear, 0, 100));
    p.distribute(50, None).unwrap();
    assert_eq!(p.distributable(p.get_vest().unwrap(), 10), Err(ContractError::Overflow));
    assert_eq!(p.distribute(10, None), Err(ContractError::Overflow));
    assert_eq!(p.cancel(10, 1000), Err(ContractError::Overflow));
    assert_eq!(p.get_vest().unwrap().status, Status::Funded);
}

#[test]
fn cancel_with_balance_below_entitlement_overflows() {
    let mut p = funded(init(100, Schedule::SaturatingLinear, 0, 100));
    assert_eq!(p.cancel(50, 49), Err(ContractError::Overflow));
    assert_eq!(p.get_vest().unwrap().status, Status::Funded);
}

#[test]
fn cancel_freezes_the_curve() {
    let mut p = funded(init(100, Schedule::SaturatingLinear, 0, 100));
    assert_eq!(p.duration(), Ok(Some(100)));
    p.cancel(30, 100).unwrap();
    let v = p.get_vest().unwrap();
    assert_eq!(v.status, Status::Canceled);
    assert_eq!(v.vested(30), 30);
    assert_eq!(v.vested(99), 30);
    assert_eq!(v.vested(10_000), 30);
    assert_eq!(v.total(), 30);
    assert_eq!(v.duration(), None);
    assert_eq!(p.duration(), Ok(None));
    assert_eq!(p.cancel(40, 100), Err(ContractError::Cancelled));
}

#[test]
fn cancel_splits_the_whole_balance() {
    let mut p = funded(init(100, Schedule::SaturatingLinear, 0, 100));
    p.distribute(20, None).unwrap();
    let msgs = p.cancel(60, 80).unwrap();
    assert_eq!(
        msgs,
        vec![
            TransferIntent::ToRecipient { amount: 40 },
            TransferIntent::ToAdminPool { amount: 40 }
        ]
    );
    let mut p = funded(init(100, Schedule::SaturatingLinear, 0, 100));
    assert_eq!(p.cancel(60, 60).unwrap(), vec![TransferIntent::ToRecipient { amount: 60 }]);
}

#[test]
fn cancel_before_funding() {
    let mut p = Payment::new("vesting");
    p.initialize(init(100, Schedule::SaturatingLinear, 0, 100)).unwrap();
    assert_eq!(p.cancel(0, 0).unwrap(), vec![]);
    assert_eq!(p.set_funded(), Err(ContractError::Cancelled));
}

#[test]
fn funding_happens_once() {
    let mut p = Payment::new("vesting");
    assert_eq!(p.set_funded(), Err(ContractError::NotFound));
    p.initialize(init(100, Schedule::SaturatingLinear, 0, 100)).unwrap();
    p.set_funded().unwrap();
    assert_eq!(p.set_funded(), Err(ContractError::Funded));
}

#[test]
fn empty_slot_is_not_found() {
    let mut p = Payment::new("vesting");
    assert_eq!(p.namespace, "vesting");
    assert!(p.get_vest().is_err());
    assert_eq!(p.duration(), Err(ContractError::NotFound));
    assert_eq!(p.distribute(0, None), Err(ContractError::NotFound));
    assert_eq!(p.cancel(0, 0), Err(ContractError::NotFound));
}

#[test]
fn failed_initialize_keeps_the_slot() {
    let mut p = Payment::new("vesting");
    p.initialize(init(100, Schedule::SaturatingLinear, 0, 100)).unwrap();
    assert_eq!(p.initialize(init(0, Schedule::SaturatingLinear, 0, 100)), Err(ContractError::ZeroVest));
    assert_eq!(p.get_vest().unwrap().total(), 100);
}

#[test]
fn construction_errors() {
    assert_eq!(
        Vest::new(init(100, Schedule::SaturatingLinear, 0, 0)),
        Err(ContractError::Instavest)
    );
    assert_eq!(
        Vest::new(init(100, Schedule::PiecewiseLinear(vec![(1, 100)]), 0, 10)),
        Err(ContractError::ConstantVest)
    );
    assert_eq!(
        Vest::new(init(100, Schedule::PiecewiseLinear(vec![]), 0, 10)),
        Err(ContractError::ConstantVest)
    );
    assert_eq!(
        Vest::new(init(3, Schedule::PiecewiseLinear(vec![(1, 0), (2, 5), (3, 3)]), 0, 10)),
        Err(ContractError::Curve(CurveError::NotMonotonic))
    );
    assert_eq!(
        Vest::new(init(3, Schedule::PiecewiseLinear(vec![(1, 5), (2, 3)]), 0, 10)),
        Err(ContractError::Curve(CurveError::MonotonicDecreasing))
    );
    assert_eq!(
        Vest::new(init(3, Schedule::PiecewiseLinear(vec![(1, 0), (1, 3)]), 0, 10)),
        Err(ContractError::Curve(CurveError::PointsOutOfOrder))
    );
    assert_eq!(
        Vest::new(init(3, Schedule::PiecewiseLinear(vec![(1, 1), (2, 3)]), 0, 10)),
        Err(ContractError::VestRange { min: 1, max: 3 })
    );
    assert_eq!(
        Curve::PiecewiseLinear { steps: vec![] }.validate_monotonic_increasing(),
        Err(CurveError::MissingSteps)
    );
    assert_eq!(
        Curve::SaturatingLinear { min_x: 0, min_y: 5, max_x: 1, max_y: 0 }
            .validate_monotonic_increasing(),
        Err(CurveError::MonotonicDecreasing)
    );
}

#[test]
fn schedule_builds_the_curve() {
    assert_eq!(
        Schedule::SaturatingLinear.into_curve(7, 9),
        Ok(Curve::SaturatingLinear { min_x: 0, min_y: 0, max_x: 9, max_y: 7 })
    );
    let c = Schedule::PiecewiseLinear(vec![(1, 0), (4, 6)]).into_curve(6, 3).unwrap();
    assert_eq!(c.range(), (0, 6));
    assert_eq!(c.value(2), 2);
    assert_eq!(Schedule::SaturatingLinear.into_curve(0, 9).unwrap().range(), (0, 0));
}

#[test]
fn piecewise_duration_spans_the_points() {
    let v = Vest::new(init(8, Schedule::PiecewiseLinear(vec![(2, 0), (3, 4), (9, 8)]), 0, 5))
        .unwrap();
    assert_eq!(v.duration(), Some(7));
}

#[test]
fn fund_checks_status_and_balance() {
    let mut p = Payment::new("vesting");
    assert_eq!(execute_fund(&mut p, 100), Err(ContractError::NotFound));
    p.initialize(init(100, Schedule::SaturatingLinear, 0, 100)).unwrap();
    assert_eq!(
        execute_fund(&mut p, 99),
        Err(ContractError::WrongFundAmount { sent: 99, expected: 100 })
    );
    assert_eq!(p.get_vest().unwrap().status, Status::Unfunded);
    assert_eq!(execute_fund(&mut p, 150), Ok(()));
    assert_eq!(p.get_vest().unwrap().status, Status::Funded);
    assert_eq!(execute_fund(&mut p, 150), Err(ContractError::Funded));
    p.cancel(10, 150).unwrap();
    assert_eq!(execute_fund(&mut p, 150), Err(ContractError::Cancelled));
}

#[test]
fn instantiate_checks_denom_and_end() {
    let mut p = Payment::new("vesting");
    assert_eq!(
        instantiate(&mut p, 50, msg(CheckedDenom::Cw20("token".to_string()), None, 10)),
        Err(ContractError::WrongCw20)
    );
    assert_eq!(
        instantiate(&mut p, 50, msg(CheckedDenom::Native("uluna".to_string()), Some(30), 20)),
        Err(ContractError::Instavest)
    );
    assert_eq!(
        instantiate(&mut p, u64::MAX, msg(CheckedDenom::Native("uluna".to_string()), None, 0)),
        Err(ContractError::Instavest)
    );
    assert!(p.get_vest().is_err());
    assert_eq!(
        instantiate(&mut p, 50, msg(CheckedDenom::Native("uluna".to_string()), Some(30), 21)),
        Ok(())
    );
    assert_eq!(p.get_vest().unwrap().vested(40), 47);
    let mut q = Payment::new("vesting");
    instantiate(&mut q, 50, msg(CheckedDenom::Native("uluna".to_string()), None, 10)).unwrap();
    assert_eq!(q.get_vest().unwrap().start_time, 50);
    assert_eq!(
        instantiate(&mut q, u64::MAX - 1, msg(CheckedDenom::Native("uluna".to_string()), Some(u64::MAX), 5)),
        Ok(())
    );
}
