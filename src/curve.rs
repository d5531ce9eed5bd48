//! Release curves: functions from elapsed seconds to a cumulative amount.
use vstd::arithmetic::div_mod::{
    lemma_div_is_ordered, lemma_fundamental_div_mod, lemma_hoist_over_denominator,
};
use vstd::arithmetic::mul::{lemma_mul_inequality, lemma_mul_upper_bound};
use vstd::prelude::*;

verus! {

/// Why a set of points does not describe a non-decreasing curve.
#[derive(Clone, Copy, Debug, PartialEq, Eq, Structural)]
pub enum CurveError {
    /// The amounts both rise and fall.
    NotMonotonic,
    /// The amounts fall and never rise.
    MonotonicDecreasing,
    /// A point's x does not lie strictly after the previous one (the
    /// first point must lie after 0).
    PointsOutOfOrder,
    /// A piecewise curve without points.
    MissingSteps,
}

/// A curve `y = f(x)` over `u64` inputs and `u128` outputs.
#[derive(Clone, Debug, PartialEq, Eq)]
pub enum Curve {
    /// `y` everywhere.
    Constant { y: u128 },
    /// `min_y` up to `min_x`, `max_y` from `max_x` on, linear in between.
    SaturatingLinear { min_x: u64, min_y: u128, max_x: u64, max_y: u128 },
    /// The first amount up to the first point, the last from the last point
    /// on, linear between consecutive points.
    PiecewiseLinear { steps: Vec<(u64, u128)> },
}

/// The point on the line from `(x0, y0)` to `(x1, y1)` at `x`, rounded down.
pub open spec fn interp(x0: int, y0: int, x1: int, y1: int, x: int) -> int {
    y0 + (y1 - y0) * (x - x0) / (x1 - x0)
}

/// Strictly increasing x coordinates, the first one after 0.
pub open spec fn xs_ordered(s: Seq<(u64, u128)>) -> bool {
    &&& s.len() > 0 ==> s[0].0 > 0
    &&& forall|i: int| 0 <= i < s.len() - 1 ==> #[trigger] s[i].0 < s[i + 1].0
}

/// No amount is above the next one.
pub open spec fn ys_non_decreasing(s: Seq<(u64, u128)>) -> bool {
    forall|i: int| 0 <= i < s.len() - 1 ==> #[trigger] s[i].1 <= s[i + 1].1
}

/// Some amount is below the next one.
pub open spec fn ys_rise(s: Seq<(u64, u128)>) -> bool {
    exists|i: int| 0 <= i < s.len() - 1 && #[trigger] s[i].1 < s[i + 1].1
}

/// Some amount is above the next one.
pub open spec fn ys_fall(s: Seq<(u64, u128)>) -> bool {
    exists|i: int| 0 <= i < s.len() - 1 && #[trigger] s[i].1 > s[i + 1].1
}

/// Valid points of a non-decreasing piecewise curve.
pub open spec fn steps_wf(s: Seq<(u64, u128)>) -> bool {
    &&& s.len() > 0
    &&& xs_ordered(s)
    &&& ys_non_decreasing(s)
}

/// The value of a piecewise linear curve through the points `s` at `x`.
pub open spec fn steps_value(s: Seq<(u64, u128)>, x: int) -> int
    decreases s.len(),
{
    if s.len() == 0 {
        0
    } else if x <= s[0].0 || s.len() == 1 {
        s[0].1 as int
    } else if x < s[1].0 {
        interp(s[0].0 as int, s[0].1 as int, s[1].0 as int, s[1].1 as int, x)
    } else {
        steps_value(s.drop_first(), x)
    }
}

impl Curve {
    /// A curve that never decreases: the kind that vesting accepts.
    pub open spec fn wf(&self) -> bool {
        match self {
            Curve::Constant { .. } => true,
            Curve::SaturatingLinear { min_x, min_y, max_x, max_y } => *min_x < *max_x && *min_y
                <= *max_y,
            Curve::PiecewiseLinear { steps } => steps_wf(steps@),
        }
    }

    /// `f(x)`.
    pub open spec fn value_spec(&self, x: int) -> int {
        match self {
            Curve::Constant { y } => *y as int,
            Curve::SaturatingLinear { min_x, min_y, max_x, max_y } => if x < *min_x {
                *min_y as int
            } else if x > *max_x {
                *max_y as int
            } else {
                interp(*min_x as int, *min_y as int, *max_x as int, *max_y as int, x)
            },
            Curve::PiecewiseLinear { steps } => steps_value(steps@, x),
        }
    }

    /// The least value of a valid curve.
    pub open spec fn min_value(&self) -> int {
        match self {
            Curve::Constant { y } => *y as int,
            Curve::SaturatingLinear { min_y, .. } => *min_y as int,
            Curve::PiecewiseLinear { steps } => steps@[0].1 as int,
        }
    }

    /// The greatest value of a valid curve.
    pub open spec fn max_value(&self) -> int {
        match self {
            Curve::Constant { y } => *y as int,
            Curve::SaturatingLinear { max_y, .. } => *max_y as int,
            Curve::PiecewiseLinear { steps } => steps@.last().1 as int,
        }
    }
}

/// Facts on the interpolated point between `(x0, y0)` and `(x1, y1)`.
proof fn lemma_interp_bounds(x0: int, y0: int, x1: int, y1: int, x: int, z: int)
    requires
        x0 <= x <= z <= x1,
        x0 < x1,
        0 <= y0 <= y1,
    ensures
        y0 <= interp(x0, y0, x1, y1, x) <= interp(x0, y0, x1, y1, z) <= y1,
        interp(x0, y0, x1, y1, x0) == y0,
        interp(x0, y0, x1, y1, x1) == y1,
{
    let dy = y1 - y0;
    let w = x1 - x0;
    lemma_mul_inequality(x - x0, z - x0, dy);
    assert((x - x0) * dy == dy * (x - x0)) by (nonlinear_arith);
    assert((z - x0) * dy == dy * (z - x0)) by (nonlinear_arith);
    lemma_div_is_ordered(dy * (x - x0), dy * (z - x0), w);
    lemma_mul_upper_bound(dy, dy, z - x0, w);
    assert(dy * w / w == dy) by (nonlinear_arith)
        requires
            w > 0,
    ;
    lemma_div_is_ordered(dy * (z - x0), dy * w, w);
    assert(0 <= dy * (x - x0)) by (nonlinear_arith)
        requires
            dy >= 0,
            x - x0 >= 0,
    ;
    assert(0 <= dy * (x - x0) / w) by (nonlinear_arith)
        requires
            dy * (x - x0) >= 0,
            w > 0,
    ;
    assert(dy * (x0 - x0) == 0) by (nonlinear_arith);
}

/// The point at `x` on the line from `(x0, y0)` to `(x1, y1)`, rounded down,
/// computed without intermediate overflow.
fn interpolate(x0: u64, y0: u128, x1: u64, y1: u128, x: u64) -> (r: u128)
    requires
        x0 <= x <= x1,
        x0 < x1,
        y0 <= y1,
    ensures
        r == interp(x0 as int, y0 as int, x1 as int, y1 as int, x as int),
{
    let dy: u128 = y1 - y0;
    let dx: u128 = (x - x0) as u128;
    let w: u128 = (x1 - x0) as u128;
    let q: u128 = dy / w;
    let m: u128 = dy % w;
    proof {
        lemma_fundamental_div_mod(dy as int, w as int);
        assert(m * dx < 0x1_0000_0000_0000_0000 * 0x1_0000_0000_0000_0000) by (nonlinear_arith)
            requires
                m < w,
                dx <= w,
                w < 0x1_0000_0000_0000_0000,
        ;
        assert(q * dx <= dy) by (nonlinear_arith)
            requires
                q * w <= dy,
                dx <= w,
                q >= 0,
        ;
        lemma_hoist_over_denominator((m * dx) as int, (q * dx) as int, w as nat);
        assert(dy * dx == m * dx + (q * dx) * w) by (nonlinear_arith)
            requires
                dy == w * q + m,
        ;
        lemma_interp_bounds(x0 as int, y0 as int, x1 as int, y1 as int, x as int, x1 as int);
    }
    let part: u128 = q * dx + (m * dx) / w;
    y0 + part
}

/// What validation says of the points `s` of a piecewise curve.
pub open spec fn steps_check(s: Seq<(u64, u128)>) -> Result<(), CurveError> {
    if s.len() == 0 {
        Err(CurveError::MissingSteps)
    } else if !xs_ordered(s) {
        Err(CurveError::PointsOutOfOrder)
    } else if ys_fall(s) && ys_rise(s) {
        Err(CurveError::NotMonotonic)
    } else if ys_fall(s) {
        Err(CurveError::MonotonicDecreasing)
    } else {
        Ok(())
    }
}

impl Curve {
    /// What validation says of this curve.
    pub open spec fn check_spec(&self) -> Result<(), CurveError> {
        match self {
            Curve::Constant { .. } => Ok(()),
            Curve::SaturatingLinear { min_x, min_y, max_x, max_y } => if *max_x <= *min_x {
                Err(CurveError::PointsOutOfOrder)
            } else if *max_y < *min_y {
                Err(CurveError::MonotonicDecreasing)
            } else {
                Ok(())
            },
            Curve::PiecewiseLinear { steps } => steps_check(steps@),
        }
    }
}

/// On valid points the value never decreases and stays between the first
/// and the last amount.
pub proof fn lemma_steps_value_monotonic(s: Seq<(u64, u128)>, x: int, z: int)
    requires
        steps_wf(s),
        x <= z,
    ensures
        s[0].1 <= steps_value(s, x) <= steps_value(s, z) <= s.last().1,
    decreases s.len(),
{
    if s.len() == 1 {
    } else {
        let t = s.drop_first();
        assert(s[0].1 <= s[1].1 && s[0].0 < s[1].0);
        assert(steps_wf(t)) by {
            assert forall|i: int| 0 <= i < t.len() - 1 implies #[trigger] t[i].0 < t[i + 1].0
                && t[i].1 <= t[i + 1].1 by {
                assert(s[i + 1].0 < s[i + 2].0 && s[i + 1].1 <= s[i + 2].1);
            }
        }
        assert(t.last() == s.last());
        lemma_steps_value_monotonic(t, z, z);
        lemma_steps_value_monotonic(t, x, z);
        let (x0, y0, x1, y1) = (s[0].0 as int, s[0].1 as int, s[1].0 as int, s[1].1 as int);
        if x0 < x && x < x1 {
            if z < x1 {
                lemma_interp_bounds(x0, y0, x1, y1, x, z);
            } else {
                lemma_interp_bounds(x0, y0, x1, y1, x, x1);
            }
        } else if x <= x0 && x0 < z && z < x1 {
            lemma_interp_bounds(x0, y0, x1, y1, z, z);
        }
    }
}

/// A valid curve never decreases, and its values lie between its least and
/// its greatest value, which it takes at 0 and at `u64::MAX`.
pub proof fn lemma_value_monotonic(c: Curve, x: int, z: int)
    requires
        c.wf(),
        0 <= x <= z <= u64::MAX,
    ensures
        c.min_value() <= c.value_spec(x) <= c.value_spec(z) <= c.max_value(),
        c.value_spec(0) == c.min_value(),
        c.value_spec(u64::MAX as int) == c.max_value(),
{
    match c {
        Curve::Constant { .. } => {},
        Curve::SaturatingLinear { min_x, min_y, max_x, max_y } => {
            let (x0, y0, x1, y1) = (min_x as int, min_y as int, max_x as int, max_y as int);
            lemma_interp_bounds(x0, y0, x1, y1, x0, x1);
            if x0 <= x <= x1 {
                if z <= x1 {
                    lemma_interp_bounds(x0, y0, x1, y1, x, z);
                } else {
                    lemma_interp_bounds(x0, y0, x1, y1, x, x1);
                }
            } else if x < x0 && x0 <= z <= x1 {
                lemma_interp_bounds(x0, y0, x1, y1, z, z);
            }
        },
        Curve::PiecewiseLinear { steps } => {
            lemma_steps_value_monotonic(steps@, x, z);
            lemma_steps_value_last(steps@, u64::MAX as int);
        },
    }
}

/// At or after the last point, the value is the last amount.
pub proof fn lemma_steps_value_last(s: Seq<(u64, u128)>, x: int)
    requires
        steps_wf(s),
        x >= s.last().0,
    ensures
        steps_value(s, x) == s.last().1,
    decreases s.len(),
{
    if s.len() > 1 {
        let t = s.drop_first();
        assert(steps_wf(t)) by {
            assert forall|i: int| 0 <= i < t.len() - 1 implies #[trigger] t[i].0 < t[i + 1].0
                && t[i].1 <= t[i + 1].1 by {
                assert(s[i + 1].0 < s[i + 2].0 && s[i + 1].1 <= s[i + 2].1);
            }
        }
        assert(t.last() == s.last());
        if x < s[1].0 {
            lemma_xs_below_last(s, 1);
        }
        lemma_steps_value_last(t, x);
    }
}

/// With ordered x coordinates the first point lies at or before the last.
pub proof fn lemma_xs_ordered_first_last(s: Seq<(u64, u128)>)
    requires
        xs_ordered(s),
        s.len() > 0,
    ensures
        s[0].0 <= s.last().0,
{
    lemma_xs_below_last(s, 0);
}

/// With ordered x coordinates every point lies at or before the last one.
proof fn lemma_xs_below_last(s: Seq<(u64, u128)>, i: int)
    requires
        xs_ordered(s),
        0 <= i < s.len(),
    ensures
        s[i].0 <= s.last().0,
    decreases s.len() - i,
{
    if i < s.len() - 1 {
        lemma_xs_below_last(s, i + 1);
    }
}

/// The value at `x` of the piecewise curve through `steps`.
fn steps_value_exec(steps: &Vec<(u64, u128)>, x: u64) -> (r: u128)
    requires
        steps_wf(steps@),
    ensures
        r == steps_value(steps@, x as int),
{
    let n: usize = steps.len();
    if x <= steps[0].0 {
        return steps[0].1;
    }
    let mut i: usize = 0;
    assert(steps@.skip(0) =~= steps@);
    while i + 1 < n
        invariant
            0 <= i < n,
            n == steps@.len(),
            steps_wf(steps@),
            x >= steps@[i as int].0,
            steps_value(steps@, x as int) == steps_value(steps@.skip(i as int), x as int),
        decreases n - i,
    {
        if x == steps[i].0 {
            return steps[i].1;
        }
        if x < steps[i + 1].0 {
            assert(steps@[i as int].0 < steps@[i + 1].0);
            return interpolate(steps[i].0, steps[i].1, steps[i + 1].0, steps[i + 1].1, x);
        }
        assert(steps@.skip(i as int).drop_first() =~= steps@.skip(i + 1));
        i = i + 1;
    }
    steps[i].1
}

impl Curve {
    /// `f(x)`.
    pub fn value(&self, x: u64) -> (r: u128)
        requires
            self.wf(),
        ensures
            r == self.value_spec(x as int),
    {
        match self {
            Curve::Constant { y } => *y,
            Curve::SaturatingLinear { min_x, min_y, max_x, max_y } => {
                if x < *min_x {
                    *min_y
                } else if x > *max_x {
                    *max_y
                } else {
                    interpolate(*min_x, *min_y, *max_x, *max_y, x)
                }
            },
            Curve::PiecewiseLinear { steps } => steps_value_exec(steps, x),
        }
    }

    /// The least and the greatest value of a valid curve.
    pub fn range(&self) -> (r: (u128, u128))
        requires
            self.wf(),
        ensures
            r.0 == self.min_value(),
            r.1 == self.max_value(),
    {
        match self {
            Curve::Constant { y } => (*y, *y),
            Curve::SaturatingLinear { min_y, max_y, .. } => (*min_y, *max_y),
            Curve::PiecewiseLinear { steps } => (steps[0].1, steps[steps.len() - 1].1),
        }
    }

    /// Checks that the curve never decreases; on success it is `wf`.
    pub fn validate_monotonic_increasing(&self) -> (r: Result<(), CurveError>)
        ensures
            r == self.check_spec(),
            r is Ok <==> self.wf(),
    {
        match self {
            Curve::Constant { .. } => Ok(()),
            Curve::SaturatingLinear { min_x, min_y, max_x, max_y } => {
                if *max_x <= *min_x {
                    Err(CurveError::PointsOutOfOrder)
                } else if *max_y < *min_y {
                    Err(CurveError::MonotonicDecreasing)
                } else {
                    Ok(())
                }
            },
            Curve::PiecewiseLinear { steps } => check_steps(steps),
        }
    }
}

/// Whether the x coordinates are strictly increasing from after 0.
fn xs_in_order(steps: &Vec<(u64, u128)>) -> (r: bool)
    ensures
        r == xs_ordered(steps@),
{
    let n: usize = steps.len();
    if n == 0 {
        return true;
    }
    if steps[0].0 == 0 {
        return false;
    }
    let mut i: usize = 0;
    while i + 1 < n
        invariant
            0 <= i < n,
            n == steps@.len(),
            forall|j: int| 0 <= j < i ==> #[trigger] steps@[j].0 < steps@[j + 1].0,
        decreases n - i,
    {
        if steps[i + 1].0 <= steps[i].0 {
            assert(!(steps@[i as int].0 < steps@[i as int + 1].0));
            return false;
        }
        i = i + 1;
    }
    true
}

/// Whether some amount rises, and whether some amount falls, from one point
/// to the next.
fn ys_shape(steps: &Vec<(u64, u128)>) -> (r: (bool, bool))
    ensures
        r.0 == ys_rise(steps@),
        r.1 == ys_fall(steps@),
{
    let n: usize = steps.len();
    let mut rise = false;
    let mut fall = false;
    let mut k: usize = 0;
    while k + 1 < n
        invariant
            n == steps@.len(),
            n == 0 ==> k == 0,
            n > 0 ==> k < n,
            rise <==> exists|j: int| 0 <= j < k && #[trigger] steps@[j].1 < steps@[j + 1].1,
            fall <==> exists|j: int| 0 <= j < k && #[trigger] steps@[j].1 > steps@[j + 1].1,
        decreases n - k,
    {
        if steps[k].1 < steps[k + 1].1 {
            rise = true;
        }
        if steps[k].1 > steps[k + 1].1 {
            fall = true;
        }
        k = k + 1;
    }
    (rise, fall)
}

/// Validation of the points of a piecewise curve.
fn check_steps(steps: &Vec<(u64, u128)>) -> (r: Result<(), CurveError>)
    ensures
        r == steps_check(steps@),
        r is Ok <==> steps_wf(steps@),
{
    if steps.len() == 0 {
        return Err(CurveError::MissingSteps);
    }
    if !xs_in_order(steps) {
        return Err(CurveError::PointsOutOfOrder);
    }
    let (rise, fall) = ys_shape(steps);
    assert(!fall ==> ys_non_decreasing(steps@)) by {
        if !fall {
            assert forall|i: int| 0 <= i < steps@.len() - 1 implies #[trigger] steps@[i].1
                <= steps@[i + 1].1 by {
                if steps@[i].1 > steps@[i + 1].1 {
                    assert(ys_fall(steps@));
                }
            }
        }
    }
    if fall && rise {
        Err(CurveError::NotMonotonic)
    } else if fall {
        Err(CurveError::MonotonicDecreasing)
    } else {
        Ok(())
    }
}

} // verus!
