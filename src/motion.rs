//! Bounded random servo duties.
use vstd::prelude::*;

verus! {

/// Divisor from the largest duty to the span of servo duties.
pub const DUTY_RANGE_DIVISOR: u32 = 10;

/// Divisor from the largest duty to the duty of the shortest servo pulse.
pub const DUTY_OFFSET_DIVISOR: u32 = 40;

/// Number of distinct random samples: a sample `s` stands for `s / 2^32`.
pub const SAMPLE_SCALE: u64 = 0x1_0000_0000;

/// The duties between which one servo moves: `lower` is the duty for the
/// random fraction `r = 0`, and the duty approaches `upper` as `r` nears 1.
/// `upper` may lie below `lower`, in which case the duty falls as `r` grows.
#[derive(Clone, Copy, PartialEq, Eq, Structural, Debug)]
pub struct Axis {
    pub lower: u32,
    pub upper: u32,
}

/// The duty for random sample `sample`, read as the fraction
/// `r = sample / 2^32` of `[0, 1)`: `lower + r * (upper - lower)`, with the
/// product `r * |upper - lower|` rounded down.
pub open spec fn duty_spec(axis: Axis, sample: u32) -> int {
    if axis.lower <= axis.upper {
        axis.lower + (axis.upper - axis.lower) * sample / (SAMPLE_SCALE as int)
    } else {
        axis.lower - (axis.lower - axis.upper) * sample / (SAMPLE_SCALE as int)
    }
}

/// The smaller of the axis's two bounds.
pub open spec fn axis_min(axis: Axis) -> int {
    if axis.lower <= axis.upper {
        axis.lower as int
    } else {
        axis.upper as int
    }
}

/// The larger of the axis's two bounds.
pub open spec fn axis_max(axis: Axis) -> int {
    if axis.lower <= axis.upper {
        axis.upper as int
    } else {
        axis.lower as int
    }
}

proof fn lemma_scaled_step(span: int, s: int)
    requires
        0 <= span <= u32::MAX,
        0 <= s <= u32::MAX,
    ensures
        0 <= span * s / (SAMPLE_SCALE as int) <= span,
        s == 0 ==> span * s / (SAMPLE_SCALE as int) == 0,
        s == u32::MAX && span >= 1 ==> span * s / (SAMPLE_SCALE as int) == span - 1,
{
    let q = SAMPLE_SCALE as int;
    assert(0 <= span * s <= span * q) by (nonlinear_arith)
        requires
            0 <= span,
            0 <= s < q,
    ;
    assert(0 <= span * s / q <= span) by (nonlinear_arith)
        requires
            0 <= span * s <= span * q,
            q > 0,
            0 <= span,
    ;
    if s == u32::MAX && span >= 1 {
        assert(span * s / q == span - 1) by (nonlinear_arith)
            requires
                s == q - 1,
                1 <= span < q,
                q == 0x1_0000_0000,
        ;
    }
}

impl Axis {
    /// The duty for the random sample `sample`.
    pub fn duty(&self, sample: u32) -> (d: u32)
        ensures
            d == duty_spec(*self, sample),
            axis_min(*self) <= d <= axis_max(*self),
    {
        let ascending = self.lower <= self.upper;
        let span: u64 = if ascending { (self.upper - self.lower) as u64 } else { (self.lower - self.upper) as u64 };
        assert(span * sample <= u32::MAX * u32::MAX) by (nonlinear_arith)
            requires
                0 <= span <= u32::MAX,
                0 <= sample <= u32::MAX,
        ;
        let product: u64 = span * (sample as u64);
        let step: u64 = product / SAMPLE_SCALE;
        proof {
            lemma_scaled_step(span as int, sample as int);
        }
        if ascending {
            self.lower + step as u32
        } else {
            self.lower - step as u32
        }
    }
}

/// Every duty lies between the axis's two bounds; sample 0 gives `lower`,
/// and the largest sample comes within one step of `upper` without
/// reaching it.
pub proof fn lemma_duty_bounds(axis: Axis, sample: u32)
    ensures
        axis_min(axis) <= duty_spec(axis, sample) <= axis_max(axis),
        sample == 0 ==> duty_spec(axis, sample) == axis.lower,
        sample == u32::MAX && axis.lower < axis.upper ==> duty_spec(axis, sample) == axis.upper - 1,
        sample == u32::MAX && axis.lower > axis.upper ==> duty_spec(axis, sample) == axis.upper + 1,
{
    if axis.lower <= axis.upper {
        lemma_scaled_step(axis.upper - axis.lower, sample as int);
    } else {
        lemma_scaled_step(axis.lower - axis.upper, sample as int);
    }
}

/// A larger sample moves the duty further from `lower` towards `upper`.
pub proof fn lemma_duty_monotone(axis: Axis, s1: u32, s2: u32)
    requires
        s1 <= s2,
    ensures
        axis.lower <= axis.upper ==> duty_spec(axis, s1) <= duty_spec(axis, s2),
        axis.lower > axis.upper ==> duty_spec(axis, s1) >= duty_spec(axis, s2),
{
    let span: int = if axis.lower <= axis.upper {
        axis.upper - axis.lower
    } else {
        axis.lower - axis.upper
    };
    let q = SAMPLE_SCALE as int;
    assert(span * s1 <= span * s2) by (nonlinear_arith)
        requires
            0 <= span,
            s1 <= s2,
    ;
    assert(span * s1 / q <= span * s2 / q) by (nonlinear_arith)
        requires
            span * s1 <= span * s2,
            q > 0,
    ;
}

/// Servo duties derived from the PWM's largest duty `max_duty`.
#[derive(Clone, Copy, PartialEq, Eq, Structural, Debug)]
pub struct MotionRange {
    /// `max_duty / 10`: the span of duties the servos use.
    pub range: u32,
    /// `max_duty / 40`: the duty of the shortest pulse.
    pub offset: u32,
    /// The head's lowest tilt.
    pub tilt_lower: u32,
    /// The head's highest tilt.
    pub tilt_upper: u32,
    /// The leftmost pan.
    pub pan_left: u32,
    /// The rightmost pan.
    pub pan_right: u32,
    /// The pan at rest.
    pub pan_center: u32,
}

/// The motion range for `max_duty`, by the calibration formulas.
pub open spec fn motion_range_spec(max_duty: u32) -> MotionRange {
    let range = max_duty / DUTY_RANGE_DIVISOR;
    let offset = max_duty / DUTY_OFFSET_DIVISOR;
    MotionRange {
        range,
        offset,
        tilt_lower: (range / 2 - range / 20 + offset) as u32,
        tilt_upper: (range / 5 + offset) as u32,
        pan_left: (range / 5 + offset) as u32,
        pan_right: (range * 4 / 5 + offset) as u32,
        pan_center: (range / 2 + offset) as u32,
    }
}

impl MotionRange {
    /// Whether the fields are those that `max_duty` gives for some largest duty.
    pub open spec fn wf(&self) -> bool {
        exists|m: u32| *self == #[trigger] motion_range_spec(m)
    }

    /// Derives the duties from the PWM's largest duty.
    pub fn from_max_duty(max_duty: u32) -> (m: MotionRange)
        ensures
            m == motion_range_spec(max_duty),
            m.wf(),
            m.tilt_upper <= m.tilt_lower,
            m.pan_left <= m.pan_center <= m.pan_right,
    {
        let range = max_duty / DUTY_RANGE_DIVISOR;
        let offset = max_duty / DUTY_OFFSET_DIVISOR;
        let m = MotionRange {
            range,
            offset,
            tilt_lower: range / 2 - range / 20 + offset,
            tilt_upper: range / 5 + offset,
            pan_left: range / 5 + offset,
            pan_right: range * 4 / 5 + offset,
            pan_center: range / 2 + offset,
        };
        assert(m == motion_range_spec(max_duty));
        m
    }

    /// The tilt axis: the duty starts from `tilt_lower` at `r = 0` and
    /// approaches `tilt_upper` as `r` nears 1. Note that the calibration
    /// gives `tilt_lower > tilt_upper` whenever `range >= 2`, so on this axis
    /// the "lower" bound is the larger duty and the duty falls as `r` grows;
    /// the bounds are not ordered as they are on the pan axis.
    pub fn tilt(&self) -> (a: Axis)
        ensures
            a.lower == self.tilt_lower,
            a.upper == self.tilt_upper,
    {
        Axis { lower: self.tilt_lower, upper: self.tilt_upper }
    }

    /// The pan axis: from `pan_left` at `r = 0` towards `pan_right`.
    pub fn pan(&self) -> (a: Axis)
        ensures
            a.lower == self.pan_left,
            a.upper == self.pan_right,
    {
        Axis { lower: self.pan_left, upper: self.pan_right }
    }

    /// The `(tilt, pan)` duties for one motion event, from one independent
    /// random sample per servo: the tilt is
    /// `tilt_lower - (tilt_lower - tilt_upper) * tilt_sample / 2^32` and the
    /// pan `pan_left + (pan_right - pan_left) * pan_sample / 2^32`, both
    /// rounded towards the `r = 0` bound.
    pub fn next_duties(&self, tilt_sample: u32, pan_sample: u32) -> (d: (u32, u32))
        requires
            self.wf(),
        ensures
            d.0 == self.tilt_lower - (self.tilt_lower - self.tilt_upper) * tilt_sample / (
            SAMPLE_SCALE as int),
            d.1 == self.pan_left + (self.pan_right - self.pan_left) * pan_sample / (SAMPLE_SCALE as int),
            d.0 == duty_spec(Axis { lower: self.tilt_lower, upper: self.tilt_upper }, tilt_sample),
            d.1 == duty_spec(Axis { lower: self.pan_left, upper: self.pan_right }, pan_sample),
            self.tilt_upper <= d.0 <= self.tilt_lower,
            self.pan_left <= d.1 <= self.pan_right,
    {
        (self.tilt().duty(tilt_sample), self.pan().duty(pan_sample))
    }
}

} // verus!
