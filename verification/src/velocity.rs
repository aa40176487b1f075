//! Velocity as an exact rational: the position delta of the last sample
//! pair over its elapsed time. Keeping the quotient unevaluated makes the
//! velocity of two samples exact, with no rounding and no division by
//! zero; consumers compare speeds by cross-multiplication and convert to
//! fixed-point micro-units per second only at the emulator boundary.

use vstd::prelude::*;

verus! {

/// The largest coordinate delta two positions can produce: the width of
/// the `i32` range.
pub const MAX_COORD_DELTA: u64 = 0xffff_ffff;

/// Numerator turning a coordinate delta per microsecond into micro-units
/// per second: `10^6` (per second) times `10^6` (micro-units).
pub const MICRO_VEL_NUM: u64 = 1_000_000_000_000;

/// Cross-multiplication factor for speed comparisons: `10^12` (squared
/// seconds-per-microsecond scaling) times `10^6` (squared milli scaling).
pub const SPEED_SQ_SCALE: u128 = 1_000_000_000_000_000_000;

/// One timestamped position sample.
#[derive(Clone, Copy, Debug, PartialEq, Eq, Structural)]
pub struct Sample {
    /// Horizontal position in device units.
    pub x: i32,
    /// Vertical position in device units.
    pub y: i32,
    /// Timestamp in microseconds.
    pub t_us: u64,
}

/// A velocity vector in device units per second, held exactly as
/// `(dx / dt, dy / dt)` with `dt` in microseconds.
#[derive(Clone, Copy, Debug, PartialEq, Eq, Structural)]
pub struct Velocity {
    /// Horizontal position delta of the sample pair.
    pub dx: i64,
    /// Vertical position delta of the sample pair.
    pub dy: i64,
    /// Elapsed time of the sample pair, strictly positive.
    pub dt_us: u64,
}

impl Velocity {
    /// Deltas come from `i32` positions and the elapsed time is positive.
    pub open spec fn wf(self) -> bool {
        &&& 1 <= self.dt_us
        &&& -(MAX_COORD_DELTA as int) <= self.dx <= MAX_COORD_DELTA as int
        &&& -(MAX_COORD_DELTA as int) <= self.dy <= MAX_COORD_DELTA as int
    }

    /// The zero velocity.
    pub open spec fn zero_spec() -> Velocity {
        Velocity { dx: 0, dy: 0, dt_us: 1 }
    }

    /// Builds the zero velocity.
    pub fn zero() -> (r: Velocity)
        ensures
            r == Velocity::zero_spec(),
            r.wf(),
    {
        Velocity { dx: 0, dy: 0, dt_us: 1 }
    }

    /// Whether the speed `|v|` is at least `threshold_milli / 1000` device
    /// units per second. With `v = (dx * 10^6 / dt, dy * 10^6 / dt)`, the
    /// comparison of `|v|^2` against the squared threshold cross-multiplies
    /// into this exact integer inequality.
    pub open spec fn speed_at_least_spec(self, threshold_milli: u32) -> bool {
        (self.dx * self.dx + self.dy * self.dy) * SPEED_SQ_SCALE >= (threshold_milli as int) * (
        threshold_milli as int) * (self.dt_us as int) * (self.dt_us as int)
    }

    /// Decides [`Velocity::speed_at_least_spec`] exactly.
    pub fn speed_at_least(&self, threshold_milli: u32) -> (r: bool)
        requires
            self.wf(),
        ensures
            r == self.speed_at_least_spec(threshold_milli),
    {
        let adx: u64 = if self.dx < 0 {
            (-self.dx) as u64
        } else {
            self.dx as u64
        };
        let ady: u64 = if self.dy < 0 {
            (-self.dy) as u64
        } else {
            self.dy as u64
        };
        proof {
            assert((adx as int) * (adx as int) == (self.dx as int) * (self.dx as int) && (
            adx as int) * (adx as int) <= 0xffff_ffff * 0xffff_ffff) by (nonlinear_arith)
                requires
                    0 <= adx <= 0xffff_ffff && (adx == self.dx || adx == -(self.dx as int)),
            ;
            assert((ady as int) * (ady as int) == (self.dy as int) * (self.dy as int) && (
            ady as int) * (ady as int) <= 0xffff_ffff * 0xffff_ffff) by (nonlinear_arith)
                requires
                    0 <= ady <= 0xffff_ffff && (ady == self.dy || ady == -(self.dy as int)),
            ;
        }
        let dx2: u128 = (adx as u128) * (adx as u128);
        let dy2: u128 = (ady as u128) * (ady as u128);
        let lhs: u128 = (dx2 + dy2) * SPEED_SQ_SCALE;
        proof {
            assert((threshold_milli as int) * (threshold_milli as int) < 0x1_0000_0000_0000_0000)
                by (nonlinear_arith)
                requires
                    0 <= threshold_milli < 0x1_0000_0000,
            ;
            assert((self.dt_us as int) * (self.dt_us as int) < 0x1_0000_0000_0000_0000
                * 0x1_0000_0000_0000_0000) by (nonlinear_arith)
                requires
                    0 <= self.dt_us < 0x1_0000_0000_0000_0000,
            ;
        }
        let thr2: u128 = (threshold_milli as u128) * (threshold_milli as u128);
        let dt2: u128 = (self.dt_us as u128) * (self.dt_us as u128);
        proof {
            assert(thr2 * dt2 == (threshold_milli as int) * (threshold_milli as int) * (
            self.dt_us as int) * (self.dt_us as int)) by (nonlinear_arith)
                requires
                    thr2 == (threshold_milli as int) * (threshold_milli as int) && dt2 == (
                    self.dt_us as int) * (self.dt_us as int),
            ;
        }
        match thr2.checked_mul(dt2) {
            Some(rhs) => lhs >= rhs,
            None => false,
        }
    }

    /// The horizontal component in micro-units per second, truncated
    /// toward zero and saturated into the `i64` range.
    pub fn vx_micro(&self) -> (r: i64)
        requires
            self.wf(),
        ensures
            r == micro_component(self.dx as int, self.dt_us as int),
    {
        micro_per_sec(self.dx, self.dt_us)
    }

    /// The vertical component in micro-units per second, truncated toward
    /// zero and saturated into the `i64` range.
    pub fn vy_micro(&self) -> (r: i64)
        requires
            self.wf(),
        ensures
            r == micro_component(self.dy as int, self.dt_us as int),
    {
        micro_per_sec(self.dy, self.dt_us)
    }
}

/// A coordinate delta over an elapsed time, in micro-units per second:
/// `delta * 10^12 / dt`, truncated toward zero, saturated into `i64`.
pub open spec fn micro_component(delta: int, dt_us: int) -> int {
    crate::num::clamp_int(
        crate::num::div_to_zero(delta * MICRO_VEL_NUM, dt_us),
        i64::MIN as int,
        i64::MAX as int,
    )
}

/// Converts one velocity component to micro-units per second.
pub fn micro_per_sec(delta: i64, dt_us: u64) -> (r: i64)
    requires
        1 <= dt_us,
        -(MAX_COORD_DELTA as int) <= delta <= MAX_COORD_DELTA as int,
    ensures
        r == micro_component(delta as int, dt_us as int),
{
    proof {
        assert(-0x8000_0000_0000_0000_0000_0000_0000_0000 <= (delta as int) * (
        MICRO_VEL_NUM as int) <= 0x7fff_ffff_ffff_ffff_ffff_ffff_ffff_ffff) by (nonlinear_arith)
            requires
                -0xffff_ffff <= delta <= 0xffff_ffff,
        ;
    }
    crate::num::mul_div_sat_i64(delta, MICRO_VEL_NUM, dt_us)
}

} // verus!
