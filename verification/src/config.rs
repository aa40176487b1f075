//! Configuration of the two gesture classes and of the shared timing.
//! All quantities are exact integers: drag in thousandths, the scale
//! factor in parts per million, speed thresholds in milli-units per
//! second, durations in microseconds.

use vstd::prelude::*;

verus! {

/// The denominator of the drag coefficient: drag is given in thousandths,
/// and one decay tick multiplies velocity by `(1000 - drag) / 1000`.
pub const DRAG_DENOM: u32 = 1000;

/// Per-class momentum parameters (one instance for pointer, one for scroll).
#[derive(Clone, Copy, Debug, PartialEq, Eq, Structural)]
pub struct ClassParams {
    /// Whether this gesture class emits momentum at all.
    pub enabled: bool,
    /// Drag coefficient in thousandths, at most 1000 (that is, in [0, 1]).
    pub drag_milli: u32,
    /// Scale factor in parts per million: output units emitted per tick
    /// for each unit/second of velocity.
    pub scale_ppm: u32,
    /// Minimum lift-off speed, in milli-units per second, for this class
    /// to start momentum.
    pub threshold_milli: u32,
}

impl ClassParams {
    /// The drag coefficient stays inside [0, 1].
    pub open spec fn wf(self) -> bool {
        self.drag_milli <= DRAG_DENOM
    }

    /// Builds per-class parameters; a drag outside [0, 1] is clamped.
    pub fn new(enabled: bool, drag_milli: u32, scale_ppm: u32, threshold_milli: u32) -> (r:
        ClassParams)
        ensures
            r.wf(),
            r.enabled == enabled,
            r.drag_milli == crate::num::clamp_int(drag_milli as int, 0, DRAG_DENOM as int),
            r.scale_ppm == scale_ppm,
            r.threshold_milli == threshold_milli,
    {
        let drag: u32 = if drag_milli > DRAG_DENOM {
            DRAG_DENOM
        } else {
            drag_milli
        };
        ClassParams { enabled, drag_milli: drag, scale_ppm, threshold_milli }
    }
}

/// The whole configuration: both gesture classes, the scroll orientation,
/// the tick period and the multitouch guard window.
#[derive(Clone, Copy, Debug, PartialEq, Eq, Structural)]
pub struct Config {
    /// Pointer-momentum parameters.
    pub pointer: ClassParams,
    /// Scroll-momentum parameters.
    pub scroll: ClassParams,
    /// Whether the vertical scroll delta's sign is flipped on emission.
    pub invert_scroll: bool,
    /// Decay tick period in microseconds, at least 1.
    pub tick_period_us: u64,
    /// Guard window after a multi-finger transition, in microseconds.
    pub cooldown_us: u64,
}

impl Config {
    /// Both classes are well formed and the tick period is positive.
    pub open spec fn wf(self) -> bool {
        self.pointer.wf() && self.scroll.wf() && self.tick_period_us >= 1
    }

    /// Builds a configuration; a zero tick period is raised to 1.
    pub fn new(
        pointer: ClassParams,
        scroll: ClassParams,
        invert_scroll: bool,
        tick_period_us: u64,
        cooldown_us: u64,
    ) -> (r: Config)
        requires
            pointer.wf(),
            scroll.wf(),
        ensures
            r.wf(),
            r.pointer == pointer,
            r.scroll == scroll,
            r.invert_scroll == invert_scroll,
            r.tick_period_us == if tick_period_us >= 1 {
                tick_period_us as int
            } else {
                1int
            },
            r.cooldown_us == cooldown_us,
    {
        let period: u64 = if tick_period_us >= 1 {
            tick_period_us
        } else {
            1
        };
        Config { pointer, scroll, invert_scroll, tick_period_us: period, cooldown_us }
    }
}

} // verus!
