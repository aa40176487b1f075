//! The momentum emulator: per gesture class (pointer, scroll) a state
//! machine with states Idle and Active, driven by momentum intents and by
//! periodic decay ticks. Velocity is held in micro-units per second; each
//! tick multiplies it by `(1000 - drag) / 1000` (truncating toward zero),
//! computes the output delta `velocity * scale_ppm / 10^12` (truncating
//! toward zero), and goes idle without emitting at the first tick where
//! both axis deltas truncate to zero.

use crate::config::{ClassParams, Config, DRAG_DENOM};
use crate::intent::MomentumIntent;
use crate::num::{clamp_int, div_to_zero};
use crate::velocity::{micro_component, Velocity};
use vstd::prelude::*;

verus! {

/// Divisor turning micro-units per second times parts-per-million scale
/// into output units: `10^6` (micro) times `10^6` (ppm).
pub const DELTA_DENOM: u64 = 1_000_000_000_000;

/// One decay step: velocity times `(1000 - drag) / 1000`, truncated
/// toward zero.
pub open spec fn decay_step_spec(v: int, drag_milli: int) -> int {
    div_to_zero(v * (DRAG_DENOM - drag_milli), DRAG_DENOM as int)
}

/// The velocity after `n` decay steps.
pub open spec fn decayed(v0: int, drag_milli: int, n: nat) -> int
    decreases n,
{
    if n == 0 {
        v0
    } else {
        decay_step_spec(decayed(v0, drag_milli, (n - 1) as nat), drag_milli)
    }
}

/// The output delta of one velocity component: `v * scale_ppm / 10^12`,
/// truncated toward zero.
pub open spec fn delta_spec(v: int, scale_ppm: int) -> int {
    div_to_zero(v * scale_ppm, DELTA_DENOM as int)
}

/// One gesture class of the emulator: Idle (`active` false, velocity zero)
/// or Active with a decaying velocity in micro-units per second.
#[derive(Clone, Copy, Debug, PartialEq, Eq, Structural)]
pub struct ClassState {
    /// Whether momentum is in flight for this class.
    pub active: bool,
    /// Horizontal velocity in micro-units per second.
    pub vx: i64,
    /// Vertical velocity in micro-units per second.
    pub vy: i64,
}

/// What one decay tick does to a class: nothing when Idle; when Active,
/// one decay step, then either idle (both deltas zero, nothing emitted)
/// or emission of the axis deltas.
pub open spec fn tick_class_spec(pre: ClassState, drag_milli: int, scale_ppm: int) -> (
    ClassState,
    Option<(i64, i64)>,
) {
    if !pre.active {
        (pre, None)
    } else {
        let vx = decay_step_spec(pre.vx as int, drag_milli);
        let vy = decay_step_spec(pre.vy as int, drag_milli);
        let dx = delta_spec(vx, scale_ppm);
        let dy = delta_spec(vy, scale_ppm);
        if dx == 0 && dy == 0 {
            (ClassState::idle_spec(), None)
        } else {
            (ClassState { active: true, vx: vx as i64, vy: vy as i64 }, Some(
                (dx as i64, dy as i64),
            ))
        }
    }
}

impl ClassState {
    /// The class invariant: an Idle class has velocity (0, 0).
    pub open spec fn wf(self) -> bool {
        !self.active ==> self.vx == 0 && self.vy == 0
    }

    /// The Idle state.
    pub open spec fn idle_spec() -> ClassState {
        ClassState { active: false, vx: 0, vy: 0 }
    }

    /// What `Start(v)` does: from Idle, go Active at `v` (converted to
    /// micro-units per second); while Active the message is ignored.
    pub open spec fn start_spec(pre: ClassState, v: Velocity) -> ClassState {
        if pre.active {
            pre
        } else {
            ClassState {
                active: true,
                vx: micro_component(v.dx as int, v.dt_us as int) as i64,
                vy: micro_component(v.dy as int, v.dt_us as int) as i64,
            }
        }
    }

    /// What `Stop` does: from Active, go Idle at velocity (0, 0)
    /// immediately; a Stop for an already-Idle class is ignored.
    pub open spec fn stop_spec(pre: ClassState) -> ClassState {
        if pre.active {
            ClassState::idle_spec()
        } else {
            pre
        }
    }

    /// Builds an Idle class.
    pub fn idle() -> (r: ClassState)
        ensures
            r == ClassState::idle_spec(),
            r.wf(),
    {
        ClassState { active: false, vx: 0, vy: 0 }
    }

    /// Handles a `Start(v)` message.
    pub fn start(&mut self, v: &Velocity)
        requires
            old(self).wf(),
            v.wf(),
        ensures
            *final(self) == ClassState::start_spec(*old(self), *v),
            final(self).wf(),
    {
        if !self.active {
            self.active = true;
            self.vx = v.vx_micro();
            self.vy = v.vy_micro();
        }
    }

    /// Handles a `Stop` message: velocity is zeroed and the class is Idle
    /// at once, preempting any in-flight decay.
    pub fn stop(&mut self)
        requires
            old(self).wf(),
        ensures
            *final(self) == ClassState::stop_spec(*old(self)),
            final(self).wf(),
            !final(self).active && final(self).vx == 0 && final(self).vy == 0,
    {
        self.active = false;
        self.vx = 0;
        self.vy = 0;
    }

    /// Runs one decay tick. `None` with the class left Idle means the
    /// motion ended (or never ran); `Some((dx, dy))` are the axis deltas
    /// to emit.
    pub fn tick(&mut self, params: &ClassParams) -> (out: Option<(i64, i64)>)
        requires
            old(self).wf(),
            params.wf(),
        ensures
            (*final(self), out) == tick_class_spec(
                *old(self),
                params.drag_milli as int,
                params.scale_ppm as int,
            ),
            final(self).wf(),
    {
        if !self.active {
            return None;
        }
        let keep: u32 = DRAG_DENOM - params.drag_milli;
        let nvx: i64 = crate::num::mul_div_to_zero(self.vx, keep, DRAG_DENOM as u64);
        let nvy: i64 = crate::num::mul_div_to_zero(self.vy, keep, DRAG_DENOM as u64);
        let dx: i64 = crate::num::mul_div_to_zero(nvx, params.scale_ppm, DELTA_DENOM);
        let dy: i64 = crate::num::mul_div_to_zero(nvy, params.scale_ppm, DELTA_DENOM);
        if dx == 0 && dy == 0 {
            self.active = false;
            self.vx = 0;
            self.vy = 0;
            None
        } else {
            self.vx = nvx;
            self.vy = nvy;
            Some((dx, dy))
        }
    }
}

/// One scroll emission: a delta along exactly one axis.
#[derive(Clone, Copy, Debug, PartialEq, Eq, Structural)]
pub enum ScrollDelta {
    /// Scroll along the vertical axis.
    Vertical(i32),
    /// Scroll along the horizontal axis.
    Horizontal(i32),
}

/// Which single scroll event a pair of axis deltas becomes: the axis of
/// larger truncated magnitude wins, ties go to vertical, and the vertical
/// sign is flipped when `invert` is set. The losing axis is discarded.
pub open spec fn scroll_choice_spec(dx: int, dy: int, invert: bool) -> ScrollDelta {
    if vstd::math::abs(dy) >= vstd::math::abs(dx) {
        ScrollDelta::Vertical(
            clamp_int(
                if invert {
                    -dy
                } else {
                    dy
                },
                i32::MIN as int,
                i32::MAX as int,
            ) as i32,
        )
    } else {
        ScrollDelta::Horizontal(clamp_int(dx, i32::MIN as int, i32::MAX as int) as i32)
    }
}

/// The pointer emission a tick's deltas become: one combined relative
/// motion, each component saturated into the `i32` range.
pub open spec fn pointer_out_spec(out: Option<(i64, i64)>) -> Option<(i32, i32)> {
    match out {
        None => None,
        Some((dx, dy)) => Some(
            (
                clamp_int(dx as int, i32::MIN as int, i32::MAX as int) as i32,
                clamp_int(dy as int, i32::MIN as int, i32::MAX as int) as i32,
            ),
        ),
    }
}

/// The scroll emission a tick's deltas become: exactly one event per tick,
/// never two, chosen by [`scroll_choice_spec`].
pub open spec fn scroll_out_spec(out: Option<(i64, i64)>, invert: bool) -> Option<ScrollDelta> {
    match out {
        None => None,
        Some((dx, dy)) => Some(scroll_choice_spec(dx as int, dy as int, invert)),
    }
}

/// What one tick emits: at most one pointer motion and at most one scroll
/// event.
#[derive(Clone, Copy, Debug, PartialEq, Eq)]
pub struct TickOutput {
    /// A combined relative pointer motion, if pointer momentum emitted.
    pub pointer: Option<(i32, i32)>,
    /// A single-axis scroll delta, if scroll momentum emitted.
    pub scroll: Option<ScrollDelta>,
}

/// The momentum emulator: independent pointer and scroll classes, so both
/// kinds of momentum may run at the same time.
#[derive(Clone, Copy, Debug, PartialEq, Eq, Structural)]
pub struct Emulator {
    /// Pointer-momentum state.
    pub pointer: ClassState,
    /// Scroll-momentum state.
    pub scroll: ClassState,
}

impl Emulator {
    /// Both classes hold their invariant.
    pub open spec fn wf(self) -> bool {
        self.pointer.wf() && self.scroll.wf()
    }

    /// Builds an emulator with both classes Idle.
    pub fn new() -> (r: Emulator)
        ensures
            r.pointer == ClassState::idle_spec(),
            r.scroll == ClassState::idle_spec(),
            r.wf(),
    {
        Emulator { pointer: ClassState::idle(), scroll: ClassState::idle() }
    }

    /// Whether any class is Active. While this is false the emulator has
    /// nothing to do between messages: no tick runs, nothing is emitted,
    /// and the caller's wait carries no timeout.
    pub fn needs_tick(&self) -> (r: bool)
        ensures
            r == (self.pointer.active || self.scroll.active),
    {
        self.pointer.active || self.scroll.active
    }

    /// Processes one momentum intent. A `Start` is stored only by an Idle
    /// class; a `Stop` zeroes the class's velocity and returns it to Idle
    /// immediately, preempting any in-flight decay; a message that is not
    /// meaningful for the current state changes nothing.
    pub fn handle_intent(&mut self, intent: &MomentumIntent)
        requires
            old(self).wf(),
            intent matches MomentumIntent::PointerStart(v) ==> v.wf(),
            intent matches MomentumIntent::ScrollStart(v) ==> v.wf(),
        ensures
            final(self).wf(),
            *final(self) == match *intent {
                MomentumIntent::PointerStart(v) => Emulator {
                    pointer: ClassState::start_spec(old(self).pointer, v),
                    ..*old(self)
                },
                MomentumIntent::PointerStop => Emulator {
                    pointer: ClassState::stop_spec(old(self).pointer),
                    ..*old(self)
                },
                MomentumIntent::ScrollStart(v) => Emulator {
                    scroll: ClassState::start_spec(old(self).scroll, v),
                    ..*old(self)
                },
                MomentumIntent::ScrollStop => Emulator {
                    scroll: ClassState::stop_spec(old(self).scroll),
                    ..*old(self)
                },
            },
    {
        match intent {
            MomentumIntent::PointerStart(v) => self.pointer.start(v),
            MomentumIntent::PointerStop => self.pointer.stop(),
            MomentumIntent::ScrollStart(v) => self.scroll.start(v),
            MomentumIntent::ScrollStop => self.scroll.stop(),
        }
    }

    /// Runs one decay tick over both classes and returns what to emit:
    /// the pointer delta as one combined motion, the scroll delta as
    /// exactly one single-axis event.
    pub fn tick(&mut self, cfg: &Config) -> (out: TickOutput)
        requires
            old(self).wf(),
            cfg.wf(),
        ensures
            final(self).wf(),
            ({
                let (pst, pout) = tick_class_spec(
                    old(self).pointer,
                    cfg.pointer.drag_milli as int,
                    cfg.pointer.scale_ppm as int,
                );
                let (sst, sout) = tick_class_spec(
                    old(self).scroll,
                    cfg.scroll.drag_milli as int,
                    cfg.scroll.scale_ppm as int,
                );
                &&& final(self).pointer == pst
                &&& final(self).scroll == sst
                &&& out.pointer == pointer_out_spec(pout)
                &&& out.scroll == scroll_out_spec(sout, cfg.invert_scroll)
            }),
    {
        let pout = self.pointer.tick(&cfg.pointer);
        let sout = self.scroll.tick(&cfg.scroll);
        let pointer: Option<(i32, i32)> = match pout {
            None => None,
            Some((dx, dy)) => Some((crate::num::sat_i32(dx), crate::num::sat_i32(dy))),
        };
        let scroll: Option<ScrollDelta> = match sout {
            None => None,
            Some((dx, dy)) => Some(scroll_choice(dx, dy, cfg.invert_scroll)),
        };
        TickOutput { pointer, scroll }
    }
}

/// Exact division undoes multiplication: when `b` divides `a`, the
/// truncated quotient times `b` gives back `a`.
pub proof fn lemma_exact_div(a: int, b: int)
    requires
        b >= 1,
        a % b == 0,
    ensures
        div_to_zero(a, b) * b == a,
        div_to_zero(a, b) == a / b,
{
    vstd::arithmetic::div_mod::lemma_fundamental_div_mod(a, b);
    if a < 0 {
        let q = a / b;
        assert(-a == (-q) * b + 0) by (nonlinear_arith)
            requires
                a == b * q,
        ;
        vstd::arithmetic::div_mod::lemma_fundamental_div_mod_converse(-a, b, -q, 0);
        assert(q * b == b * q) by (nonlinear_arith);
    } else {
        assert((a / b) * b == b * (a / b)) by (nonlinear_arith);
    }
}

/// The ticks at which the decay is exact: at every step before `n`, the
/// running velocity times `(1000 - drag)` is a multiple of 1000, so the
/// truncation drops nothing.
pub open spec fn exact_decay_path(v0: int, drag_milli: int, n: nat) -> bool {
    forall|i: nat|
        i < n ==> (#[trigger] decayed(v0, drag_milli, i) * (DRAG_DENOM - drag_milli)) % (
        DRAG_DENOM as int) == 0
}

/// Decay law, closed form: as long as every tick's division is exact, the
/// velocity after `n` ticks is `v0 * (1 - d)^n` — written without
/// fractions as `decayed * 1000^n == v0 * (1000 - drag)^n`.
pub proof fn lemma_decay_law(v0: int, drag_milli: int, n: nat)
    requires
        0 <= drag_milli <= DRAG_DENOM,
        exact_decay_path(v0, drag_milli, n),
    ensures
        decayed(v0, drag_milli, n) * vstd::arithmetic::power::pow(DRAG_DENOM as int, n) == v0
            * vstd::arithmetic::power::pow(DRAG_DENOM - drag_milli, n),
    decreases n,
{
    reveal(vstd::arithmetic::power::pow);
    let keep = DRAG_DENOM - drag_milli;
    let den = DRAG_DENOM as int;
    if n > 0 {
        let m = (n - 1) as nat;
        lemma_decay_law(v0, drag_milli, m);
        let prev = decayed(v0, drag_milli, m);
        let cur = decayed(v0, drag_milli, n);
        assert((prev * keep) % den == 0);
        lemma_exact_div(prev * keep, den);
        let pd_m = vstd::arithmetic::power::pow(den, m);
        let pk_m = vstd::arithmetic::power::pow(keep, m);
        assert(vstd::arithmetic::power::pow(den, n) == den * pd_m);
        assert(vstd::arithmetic::power::pow(keep, n) == keep * pk_m);
        assert(cur * (den * pd_m) == (cur * den) * pd_m) by (nonlinear_arith);
        assert((prev * keep) * pd_m == keep * (prev * pd_m)) by (nonlinear_arith);
        assert(keep * (v0 * pk_m) == v0 * (keep * pk_m)) by (nonlinear_arith);
    }
}

/// With any positive drag, one decay step strictly shrinks a nonzero
/// velocity, so an active class reaches the terminal zero delta — and
/// with it Idle — after finitely many ticks.
pub proof fn lemma_decay_strictly_shrinks(v: int, drag_milli: int)
    requires
        1 <= drag_milli <= DRAG_DENOM,
        v != 0,
    ensures
        vstd::math::abs(decay_step_spec(v, drag_milli)) < vstd::math::abs(v),
{
    let keep = DRAG_DENOM - drag_milli;
    let den = DRAG_DENOM as int;
    let a = if v >= 0 {
        v
    } else {
        -v
    };
    assert(a * keep < den * a) by (nonlinear_arith)
        requires
            a >= 1 && 0 <= keep < den,
    ;
    assert(a * keep >= 0) by (nonlinear_arith)
        requires
            a >= 0 && keep >= 0,
    ;
    vstd::arithmetic::div_mod::lemma_multiply_divide_lt(a * keep, den, a);
    vstd::arithmetic::div_mod::lemma_div_pos_is_pos(a * keep, den);
    if v < 0 {
        assert(v * keep == -(a * keep)) by (nonlinear_arith)
            requires
                a == -v,
        ;
    }
}

/// The state of a class after `n` decay ticks.
pub open spec fn run_ticks(pre: ClassState, drag_milli: int, scale_ppm: int, n: nat) -> ClassState
    decreases n,
{
    if n == 0 {
        pre
    } else {
        tick_class_spec(run_ticks(pre, drag_milli, scale_ppm, (n - 1) as nat), drag_milli,
        scale_ppm).0
    }
}

/// An Idle class never consumes tick work: the tick leaves it untouched
/// and emits nothing.
pub proof fn lemma_idle_tick_is_noop(pre: ClassState, drag_milli: int, scale_ppm: int)
    requires
        !pre.active,
    ensures
        tick_class_spec(pre, drag_milli, scale_ppm) == (pre, None::<(i64, i64)>),
{
}

/// While a class has stayed Active through `n` ticks, its velocity is the
/// `n`-fold decay of its starting velocity — the per-tick truncated form
/// of the decay law — and the starting class was Active.
pub proof fn lemma_run_ticks_velocity(pre: ClassState, drag_milli: int, scale_ppm: int, n: nat)
    requires
        0 <= drag_milli <= DRAG_DENOM,
        run_ticks(pre, drag_milli, scale_ppm, n).active,
    ensures
        pre.active,
        run_ticks(pre, drag_milli, scale_ppm, n).vx == decayed(pre.vx as int, drag_milli, n),
        run_ticks(pre, drag_milli, scale_ppm, n).vy == decayed(pre.vy as int, drag_milli, n),
    decreases n,
{
    if n > 0 {
        let prev = run_ticks(pre, drag_milli, scale_ppm, (n - 1) as nat);
        if !prev.active {
            assert(!run_ticks(pre, drag_milli, scale_ppm, n).active);
        }
        lemma_run_ticks_velocity(pre, drag_milli, scale_ppm, (n - 1) as nat);
        crate::num::lemma_scale_down_bound(
            prev.vx as int,
            DRAG_DENOM - drag_milli,
            DRAG_DENOM as int,
        );
        crate::num::lemma_scale_down_bound(
            prev.vy as int,
            DRAG_DENOM - drag_milli,
            DRAG_DENOM as int,
        );
    }
}

/// Decay-schedule law: while a class is still Active after `n` ticks of a
/// start at `v0`, the next tick computes velocity `decayed(v0, n + 1)` and
/// delta `trunc(velocity * scale)` per axis; it emits exactly that delta
/// pair and stays Active when some axis is non-zero, and at the first tick
/// where both axes truncate to zero it emits nothing and transitions to
/// Idle with velocity (0, 0).
pub proof fn lemma_decay_schedule(pre: ClassState, drag_milli: int, scale_ppm: int, n: nat)
    requires
        0 <= drag_milli <= DRAG_DENOM,
        0 <= scale_ppm <= DELTA_DENOM,
        run_ticks(pre, drag_milli, scale_ppm, n).active,
    ensures
        ({
            let (next, out) = tick_class_spec(
                run_ticks(pre, drag_milli, scale_ppm, n),
                drag_milli,
                scale_ppm,
            );
            let vx = decayed(pre.vx as int, drag_milli, n + 1);
            let vy = decayed(pre.vy as int, drag_milli, n + 1);
            let dx = delta_spec(vx, scale_ppm);
            let dy = delta_spec(vy, scale_ppm);
            &&& next == run_ticks(pre, drag_milli, scale_ppm, n + 1)
            &&& (dx != 0 || dy != 0) ==> out == Some((dx as i64, dy as i64)) && next.active
                && next.vx == vx && next.vy == vy
            &&& (dx == 0 && dy == 0) ==> out is None && next == ClassState::idle_spec()
        }),
{
    lemma_run_ticks_velocity(pre, drag_milli, scale_ppm, n);
    let cur = run_ticks(pre, drag_milli, scale_ppm, n);
    let keep = DRAG_DENOM - drag_milli;
    crate::num::lemma_scale_down_bound(cur.vx as int, keep, DRAG_DENOM as int);
    crate::num::lemma_scale_down_bound(cur.vy as int, keep, DRAG_DENOM as int);
    let vx = decay_step_spec(cur.vx as int, drag_milli);
    let vy = decay_step_spec(cur.vy as int, drag_milli);
    crate::num::lemma_scale_down_bound(vx, scale_ppm, DELTA_DENOM as int);
    crate::num::lemma_scale_down_bound(vy, scale_ppm, DELTA_DENOM as int);
    assert(run_ticks(pre, drag_milli, scale_ppm, n + 1) == tick_class_spec(cur, drag_milli,
    scale_ppm).0);
}

/// Scroll-emission law: each emitting tick yields exactly one scroll
/// event — the axis of larger truncated magnitude, ties resolved in
/// favor of vertical. Inversion flips the vertical sign and leaves the
/// horizontal axis untouched.
pub proof fn lemma_scroll_axis_choice(dx: int, dy: int, invert: bool)
    requires
        i32::MIN <= dx <= i32::MAX,
        i32::MIN < dy <= i32::MAX,
    ensures
        vstd::math::abs(dy) >= vstd::math::abs(dx) ==> scroll_choice_spec(dx, dy, invert)
            == ScrollDelta::Vertical(
            (if invert {
                -dy
            } else {
                dy
            }) as i32,
        ),
        vstd::math::abs(dy) < vstd::math::abs(dx) ==> scroll_choice_spec(dx, dy, invert)
            == ScrollDelta::Horizontal(dx as i32),
        scroll_choice_spec(dx, dy, true) is Horizontal ==> scroll_choice_spec(dx, dy, true)
            == scroll_choice_spec(dx, dy, false),
{
}

/// Picks the single scroll event for a tick's axis deltas.
pub fn scroll_choice(dx: i64, dy: i64, invert: bool) -> (r: ScrollDelta)
    ensures
        r == scroll_choice_spec(dx as int, dy as int, invert),
{
    let adx: i128 = if dx < 0 {
        -(dx as i128)
    } else {
        dx as i128
    };
    let ady: i128 = if dy < 0 {
        -(dy as i128)
    } else {
        dy as i128
    };
    if ady >= adx {
        if invert {
            if dy == i64::MIN {
                ScrollDelta::Vertical(i32::MAX)
            } else {
                ScrollDelta::Vertical(crate::num::sat_i32(-dy))
            }
        } else {
            ScrollDelta::Vertical(crate::num::sat_i32(dy))
        }
    } else {
        ScrollDelta::Horizontal(crate::num::sat_i32(dx))
    }
}

} // verus!
