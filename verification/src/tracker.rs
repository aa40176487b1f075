//! The gesture tracker: turns the raw event stream into momentum intents.
//! It maintains the running position (the centroid of the two tracked
//! slots while two fingers are down), recomputes velocity whenever the
//! position changes with strictly positive elapsed time, and classifies
//! each lift-off as a pointer flick, a scroll flick, or noise — the
//! latter filtered by the multitouch guard window.

use crate::config::Config;
use crate::events::{finger_count, finger_count_of, AxisKind, KeyKind, RawEvent};
use crate::intent::MomentumIntent;
use crate::num::div_to_zero;
use crate::velocity::{Sample, Velocity};
use vstd::prelude::*;

verus! {

/// The tracker's running state.
#[derive(Clone, Copy, Debug, PartialEq, Eq, Structural)]
pub struct Tracker {
    /// Fingers on the pad, set by the finger-count keys; 0 through 5.
    pub touch_count: u8,
    /// Primary contact position, horizontal.
    pub primary_x: i32,
    /// Primary contact position, vertical.
    pub primary_y: i32,
    /// The multitouch slot later slot coordinates refer to.
    pub slot: i32,
    /// Position of multitouch slot 0, horizontal.
    pub slot0_x: i32,
    /// Position of multitouch slot 0, vertical.
    pub slot0_y: i32,
    /// Position of multitouch slot 1, horizontal.
    pub slot1_x: i32,
    /// Position of multitouch slot 1, vertical.
    pub slot1_y: i32,
    /// The sample velocity is measured against; cleared on touch-down and
    /// on finger-count transitions.
    pub reference: Option<Sample>,
    /// The last computed velocity.
    pub vel: Velocity,
    /// When a two-finger transition or release was last seen.
    pub two_finger_us: Option<u64>,
    /// When a transition to or release from three or more fingers was
    /// last seen.
    pub multi_finger_us: Option<u64>,
    /// The largest timestamp processed so far.
    pub last_ts_us: u64,
}

impl Tracker {
    /// Internal invariant: a sane finger count, a well-formed velocity,
    /// and no remembered instant later than the last processed timestamp.
    pub open spec fn wf(self) -> bool {
        &&& self.touch_count <= 5
        &&& self.vel.wf()
        &&& (self.reference matches Some(r) ==> r.t_us <= self.last_ts_us)
        &&& (self.two_finger_us matches Some(t) ==> t <= self.last_ts_us)
        &&& (self.multi_finger_us matches Some(t) ==> t <= self.last_ts_us)
    }

    /// The initial state: no touch, zero velocity, nothing remembered.
    pub open spec fn init_spec() -> Tracker {
        Tracker {
            touch_count: 0,
            primary_x: 0,
            primary_y: 0,
            slot: 0,
            slot0_x: 0,
            slot0_y: 0,
            slot1_x: 0,
            slot1_y: 0,
            reference: None,
            vel: Velocity::zero_spec(),
            two_finger_us: None,
            multi_finger_us: None,
            last_ts_us: 0,
        }
    }

    /// Builds a tracker in the initial state.
    pub fn new() -> (r: Tracker)
        ensures
            r == Tracker::init_spec(),
            r.wf(),
    {
        Tracker {
            touch_count: 0,
            primary_x: 0,
            primary_y: 0,
            slot: 0,
            slot0_x: 0,
            slot0_y: 0,
            slot1_x: 0,
            slot1_y: 0,
            reference: None,
            vel: Velocity::zero(),
            two_finger_us: None,
            multi_finger_us: None,
            last_ts_us: 0,
        }
    }
}

/// The tracked position: the centroid of the two multitouch slots while
/// two fingers are down, the primary position otherwise.
pub open spec fn effective_pos_spec(s: Tracker) -> (int, int) {
    if s.touch_count == 2 {
        (div_to_zero(s.slot0_x + s.slot1_x, 2), div_to_zero(s.slot0_y + s.slot1_y, 2))
    } else {
        (s.primary_x as int, s.primary_y as int)
    }
}

/// What an absolute-axis update writes, before any sampling: the primary
/// position, the slot selector, or the selected slot's position. Updates
/// for slots other than 0 and 1, and unknown axes, change nothing.
pub open spec fn axis_write_spec(s: Tracker, axis: AxisKind, value: i32) -> Tracker {
    match axis {
        AxisKind::PrimaryX => Tracker { primary_x: value, ..s },
        AxisKind::PrimaryY => Tracker { primary_y: value, ..s },
        AxisKind::SlotSelect => Tracker { slot: value, ..s },
        AxisKind::SlotX => if s.slot == 0 {
            Tracker { slot0_x: value, ..s }
        } else if s.slot == 1 {
            Tracker { slot1_x: value, ..s }
        } else {
            s
        },
        AxisKind::SlotY => if s.slot == 0 {
            Tracker { slot0_y: value, ..s }
        } else if s.slot == 1 {
            Tracker { slot1_y: value, ..s }
        } else {
            s
        },
        AxisKind::OtherAxis => s,
    }
}

/// Whether an axis update can move the tracked position, so that a new
/// sample is taken afterwards.
pub open spec fn is_position_axis(s: Tracker, axis: AxisKind) -> bool {
    match axis {
        AxisKind::PrimaryX => true,
        AxisKind::PrimaryY => true,
        AxisKind::SlotX => s.slot == 0 || s.slot == 1,
        AxisKind::SlotY => s.slot == 0 || s.slot == 1,
        _ => false,
    }
}

/// Takes a sample at the current position. With no reference sample the
/// position only becomes the new reference. Against a reference, a moved
/// position with strictly positive elapsed time yields the new velocity
/// `(delta position) / (delta time)` exactly; a moved position with zero
/// elapsed time leaves the stored velocity (and the reference) unchanged,
/// and an unmoved position changes nothing.
pub open spec fn sample_spec(s: Tracker, now_us: u64) -> Tracker {
    let (px, py) = effective_pos_spec(s);
    match s.reference {
        None => Tracker {
            reference: Some(Sample { x: px as i32, y: py as i32, t_us: now_us }),
            ..s
        },
        Some(r) => {
            if (px != r.x || py != r.y) && now_us > r.t_us {
                Tracker {
                    vel: Velocity {
                        dx: (px - r.x) as i64,
                        dy: (py - r.y) as i64,
                        dt_us: (now_us - r.t_us) as u64,
                    },
                    reference: Some(Sample { x: px as i32, y: py as i32, t_us: now_us }),
                    ..s
                }
            } else {
                s
            }
        },
    }
}

/// A whole absolute-axis event: the raw write, then a sample when the
/// axis can move the tracked position.
pub open spec fn abs_event_spec(s: Tracker, axis: AxisKind, value: i32, now_us: u64) -> Tracker {
    let s1 = axis_write_spec(s, axis, value);
    if is_position_axis(s, axis) {
        sample_spec(s1, now_us)
    } else {
        s1
    }
}

/// Whether a remembered instant no longer blocks a lift-off: nothing is
/// remembered, or at least the guard window has elapsed since it.
pub open spec fn cooldown_over_spec(last: Option<u64>, now_us: u64, window_us: u64) -> bool {
    match last {
        None => true,
        Some(t) => now_us - t >= window_us,
    }
}

/// The `Stop` intents touch-down sends, one per enabled class, pointer
/// first: a new gesture cancels any momentum in flight.
pub open spec fn stops_spec(cfg: Config) -> Seq<MomentumIntent> {
    if cfg.pointer.enabled && cfg.scroll.enabled {
        seq![MomentumIntent::PointerStop, MomentumIntent::ScrollStop]
    } else if cfg.pointer.enabled {
        seq![MomentumIntent::PointerStop]
    } else if cfg.scroll.enabled {
        seq![MomentumIntent::ScrollStop]
    } else {
        Seq::empty()
    }
}

/// Lift-off classification, by the finger count at that instant. One
/// finger starts pointer momentum when the class is enabled, the speed
/// reaches the pointer threshold and neither the two-finger nor the
/// multi-finger guard window is still running; two fingers start scroll
/// momentum under the symmetric conditions against the scroll threshold
/// and the multi-finger window. Any other count is no candidate.
pub open spec fn classify_spec(s: Tracker, now_us: u64, cfg: Config) -> Seq<MomentumIntent> {
    if s.touch_count == 1 && cfg.pointer.enabled && s.vel.speed_at_least_spec(
        cfg.pointer.threshold_milli,
    ) && cooldown_over_spec(s.two_finger_us, now_us, cfg.cooldown_us) && cooldown_over_spec(
        s.multi_finger_us,
        now_us,
        cfg.cooldown_us,
    ) {
        seq![MomentumIntent::PointerStart(s.vel)]
    } else if s.touch_count == 2 && cfg.scroll.enabled && s.vel.speed_at_least_spec(
        cfg.scroll.threshold_milli,
    ) && cooldown_over_spec(s.multi_finger_us, now_us, cfg.cooldown_us) {
        seq![MomentumIntent::ScrollStart(s.vel)]
    } else {
        Seq::empty()
    }
}

/// Remembers a finger-count instant: a count of two marks the two-finger
/// slot, three or more the multi-finger slot, one marks nothing.
pub open spec fn record_cooldown_spec(s: Tracker, count: int, now_us: u64) -> Tracker {
    if count == 2 {
        Tracker { two_finger_us: Some(now_us), ..s }
    } else if count >= 3 {
        Tracker { multi_finger_us: Some(now_us), ..s }
    } else {
        s
    }
}

/// What a key event does.
/// Touch-down first cancels momentum (the `Stop`s), zeroes the velocity
/// and clears the reference; touch-up classifies the lift-off. A
/// finger-count assertion is a transition: it sets the count, clears the
/// reference, zeroes the velocity for counts of two or more, and marks
/// the transition instant; a finger-count release marks that instant
/// only, and never emits momentum itself. Unknown keys change nothing.
pub open spec fn key_event_spec(s: Tracker, key: KeyKind, value: i32, now_us: u64, cfg: Config) -> (
    Tracker,
    Seq<MomentumIntent>,
) {
    if key == KeyKind::TouchContact {
        if value == 1 {
            (Tracker { vel: Velocity::zero_spec(), reference: None, ..s }, stops_spec(cfg))
        } else if value == 0 {
            (s, classify_spec(s, now_us, cfg))
        } else {
            (s, Seq::empty())
        }
    } else {
        let count = finger_count_of(key);
        if count >= 1 {
            if value == 1 {
                let s1 = Tracker { touch_count: count as u8, reference: None, ..s };
                let s2 = if count >= 2 {
                    Tracker { vel: Velocity::zero_spec(), ..s1 }
                } else {
                    s1
                };
                (record_cooldown_spec(s2, count, now_us), Seq::empty())
            } else if value == 0 {
                (record_cooldown_spec(s, count, now_us), Seq::empty())
            } else {
                (s, Seq::empty())
            }
        } else {
            (s, Seq::empty())
        }
    }
}

/// The tracker's whole transition on one raw event: remember the
/// timestamp, then dispatch on the event kind. Synchronization markers
/// and unknown events change nothing and emit nothing.
pub open spec fn step_spec(s: Tracker, ev: RawEvent, now_us: u64, cfg: Config) -> (
    Tracker,
    Seq<MomentumIntent>,
) {
    let s0 = Tracker { last_ts_us: now_us, ..s };
    match ev {
        RawEvent::AbsoluteAxis { axis, value } => (
            abs_event_spec(s0, axis, value, now_us),
            Seq::empty(),
        ),
        RawEvent::Key { key, value } => key_event_spec(s0, key, value, now_us, cfg),
        RawEvent::Sync => (s0, Seq::empty()),
        RawEvent::Other => (s0, Seq::empty()),
    }
}

/// Decides [`cooldown_over_spec`].
fn cooldown_over(last: &Option<u64>, now_us: u64, window_us: u64) -> (r: bool)
    requires
        *last matches Some(t) ==> t <= now_us,
    ensures
        r == cooldown_over_spec(*last, now_us, window_us),
{
    match last {
        None => true,
        Some(t) => now_us - *t >= window_us,
    }
}

/// Builds the touch-down `Stop` intents, one per enabled class.
fn stops(cfg: &Config) -> (out: Vec<MomentumIntent>)
    ensures
        out@ == stops_spec(*cfg),
{
    let mut out: Vec<MomentumIntent> = Vec::new();
    if cfg.pointer.enabled {
        out.push(MomentumIntent::PointerStop);
    }
    if cfg.scroll.enabled {
        out.push(MomentumIntent::ScrollStop);
    }
    proof {
        assert(out@ =~= stops_spec(*cfg));
    }
    out
}

impl Tracker {
    /// Reads the tracked position.
    pub fn effective_pos(&self) -> (p: (i32, i32))
        ensures
            p.0 == effective_pos_spec(*self).0,
            p.1 == effective_pos_spec(*self).1,
    {
        if self.touch_count == 2 {
            (
                crate::num::avg_i32(self.slot0_x, self.slot1_x),
                crate::num::avg_i32(self.slot0_y, self.slot1_y),
            )
        } else {
            (self.primary_x, self.primary_y)
        }
    }

    /// Takes a sample at the current position; see [`sample_spec`].
    fn take_sample(&mut self, now_us: u64)
        requires
            old(self).reference matches Some(r) ==> r.t_us <= now_us,
        ensures
            *final(self) == sample_spec(*old(self), now_us),
    {
        let (px, py) = self.effective_pos();
        match self.reference {
            None => {
                self.reference = Some(Sample { x: px, y: py, t_us: now_us });
            },
            Some(r) => {
                if (px != r.x || py != r.y) && now_us > r.t_us {
                    self.vel = Velocity {
                        dx: px as i64 - r.x as i64,
                        dy: py as i64 - r.y as i64,
                        dt_us: now_us - r.t_us,
                    };
                    self.reference = Some(Sample { x: px, y: py, t_us: now_us });
                }
            },
        }
    }

    /// Classifies a lift-off; see [`classify_spec`].
    fn classify(&self, now_us: u64, cfg: &Config) -> (out: Vec<MomentumIntent>)
        requires
            self.vel.wf(),
            self.two_finger_us matches Some(t) ==> t <= now_us,
            self.multi_finger_us matches Some(t) ==> t <= now_us,
        ensures
            out@ == classify_spec(*self, now_us, *cfg),
    {
        let mut out: Vec<MomentumIntent> = Vec::new();
        if self.touch_count == 1 {
            if cfg.pointer.enabled && self.vel.speed_at_least(cfg.pointer.threshold_milli)
                && cooldown_over(&self.two_finger_us, now_us, cfg.cooldown_us) && cooldown_over(
                &self.multi_finger_us,
                now_us,
                cfg.cooldown_us,
            ) {
                out.push(MomentumIntent::PointerStart(self.vel));
            }
        } else if self.touch_count == 2 {
            if cfg.scroll.enabled && self.vel.speed_at_least(cfg.scroll.threshold_milli)
                && cooldown_over(&self.multi_finger_us, now_us, cfg.cooldown_us) {
                out.push(MomentumIntent::ScrollStart(self.vel));
            }
        }
        proof {
            assert(out@ =~= classify_spec(*self, now_us, *cfg));
        }
        out
    }

    /// Remembers a finger-count instant; see [`record_cooldown_spec`].
    fn record_cooldown(&mut self, count: u8, now_us: u64)
        ensures
            *final(self) == record_cooldown_spec(*old(self), count as int, now_us),
    {
        if count == 2 {
            self.two_finger_us = Some(now_us);
        } else if count >= 3 {
            self.multi_finger_us = Some(now_us);
        }
    }

    /// Handles a key event; see [`key_event_spec`].
    fn handle_key(&mut self, key: KeyKind, value: i32, now_us: u64, cfg: &Config) -> (out: Vec<
        MomentumIntent,
    >)
        requires
            old(self).vel.wf(),
            old(self).two_finger_us matches Some(t) ==> t <= now_us,
            old(self).multi_finger_us matches Some(t) ==> t <= now_us,
        ensures
            *final(self) == key_event_spec(*old(self), key, value, now_us, *cfg).0,
            out@ == key_event_spec(*old(self), key, value, now_us, *cfg).1,
    {
        if key == KeyKind::TouchContact {
            if value == 1 {
                self.vel = Velocity::zero();
                self.reference = None;
                stops(cfg)
            } else if value == 0 {
                self.classify(now_us, cfg)
            } else {
                Vec::new()
            }
        } else {
            let count = finger_count(key);
            if count >= 1 {
                if value == 1 {
                    self.touch_count = count;
                    self.reference = None;
                    if count >= 2 {
                        self.vel = Velocity::zero();
                    }
                    self.record_cooldown(count, now_us);
                } else if value == 0 {
                    self.record_cooldown(count, now_us);
                }
            }
            Vec::new()
        }
    }

    /// Processes one raw event with its timestamp (non-decreasing across
    /// calls, as the event source guarantees) and returns the momentum
    /// intents it produces, in emission order.
    pub fn process_event(&mut self, ev: RawEvent, now_us: u64, cfg: &Config) -> (out: Vec<
        MomentumIntent,
    >)
        requires
            old(self).wf(),
            now_us >= old(self).last_ts_us,
        ensures
            final(self).wf(),
            *final(self) == step_spec(*old(self), ev, now_us, *cfg).0,
            out@ == step_spec(*old(self), ev, now_us, *cfg).1,
    {
        self.last_ts_us = now_us;
        let out: Vec<MomentumIntent> = match ev {
            RawEvent::AbsoluteAxis { axis, value } => {
                let track: bool = match axis {
                    AxisKind::PrimaryX => true,
                    AxisKind::PrimaryY => true,
                    AxisKind::SlotX => self.slot == 0 || self.slot == 1,
                    AxisKind::SlotY => self.slot == 0 || self.slot == 1,
                    _ => false,
                };
                match axis {
                    AxisKind::PrimaryX => self.primary_x = value,
                    AxisKind::PrimaryY => self.primary_y = value,
                    AxisKind::SlotSelect => self.slot = value,
                    AxisKind::SlotX => if self.slot == 0 {
                        self.slot0_x = value;
                    } else if self.slot == 1 {
                        self.slot1_x = value;
                    },
                    AxisKind::SlotY => if self.slot == 0 {
                        self.slot0_y = value;
                    } else if self.slot == 1 {
                        self.slot1_y = value;
                    },
                    AxisKind::OtherAxis => {},
                }
                if track {
                    self.take_sample(now_us);
                }
                Vec::new()
            },
            RawEvent::Key { key, value } => self.handle_key(key, value, now_us, cfg),
            RawEvent::Sync => Vec::new(),
            RawEvent::Other => Vec::new(),
        };
        proof {
            lemma_step_wf(*old(self), ev, now_us, *cfg);
        }
        out
    }
}

/// Velocity law: two samples `(x0, t0)` and `(x1, t1)` with `t1 > t0` and
/// a moved position give exactly the velocity `(x1 - x0) / (t1 - t0)`,
/// component-wise — the stored velocity is that unevaluated quotient.
pub proof fn lemma_velocity_exact(s: Tracker, r: Sample, now_us: u64)
    requires
        s.reference == Some(r),
        now_us > r.t_us,
        effective_pos_spec(s) != (r.x as int, r.y as int),
    ensures
        sample_spec(s, now_us).vel == (Velocity {
            dx: (effective_pos_spec(s).0 - r.x) as i64,
            dy: (effective_pos_spec(s).1 - r.y) as i64,
            dt_us: (now_us - r.t_us) as u64,
        }),
{
}

/// Degenerate-sample law: a sample pair with equal timestamps changes
/// nothing — in particular the stored velocity stays as it was, rather
/// than becoming a division by zero.
pub proof fn lemma_stale_sample_is_ignored(s: Tracker, r: Sample, now_us: u64)
    requires
        s.reference == Some(r),
        now_us == r.t_us,
    ensures
        sample_spec(s, now_us) == s,
        sample_spec(s, now_us).vel == s.vel,
{
}

/// Pointer lift-off law: a single-finger lift-off with no guard window
/// running emits exactly one `PointerStart`, carrying the last computed
/// velocity, when that velocity reaches the pointer threshold — and
/// nothing at all when it does not.
pub proof fn lemma_pointer_liftoff(s: Tracker, now_us: u64, cfg: Config)
    requires
        s.touch_count == 1,
        cfg.pointer.enabled,
        cooldown_over_spec(s.two_finger_us, now_us, cfg.cooldown_us),
        cooldown_over_spec(s.multi_finger_us, now_us, cfg.cooldown_us),
    ensures
        s.vel.speed_at_least_spec(cfg.pointer.threshold_milli) ==> step_spec(
            s,
            RawEvent::Key { key: KeyKind::TouchContact, value: 0 },
            now_us,
            cfg,
        ).1 =~= seq![MomentumIntent::PointerStart(s.vel)],
        !s.vel.speed_at_least_spec(cfg.pointer.threshold_milli) ==> step_spec(
            s,
            RawEvent::Key { key: KeyKind::TouchContact, value: 0 },
            now_us,
            cfg,
        ).1 =~= Seq::<MomentumIntent>::empty(),
{
}

/// Guard-window law: a lift-off within the guard window after a
/// two-finger instant emits no `PointerStart`, regardless of speed.
pub proof fn lemma_guard_window_blocks_pointer(s: Tracker, t2: u64, now_us: u64, cfg: Config)
    requires
        s.two_finger_us == Some(t2),
        t2 <= now_us,
        now_us - t2 < cfg.cooldown_us,
    ensures
        forall|i: int|
            0 <= i < step_spec(
                s,
                RawEvent::Key { key: KeyKind::TouchContact, value: 0 },
                now_us,
                cfg,
            ).1.len() ==> !(#[trigger] step_spec(
                s,
                RawEvent::Key { key: KeyKind::TouchContact, value: 0 },
                now_us,
                cfg,
            ).1[i] is PointerStart),
{
}

/// Every step preserves the tracker invariant.
pub proof fn lemma_step_wf(s: Tracker, ev: RawEvent, now_us: u64, cfg: Config)
    requires
        s.wf(),
        now_us >= s.last_ts_us,
    ensures
        step_spec(s, ev, now_us, cfg).0.wf(),
{
    let s0 = Tracker { last_ts_us: now_us, ..s };
    match ev {
        RawEvent::AbsoluteAxis { axis, value } => {
            let s1 = axis_write_spec(s0, axis, value);
            crate::num::lemma_avg_in_range(s1.slot0_x as int, s1.slot1_x as int);
            crate::num::lemma_avg_in_range(s1.slot0_y as int, s1.slot1_y as int);
        },
        _ => {},
    }
}

} // verus!
