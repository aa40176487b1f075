use inertpad::config::{ClassParams, Config};
use inertpad::events::{AxisKind, KeyKind, RawEvent};
use inertpad::intent::MomentumIntent;
use inertpad::tracker::Tracker;
use inertpad::velocity::Velocity;

const WINDOW_US: u64 = 500_000;

fn cfg(pointer_thr_milli: u32, scroll_thr_milli: u32) -> Config {
    Config::new(
        ClassParams::new(true, 150, 7_500, pointer_thr_milli),
        ClassParams::new(true, 150, 7_500, scroll_thr_milli),
        false,
        16_666,
        WINDOW_US,
    )
}

fn abs(axis: AxisKind, value: i32) -> RawEvent {
    RawEvent::AbsoluteAxis { axis, value }
}

fn key(key: KeyKind, value: i32) -> RawEvent {
    RawEvent::Key { key, value }
}

/// One finger down at `t0`, a swipe from `x0` to `x1` ending at `t1`.
fn single_finger_swipe(t: &mut Tracker, c: &Config, x0: i32, x1: i32, t0: u64, t1: u64) {
    t.process_event(key(KeyKind::ToolFinger, 1), t0, c);
    t.process_event(key(KeyKind::TouchContact, 1), t0, c);
    t.process_event(abs(AxisKind::PrimaryX, x0), t0, c);
    t.process_event(abs(AxisKind::PrimaryX, x1), t1, c);
}

#[test]
fn velocity_is_exact_quotient() {
    // (x0, t0) = (100, 1s), (x1, t1) = (350, 1.1s):
    // velocity = 250 units per 100000 us, exactly, component-wise.
    let c = cfg(0, 0);
    let mut t = Tracker::new();
    single_finger_swipe(&mut t, &c, 100, 350, 1_000_000, 1_100_000);
    assert_eq!(
        t.vel,
        Velocity {
            dx: 250,
            dy: 0,
            dt_us: 100_000
        }
    );
}

#[test]
fn equal_timestamps_leave_velocity_unchanged() {
    let c = cfg(0, 0);
    let mut t = Tracker::new();
    single_finger_swipe(&mut t, &c, 100, 350, 1_000_000, 1_100_000);
    let before = t.vel;
    // A moved position with zero elapsed time must not touch the velocity.
    t.process_event(abs(AxisKind::PrimaryX, 9_999), 1_100_000, &c);
    assert_eq!(t.vel, before);
}

#[test]
fn unmoved_position_leaves_velocity_unchanged() {
    let c = cfg(0, 0);
    let mut t = Tracker::new();
    single_finger_swipe(&mut t, &c, 100, 350, 1_000_000, 1_100_000);
    let before = t.vel;
    t.process_event(abs(AxisKind::PrimaryX, 350), 2_000_000, &c);
    assert_eq!(t.vel, before);
}

#[test]
fn fast_liftoff_emits_one_pointer_start() {
    // 250 units / 0.1 s = 2500 units/s, threshold 2000 units/s: one
    // PointerStart carrying the last computed velocity.
    let c = cfg(2_000_000, 2_000_000);
    let mut t = Tracker::new();
    single_finger_swipe(&mut t, &c, 100, 350, 1_000_000, 1_100_000);
    let out = t.process_event(key(KeyKind::TouchContact, 0), 1_100_000, &c);
    assert_eq!(
        out,
        vec![MomentumIntent::PointerStart(Velocity {
            dx: 250,
            dy: 0,
            dt_us: 100_000
        })]
    );
}

#[test]
fn slow_liftoff_emits_nothing() {
    // 250 units / 0.1 s = 2500 units/s, threshold 3000 units/s: nothing.
    let c = cfg(3_000_000, 3_000_000);
    let mut t = Tracker::new();
    single_finger_swipe(&mut t, &c, 100, 350, 1_000_000, 1_100_000);
    let out = t.process_event(key(KeyKind::TouchContact, 0), 1_100_000, &c);
    assert!(out.is_empty());
}

#[test]
fn liftoff_at_threshold_emits() {
    // Exactly the threshold speed still starts momentum (>= comparison):
    // 200 units / 0.1 s = 2000 units/s against 2000 units/s.
    let c = cfg(2_000_000, 2_000_000);
    let mut t = Tracker::new();
    single_finger_swipe(&mut t, &c, 100, 300, 1_000_000, 1_100_000);
    let out = t.process_event(key(KeyKind::TouchContact, 0), 1_100_000, &c);
    assert_eq!(out.len(), 1);
    // One milli-unit above the same speed no longer does.
    let c2 = cfg(2_000_001, 2_000_001);
    let mut t2 = Tracker::new();
    single_finger_swipe(&mut t2, &c2, 100, 300, 1_000_000, 1_100_000);
    let out2 = t2.process_event(key(KeyKind::TouchContact, 0), 1_100_000, &c2);
    assert!(out2.is_empty());
}

#[test]
fn touch_down_stops_enabled_classes() {
    let c = cfg(0, 0);
    let mut t = Tracker::new();
    let out = t.process_event(key(KeyKind::TouchContact, 1), 5_000, &c);
    assert_eq!(
        out,
        vec![MomentumIntent::PointerStop, MomentumIntent::ScrollStop]
    );
    // With scroll disabled only the pointer Stop goes out.
    let c2 = Config::new(
        ClassParams::new(true, 150, 7_500, 0),
        ClassParams::new(false, 150, 7_500, 0),
        false,
        16_666,
        WINDOW_US,
    );
    let mut t2 = Tracker::new();
    let out2 = t2.process_event(key(KeyKind::TouchContact, 1), 5_000, &c2);
    assert_eq!(out2, vec![MomentumIntent::PointerStop]);
}

#[test]
fn touch_down_zeroes_velocity() {
    let c = cfg(0, 0);
    let mut t = Tracker::new();
    single_finger_swipe(&mut t, &c, 100, 350, 1_000_000, 1_100_000);
    assert_ne!(t.vel.dx, 0);
    t.process_event(key(KeyKind::TouchContact, 1), 1_200_000, &c);
    assert_eq!(t.vel, Velocity { dx: 0, dy: 0, dt_us: 1 });
    assert_eq!(t.reference, None);
}

#[test]
fn guard_window_blocks_fast_liftoff() {
    // A two-finger release 100 ms before a fast single-finger lift-off:
    // no PointerStart, regardless of speed.
    let c = cfg(2_000_000, 2_000_000);
    let mut t = Tracker::new();
    t.process_event(key(KeyKind::ToolDoubleTap, 1), 1_000_000, &c);
    t.process_event(key(KeyKind::ToolDoubleTap, 0), 1_500_000, &c);
    t.process_event(key(KeyKind::ToolFinger, 1), 1_500_000, &c);
    t.process_event(abs(AxisKind::PrimaryX, 100), 1_500_000, &c);
    t.process_event(abs(AxisKind::PrimaryX, 1_100), 1_600_000, &c); // 10000 units/s
    let out = t.process_event(key(KeyKind::TouchContact, 0), 1_600_000, &c);
    assert!(out.is_empty());
}

#[test]
fn liftoff_after_guard_window_emits() {
    // The same lift-off beyond the guard window starts momentum again.
    let c = cfg(2_000_000, 2_000_000);
    let mut t = Tracker::new();
    t.process_event(key(KeyKind::ToolDoubleTap, 1), 1_000_000, &c);
    t.process_event(key(KeyKind::ToolDoubleTap, 0), 1_100_000, &c);
    t.process_event(key(KeyKind::ToolFinger, 1), 1_100_000, &c);
    t.process_event(abs(AxisKind::PrimaryX, 100), 1_500_000, &c);
    t.process_event(abs(AxisKind::PrimaryX, 1_100), 1_600_000, &c);
    // 1_600_000 - 1_100_000 = 500_000 = the window: no longer blocked.
    let out = t.process_event(key(KeyKind::TouchContact, 0), 1_600_000, &c);
    assert_eq!(out.len(), 1);
    assert!(matches!(out[0], MomentumIntent::PointerStart(_)));
}

#[test]
fn two_finger_liftoff_starts_scroll() {
    // Two fingers tracked through multitouch slots; the position is their
    // centroid. A fast two-finger lift-off starts scroll momentum.
    let c = cfg(2_000_000, 1_000_000);
    let mut t = Tracker::new();
    t.process_event(key(KeyKind::ToolDoubleTap, 1), 1_000_000, &c);
    t.process_event(key(KeyKind::TouchContact, 1), 1_000_000, &c);
    t.process_event(abs(AxisKind::SlotSelect, 0), 1_000_000, &c);
    t.process_event(abs(AxisKind::SlotX, 1_000), 1_000_000, &c);
    t.process_event(abs(AxisKind::SlotY, 400), 1_000_000, &c);
    t.process_event(abs(AxisKind::SlotSelect, 1), 1_000_000, &c);
    t.process_event(abs(AxisKind::SlotX, 3_000), 1_000_000, &c);
    t.process_event(abs(AxisKind::SlotY, 400), 1_000_000, &c);
    // Let the reference settle on the full centroid (2000, 400).
    t.process_event(abs(AxisKind::SlotSelect, 0), 1_050_000, &c);
    t.process_event(abs(AxisKind::SlotX, 1_000), 1_050_000, &c);
    // Slot 0 rises: the centroid moves from (2000, 400) to (2000, 250)
    // over 0.1 s, a clean vertical two-finger swipe.
    t.process_event(abs(AxisKind::SlotY, 100), 1_150_000, &c);
    let out = t.process_event(key(KeyKind::TouchContact, 0), 1_150_000, &c);
    assert_eq!(
        out,
        vec![MomentumIntent::ScrollStart(Velocity {
            dx: 0,
            dy: -150,
            dt_us: 100_000
        })]
    );
}

#[test]
fn three_finger_liftoff_is_no_candidate() {
    let c = cfg(0, 0);
    let mut t = Tracker::new();
    t.process_event(key(KeyKind::ToolTripleTap, 1), 1_000_000, &c);
    t.process_event(abs(AxisKind::PrimaryX, 100), 1_000_000, &c);
    t.process_event(abs(AxisKind::PrimaryX, 1_100), 1_100_000, &c);
    let out = t.process_event(key(KeyKind::TouchContact, 0), 1_100_000, &c);
    assert!(out.is_empty());
}

#[test]
fn multi_finger_release_blocks_scroll() {
    // A three-finger release starts the multi-finger window; a two-finger
    // lift-off inside it must not start scroll momentum.
    let c = cfg(0, 0);
    let mut t = Tracker::new();
    t.process_event(key(KeyKind::ToolTripleTap, 0), 1_000_000, &c);
    t.process_event(key(KeyKind::ToolDoubleTap, 1), 1_000_000, &c);
    t.process_event(abs(AxisKind::SlotSelect, 0), 1_000_000, &c);
    t.process_event(abs(AxisKind::SlotX, 100), 1_000_000, &c);
    t.process_event(abs(AxisKind::SlotX, 2_100), 1_100_000, &c);
    let out = t.process_event(key(KeyKind::TouchContact, 0), 1_100_000, &c);
    assert!(out.is_empty());
}

#[test]
fn unknown_events_are_ignored() {
    let c = cfg(0, 0);
    let mut t = Tracker::new();
    let before = t;
    let mut out = t.process_event(abs(AxisKind::OtherAxis, 123), 0, &c);
    assert!(out.is_empty());
    out = t.process_event(key(KeyKind::OtherKey, 1), 0, &c);
    assert!(out.is_empty());
    out = t.process_event(RawEvent::Sync, 0, &c);
    assert!(out.is_empty());
    out = t.process_event(RawEvent::Other, 0, &c);
    assert!(out.is_empty());
    assert_eq!(t, before);
}

#[test]
fn autorepeat_key_values_are_ignored() {
    let c = cfg(0, 0);
    let mut t = Tracker::new();
    let before_vel = t.vel;
    let out = t.process_event(key(KeyKind::TouchContact, 2), 1_000, &c);
    assert!(out.is_empty());
    assert_eq!(t.vel, before_vel);
    let out2 = t.process_event(key(KeyKind::ToolFinger, 2), 2_000, &c);
    assert!(out2.is_empty());
    assert_eq!(t.touch_count, 0);
}

#[test]
fn slots_beyond_the_first_two_are_ignored() {
    let c = cfg(0, 0);
    let mut t = Tracker::new();
    t.process_event(key(KeyKind::ToolDoubleTap, 1), 1_000, &c);
    t.process_event(abs(AxisKind::SlotSelect, 5), 1_000, &c);
    t.process_event(abs(AxisKind::SlotX, 777), 1_000, &c);
    t.process_event(abs(AxisKind::SlotY, 888), 1_000, &c);
    assert_eq!(t.slot0_x, 0);
    assert_eq!(t.slot0_y, 0);
    assert_eq!(t.slot1_x, 0);
    assert_eq!(t.slot1_y, 0);
    // No sample is taken for an inactive slot either.
    assert_eq!(t.reference, None);
}

#[test]
fn five_finger_release_blocks_single_liftoff() {
    let c = cfg(2_000_000, 2_000_000);
    let mut t = Tracker::new();
    t.process_event(key(KeyKind::ToolQuintTap, 0), 1_000_000, &c);
    t.process_event(key(KeyKind::ToolFinger, 1), 1_000_000, &c);
    t.process_event(abs(AxisKind::PrimaryX, 100), 1_000_000, &c);
    t.process_event(abs(AxisKind::PrimaryX, 1_100), 1_100_000, &c);
    let out = t.process_event(key(KeyKind::TouchContact, 0), 1_100_000, &c);
    assert!(out.is_empty());
}

#[test]
fn disabled_pointer_class_never_starts() {
    let c = Config::new(
        ClassParams::new(false, 150, 7_500, 0),
        ClassParams::new(true, 150, 7_500, 0),
        false,
        16_666,
        WINDOW_US,
    );
    let mut t = Tracker::new();
    single_finger_swipe(&mut t, &c, 100, 1_100, 1_000_000, 1_100_000);
    let out = t.process_event(key(KeyKind::TouchContact, 0), 1_100_000, &c);
    assert!(out.is_empty());
}
