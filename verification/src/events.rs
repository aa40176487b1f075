//! The raw input events the tracker consumes, as a closed tagged type.
//! The event source maps device-specific codes onto these kinds; codes
//! outside the closed set arrive as `OtherAxis`, `OtherKey` or `Other`
//! and are ignored.

use vstd::prelude::*;

verus! {

/// The absolute axes the tracker reads.
#[derive(Clone, Copy, Debug, PartialEq, Eq, Structural)]
pub enum AxisKind {
    /// Primary contact, horizontal position.
    PrimaryX,
    /// Primary contact, vertical position.
    PrimaryY,
    /// Multitouch slot selector: later slot coordinates refer to this slot.
    SlotSelect,
    /// Horizontal position of the selected multitouch slot.
    SlotX,
    /// Vertical position of the selected multitouch slot.
    SlotY,
    /// Any other absolute axis; ignored.
    OtherAxis,
}

/// The keys the tracker reads.
#[derive(Clone, Copy, Debug, PartialEq, Eq, Structural)]
pub enum KeyKind {
    /// Touch contact: asserted on touch-down, released on touch-up.
    TouchContact,
    /// Finger-count key: one finger on the pad.
    ToolFinger,
    /// Finger-count key: two fingers.
    ToolDoubleTap,
    /// Finger-count key: three fingers.
    ToolTripleTap,
    /// Finger-count key: four fingers.
    ToolQuadTap,
    /// Finger-count key: five fingers.
    ToolQuintTap,
    /// Any other key; ignored.
    OtherKey,
}

/// One raw input event. Each event is delivered together with a
/// monotonically non-decreasing timestamp in microseconds.
#[derive(Clone, Copy, Debug, PartialEq, Eq, Structural)]
pub enum RawEvent {
    /// An absolute-axis update.
    AbsoluteAxis { axis: AxisKind, value: i32 },
    /// A key transition; `value` is 1 when asserted, 0 when released.
    Key { key: KeyKind, value: i32 },
    /// A synchronization marker; ignored.
    Sync,
    /// Anything else; ignored.
    Other,
}

/// The finger count a finger-count key stands for, 0 for the rest.
pub open spec fn finger_count_of(key: KeyKind) -> int {
    match key {
        KeyKind::ToolFinger => 1,
        KeyKind::ToolDoubleTap => 2,
        KeyKind::ToolTripleTap => 3,
        KeyKind::ToolQuadTap => 4,
        KeyKind::ToolQuintTap => 5,
        _ => 0,
    }
}

/// Executable twin of [`finger_count_of`].
pub fn finger_count(key: KeyKind) -> (n: u8)
    ensures
        n == finger_count_of(key),
{
    match key {
        KeyKind::ToolFinger => 1,
        KeyKind::ToolDoubleTap => 2,
        KeyKind::ToolTripleTap => 3,
        KeyKind::ToolQuadTap => 4,
        KeyKind::ToolQuintTap => 5,
        _ => 0,
    }
}

} // verus!
