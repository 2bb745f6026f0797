//! The event vocabulary of the engine: mouse buttons, recorded button
//! events, and the kinds of raw input the OS hook delivers.

use vstd::prelude::*;

verus! {

/// A mouse button the engine records and replays.
#[derive(Clone, Copy, Debug, PartialEq, Eq, Structural)]
pub enum MouseButton {
    Left,
    Right,
    Middle,
}

/// One recorded button action: the cursor position snapshotted at the
/// moment of the action, and the button itself.
///
/// Coordinates are fixed-point values in the OS's native units; the engine
/// performs no scaling. A `button` of `None` never enters the event queue.
#[derive(Clone, Copy, Debug, PartialEq, Eq)]
pub struct MouseEvent {
    pub x: i64,
    pub y: i64,
    pub button: Option<MouseButton>,
}

impl MouseEvent {
    /// The coordinates stay far enough from the `i64` range's edges that
    /// interpolated playback positions cannot overflow.
    pub open spec fn valid(self) -> bool {
        &&& -crate::COORD_LIMIT <= self.x <= crate::COORD_LIMIT
        &&& -crate::COORD_LIMIT <= self.y <= crate::COORD_LIMIT
    }
}

/// The kind of one raw input event as the OS hook reports it. Anything the
/// engine does not act on (wheel turns, key strokes) is `Other`.
#[derive(Clone, Copy, Debug, PartialEq, Eq, Structural)]
pub enum EventKind {
    MouseMove { x: i64, y: i64 },
    ButtonPress { button: MouseButton },
    ButtonRelease { button: MouseButton },
    Other,
}

} // verus!
