use vstd::prelude::*;

verus! {

/// Most items one context can hold.
pub const MAX_ITEMS: u32 = 4096;

/// Bytes of the data buffer that items allocate their payload from.
pub const MAX_BUFFERSIZE: u32 = 1048576;

/// Bound on the size of a single data allocation (exclusive).
pub const MAX_DATASIZE: u32 = 4096;

/// Handle that identifies an item across frames, independent of its index.
pub type Handle = i64;

/// A set of events, one bit each.
pub type EventFlags = u32;

/// Button 0 went down over the item.
pub const BUTTON0_DOWN: EventFlags = 0x0400;

/// Button 0 was released while the item was active.
pub const BUTTON0_UP: EventFlags = 0x0800;

/// Button 0 was released over the item while it was active.
pub const BUTTON0_HOT_UP: EventFlags = 0x1000;

/// Button 0 is held while the item is active.
pub const BUTTON0_CAPTURE: EventFlags = 0x2000;

/// A child was appended to the item.
pub const APPEND: EventFlags = 0x4000;

/// Every bit of `event` is set in `flags`.
pub open spec fn flags_contain(flags: EventFlags, event: EventFlags) -> bool {
    flags & event == event
}

/// Tells whether every bit of `event` is set in `flags`.
pub fn event_flags_contain(flags: EventFlags, event: EventFlags) -> (r: bool)
    ensures
        r == flags_contain(flags, event),
{
    flags & event == event
}

/// A point or extent in pixels.
#[derive(Clone, Copy, PartialEq, Eq, Structural, Debug)]
pub struct Vec2 {
    pub x: i32,
    pub y: i32,
}

impl Vec2 {
    /// The origin.
    pub fn zero() -> (r: Vec2)
        ensures
            r == (Vec2 { x: 0, y: 0 }),
    {
        Vec2 { x: 0, y: 0 }
    }
}

/// A rectangle given by its corner and its extent.
#[derive(Clone, Copy, PartialEq, Eq, Structural, Debug)]
pub struct Rect {
    pub x: i32,
    pub y: i32,
    pub w: i32,
    pub h: i32,
}

impl Rect {
    /// The empty rectangle at the origin.
    pub fn zero() -> (r: Rect)
        ensures
            r == (Rect { x: 0, y: 0, w: 0, h: 0 }),
    {
        Rect { x: 0, y: 0, w: 0, h: 0 }
    }
}

/// How an item presents itself to the input.
#[derive(Clone, Copy, PartialEq, Eq, Structural, Debug)]
pub enum ItemState {
    /// Neither hovered nor captured.
    COLD,
    /// Under the cursor.
    HOT,
    /// Holding the input capture.
    ACTIVE,
    /// Ignoring all input.
    FROZEN,
}

/// The input state of a context: waiting for a press, or capturing one.
#[derive(Clone, Copy, PartialEq, Eq, Structural, Debug)]
pub enum State {
    STATE_IDLE,
    STATE_CAPTURE,
}

/// What an item calls when it is notified of an event it subscribed to.
/// The callee sees the item index and the event, nothing of the context.
pub trait EventHandler: Copy {
    fn handle(&self, item: i32, event: EventFlags);
}

/// The larger of two integers.
pub open spec fn larger(a: i32, b: i32) -> i32 {
    if a > b {
        a
    } else {
        b
    }
}

/// The smaller of two integers.
pub open spec fn smaller(a: i32, b: i32) -> i32 {
    if a < b {
        a
    } else {
        b
    }
}

/// The larger of two integers.
pub fn ui_max(a: i32, b: i32) -> (r: i32)
    ensures
        r == larger(a, b),
{
    if a > b {
        a
    } else {
        b
    }
}

/// The smaller of two integers.
pub fn ui_min(a: i32, b: i32) -> (r: i32)
    ensures
        r == smaller(a, b),
{
    if a < b {
        a
    } else {
        b
    }
}

} // verus!
