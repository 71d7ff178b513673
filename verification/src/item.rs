use vstd::prelude::*;
use crate::types::{EventFlags, Handle, Rect, Vec2};

verus! {

/// One element of the interface: its container links, its layout
/// parameters, its computed rectangle and its event subscription.
#[derive(Clone, Copy)]
pub struct Item<H> {
    /// Handle that identifies the item across frames.
    pub handle: Handle,
    /// What receives the item's events, if anything.
    pub handler: Option<H>,
    /// Number of children.
    pub numkids: i32,
    /// Index of the first child, or -1.
    pub firstkid: i32,
    /// Index of the last child, or -1.
    pub lastkid: i32,
    /// Index of the parent, or -1.
    pub parent: i32,
    /// Position among the parent's children.
    pub kidid: i32,
    /// Next sibling, or -1.
    pub nextitem: i32,
    /// Previous sibling, or -1.
    pub previtem: i32,
    /// Layout flags as set by the user.
    pub layout_flags: u32,
    /// Requested size; 0 means "as needed".
    pub size: Vec2,
    /// Marks used while laying out.
    pub visited: i32,
    /// Margins: left, top, right, bottom.
    pub margins: [i32; 4],
    /// Neighbours the borders are placed against: left, top, right, bottom; -1 for none.
    pub relto: [i32; 4],
    /// Size computed by the layout.
    pub computed_size: Vec2,
    /// Rectangle relative to the parent.
    pub rect: Rect,
    /// A frozen item takes no input.
    pub frozen: bool,
    /// Offset of the item's data in the buffer, or -1 for none.
    pub data: i32,
    /// Recorded size of the item's data.
    pub datasize: i32,
    /// Events the handler subscribed to.
    pub event_flags: EventFlags,
}

impl<H> Item<H> {
    /// A detached item with no data, no neighbours and no handler.
    pub open spec fn fresh() -> Item<H> {
        Item {
            handle: 0,
            handler: None,
            numkids: 0,
            firstkid: -1i32,
            lastkid: -1i32,
            parent: -1i32,
            kidid: 0,
            nextitem: -1i32,
            previtem: -1i32,
            layout_flags: 0,
            size: Vec2 { x: 0, y: 0 },
            visited: 0,
            margins: [0, 0, 0, 0],
            relto: [-1i32, -1i32, -1i32, -1i32],
            computed_size: Vec2 { x: 0, y: 0 },
            rect: Rect { x: 0, y: 0, w: 0, h: 0 },
            frozen: false,
            data: -1i32,
            datasize: 0,
            event_flags: 0,
        }
    }

    /// Makes a detached item with no data, no neighbours and no handler.
    pub fn new() -> (r: Item<H>)
        ensures
            r == Item::<H>::fresh(),
    {
        Item {
            handle: 0,
            handler: None,
            numkids: 0,
            firstkid: -1,
            lastkid: -1,
            parent: -1,
            kidid: 0,
            nextitem: -1,
            previtem: -1,
            layout_flags: 0,
            size: Vec2::zero(),
            visited: 0,
            margins: [0, 0, 0, 0],
            relto: [-1, -1, -1, -1],
            computed_size: Vec2::zero(),
            rect: Rect::zero(),
            frozen: false,
            data: -1,
            datasize: 0,
            event_flags: 0,
        }
    }
}

} // verus!
