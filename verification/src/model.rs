use vstd::prelude::*;
use crate::item::Item;
use crate::types::{
    flags_contain, EventHandler, EventFlags, Handle, ItemState, Rect, State, Vec2, BUTTON0_CAPTURE,
    BUTTON0_DOWN, BUTTON0_HOT_UP, BUTTON0_UP, MAX_BUFFERSIZE, MAX_ITEMS,
};

verus! {

/// Button `b` is down in the bit set `bits`.
pub open spec fn button_bit(bits: u64, b: u64) -> bool {
    bits & (1u64 << b) != 0
}

/// The bit set `bits` with button `b` set to `enabled`.
pub open spec fn set_button_bits(bits: u64, b: u64, enabled: bool) -> u64 {
    if enabled {
        bits | (1u64 << b)
    } else {
        bits & !(1u64 << b)
    }
}

/// The abstract state of a context: every field, with the item table and
/// the data buffer as sequences.
pub struct ContextModel<H> {
    pub buttons: u64,
    pub last_buttons: u64,
    pub start_cursor: Vec2,
    pub last_cursor: Vec2,
    pub cursor: Vec2,
    pub hot_handle: Handle,
    pub active_handle: Handle,
    pub hot_item: i32,
    pub active_item: i32,
    pub hot_rect: Rect,
    pub active_rect: Rect,
    pub state: State,
    pub count: i32,
    pub items: Seq<Item<H>>,
    pub datasize: i32,
    pub data: Seq<u8>,
}

impl<H> ContextModel<H> {
    /// The table and the buffer have their fixed sizes, the counters stay
    /// within them, the hot and active items are live or -1, and the previous
    /// frame's buttons, which no operation writes, are all up.
    pub open spec fn wf(self) -> bool {
        &&& self.last_buttons == 0
        &&& self.items.len() == MAX_ITEMS
        &&& self.data.len() == MAX_BUFFERSIZE
        &&& 0 <= self.count <= MAX_ITEMS
        &&& 0 <= self.datasize <= MAX_BUFFERSIZE
        &&& -1 <= self.hot_item < self.count
        &&& -1 <= self.active_item < self.count
    }

    /// A fresh context: nothing pressed, cursor at the origin, no items,
    /// every slot holding a fresh item, and a zeroed buffer.
    pub open spec fn initial() -> Self {
        ContextModel {
            buttons: 0,
            last_buttons: 0,
            start_cursor: Vec2 { x: 0, y: 0 },
            last_cursor: Vec2 { x: 0, y: 0 },
            cursor: Vec2 { x: 0, y: 0 },
            hot_handle: -1i64,
            active_handle: -1i64,
            hot_item: -1i32,
            active_item: -1i32,
            hot_rect: Rect { x: 0, y: 0, w: 0, h: 0 },
            active_rect: Rect { x: 0, y: 0, w: 0, h: 0 },
            state: State::STATE_IDLE,
            count: 0,
            items: Seq::new(MAX_ITEMS as nat, |i: int| Item::<H>::fresh()),
            datasize: 0,
            data: Seq::new(MAX_BUFFERSIZE as nat, |i: int| 0u8),
        }
    }

    /// `i` is the index of a live item.
    pub open spec fn has_item(self, i: int) -> bool {
        0 <= i < self.count
    }

    /// The state with slot `i` replaced by `it`.
    pub open spec fn with_item(self, i: int, it: Item<H>) -> Self {
        ContextModel { items: self.items.update(i, it), ..self }
    }

    /// The state with the data buffer replaced by `d`.
    pub open spec fn with_data(self, d: Seq<u8>) -> Self {
        ContextModel { data: d, ..self }
    }

    /// Button `b` is down in this frame.
    pub open spec fn button(self, b: u64) -> bool {
        button_bit(self.buttons, b)
    }

    /// Button `b` was down in the previous frame.
    pub open spec fn last_button(self, b: u64) -> bool {
        button_bit(self.last_buttons, b)
    }

    /// Button `b` went down since the previous frame.
    pub open spec fn button_pressed(self, b: u64) -> bool {
        !self.last_button(b) && self.button(b)
    }

    /// Button `b` went up since the previous frame.
    pub open spec fn button_released(self, b: u64) -> bool {
        self.last_button(b) && !self.button(b)
    }

    pub open spec fn set_button(self, b: u64, enabled: bool) -> Self {
        ContextModel { buttons: set_button_bits(self.buttons, b, enabled), ..self }
    }

    pub open spec fn set_cursor(self, x: i32, y: i32) -> Self {
        ContextModel { cursor: Vec2 { x, y }, ..self }
    }

    /// No items, no data, nothing hot or active.
    pub open spec fn clear(self) -> Self {
        ContextModel { count: 0, datasize: 0, hot_item: -1i32, active_item: -1i32, ..self }
    }

    /// One more live item, fresh, at index `count`.
    pub open spec fn add_item(self) -> Self {
        ContextModel {
            count: (self.count + 1) as i32,
            items: self.items.update(self.count as int, Item::<H>::fresh()),
            ..self
        }
    }

    pub open spec fn set_frozen(self, i: int, enable: bool) -> Self {
        self.with_item(i, Item { frozen: enable, ..self.items[i] })
    }

    pub open spec fn set_size(self, i: int, w: i32, h: i32) -> Self {
        self.with_item(i, Item { size: Vec2 { x: w, y: h }, ..self.items[i] })
    }

    pub open spec fn set_layout(self, i: int, flags: u32) -> Self {
        self.with_item(i, Item { layout_flags: flags, ..self.items[i] })
    }

    pub open spec fn set_margins(self, i: int, l: i32, t: i32, r: i32, b: i32) -> Self {
        self.with_item(i, Item { margins: [l, t, r, b], ..self.items[i] })
    }

    /// `other` may be placed as a neighbour of `i`: it is none (negative),
    /// or a live item with the same parent.
    pub open spec fn can_relate(self, i: int, other: i32) -> bool {
        other < 0 || (self.has_item(other as int) && self.items[other as int].parent
            == self.items[i].parent)
    }

    /// Neighbour `side` (0 left, 1 top, 2 right, 3 down) of item `i` set to `other`.
    pub open spec fn set_relto(self, i: int, side: int, other: i32) -> Self {
        self.with_item(i, Item { relto: vstd::array::spec_array_update(self.items[i].relto, side, other), ..self.items[i] })
    }

    /// Gives item `i` the handle `handle`; an item whose handle matches the
    /// remembered hot or active handle becomes hot or active again.
    pub open spec fn set_handle(self, i: int, handle: Handle) -> Self {
        let s = self.with_item(i, Item { handle: handle, ..self.items[i] });
        if handle != -1 {
            let s1 = if handle == s.hot_handle {
                ContextModel { hot_item: i as i32, ..s }
            } else {
                s
            };
            if handle == s1.active_handle {
                ContextModel { active_item: i as i32, ..s1 }
            } else {
                s1
            }
        } else {
            s
        }
    }

    pub open spec fn set_handler(self, i: int, handler: Option<H>, flags: EventFlags) -> Self {
        self.with_item(i, Item { handler: handler, event_flags: flags, ..self.items[i] })
    }

    /// `size` bytes of the buffer reserved at its current end for item `i`.
    pub open spec fn alloc_data(self, i: int, size: i32) -> Self {
        let s = self.with_item(i, Item { data: self.datasize, ..self.items[i] });
        ContextModel { datasize: (self.datasize + size) as i32, ..s }
    }

    /// The handler that receives `event` for item `i`: the item's handler,
    /// when it has one and subscribed to every bit of `event`.
    pub open spec fn notified(self, i: int, event: EventFlags) -> Option<H> {
        let it = self.items[i];
        if it.handler.is_some() && flags_contain(it.event_flags, event) {
            it.handler
        } else {
            None
        }
    }

    /// The root placed at its own left and top margins; nothing else moves.
    pub open spec fn layout(self) -> Self {
        if self.count == 0 {
            self
        } else {
            let it = self.items[0];
            self.with_item(
                0,
                Item { rect: Rect { x: it.margins[0], y: it.margins[1], ..it.rect }, ..it },
            )
        }
    }

    /// The item under the cursor: hit testing finds none.
    pub open spec fn find_item(self, item: i32, x: i32, y: i32, ox: i32, oy: i32) -> i32 {
        -1i32
    }

    /// How item `i` presents itself, by its frozen flag, by whether it is
    /// hot or active, and by the events it subscribed to.
    pub open spec fn item_state(self, i: int) -> ItemState {
        let it = self.items[i];
        let hot = self.hot_item == i;
        let active = self.active_item == i;
        if it.frozen {
            ItemState::FROZEN
        } else if active {
            if flags_contain(it.event_flags, BUTTON0_CAPTURE | BUTTON0_UP) {
                ItemState::ACTIVE
            } else if flags_contain(it.event_flags, BUTTON0_HOT_UP) && hot {
                ItemState::ACTIVE
            } else {
                ItemState::COLD
            }
        } else if hot {
            ItemState::HOT
        } else {
            ItemState::COLD
        }
    }

    /// The input step for a frame in which `hot` is the item under the
    /// cursor, before the handles are refreshed.
    pub open spec fn step(self, hot: i32) -> Self {
        let active = self.active_item;
        match self.state {
            State::STATE_IDLE => {
                if self.button(0) {
                    ContextModel {
                        start_cursor: self.cursor,
                        hot_item: -1i32,
                        active_rect: self.hot_rect,
                        active_item: hot,
                        state: State::STATE_CAPTURE,
                        ..self
                    }
                } else {
                    ContextModel { start_cursor: self.cursor, hot_item: hot, ..self }
                }
            },
            State::STATE_CAPTURE => {
                if !self.button(0) {
                    ContextModel { active_item: -1i32, state: State::STATE_IDLE, ..self }
                } else {
                    ContextModel {
                        hot_item: if hot == active {
                            hot
                        } else {
                            -1i32
                        },
                        ..self
                    }
                }
            },
        }
    }

    /// The notifications the input step sends, in order, when `hot` is
    /// the item under the cursor.
    pub open spec fn step_notices(self, hot: i32) -> Seq<(i32, EventFlags)> {
        let active = self.active_item;
        match self.state {
            State::STATE_IDLE => {
                if self.button(0) && hot >= 0 {
                    seq![(hot, BUTTON0_DOWN)]
                } else {
                    Seq::empty()
                }
            },
            State::STATE_CAPTURE => {
                if active < 0 {
                    Seq::empty()
                } else if !self.button(0) {
                    if active == hot {
                        seq![(active, BUTTON0_UP), (active, BUTTON0_HOT_UP)]
                    } else {
                        seq![(active, BUTTON0_UP)]
                    }
                } else {
                    seq![(active, BUTTON0_CAPTURE)]
                }
            },
        }
    }

    /// The remembered handles refreshed from the hot and active items (0 for none),
    /// and the cursor remembered for the next frame.
    pub open spec fn remember(self) -> Self {
        ContextModel {
            last_cursor: self.cursor,
            hot_handle: if self.hot_item >= 0 {
                self.items[self.hot_item as int].handle
            } else {
                0
            },
            active_handle: if self.active_item >= 0 {
                self.items[self.active_item as int].handle
            } else {
                0
            },
            ..self
        }
    }

    /// The item under the cursor at the start of a frame.
    pub open spec fn hot_at_cursor(self) -> i32 {
        self.find_item(0, self.cursor.x, self.cursor.y, 0, 0)
    }

    /// One frame of input processing; nothing happens without items.
    pub open spec fn process(self) -> Self {
        if self.count == 0 {
            self
        } else {
            self.step(self.hot_at_cursor()).remember()
        }
    }

    /// The notifications one frame of input processing sends, in order.
    pub open spec fn process_notices(self) -> Seq<(i32, EventFlags)> {
        if self.count == 0 {
            Seq::empty()
        } else {
            self.step_notices(self.hot_at_cursor())
        }
    }
}

/// `event` for `item` has reached its receiver: when the state `v` has a
/// handler on `item` subscribed to `event`, that handler was called with
/// `item` and `event`.
pub open spec fn delivered<H: EventHandler>(v: ContextModel<H>, item: i32, event: EventFlags) -> bool {
    v.notified(item as int, event) matches Some(handler) ==> call_ensures(
        H::handle,
        (&handler, item, event),
        (),
    )
}

} // verus!
