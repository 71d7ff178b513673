use vstd::prelude::*;
use crate::item::Item;
use crate::laws::lemma_set_button_reads_back;
use crate::model::{delivered, ContextModel};
use crate::types::{
    event_flags_contain, EventFlags, EventHandler, Handle, ItemState, Rect, State, Vec2, APPEND,
    BUTTON0_CAPTURE, BUTTON0_DOWN, BUTTON0_HOT_UP, BUTTON0_UP, MAX_BUFFERSIZE, MAX_DATASIZE,
    MAX_ITEMS,
};

verus! {

/// The whole buffer as a slice, for writing in place.
fn bytes_mut(buffer: &mut [u8; 1048576]) -> (r: &mut [u8])
    ensures
        r@ == old(buffer)@,
        final(r)@ == final(buffer)@,
    no_unwind
{
    buffer
}

/// All the state of one interface: input, hot/active tracking, the item
/// table and the data buffer. Its view is always well formed (a type
/// invariant), so no operation asks for that of its caller.
pub struct Context<H: EventHandler> {
    /// Button state in this frame, one bit per button.
    buttons: u64,
    /// Button state in the previous frame.
    last_buttons: u64,
    /// Where the cursor was when the current input state began.
    start_cursor: Vec2,
    /// Where the cursor was in the previous frame.
    last_cursor: Vec2,
    /// Where the cursor is now.
    cursor: Vec2,
    hot_handle: Handle,
    active_handle: Handle,
    hot_item: i32,
    active_item: i32,
    hot_rect: Rect,
    active_rect: Rect,
    state: State,
    /// Number of live items.
    count: i32,
    items: Vec<Item<H>>,
    /// Bytes of the buffer in use.
    datasize: i32,
    /// The buffer, `MAX_BUFFERSIZE` bytes.
    data: Box<[u8; 1048576]>,
}

impl<H: EventHandler> View for Context<H> {
    type V = ContextModel<H>;

    closed spec fn view(&self) -> ContextModel<H> {
        ContextModel {
            buttons: self.buttons,
            last_buttons: self.last_buttons,
            start_cursor: self.start_cursor,
            last_cursor: self.last_cursor,
            cursor: self.cursor,
            hot_handle: self.hot_handle,
            active_handle: self.active_handle,
            hot_item: self.hot_item,
            active_item: self.active_item,
            hot_rect: self.hot_rect,
            active_rect: self.active_rect,
            state: self.state,
            count: self.count,
            items: self.items@,
            datasize: self.datasize,
            data: (*self.data)@,
        }
    }
}

impl<H: EventHandler> Context<H> {
    /// Every context is well formed.
    #[verifier::type_invariant]
    spec fn inv(self) -> bool {
        self@.wf()
    }

    /// A context with no items, nothing pressed and a zeroed buffer.
    pub fn uiCreateContext() -> (r: Context<H>)
        ensures
            r@ == ContextModel::<H>::initial(),
            r@.wf(),
    {
        let mut items: Vec<Item<H>> = Vec::new();
        let mut n: u32 = 0;
        while n < MAX_ITEMS
            invariant
                n <= MAX_ITEMS,
                items@.len() == n,
                forall|j: int| 0 <= j < n ==> items@[j] == Item::<H>::fresh(),
            decreases MAX_ITEMS - n,
        {
            items.push(Item::new());
            n = n + 1;
        }
        let data: Box<[u8; 1048576]> = Box::new([0u8; 1048576]);
        let ctx = Context {
            buttons: 0,
            last_buttons: 0,
            start_cursor: Vec2::zero(),
            last_cursor: Vec2::zero(),
            cursor: Vec2::zero(),
            hot_handle: -1,
            active_handle: -1,
            hot_item: -1,
            active_item: -1,
            hot_rect: Rect::zero(),
            active_rect: Rect::zero(),
            state: State::STATE_IDLE,
            count: 0,
            items,
            datasize: 0,
            data,
        };
        assert(ctx@.items =~= ContextModel::<H>::initial().items);
        assert(ctx@.data =~= ContextModel::<H>::initial().data);
        ctx
    }

    /// Sets button `button` to `enabled` in this frame's button state.
    pub fn uiSetButton(&mut self, button: u64, enabled: bool)
        requires
            button < 64,
        ensures
            final(self)@ == old(self)@.set_button(button, enabled),
            final(self)@.button(button) == enabled,
            forall|c: u64|
                c < 64 && c != button ==> #[trigger] final(self)@.button(c) == old(self)@.button(c),
    {
        proof {
            use_type_invariant(&*self);
        }
        proof {
            assert forall|c: u64| c < 64 implies #[trigger] old(self)@.set_button(button, enabled).button(c)
                == (if c == button { enabled } else { old(self)@.button(c) }) by {
                lemma_set_button_reads_back(old(self)@, button, c, enabled);
            }
        }
        let mask = 1u64 << button;
        self.buttons = if enabled {
            self.buttons | mask
        } else {
            self.buttons & !mask
        };
    }

    /// Whether button `button` was down in the previous frame.
    pub fn uiGetLastButton(&self, button: u64) -> (r: bool)
        requires
            button < 64,
        ensures
            r == self@.last_button(button),
    {
        self.last_buttons & (1u64 << button) != 0
    }

    /// Whether button `button` is down in this frame.
    pub fn uiGetButton(&self, button: u64) -> (r: bool)
        requires
            button < 64,
        ensures
            r == self@.button(button),
    {
        self.buttons & (1u64 << button) != 0
    }

    /// Whether button `button` went down since the previous frame.
    pub fn uiButtonPressed(&self, button: u64) -> (r: bool)
        requires
            button < 64,
        ensures
            r == self@.button_pressed(button),
    {
        !self.uiGetLastButton(button) && self.uiGetButton(button)
    }

    /// Whether button `button` went up since the previous frame.
    pub fn uiButtonReleased(&self, button: u64) -> (r: bool)
        requires
            button < 64,
        ensures
            r == self@.button_released(button),
    {
        self.uiGetLastButton(button) && !self.uiGetButton(button)
    }

    /// Moves the cursor to (`x`, `y`).
    pub fn uiSetCursor(&mut self, x: i32, y: i32)
        ensures
            final(self)@ == old(self)@.set_cursor(x, y),
    {
        proof {
            use_type_invariant(&*self);
        }
        self.cursor.x = x;
        self.cursor.y = y;
    }

    /// Where the cursor is.
    pub fn uiGetCursor(&self) -> (r: Vec2)
        ensures
            r == self@.cursor,
    {
        self.cursor
    }

    /// Where the cursor was when the current input state began.
    pub fn uiGetCursorStart(&self) -> (r: Vec2)
        ensures
            r == self@.start_cursor,
    {
        self.start_cursor
    }

    /// How far the cursor moved since the previous frame.
    pub fn uiGetCursorDelta(&self) -> (r: Vec2)
        requires
            i32::MIN <= self@.cursor.x - self@.last_cursor.x <= i32::MAX,
            i32::MIN <= self@.cursor.y - self@.last_cursor.y <= i32::MAX,
        ensures
            r.x == self@.cursor.x - self@.last_cursor.x,
            r.y == self@.cursor.y - self@.last_cursor.y,
    {
        Vec2 { x: self.cursor.x - self.last_cursor.x, y: self.cursor.y - self.last_cursor.y }
    }

    /// How far the cursor moved since the current input state began.
    pub fn uiGetCursorStartDelta(&self) -> (r: Vec2)
        requires
            i32::MIN <= self@.cursor.x - self@.start_cursor.x <= i32::MAX,
            i32::MIN <= self@.cursor.y - self@.start_cursor.y <= i32::MAX,
        ensures
            r.x == self@.cursor.x - self@.start_cursor.x,
            r.y == self@.cursor.y - self@.start_cursor.y,
    {
        Vec2 { x: self.cursor.x - self.start_cursor.x, y: self.cursor.y - self.start_cursor.y }
    }

    /// The live item `item`, for reading and writing in place.
    pub fn uiItemRef(&mut self, item: i32) -> (r: &mut Item<H>)
        requires
            old(self)@.has_item(item as int),
        ensures
            *r == old(self)@.items[item as int],
            final(self)@ == old(self)@.with_item(item as int, *final(r)),
    {
        proof {
            use_type_invariant(&*self);
        }
        &mut self.items[item as usize]
    }

    /// Forgets every item and all data; nothing is hot or active.
    pub fn uiClear(&mut self)
        ensures
            final(self)@ == old(self)@.clear(),
            final(self)@.wf(),
    {
        proof {
            use_type_invariant(&*self);
        }
        // drop the hot and active items first: the count may not fall below them
        self.hot_item = -1;
        self.active_item = -1;
        self.count = 0;
        self.datasize = 0;
    }

    /// Adds a fresh item and returns its index, the previous item count.
    pub fn uiItem(&mut self) -> (r: i32)
        requires
            old(self)@.count < MAX_ITEMS,
        ensures
            r == old(self)@.count,
            final(self)@ == old(self)@.add_item(),
            final(self)@.wf(),
    {
        proof {
            use_type_invariant(&*self);
        }
        let idx = self.count;
        self.count += 1;
        let item = self.uiItemRef(idx);
        *item = Item::new();
        idx
    }

    /// The handler that `uiNotifyItem` would call for `event` on `item`, if any.
    pub fn uiNotifyTarget(&self, item: i32, event: EventFlags) -> (r: Option<H>)
        requires
            self@.has_item(item as int),
        ensures
            r == self@.notified(item as int, event),
    {
        proof {
            use_type_invariant(self);
        }
        let pitem = &self.items[item as usize];
        if pitem.handler.is_some() && event_flags_contain(pitem.event_flags, event) {
            pitem.handler
        } else {
            None
        }
    }

    /// Calls the handler of `item` with `item` and `event` when the item has a
    /// handler subscribed to every bit of `event`; the context is unchanged.
    pub fn uiNotifyItem(&mut self, item: i32, event: EventFlags)
        requires
            old(self)@.has_item(item as int),
        ensures
            final(self)@ == old(self)@,
            delivered(old(self)@, item, event),
    {
        proof {
            use_type_invariant(&*self);
        }
        let target = self.uiNotifyTarget(item, event);
        match target {
            Some(handler) => handler.handle(item, event),
            None => {},
        }
    }

    /// Tells `item` that `child` was appended to it, calling its handler
    /// when it subscribed to `APPEND`, and returns `child`. The child must be
    /// a live item other than the first and have no parent. Nothing is linked.
    pub fn uiAppend(&mut self, item: i32, child: i32) -> (r: i32)
        requires
            child > 0,
            old(self)@.has_item(child as int),
            old(self)@.items[child as int].parent == -1,
            old(self)@.has_item(item as int),
        ensures
            r == child,
            final(self)@ == old(self)@,
            delivered(old(self)@, item, APPEND),
    {
        proof {
            use_type_invariant(&*self);
        }
        let parent = self.uiParent(child);
        assert(parent == -1);
        self.uiNotifyItem(item, APPEND);
        child
    }

    /// Freezes or thaws `item`.
    pub fn uiSetFrozen(&mut self, item: i32, enable: bool)
        requires
            old(self)@.has_item(item as int),
        ensures
            final(self)@ == old(self)@.set_frozen(item as int, enable),
            final(self)@.wf(),
    {
        proof {
            use_type_invariant(&*self);
        }
        let pitem = self.uiItemRef(item);
        pitem.frozen = enable;
    }

    /// Requests the size `w` by `h` for `item`.
    pub fn uiSetSize(&mut self, item: i32, w: i32, h: i32)
        requires
            old(self)@.has_item(item as int),
        ensures
            final(self)@ == old(self)@.set_size(item as int, w, h),
            final(self)@.wf(),
    {
        proof {
            use_type_invariant(&*self);
        }
        let pitem = self.uiItemRef(item);
        pitem.size.x = w;
        pitem.size.y = h;
    }

    /// The requested width of `item`.
    pub fn uiGetWidth(&mut self, item: i32) -> (r: i32)
        requires
            old(self)@.has_item(item as int),
        ensures
            r == old(self)@.items[item as int].size.x,
            final(self)@ == old(self)@,
    {
        proof {
            use_type_invariant(&*self);
        }
        return self.items[item as usize].size.x;
    }

    /// The requested height of `item`.
    pub fn uiGetHeight(&mut self, item: i32) -> (r: i32)
        requires
            old(self)@.has_item(item as int),
        ensures
            r == old(self)@.items[item as int].size.y,
            final(self)@ == old(self)@,
    {
        proof {
            use_type_invariant(&*self);
        }
        return self.items[item as usize].size.y;
    }

    /// Sets the layout flags of `item`.
    pub fn uiSetLayout(&mut self, item: i32, flags: u32)
        requires
            old(self)@.has_item(item as int),
        ensures
            final(self)@ == old(self)@.set_layout(item as int, flags),
            final(self)@.wf(),
    {
        proof {
            use_type_invariant(&*self);
        }
        self.uiItemRef(item).layout_flags = flags;
    }

    /// The layout flags of `item`.
    pub fn uiGetLayout(&mut self, item: i32) -> (r: u32)
        requires
            old(self)@.has_item(item as int),
        ensures
            r == old(self)@.items[item as int].layout_flags,
            final(self)@ == old(self)@,
    {
        proof {
            use_type_invariant(&*self);
        }
        return self.items[item as usize].layout_flags;
    }

    /// Sets the left, top, right and bottom margins of `item`.
    pub fn uiSetMargins(&mut self, item: i32, l: i32, t: i32, r: i32, b: i32)
        requires
            old(self)@.has_item(item as int),
        ensures
            final(self)@ == old(self)@.set_margins(item as int, l, t, r, b),
            final(self)@.wf(),
    {
        proof {
            use_type_invariant(&*self);
        }
        let pitem = self.uiItemRef(item);
        pitem.margins[0] = l;
        pitem.margins[1] = t;
        pitem.margins[2] = r;
        pitem.margins[3] = b;
        assert(pitem.margins =~= [l, t, r, b]);
    }

    /// The left margin of `item`.
    pub fn uiGetMarginLeft(&mut self, item: i32) -> (r: i32)
        requires
            old(self)@.has_item(item as int),
        ensures
            r == old(self)@.items[item as int].margins[0],
            final(self)@ == old(self)@,
    {
        proof {
            use_type_invariant(&*self);
        }
        return self.items[item as usize].margins[0];
    }

    /// The top margin of `item`.
    pub fn uiGetMarginTop(&mut self, item: i32) -> (r: i32)
        requires
            old(self)@.has_item(item as int),
        ensures
            r == old(self)@.items[item as int].margins[1],
            final(self)@ == old(self)@,
    {
        proof {
            use_type_invariant(&*self);
        }
        return self.items[item as usize].margins[1];
    }

    /// The right margin of `item`.
    pub fn uiGetMarginRight(&mut self, item: i32) -> (r: i32)
        requires
            old(self)@.has_item(item as int),
        ensures
            r == old(self)@.items[item as int].margins[2],
            final(self)@ == old(self)@,
    {
        proof {
            use_type_invariant(&*self);
        }
        return self.items[item as usize].margins[2];
    }

    /// The bottom margin of `item`.
    pub fn uiGetMarginDown(&mut self, item: i32) -> (r: i32)
        requires
            old(self)@.has_item(item as int),
        ensures
            r == old(self)@.items[item as int].margins[3],
            final(self)@ == old(self)@,
    {
        proof {
            use_type_invariant(&*self);
        }
        return self.items[item as usize].margins[3];
    }

    /// Places the left border of `item` against `other`, a sibling, or
    /// against nothing when `other` is negative.
    pub fn uiSetRelToLeft(&mut self, item: i32, other: i32)
        requires
            old(self)@.has_item(item as int),
            old(self)@.can_relate(item as int, other),
        ensures
            final(self)@ == old(self)@.set_relto(item as int, 0, other),
            final(self)@.wf(),
    {
        proof {
            use_type_invariant(&*self);
        }
        if other >= 0 {
            let po = self.uiParent(other);
            let pi = self.uiParent(item);
            assert(po == pi);
        }
        let pitem = self.uiItemRef(item);
        pitem.relto[0] = other;
        assert(pitem.relto =~= vstd::array::spec_array_update(old(self)@.items[item as int].relto, 0, other));
    }

    /// The neighbour the left border of `item` is placed against, or -1.
    pub fn uiGetRelToLeft(&mut self, item: i32) -> (r: i32)
        requires
            old(self)@.has_item(item as int),
        ensures
            r == old(self)@.items[item as int].relto[0],
            final(self)@ == old(self)@,
    {
        proof {
            use_type_invariant(&*self);
        }
        return self.items[item as usize].relto[0];
    }

    /// Places the top border of `item` against `other`, a sibling, or
    /// against nothing when `other` is negative.
    pub fn uiSetRelToTop(&mut self, item: i32, other: i32)
        requires
            old(self)@.has_item(item as int),
            old(self)@.can_relate(item as int, other),
        ensures
            final(self)@ == old(self)@.set_relto(item as int, 1, other),
            final(self)@.wf(),
    {
        proof {
            use_type_invariant(&*self);
        }
        if other >= 0 {
            let po = self.uiParent(other);
            let pi = self.uiParent(item);
            assert(po == pi);
        }
        let pitem = self.uiItemRef(item);
        pitem.relto[1] = other;
        assert(pitem.relto =~= vstd::array::spec_array_update(old(self)@.items[item as int].relto, 1, other));
    }

    /// The neighbour the top border of `item` is placed against, or -1.
    pub fn uiGetRelToTop(&mut self, item: i32) -> (r: i32)
        requires
            old(self)@.has_item(item as int),
        ensures
            r == old(self)@.items[item as int].relto[1],
            final(self)@ == old(self)@,
    {
        proof {
            use_type_invariant(&*self);
        }
        return self.items[item as usize].relto[1];
    }

    /// Places the right border of `item` against `other`, a sibling, or
    /// against nothing when `other` is negative.
    pub fn uiSetRelToRight(&mut self, item: i32, other: i32)
        requires
            old(self)@.has_item(item as int),
            old(self)@.can_relate(item as int, other),
        ensures
            final(self)@ == old(self)@.set_relto(item as int, 2, other),
            final(self)@.wf(),
    {
        proof {
            use_type_invariant(&*self);
        }
        if other >= 0 {
            let po = self.uiParent(other);
            let pi = self.uiParent(item);
            assert(po == pi);
        }
        let pitem = self.uiItemRef(item);
        pitem.relto[2] = other;
        assert(pitem.relto =~= vstd::array::spec_array_update(old(self)@.items[item as int].relto, 2, other));
    }

    /// The neighbour the right border of `item` is placed against, or -1.
    pub fn uiGetRelToRight(&mut self, item: i32) -> (r: i32)
        requires
            old(self)@.has_item(item as int),
        ensures
            r == old(self)@.items[item as int].relto[2],
            final(self)@ == old(self)@,
    {
        proof {
            use_type_invariant(&*self);
        }
        return self.items[item as usize].relto[2];
    }

    /// Places the bottom border of `item` against `other`, a sibling, or
    /// against nothing when `other` is negative.
    pub fn uiSetRelToDown(&mut self, item: i32, other: i32)
        requires
            old(self)@.has_item(item as int),
            old(self)@.can_relate(item as int, other),
        ensures
            final(self)@ == old(self)@.set_relto(item as int, 3, other),
            final(self)@.wf(),
    {
        proof {
            use_type_invariant(&*self);
        }
        if other >= 0 {
            let po = self.uiParent(other);
            let pi = self.uiParent(item);
            assert(po == pi);
        }
        let pitem = self.uiItemRef(item);
        pitem.relto[3] = other;
        assert(pitem.relto =~= vstd::array::spec_array_update(old(self)@.items[item as int].relto, 3, other));
    }

    /// The neighbour the bottom border of `item` is placed against, or -1.
    pub fn uiGetRelToDown(&mut self, item: i32) -> (r: i32)
        requires
            old(self)@.has_item(item as int),
        ensures
            r == old(self)@.items[item as int].relto[3],
            final(self)@ == old(self)@,
    {
        proof {
            use_type_invariant(&*self);
        }
        return self.items[item as usize].relto[3];
    }

    /// The rectangle of `item`, relative to its parent.
    pub fn uiGetRect(&mut self, item: i32) -> (r: Rect)
        requires
            old(self)@.has_item(item as int),
        ensures
            r == old(self)@.items[item as int].rect,
            final(self)@ == old(self)@,
    {
        proof {
            use_type_invariant(&*self);
        }
        return self.items[item as usize].rect;
    }

    /// The first child of `item`, or -1.
    pub fn uiFirstChild(&mut self, item: i32) -> (r: i32)
        requires
            old(self)@.has_item(item as int),
        ensures
            r == old(self)@.items[item as int].firstkid,
            final(self)@ == old(self)@,
    {
        proof {
            use_type_invariant(&*self);
        }
        return self.items[item as usize].firstkid;
    }

    /// The last child of `item`, or -1.
    pub fn uiLastChild(&mut self, item: i32) -> (r: i32)
        requires
            old(self)@.has_item(item as int),
        ensures
            r == old(self)@.items[item as int].lastkid,
            final(self)@ == old(self)@,
    {
        proof {
            use_type_invariant(&*self);
        }
        return self.items[item as usize].lastkid;
    }

    /// The next sibling of `item`, or -1.
    pub fn uiNextSibling(&mut self, item: i32) -> (r: i32)
        requires
            old(self)@.has_item(item as int),
        ensures
            r == old(self)@.items[item as int].nextitem,
            final(self)@ == old(self)@,
    {
        proof {
            use_type_invariant(&*self);
        }
        return self.items[item as usize].nextitem;
    }

    /// The previous sibling of `item`, or -1.
    pub fn uiPrevSibling(&mut self, item: i32) -> (r: i32)
        requires
            old(self)@.has_item(item as int),
        ensures
            r == old(self)@.items[item as int].previtem,
            final(self)@ == old(self)@,
    {
        proof {
            use_type_invariant(&*self);
        }
        return self.items[item as usize].previtem;
    }

    /// The parent of `item`, or -1.
    pub fn uiParent(&mut self, item: i32) -> (r: i32)
        requires
            old(self)@.has_item(item as int),
        ensures
            r == old(self)@.items[item as int].parent,
            final(self)@ == old(self)@,
    {
        proof {
            use_type_invariant(&*self);
        }
        return self.items[item as usize].parent;
    }

    /// The handle of `item`.
    pub fn uiGetHandle(&mut self, item: i32) -> (r: Handle)
        requires
            old(self)@.has_item(item as int),
        ensures
            r == old(self)@.items[item as int].handle,
            final(self)@ == old(self)@,
    {
        proof {
            use_type_invariant(&*self);
        }
        return self.items[item as usize].handle;
    }

    /// The handler of `item`, if any.
    pub fn uiGetHandler(&mut self, item: i32) -> (r: Option<H>)
        requires
            old(self)@.has_item(item as int),
        ensures
            r == old(self)@.items[item as int].handler,
            final(self)@ == old(self)@,
    {
        proof {
            use_type_invariant(&*self);
        }
        return self.items[item as usize].handler;
    }

    /// The events the handler of `item` subscribed to.
    pub fn uiGetHandlerFlags(&mut self, item: i32) -> (r: EventFlags)
        requires
            old(self)@.has_item(item as int),
        ensures
            r == old(self)@.items[item as int].event_flags,
            final(self)@ == old(self)@,
    {
        proof {
            use_type_invariant(&*self);
        }
        return self.items[item as usize].event_flags;
    }

    /// The position of `item` among its parent's children.
    pub fn uiGetChildId(&mut self, item: i32) -> (r: i32)
        requires
            old(self)@.has_item(item as int),
        ensures
            r == old(self)@.items[item as int].kidid,
            final(self)@ == old(self)@,
    {
        proof {
            use_type_invariant(&*self);
        }
        return self.items[item as usize].kidid;
    }

    /// The number of children of `item`.
    pub fn uiGetChildCount(&mut self, item: i32) -> (r: i32)
        requires
            old(self)@.has_item(item as int),
        ensures
            r == old(self)@.items[item as int].numkids,
            final(self)@ == old(self)@,
    {
        proof {
            use_type_invariant(&*self);
        }
        return self.items[item as usize].numkids;
    }

    /// The rectangle of the active item, as it was when it became active.
    pub fn uiGetActiveRect(&self) -> (r: Rect)
        ensures
            r == self@.active_rect,
    {
        self.active_rect
    }

    /// Gives `item` the handle `handle`. When the handle is not -1 and
    /// matches the remembered hot or active handle, `item` becomes the hot
    /// or active item.
    pub fn uiSetHandle(&mut self, item: i32, handle: Handle)
        requires
            old(self)@.has_item(item as int),
        ensures
            final(self)@ == old(self)@.set_handle(item as int, handle),
            final(self)@.wf(),
    {
        proof {
            use_type_invariant(&*self);
        }
        self.uiItemRef(item).handle = handle;
        if handle != -1 {
            if handle == self.hot_handle {
                self.hot_item = item;
            }
            if handle == self.active_handle {
                self.active_item = item;
            }
        }
    }

    /// Gives `item` the handler `handler`, subscribed to the events in `flags`.
    pub fn uiSetHandler(&mut self, item: i32, handler: Option<H>, flags: EventFlags)
        requires
            old(self)@.has_item(item as int),
        ensures
            final(self)@ == old(self)@.set_handler(item as int, handler, flags),
            final(self)@.wf(),
    {
        proof {
            use_type_invariant(&*self);
        }
        let pitem = self.uiItemRef(item);
        pitem.handler = handler;
        pitem.event_flags = flags;
    }

    /// Whether `item` is the active item.
    pub fn uiIsActive(&self, item: i32) -> (r: bool)
        ensures
            r == (self@.active_item == item),
    {
        return self.active_item == item;
    }

    /// Whether `item` is the hot item.
    pub fn uiIsHot(&self, item: i32) -> (r: bool)
        ensures
            r == (self@.hot_item == item),
    {
        return self.hot_item == item;
    }

    /// How `item` presents itself: frozen first; then active, when it holds
    /// the capture and subscribed to capture and release, or to a release
    /// over it while it is also hot; then hot; else cold.
    pub fn uiGetState(&mut self, item: i32) -> (r: ItemState)
        requires
            old(self)@.has_item(item as int),
        ensures
            r == old(self)@.item_state(item as int),
            final(self)@ == old(self)@,
    {
        proof {
            use_type_invariant(&*self);
        }
        let hot = self.uiIsHot(item);
        let active = self.uiIsActive(item);
        let pitem = &self.items[item as usize];
        if pitem.frozen {
            return ItemState::FROZEN;
        }
        if active {
            if event_flags_contain(pitem.event_flags, BUTTON0_CAPTURE | BUTTON0_UP) {
                return ItemState::ACTIVE;
            }
            if event_flags_contain(pitem.event_flags, BUTTON0_HOT_UP) && hot {
                return ItemState::ACTIVE;
            }
            return ItemState::COLD;
        } else if hot {
            return ItemState::HOT;
        }
        return ItemState::COLD;
    }

    /// The bytes of the buffer from the data offset of `item` up to its
    /// recorded data size, both taken as buffer positions, for writing in place.
    pub fn uiGetData(&mut self, item: i32) -> (r: &mut [u8])
        requires
            old(self)@.has_item(item as int),
            0 <= old(self)@.items[item as int].data <= old(self)@.items[item as int].datasize,
            old(self)@.items[item as int].datasize <= MAX_BUFFERSIZE,
        ensures
            ({
                let start = old(self)@.items[item as int].data as int;
                let end = old(self)@.items[item as int].datasize as int;
                &&& r@ == old(self)@.data.subrange(start, end)
                &&& final(self)@ == old(self)@.with_data(
                    old(self)@.data.subrange(0, start) + final(r)@ + old(self)@.data.subrange(
                        end,
                        MAX_BUFFERSIZE as int,
                    ),
                )
            }),
    {
        proof {
            use_type_invariant(&*self);
        }
        let (data, datasize) = {
            let pitem = &self.items[item as usize];
            (pitem.data, pitem.datasize)
        };
        let ghost whole = self.data@;
        let all = bytes_mut(&mut *self.data);
        let ghost fa = final(all)@;
        let (front, rest) = all.split_at_mut(data as usize);
        let (mid, back) = rest.split_at_mut((datasize - data) as usize);
        assert(back@ =~= whole.subrange(datasize as int, MAX_BUFFERSIZE as int));
        assert(fa =~= front@ + final(mid)@ + back@);
        mid
    }

    /// Reserves `size` bytes at the end of the used buffer for `item`, which
    /// must have no data yet, and returns the buffer from the old end of the
    /// used part up to position `size`.
    pub fn uiAllocData(&mut self, item: i32, size: i32) -> (r: &[u8])
        requires
            0 < size < MAX_DATASIZE,
            old(self)@.datasize + size <= MAX_BUFFERSIZE,
            old(self)@.has_item(item as int),
            old(self)@.items[item as int].data < 0,
            old(self)@.datasize <= size,
        ensures
            final(self)@ == old(self)@.alloc_data(item as int, size),
            final(self)@.wf(),
            r@ == old(self)@.data.subrange(old(self)@.datasize as int, size as int),
    {
        proof {
            use_type_invariant(&*self);
        }
        let alloc = self.datasize;
        self.datasize += size;
        {
            let pitem = self.uiItemRef(item);
            pitem.data = alloc;
        }
        let all: &[u8] = self.data.as_slice();
        &all[alloc as usize..size as usize]
    }

    /// The item under (`x`, `y`) within `item`: hit testing finds none, so -1.
    pub fn uiFindItem(&mut self, item: i32, x: i32, y: i32, ox: i32, oy: i32) -> (r: i32)
        ensures
            r == old(self)@.find_item(item, x, y, ox, oy),
            final(self)@ == old(self)@,
    {
        return -1;
    }

    /// Sizing along a chain of neighbours; leaves everything as it is.
    pub fn uiComputeChainSize(
        &mut self,
        pkid: &mut Item<H>,
        need_size: &mut i32,
        hard_size: &mut i32,
        dim: usize,
    )
        ensures
            final(self)@ == old(self)@,
            *final(pkid) == *old(pkid),
            *final(need_size) == *old(need_size),
            *final(hard_size) == *old(hard_size),
    {
    }

    /// Sizing of `pitem` along dimension `dim`; leaves everything as it is.
    pub fn uiComputeSizeDim(&mut self, pitem: &mut Item<H>, dim: usize)
        ensures
            final(self)@ == old(self)@,
            *final(pitem) == *old(pitem),
    {
    }

    /// Best size of `item` along dimension `dim`; leaves everything as it is.
    pub fn uiComputeBestSize(&mut self, item: i32, dim: usize)
        ensures
            final(self)@ == old(self)@,
    {
    }

    /// Placement of `pitem` within `pparent`; leaves everything as it is.
    pub fn uiLayoutChildItem(
        &mut self,
        pparent: &Item<H>,
        pitem: &mut Item<H>,
        dyncount: &mut i32,
        dim: usize,
    )
        ensures
            final(self)@ == old(self)@,
            *final(pitem) == *old(pitem),
            *final(dyncount) == *old(dyncount),
    {
    }

    /// Placement of the children of `pitem`; leaves everything as it is.
    pub fn uiLayoutItemDim(&mut self, pitem: &mut Item<H>, dim: usize)
        ensures
            final(self)@ == old(self)@,
            *final(pitem) == *old(pitem),
    {
    }

    /// Placement of `item` along dimension `dim`; leaves everything as it is.
    pub fn uiLayoutItem(&mut self, item: i32, dim: usize)
        ensures
            final(self)@ == old(self)@,
    {
    }

    /// Lays out the items: the root, when there is one, is placed at its
    /// left and top margins.
    pub fn uiLayout(&mut self)
        ensures
            final(self)@ == old(self)@.layout(),
            final(self)@.wf(),
    {
        proof {
            use_type_invariant(&*self);
        }
        if self.count == 0 {
            return;
        }
        // widths

        self.uiComputeBestSize(0, 0);
        let left = self.items[0].margins[0];
        self.uiItemRef(0).rect.x = left;
        self.uiLayoutItem(0, 0);
        // heights
        self.uiComputeBestSize(0, 1);
        let top = self.items[0].margins[1];
        self.uiItemRef(0).rect.y = top;
        self.uiLayoutItem(0, 1);
        assert(self@.items =~= old(self)@.layout().items);
    }

    /// One frame of input processing without the notifications: moves
    /// between waiting and capturing by button 0, updates the hot and active
    /// items, remembers the cursor and refreshes the remembered handles.
    /// Returns the notifications due, in order, as (item, event).
    pub fn uiProcessInput(&mut self) -> (notices: Vec<(i32, EventFlags)>)
        ensures
            final(self)@ == old(self)@.process(),
            final(self)@.wf(),
            notices@ == old(self)@.process_notices(),
    {
        proof {
            use_type_invariant(&*self);
        }
        let mut notices: Vec<(i32, EventFlags)> = Vec::new();
        if self.count == 0 {
            return notices;
        }
        let cursor = self.cursor;
        let hot = self.uiFindItem(0, cursor.x, cursor.y, 0, 0);
        let active = self.active_item;
        match self.state {
            State::STATE_IDLE => {
                self.start_cursor = cursor;
                if self.uiGetButton(0) {
                    self.hot_item = -1;
                    self.active_rect = self.hot_rect;
                    self.active_item = hot;
                    if hot >= 0 {
                        notices.push((hot, BUTTON0_DOWN));
                    }
                    self.state = State::STATE_CAPTURE;
                } else {
                    self.hot_item = hot;
                }
            },
            State::STATE_CAPTURE => {
                if !self.uiGetButton(0) {
                    if active >= 0 {
                        notices.push((active, BUTTON0_UP));
                        if active == hot {
                            notices.push((active, BUTTON0_HOT_UP));
                        }
                    }
                    self.active_item = -1;
                    self.state = State::STATE_IDLE;
                } else {
                    if active >= 0 {
                        notices.push((active, BUTTON0_CAPTURE));
                    }
                    if hot == active {
                        self.hot_item = hot;
                    } else {
                        self.hot_item = -1;
                    }
                }
            },
        }
        // the state has changed; refresh the handles to match it
        self.last_cursor = self.cursor;
        let active = self.active_item;
        let hot = self.hot_item;
        self.hot_handle = if hot >= 0 {
            self.uiGetHandle(hot)
        } else {
            0
        };
        self.active_handle = if active >= 0 {
            self.uiGetHandle(active)
        } else {
            0
        };
        notices
    }

    /// One frame of input processing: the state change of `uiProcessInput`,
    /// then each of its notifications delivered in order by `uiNotifyItem`.
    pub fn uiProcess(&mut self)
        ensures
            final(self)@ == old(self)@.process(),
            final(self)@.wf(),
            forall|k: int|
                #![trigger old(self)@.process_notices()[k]]
                0 <= k < old(self)@.process_notices().len() ==> delivered(
                    old(self)@,
                    old(self)@.process_notices()[k].0,
                    old(self)@.process_notices()[k].1,
                ),
    {
        proof {
            use_type_invariant(&*self);
        }
        let notices = self.uiProcessInput();
        let mut i: usize = 0;
        while i < notices.len()
            invariant
                self@ == old(self)@.process(),
                    notices@ == old(self)@.process_notices(),
                i <= notices@.len(),
                forall|j: int| 0 <= j < notices@.len() ==> self@.has_item(#[trigger] notices@[j].0 as int),
                self@.items == old(self)@.items,
                forall|j: int|
                    #![trigger notices@[j]]
                    0 <= j < i ==> delivered(old(self)@, notices@[j].0, notices@[j].1),
            decreases notices@.len() - i,
        {
            let (item, event) = notices[i];
            self.uiNotifyItem(item, event);
            i = i + 1;
        }
    }
}

} // verus!
