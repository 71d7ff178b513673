//! Properties of the context that span several operations, stated over
//! the model that the operations' contracts use.
use vstd::prelude::*;
use crate::item::Item;
use crate::model::{button_bit, delivered, set_button_bits, ContextModel};
use crate::types::{
    flags_contain, larger, smaller, EventFlags, EventHandler, Handle, ItemState, State, Vec2, BUTTON0_CAPTURE,
    BUTTON0_HOT_UP, BUTTON0_UP, MAX_BUFFERSIZE, MAX_ITEMS,
};

verus! {

/// Setting a button changes that button's bit to the value set and no other bit.
pub proof fn lemma_button_bits(bits: u64, b: u64, c: u64, enabled: bool)
    by (bit_vector)
    requires
        b < 64,
        c < 64,
    ensures
        button_bit(set_button_bits(bits, b, enabled), b) == enabled,
        c != b ==> button_bit(set_button_bits(bits, b, enabled), c) == button_bit(bits, c),
{
}

/// After `uiSetButton(b, enabled)`, `uiGetButton(b)` answers `enabled`, every
/// other button reads as before, and the previous frame's buttons are untouched.
pub proof fn lemma_set_button_reads_back<H>(v: ContextModel<H>, b: u64, c: u64, enabled: bool)
    requires
        b < 64,
        c < 64,
    ensures
        v.set_button(b, enabled).button(b) == enabled,
        c != b ==> v.set_button(b, enabled).button(c) == v.button(c),
        v.set_button(b, enabled).last_button(c) == v.last_button(c),
{
    lemma_button_bits(v.buttons, b, c, enabled);
}

/// No operation writes the previous frame's buttons, so in every context
/// they all read as up: no button is ever released, and a button counts as
/// pressed exactly when it is down.
pub proof fn lemma_last_buttons_stay_up<H>(v: ContextModel<H>, b: u64)
    requires
        v.wf(),
        b < 64,
    ensures
        !v.last_button(b),
        !v.button_released(b),
        v.button_pressed(b) == v.button(b),
{
    assert(0u64 & (1u64 << b) == 0) by (bit_vector);
}

/// A button is never both pressed and released in the same frame.
pub proof fn lemma_pressed_excludes_released<H>(v: ContextModel<H>, b: u64)
    ensures
        !(v.button_pressed(b) && v.button_released(b)),
{
}

/// The smaller of two integers never exceeds the larger, and together
/// they are the two integers.
pub proof fn lemma_min_max(a: i32, b: i32)
    ensures
        smaller(a, b) <= larger(a, b),
        smaller(a, b) + larger(a, b) == a + b,
        larger(a, b) >= a && larger(a, b) >= b,
        smaller(a, b) <= a && smaller(a, b) <= b,
{
}

/// Changing one item leaves every other item as it was.
pub proof fn lemma_with_item_frame<H>(v: ContextModel<H>, i: int, it: Item<H>, j: int)
    requires
        v.wf(),
        0 <= i < MAX_ITEMS,
        0 <= j < MAX_ITEMS,
        j != i,
    ensures
        v.with_item(i, it).items[j] == v.items[j],
        v.with_item(i, it).items[i] == it,
        v.with_item(i, it).wf(),
{
}

/// Each item setter is read back by its getter, and keeps the context well formed.
pub proof fn lemma_item_setters_read_back<H>(
    v: ContextModel<H>,
    i: int,
    w: i32,
    h: i32,
    flags: u32,
    m: (i32, i32, i32, i32),
    side: int,
    other: i32,
    frozen: bool,
)
    requires
        v.wf(),
        v.has_item(i),
        0 <= side < 4,
    ensures
        v.set_size(i, w, h).items[i].size == (Vec2 { x: w, y: h }),
        v.set_layout(i, flags).items[i].layout_flags == flags,
        v.set_margins(i, m.0, m.1, m.2, m.3).items[i].margins@ == seq![m.0, m.1, m.2, m.3],
        v.set_relto(i, side, other).items[i].relto[side] == other,
        forall|k: int|
            0 <= k < 4 && k != side ==> #[trigger] v.set_relto(i, side, other).items[i].relto[k]
                == v.items[i].relto[k],
        v.set_frozen(i, frozen).items[i].frozen == frozen,
        v.set_size(i, w, h).wf(),
        v.set_layout(i, flags).wf(),
        v.set_margins(i, m.0, m.1, m.2, m.3).wf(),
        v.set_relto(i, side, other).wf(),
        v.set_frozen(i, frozen).wf(),
{
    let r = v.items[i].relto;
    assert(vstd::array::spec_array_update(r, side, other)@ == r@.update(side, other));
}

/// A frozen item presents itself as frozen, whatever else holds of it.
pub proof fn lemma_frozen_state<H>(v: ContextModel<H>, i: int)
    requires
        v.wf(),
        v.has_item(i),
    ensures
        v.set_frozen(i, true).item_state(i) == ItemState::FROZEN,
{
}

/// An item that is neither hot nor active presents itself as cold or frozen.
pub proof fn lemma_idle_item_state<H>(v: ContextModel<H>, i: int)
    requires
        v.wf(),
        v.has_item(i),
        v.hot_item != i,
        v.active_item != i,
    ensures
        v.item_state(i) == ItemState::COLD || v.item_state(i) == ItemState::FROZEN,
{
}

/// A handle is read back; an item given the remembered hot or active
/// handle (other than -1) becomes the hot or active item; the context stays well formed.
pub proof fn lemma_set_handle<H>(v: ContextModel<H>, i: int, handle: Handle)
    requires
        v.wf(),
        v.has_item(i),
    ensures
        v.set_handle(i, handle).items[i].handle == handle,
        handle != -1 && handle == v.hot_handle ==> v.set_handle(i, handle).hot_item == i,
        handle != -1 && handle == v.active_handle ==> v.set_handle(i, handle).active_item == i,
        handle == -1 ==> v.set_handle(i, handle).hot_item == v.hot_item
            && v.set_handle(i, handle).active_item == v.active_item,
        v.set_handle(i, handle).wf(),
{
}

/// A handler is read back with its subscription, and it receives exactly
/// the events whose bits all lie in the subscription.
pub proof fn lemma_set_handler<H>(
    v: ContextModel<H>,
    i: int,
    handler: Option<H>,
    flags: EventFlags,
    event: EventFlags,
)
    requires
        v.wf(),
        v.has_item(i),
    ensures
        v.set_handler(i, handler, flags).items[i].handler == handler,
        v.set_handler(i, handler, flags).items[i].event_flags == flags,
        v.set_handler(i, handler, flags).notified(i, event) == (if handler.is_some()
            && flags_contain(flags, event) {
            handler
        } else {
            None
        }),
        v.set_handler(i, handler, flags).wf(),
{
}

/// After a clear the context is empty and nothing is hot or active; the
/// next item added gets index 0 and is fresh.
pub proof fn lemma_clear_then_add<H>(v: ContextModel<H>)
    requires
        v.wf(),
    ensures
        v.clear().wf(),
        v.clear().count == 0,
        v.clear().hot_item == -1 && v.clear().active_item == -1,
        v.clear().add_item().count == 1,
        v.clear().add_item().items[0] == Item::<H>::fresh(),
        v.clear().add_item().wf(),
{
}

/// Adding an item appends it at the old count, fresh, and leaves every
/// existing item and the well-formedness intact.
pub proof fn lemma_add_item<H>(v: ContextModel<H>, j: int)
    requires
        v.wf(),
        v.count < MAX_ITEMS,
        0 <= j < v.count,
    ensures
        v.add_item().wf(),
        v.add_item().has_item(v.count as int),
        v.add_item().items[v.count as int] == Item::<H>::fresh(),
        v.add_item().items[j] == v.items[j],
{
}

/// Two successive allocations record, as the items' data offsets, the used
/// size before each of them, so the second offset is the first plus its
/// size; the used size grows by both sizes.
pub proof fn lemma_alloc_disjoint<H>(v: ContextModel<H>, i: int, j: int, si: i32, sj: i32)
    requires
        v.wf(),
        v.has_item(i),
        v.has_item(j),
        i != j,
        0 < si,
        0 < sj,
        v.datasize + si + sj <= crate::types::MAX_BUFFERSIZE,
    ensures
        v.alloc_data(i, si).alloc_data(j, sj).items[i].data == v.datasize,
        v.alloc_data(i, si).alloc_data(j, sj).items[j].data == v.datasize + si,
        v.alloc_data(i, si).alloc_data(j, sj).datasize == v.datasize + si + sj,
        v.alloc_data(i, si).alloc_data(j, sj).wf(),
{
}

/// Processing a frame keeps the context well formed and its items, data
/// and buttons as they were; with items, it remembers the cursor, so the
/// next frame's cursor delta starts at zero.
pub proof fn lemma_process_frame<H>(v: ContextModel<H>)
    requires
        v.wf(),
    ensures
        v.process().wf(),
        v.process().items == v.items,
        v.process().count == v.count,
        v.process().data == v.data,
        v.process().buttons == v.buttons,
        v.process().cursor == v.cursor,
        v.count > 0 ==> v.process().last_cursor == v.cursor,
{
}

/// The capture protocol of button 0: pressing it while idle starts a
/// capture; releasing it ends any capture, leaving no active item; while
/// it is up the context is idle after the frame.
pub proof fn lemma_process_capture<H>(v: ContextModel<H>)
    requires
        v.wf(),
        v.count > 0,
    ensures
        v.state == State::STATE_IDLE && v.button(0) ==> v.process().state == State::STATE_CAPTURE,
        !v.button(0) ==> v.process().state == State::STATE_IDLE,
        v.state == State::STATE_CAPTURE && !v.button(0) ==> v.process().active_item == -1,
        v.state == State::STATE_IDLE ==> v.process().start_cursor == v.cursor,
        v.state == State::STATE_CAPTURE && v.button(0) ==> v.process().active_item
            == v.active_item,
{
}

/// Releasing button 0 during a capture notifies the active item of the
/// release, once; an idle frame notifies nobody.
pub proof fn lemma_process_notices<H>(v: ContextModel<H>)
    requires
        v.wf(),
        v.count > 0,
    ensures
        v.state == State::STATE_CAPTURE && !v.button(0) && v.active_item >= 0
            ==> v.process_notices() == seq![(v.active_item, BUTTON0_UP)],
        v.state == State::STATE_IDLE ==> v.process_notices().len() == 0,
        v.active_item < 0 ==> v.process_notices().len() == 0,
        forall|k: int|
            0 <= k < v.process_notices().len() ==> v.has_item(
                #[trigger] v.process_notices()[k].0 as int,
            ),
{
}

/// Laying out places the root at its left and top margins and changes
/// nothing else.
pub proof fn lemma_layout<H>(v: ContextModel<H>, j: int)
    requires
        v.wf(),
        v.count > 0,
        0 < j < MAX_ITEMS,
    ensures
        v.layout().items[0].rect.x == v.items[0].margins[0],
        v.layout().items[0].rect.y == v.items[0].margins[1],
        v.layout().items[0].rect.w == v.items[0].rect.w,
        v.layout().items[0].rect.h == v.items[0].rect.h,
        v.layout().items[j] == v.items[j],
        v.layout().wf(),
{
}

/// Whether a button is down is bit `b` of the button word; setting it puts
/// that bit to the value set.
pub proof fn lemma_button_bit_is_shifted_bit(bits: u64, b: u64, enabled: bool)
    by (bit_vector)
    requires
        b < 64,
    ensures
        button_bit(bits, b) == ((bits >> b) & 1u64 == 1u64),
        (set_button_bits(bits, b, enabled) >> b) & 1u64 == (if enabled {
            1u64
        } else {
            0u64
        }),
        set_button_bits(set_button_bits(bits, b, enabled), b, button_bit(bits, b)) == bits,
{
}

/// Every bit of `event` is in `flags` exactly when `event` has no bit outside `flags`.
pub proof fn lemma_flags_contain_bits(flags: EventFlags, event: EventFlags)
    by (bit_vector)
    ensures
        flags_contain(flags, event) == (event & !flags == 0u32),
{
}

/// Hit testing finds no item, whatever the point and the offset.
pub proof fn lemma_find_item_finds_none<H>(v: ContextModel<H>, item: i32, x: i32, y: i32, ox: i32, oy: i32)
    ensures
        v.find_item(item, x, y, ox, oy) == -1,
{
}

/// A fresh item is detached: no parent, children or siblings, no data, no
/// neighbours, no handler, no size, margins, rectangle, flags or handle.
pub proof fn lemma_fresh_item<H>(k: int)
    requires
        0 <= k < 4,
    ensures
        ({
            let it = Item::<H>::fresh();
            &&& it.parent == -1 && it.firstkid == -1 && it.lastkid == -1
            &&& it.nextitem == -1 && it.previtem == -1
            &&& it.numkids == 0 && it.kidid == 0
            &&& it.data == -1 && it.datasize == 0
            &&& it.relto[k] == -1 && it.margins[k] == 0
            &&& it.handler.is_none() && it.event_flags == 0 && it.handle == 0
            &&& it.size.x == 0 && it.size.y == 0
            &&& it.computed_size.x == 0 && it.computed_size.y == 0
            &&& it.rect.x == 0 && it.rect.y == 0 && it.rect.w == 0 && it.rect.h == 0
            &&& !it.frozen && it.layout_flags == 0 && it.visited == 0
        }),
{
}

/// A new context is idle with nothing pressed, no items, no data, nothing
/// hot or active, the cursor at the origin, remembered handles -1, every
/// slot fresh and a zeroed buffer.
pub proof fn lemma_initial<H>(j: int, k: int)
    requires
        0 <= j < MAX_ITEMS,
        0 <= k < MAX_BUFFERSIZE,
    ensures
        ({
            let v = ContextModel::<H>::initial();
            &&& v.wf()
            &&& v.count == 0 && v.datasize == 0
            &&& v.hot_item == -1 && v.active_item == -1
            &&& v.hot_handle == -1 && v.active_handle == -1
            &&& v.state == State::STATE_IDLE
            &&& v.buttons == 0 && v.last_buttons == 0
            &&& v.cursor == (Vec2 { x: 0, y: 0 }) && v.last_cursor == v.cursor
            &&& v.start_cursor == v.cursor
            &&& v.items[j] == Item::<H>::fresh()
            &&& v.data[k] == 0
        }),
{
}

/// Clearing empties the table and the buffer and drops the hot and active
/// items; everything else, the item slots and the buffer contents included,
/// stays.
pub proof fn lemma_clear<H>(v: ContextModel<H>)
    requires
        v.wf(),
    ensures
        ({
            let c = v.clear();
            &&& c.count == 0 && c.datasize == 0
            &&& c.hot_item == -1 && c.active_item == -1
            &&& c.items == v.items && c.data == v.data
            &&& c.buttons == v.buttons && c.last_buttons == v.last_buttons
            &&& c.cursor == v.cursor && c.last_cursor == v.last_cursor
            &&& c.start_cursor == v.start_cursor
            &&& c.hot_handle == v.hot_handle && c.active_handle == v.active_handle
            &&& c.hot_rect == v.hot_rect && c.active_rect == v.active_rect
            &&& c.state == v.state
        }),
{
}

/// Each setter undone by setting the old value gives back the same state:
/// a setter changes nothing besides what it sets.
pub proof fn lemma_setters_undo<H>(
    v: ContextModel<H>,
    i: int,
    w: i32,
    h: i32,
    flags: u32,
    m: (i32, i32, i32, i32),
    side: int,
    other: i32,
    frozen: bool,
    handler: Option<H>,
    subscribed: EventFlags,
    x: i32,
    y: i32,
    b: u64,
    pressed: bool,
)
    requires
        v.wf(),
        v.has_item(i),
        0 <= side < 4,
        b < 64,
    ensures
        ({
            let it = v.items[i];
            &&& v.set_size(i, w, h).set_size(i, it.size.x, it.size.y) == v
            &&& v.set_layout(i, flags).set_layout(i, it.layout_flags) == v
            &&& v.set_margins(i, m.0, m.1, m.2, m.3).set_margins(
                i,
                it.margins[0],
                it.margins[1],
                it.margins[2],
                it.margins[3],
            ) == v
            &&& v.set_relto(i, side, other).set_relto(i, side, it.relto[side]) == v
            &&& v.set_frozen(i, frozen).set_frozen(i, it.frozen) == v
            &&& v.set_handler(i, handler, subscribed).set_handler(i, it.handler, it.event_flags)
                == v
            &&& v.set_cursor(x, y).set_cursor(v.cursor.x, v.cursor.y) == v
            &&& v.set_button(b, pressed).set_button(b, v.button(b)) == v
        }),
{
    let it = v.items[i];
    assert(v.set_size(i, w, h).set_size(i, it.size.x, it.size.y).items =~= v.items);
    assert(v.set_layout(i, flags).set_layout(i, it.layout_flags).items =~= v.items);
    let mm = v.set_margins(i, m.0, m.1, m.2, m.3).set_margins(
        i,
        it.margins[0],
        it.margins[1],
        it.margins[2],
        it.margins[3],
    );
    assert(mm.items[i].margins =~= it.margins);
    assert(mm.items =~= v.items);
    let rr = v.set_relto(i, side, other).set_relto(i, side, it.relto[side]);
    let r1 = vstd::array::spec_array_update(it.relto, side, other);
    assert(r1@ == it.relto@.update(side, other));
    assert(vstd::array::spec_array_update(r1, side, it.relto[side])@ == r1@.update(
        side,
        it.relto[side],
    ));
    assert(rr.items[i].relto =~= it.relto);
    assert(rr.items =~= v.items);
    assert(v.set_frozen(i, frozen).set_frozen(i, it.frozen).items =~= v.items);
    assert(v.set_handler(i, handler, subscribed).set_handler(i, it.handler, it.event_flags).items
        =~= v.items);
    lemma_button_bit_is_shifted_bit(v.buttons, b, pressed);
}

/// Giving an item a handle records it on that item alone. The hot item
/// becomes this item exactly when the handle is not -1 and equals the
/// remembered hot handle, and otherwise stays; likewise the active item.
/// Nothing else changes.
pub proof fn lemma_set_handle_effect<H>(v: ContextModel<H>, i: int, handle: Handle, j: int)
    requires
        v.wf(),
        v.has_item(i),
        0 <= j < MAX_ITEMS,
        j != i,
    ensures
        ({
            let s = v.set_handle(i, handle);
            &&& s.items[i].handle == handle
            &&& s.items[i].handler == v.items[i].handler
            &&& s.items[i].event_flags == v.items[i].event_flags
            &&& s.items[i].frozen == v.items[i].frozen
            &&& s.items[j] == v.items[j]
            &&& s.hot_item == (if handle != -1 && handle == v.hot_handle {
                i as i32
            } else {
                v.hot_item
            })
            &&& s.active_item == (if handle != -1 && handle == v.active_handle {
                i as i32
            } else {
                v.active_item
            })
            &&& s.hot_handle == v.hot_handle && s.active_handle == v.active_handle
            &&& s.count == v.count && s.datasize == v.datasize && s.data == v.data
            &&& s.buttons == v.buttons && s.cursor == v.cursor && s.state == v.state
            &&& s.items.len() == v.items.len()
        }),
{
}

/// The receiver of an event on an item is its handler, when it has one and
/// no bit of the event lies outside its subscription; otherwise there is none.
pub proof fn lemma_notified_receiver<H>(v: ContextModel<H>, i: int, event: EventFlags)
    requires
        v.wf(),
        v.has_item(i),
    ensures
        v.notified(i, event) == (if v.items[i].handler.is_some() && event & !v.items[i].event_flags
            == 0u32 {
            v.items[i].handler
        } else {
            None
        }),
{
    lemma_flags_contain_bits(v.items[i].event_flags, event);
}

/// How an item presents itself, case by case: frozen wins; an active item
/// is active when subscribed to both capture and release, or to the release
/// over it while it is also hot, and cold otherwise; an item that is only
/// hot is hot; an item that is neither is cold.
pub proof fn lemma_item_state_cases<H>(v: ContextModel<H>, i: int)
    requires
        v.wf(),
        v.has_item(i),
    ensures
        ({
            let it = v.items[i];
            let hot = v.hot_item == i;
            let active = v.active_item == i;
            let capture_and_up = (BUTTON0_CAPTURE | BUTTON0_UP) & !it.event_flags == 0u32;
            let hot_up = BUTTON0_HOT_UP & !it.event_flags == 0u32;
            &&& it.frozen ==> v.item_state(i) == ItemState::FROZEN
            &&& !it.frozen && active && capture_and_up ==> v.item_state(i) == ItemState::ACTIVE
            &&& !it.frozen && active && hot && hot_up ==> v.item_state(i) == ItemState::ACTIVE
            &&& !it.frozen && active && !capture_and_up && !(hot && hot_up) ==> v.item_state(i)
                == ItemState::COLD
            &&& !it.frozen && !active && hot ==> v.item_state(i) == ItemState::HOT
            &&& !it.frozen && !active && !hot ==> v.item_state(i) == ItemState::COLD
        }),
{
    lemma_flags_contain_bits(v.items[i].event_flags, BUTTON0_CAPTURE | BUTTON0_UP);
    lemma_flags_contain_bits(v.items[i].event_flags, BUTTON0_HOT_UP);
}

/// Allocating `size` bytes for item `i`, whatever the number of items,
/// records the used size before the call as the item's data offset and
/// advances the used size by `size`; nothing else changes.
pub proof fn lemma_alloc_data_effect<H>(v: ContextModel<H>, i: int, size: i32, j: int)
    requires
        v.wf(),
        v.has_item(i),
        0 < size,
        v.datasize + size <= MAX_BUFFERSIZE,
        0 <= j < MAX_ITEMS,
        j != i,
    ensures
        ({
            let s = v.alloc_data(i, size);
            &&& s.datasize == v.datasize + size
            &&& s.items[i].data == v.datasize
            &&& s.items[i].datasize == v.items[i].datasize
            &&& s.items[i].handler == v.items[i].handler
            &&& s.items[i].parent == v.items[i].parent
            &&& s.items[j] == v.items[j]
            &&& s.data == v.data && s.count == v.count
            &&& s.hot_item == v.hot_item && s.active_item == v.active_item
            &&& s.wf()
        }),
{
}

/// A frame with items: the items, the buffer, the buttons, the cursor and
/// the hot rectangle stay; the cursor is remembered; and the remembered
/// handles afterwards are those of the hot and active items, 0 for none.
pub proof fn lemma_process_remembers_handles<H>(v: ContextModel<H>)
    requires
        v.wf(),
        v.count > 0,
    ensures
        ({
            let p = v.process();
            &&& p.active_item >= 0 ==> p.active_handle == p.items[p.active_item as int].handle
            &&& p.active_item < 0 ==> p.active_handle == 0
            &&& p.hot_item >= 0 ==> p.hot_handle == p.items[p.hot_item as int].handle
            &&& p.hot_item < 0 ==> p.hot_handle == 0
            &&& p.items == v.items && p.count == v.count && p.datasize == v.datasize
            &&& p.data == v.data && p.buttons == v.buttons && p.last_buttons == v.last_buttons
            &&& p.cursor == v.cursor && p.last_cursor == v.cursor && p.hot_rect == v.hot_rect
        }),
{
}

/// The frame's state machine with no item under the cursor. Idle and
/// button 0 down: capture starts from the cursor, taking the hot rectangle,
/// with nothing hot or active. Idle and button 0 up: stays idle, restarts at
/// the cursor, nothing hot, the active item kept. Capturing and button 0 up:
/// back to idle with no active item, the hot item kept. Capturing and
/// button 0 down: the capture and the active item kept, nothing hot.
/// Without items a frame changes nothing.
pub proof fn lemma_process_transitions<H>(v: ContextModel<H>)
    requires
        v.wf(),
    ensures
        v.count == 0 ==> v.process() == v,
        ({
            let p = v.process();
            v.count > 0 ==> {
                &&& v.state == State::STATE_IDLE && v.button(0) ==> {
                    &&& p.state == State::STATE_CAPTURE
                    &&& p.start_cursor == v.cursor
                    &&& p.active_rect == v.hot_rect
                    &&& p.hot_item == -1 && p.active_item == -1
                }
                &&& v.state == State::STATE_IDLE && !v.button(0) ==> {
                    &&& p.state == State::STATE_IDLE
                    &&& p.start_cursor == v.cursor
                    &&& p.active_rect == v.active_rect
                    &&& p.hot_item == -1 && p.active_item == v.active_item
                }
                &&& v.state == State::STATE_CAPTURE && !v.button(0) ==> {
                    &&& p.state == State::STATE_IDLE
                    &&& p.start_cursor == v.start_cursor
                    &&& p.active_rect == v.active_rect
                    &&& p.hot_item == v.hot_item && p.active_item == -1
                }
                &&& v.state == State::STATE_CAPTURE && v.button(0) ==> {
                    &&& p.state == State::STATE_CAPTURE
                    &&& p.start_cursor == v.start_cursor
                    &&& p.active_rect == v.active_rect
                    &&& p.hot_item == -1 && p.active_item == v.active_item
                }
            }
        }),
{
}

/// The frame's notices with no item under the cursor: while capturing with
/// an active item, one release notice when button 0 is up and one capture
/// notice when it is down; none otherwise.
pub proof fn lemma_process_notice_cases<H>(v: ContextModel<H>)
    requires
        v.wf(),
    ensures
        v.count > 0 && v.state == State::STATE_CAPTURE && v.active_item >= 0 && !v.button(0)
            ==> v.process_notices() == seq![(v.active_item, BUTTON0_UP)],
        v.count > 0 && v.state == State::STATE_CAPTURE && v.active_item >= 0 && v.button(0)
            ==> v.process_notices() == seq![(v.active_item, BUTTON0_CAPTURE)],
        v.count == 0 || v.state == State::STATE_IDLE || v.active_item < 0
            ==> v.process_notices().len() == 0,
{
}

/// Laying out changes only the root's rectangle origin: putting the root
/// back gives the state before.
pub proof fn lemma_layout_changes_only_root_origin<H>(v: ContextModel<H>)
    requires
        v.wf(),
    ensures
        v.layout().with_item(0, v.items[0]) == v,
        v.count > 0 ==> v.layout().items[0].margins == v.items[0].margins
            && v.layout().items[0].size == v.items[0].size
            && v.layout().items[0].handler == v.items[0].handler,
{
    assert(v.layout().with_item(0, v.items[0]).items =~= v.items);
}

/// An event counts as delivered to an item whose handler subscribed to it
/// only when that handler was called with the item and the event; to an
/// item with no handler, or not subscribed, there is nothing to deliver.
pub proof fn lemma_delivered_means_called<H: EventHandler>(
    v: ContextModel<H>,
    i: i32,
    event: EventFlags,
)
    requires
        v.wf(),
        v.has_item(i as int),
    ensures
        v.items[i as int].handler.is_some() && event & !v.items[i as int].event_flags == 0u32
            ==> (delivered(v, i, event) <==> call_ensures(
            H::handle,
            (&v.items[i as int].handler.unwrap(), i, event),
            (),
        )),
        v.items[i as int].handler.is_none() || event & !v.items[i as int].event_flags != 0u32
            ==> delivered(v, i, event),
{
    lemma_notified_receiver(v, i as int, event);
}

} // verus!
