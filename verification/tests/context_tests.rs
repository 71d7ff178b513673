use std::cell::RefCell;

use oui::context::Context;
use oui::item::Item;
use oui::types::{
    event_flags_contain, ui_max, ui_min, EventFlags, EventHandler, ItemState, Rect, Vec2, APPEND,
    BUTTON0_CAPTURE, BUTTON0_DOWN, BUTTON0_HOT_UP, BUTTON0_UP, MAX_ITEMS,
};

#[derive(Clone, Copy)]
struct Recorder<'a> {
    log: &'a RefCell<Vec<(i32, EventFlags)>>,
}

impl<'a> EventHandler for Recorder<'a> {
    fn handle(&self, item: i32, event: EventFlags) {
        self.log.borrow_mut().push((item, event));
    }
}

#[derive(Clone, Copy)]
struct Silent;

impl EventHandler for Silent {
    fn handle(&self, _item: i32, _event: EventFlags) {}
}

fn context() -> Context<Silent> {
    Context::uiCreateContext()
}

#[test]
fn max_and_min() {
    assert_eq!(ui_max(3, 7), 7);
    assert_eq!(ui_max(7, 3), 7);
    assert_eq!(ui_max(-4, -4), -4);
    assert_eq!(ui_min(3, 7), 3);
    assert_eq!(ui_min(7, 3), 3);
    assert_eq!(ui_min(i32::MIN, i32::MAX), i32::MIN);
    assert!(ui_min(-9, 12) <= ui_max(-9, 12));
    assert_eq!(ui_min(-9, 12) + ui_max(-9, 12), 3);
}

#[test]
fn flags_containment() {
    assert!(event_flags_contain(BUTTON0_UP | BUTTON0_CAPTURE, BUTTON0_UP));
    assert!(event_flags_contain(BUTTON0_UP | BUTTON0_CAPTURE, BUTTON0_UP | BUTTON0_CAPTURE));
    assert!(!event_flags_contain(BUTTON0_UP, BUTTON0_UP | BUTTON0_CAPTURE));
    assert!(event_flags_contain(0, 0));
    assert!(!event_flags_contain(0, APPEND));
}

#[test]
fn fresh_items_are_detached() {
    let mut ctx = context();
    assert_eq!(ctx.uiItem(), 0);
    assert_eq!(ctx.uiItem(), 1);
    assert_eq!(ctx.uiItem(), 2);
    for i in 0..3 {
        assert_eq!(ctx.uiParent(i), -1);
        assert_eq!(ctx.uiFirstChild(i), -1);
        assert_eq!(ctx.uiLastChild(i), -1);
        assert_eq!(ctx.uiNextSibling(i), -1);
        assert_eq!(ctx.uiPrevSibling(i), -1);
        assert_eq!(ctx.uiGetChildId(i), 0);
        assert_eq!(ctx.uiGetChildCount(i), 0);
        assert_eq!(ctx.uiGetWidth(i), 0);
        assert_eq!(ctx.uiGetHeight(i), 0);
        assert_eq!(ctx.uiGetLayout(i), 0);
        assert_eq!(ctx.uiGetMarginLeft(i), 0);
        assert_eq!(ctx.uiGetMarginDown(i), 0);
        assert_eq!(ctx.uiGetRelToLeft(i), -1);
        assert_eq!(ctx.uiGetRelToTop(i), -1);
        assert_eq!(ctx.uiGetRelToRight(i), -1);
        assert_eq!(ctx.uiGetRelToDown(i), -1);
        assert_eq!(ctx.uiGetHandle(i), 0);
        assert!(ctx.uiGetHandler(i).is_none());
        assert_eq!(ctx.uiGetHandlerFlags(i), 0);
        assert_eq!(ctx.uiGetRect(i), Rect { x: 0, y: 0, w: 0, h: 0 });
        assert_eq!(ctx.uiGetState(i), ItemState::COLD);
        assert!(!ctx.uiIsHot(i));
        assert!(!ctx.uiIsActive(i));
    }
}

#[test]
fn new_item_resets_a_reused_slot() {
    let mut ctx = context();
    let a = ctx.uiItem();
    ctx.uiSetSize(a, 40, 50);
    ctx.uiSetMargins(a, 1, 2, 3, 4);
    ctx.uiSetFrozen(a, true);
    ctx.uiClear();
    assert_eq!(ctx.uiItem(), 0);
    assert_eq!(ctx.uiGetWidth(0), 0);
    assert_eq!(ctx.uiGetMarginTop(0), 0);
    assert_eq!(ctx.uiGetState(0), ItemState::COLD);
}

#[test]
fn item_table_fills_up() {
    let mut ctx = context();
    for expected in 0..MAX_ITEMS as i32 {
        assert_eq!(ctx.uiItem(), expected);
    }
    assert_eq!(ctx.uiGetWidth(MAX_ITEMS as i32 - 1), 0);
}

#[test]
fn buttons_read_back() {
    let mut ctx = context();
    assert!(!ctx.uiGetButton(0));
    ctx.uiSetButton(0, true);
    ctx.uiSetButton(5, true);
    ctx.uiSetButton(63, true);
    assert!(ctx.uiGetButton(0));
    assert!(ctx.uiGetButton(5));
    assert!(ctx.uiGetButton(63));
    assert!(!ctx.uiGetButton(1));
    ctx.uiSetButton(5, false);
    assert!(!ctx.uiGetButton(5));
    assert!(ctx.uiGetButton(0));
    assert!(ctx.uiGetButton(63));
    ctx.uiSetButton(5, false);
    assert!(!ctx.uiGetButton(5));
}

#[test]
fn pressed_and_released() {
    let mut ctx = context();
    assert!(!ctx.uiButtonPressed(2));
    assert!(!ctx.uiButtonReleased(2));
    ctx.uiSetButton(2, true);
    // the previous frame's buttons stay up
    assert!(!ctx.uiGetLastButton(2));
    assert!(ctx.uiButtonPressed(2));
    assert!(!ctx.uiButtonReleased(2));
    ctx.uiItem();
    ctx.uiProcess();
    assert!(!ctx.uiGetLastButton(2));
    assert!(ctx.uiButtonPressed(2));
}

#[test]
fn cursor_and_deltas() {
    let mut ctx = context();
    assert_eq!(ctx.uiGetCursor(), Vec2 { x: 0, y: 0 });
    ctx.uiSetCursor(10, -20);
    assert_eq!(ctx.uiGetCursor(), Vec2 { x: 10, y: -20 });
    assert_eq!(ctx.uiGetCursorDelta(), Vec2 { x: 10, y: -20 });
    assert_eq!(ctx.uiGetCursorStart(), Vec2 { x: 0, y: 0 });
    assert_eq!(ctx.uiGetCursorStartDelta(), Vec2 { x: 10, y: -20 });
    // without items, processing does nothing
    ctx.uiProcess();
    assert_eq!(ctx.uiGetCursorDelta(), Vec2 { x: 10, y: -20 });
    ctx.uiItem();
    ctx.uiProcess();
    assert_eq!(ctx.uiGetCursorDelta(), Vec2 { x: 0, y: 0 });
    assert_eq!(ctx.uiGetCursorStart(), Vec2 { x: 10, y: -20 });
    ctx.uiSetCursor(13, -16);
    assert_eq!(ctx.uiGetCursorDelta(), Vec2 { x: 3, y: 4 });
    assert_eq!(ctx.uiGetCursorStartDelta(), Vec2 { x: 3, y: 4 });
}

#[test]
fn item_properties_read_back() {
    let mut ctx = context();
    let a = ctx.uiItem();
    let b = ctx.uiItem();
    ctx.uiSetSize(a, 120, 30);
    ctx.uiSetLayout(a, 0x5);
    ctx.uiSetMargins(a, 1, 2, 3, 4);
    assert_eq!(ctx.uiGetWidth(a), 120);
    assert_eq!(ctx.uiGetHeight(a), 30);
    assert_eq!(ctx.uiGetLayout(a), 0x5);
    assert_eq!(ctx.uiGetMarginLeft(a), 1);
    assert_eq!(ctx.uiGetMarginTop(a), 2);
    assert_eq!(ctx.uiGetMarginRight(a), 3);
    assert_eq!(ctx.uiGetMarginDown(a), 4);
    assert_eq!(ctx.uiGetWidth(b), 0);
    assert_eq!(ctx.uiGetMarginLeft(b), 0);
}

#[test]
fn neighbours_read_back() {
    let mut ctx = context();
    let a = ctx.uiItem();
    let b = ctx.uiItem();
    ctx.uiSetRelToLeft(b, a);
    ctx.uiSetRelToTop(b, a);
    ctx.uiSetRelToRight(a, b);
    ctx.uiSetRelToDown(a, -5);
    assert_eq!(ctx.uiGetRelToLeft(b), a);
    assert_eq!(ctx.uiGetRelToTop(b), a);
    assert_eq!(ctx.uiGetRelToRight(b), -1);
    assert_eq!(ctx.uiGetRelToRight(a), b);
    assert_eq!(ctx.uiGetRelToDown(a), -5);
    assert_eq!(ctx.uiGetRelToLeft(a), -1);
}

#[test]
fn item_ref_writes_in_place() {
    let mut ctx = context();
    let a = ctx.uiItem();
    {
        let it: &mut Item<Silent> = ctx.uiItemRef(a);
        it.numkids = 3;
        it.kidid = 2;
        it.rect = Rect { x: 1, y: 2, w: 3, h: 4 };
    }
    assert_eq!(ctx.uiGetChildCount(a), 3);
    assert_eq!(ctx.uiGetChildId(a), 2);
    assert_eq!(ctx.uiGetRect(a), Rect { x: 1, y: 2, w: 3, h: 4 });
}

#[test]
fn layout_places_root_at_margins() {
    let mut ctx = context();
    ctx.uiLayout();
    let root = ctx.uiItem();
    let kid = ctx.uiItem();
    ctx.uiSetMargins(root, 7, 9, 11, 13);
    ctx.uiSetMargins(kid, 5, 5, 5, 5);
    ctx.uiSetSize(root, 100, 50);
    ctx.uiLayout();
    assert_eq!(ctx.uiGetRect(root), Rect { x: 7, y: 9, w: 0, h: 0 });
    assert_eq!(ctx.uiGetRect(kid), Rect { x: 0, y: 0, w: 0, h: 0 });
}

#[test]
fn layout_steps_leave_everything() {
    let mut ctx = context();
    let a = ctx.uiItem();
    ctx.uiSetSize(a, 4, 5);
    let mut it: Item<Silent> = Item::new();
    let parent: Item<Silent> = Item::new();
    let mut need = 3;
    let mut hard = 4;
    let mut dyncount = 1;
    ctx.uiComputeChainSize(&mut it, &mut need, &mut hard, 0);
    ctx.uiComputeSizeDim(&mut it, 1);
    ctx.uiComputeBestSize(a, 0);
    ctx.uiLayoutChildItem(&parent, &mut it, &mut dyncount, 0);
    ctx.uiLayoutItemDim(&mut it, 1);
    ctx.uiLayoutItem(a, 1);
    assert_eq!((need, hard, dyncount), (3, 4, 1));
    assert_eq!(it.parent, -1);
    assert_eq!(it.relto, [-1, -1, -1, -1]);
    assert_eq!(ctx.uiGetWidth(a), 4);
    assert_eq!(ctx.uiGetRect(a), Rect { x: 0, y: 0, w: 0, h: 0 });
}

#[test]
fn hit_testing_finds_nothing() {
    let mut ctx = context();
    let a = ctx.uiItem();
    ctx.uiSetSize(a, 100, 100);
    ctx.uiLayout();
    assert_eq!(ctx.uiFindItem(a, 5, 5, 0, 0), -1);
    assert_eq!(ctx.uiFindItem(0, 0, 0, 0, 0), -1);
}

#[test]
fn frozen_items_are_frozen() {
    let mut ctx = context();
    let a = ctx.uiItem();
    ctx.uiSetFrozen(a, true);
    assert_eq!(ctx.uiGetState(a), ItemState::FROZEN);
    ctx.uiSetFrozen(a, false);
    assert_eq!(ctx.uiGetState(a), ItemState::COLD);
}

#[test]
fn handles_make_items_hot_and_active() {
    let mut ctx = context();
    let a = ctx.uiItem();
    let b = ctx.uiItem();
    // remembered handles start at -1, which matches nothing
    ctx.uiSetHandle(a, -1);
    assert_eq!(ctx.uiGetHandle(a), -1);
    assert!(!ctx.uiIsHot(a));
    assert!(!ctx.uiIsActive(a));
    // after a frame with nothing hot or active, the remembered handles are 0
    ctx.uiProcess();
    ctx.uiSetHandle(b, 7);
    assert_eq!(ctx.uiGetHandle(b), 7);
    assert!(!ctx.uiIsHot(b));
    ctx.uiSetHandle(a, 0);
    assert!(ctx.uiIsHot(a));
    assert!(ctx.uiIsActive(a));
    // active, but subscribed to neither capture nor release
    assert_eq!(ctx.uiGetState(a), ItemState::COLD);
    ctx.uiSetHandler(a, Some(Silent), BUTTON0_CAPTURE | BUTTON0_UP);
    assert_eq!(ctx.uiGetState(a), ItemState::ACTIVE);
    ctx.uiSetHandler(a, Some(Silent), BUTTON0_HOT_UP);
    assert_eq!(ctx.uiGetState(a), ItemState::ACTIVE);
    ctx.uiSetHandler(a, Some(Silent), BUTTON0_UP);
    assert_eq!(ctx.uiGetState(a), ItemState::COLD);
    ctx.uiClear();
    assert!(!ctx.uiIsHot(0));
    assert!(!ctx.uiIsActive(0));
}

#[test]
fn hot_item_state() {
    let mut ctx = context();
    let a = ctx.uiItem();
    ctx.uiProcess();
    ctx.uiSetButton(0, true);
    // start a capture: the active item becomes the hit item, none
    ctx.uiProcess();
    assert!(!ctx.uiIsActive(a));
    // the remembered active handle is 0 and the hot one is 0
    ctx.uiSetHandle(a, 0);
    assert!(ctx.uiIsHot(a));
    assert!(ctx.uiIsActive(a));
    ctx.uiSetHandler(a, Some(Silent), BUTTON0_HOT_UP);
    assert_eq!(ctx.uiGetState(a), ItemState::ACTIVE);
}

#[test]
fn handlers_read_back_and_are_targeted() {
    let log = RefCell::new(Vec::new());
    let mut ctx: Context<Recorder> = Context::uiCreateContext();
    let a = ctx.uiItem();
    assert!(ctx.uiNotifyTarget(a, BUTTON0_DOWN).is_none());
    ctx.uiSetHandler(a, Some(Recorder { log: &log }), BUTTON0_DOWN | APPEND);
    assert!(ctx.uiGetHandler(a).is_some());
    assert_eq!(ctx.uiGetHandlerFlags(a), BUTTON0_DOWN | APPEND);
    assert!(ctx.uiNotifyTarget(a, BUTTON0_DOWN).is_some());
    assert!(ctx.uiNotifyTarget(a, APPEND).is_some());
    assert!(ctx.uiNotifyTarget(a, BUTTON0_UP).is_none());
    assert!(ctx.uiNotifyTarget(a, BUTTON0_DOWN | BUTTON0_UP).is_none());
    ctx.uiNotifyItem(a, BUTTON0_DOWN);
    ctx.uiNotifyItem(a, BUTTON0_UP);
    ctx.uiNotifyItem(a, APPEND);
    assert_eq!(*log.borrow(), vec![(a, BUTTON0_DOWN), (a, APPEND)]);
    ctx.uiSetHandler(a, None, BUTTON0_DOWN);
    ctx.uiNotifyItem(a, BUTTON0_DOWN);
    assert_eq!(log.borrow().len(), 2);
}

#[test]
fn append_notifies_the_parent() {
    let log = RefCell::new(Vec::new());
    let mut ctx: Context<Recorder> = Context::uiCreateContext();
    let root = ctx.uiItem();
    let kid = ctx.uiItem();
    ctx.uiSetHandler(root, Some(Recorder { log: &log }), APPEND);
    assert_eq!(ctx.uiAppend(root, kid), kid);
    assert_eq!(*log.borrow(), vec![(root, APPEND)]);
    // appending does not link the items
    assert_eq!(ctx.uiParent(kid), -1);
    assert_eq!(ctx.uiFirstChild(root), -1);
    assert_eq!(ctx.uiGetChildCount(root), 0);
}

#[test]
fn capture_and_release_notify_the_active_item() {
    let log = RefCell::new(Vec::new());
    let mut ctx: Context<Recorder> = Context::uiCreateContext();
    let a = ctx.uiItem();
    ctx.uiSetHandler(
        a,
        Some(Recorder { log: &log }),
        BUTTON0_DOWN | BUTTON0_UP | BUTTON0_HOT_UP | BUTTON0_CAPTURE,
    );
    ctx.uiSetCursor(3, 4);
    ctx.uiSetButton(0, true);
    // idle -> capture; no item is hit, so nothing is notified
    assert!(ctx.uiProcessInput().is_empty());
    assert!(log.borrow().is_empty());
    assert!(!ctx.uiIsActive(a));
    assert_eq!(ctx.uiGetCursorStart(), Vec2 { x: 3, y: 4 });
    // the remembered handles are 0 now: handle 0 makes the item active
    ctx.uiSetHandle(a, 0);
    assert!(ctx.uiIsActive(a));
    ctx.uiSetCursor(8, 4);
    ctx.uiProcess();
    assert_eq!(*log.borrow(), vec![(a, BUTTON0_CAPTURE)]);
    assert_eq!(ctx.uiGetCursorStart(), Vec2 { x: 3, y: 4 });
    assert_eq!(ctx.uiGetCursorStartDelta(), Vec2 { x: 5, y: 0 });
    // the item is active but not hot
    assert!(!ctx.uiIsHot(a));
    assert_eq!(ctx.uiGetState(a), ItemState::ACTIVE);
    ctx.uiSetButton(0, false);
    ctx.uiProcess();
    assert_eq!(*log.borrow(), vec![(a, BUTTON0_CAPTURE), (a, BUTTON0_UP)]);
    assert!(!ctx.uiIsActive(a));
    assert_eq!(ctx.uiGetState(a), ItemState::COLD);
    // idle again: further frames notify nobody
    ctx.uiProcess();
    assert_eq!(log.borrow().len(), 2);
}

#[test]
fn process_input_reports_notices() {
    let mut ctx = context();
    let a = ctx.uiItem();
    ctx.uiSetButton(0, true);
    assert!(ctx.uiProcessInput().is_empty());
    ctx.uiSetHandle(a, 0);
    assert_eq!(ctx.uiProcessInput(), vec![(a, BUTTON0_CAPTURE)]);
    ctx.uiSetButton(0, false);
    assert_eq!(ctx.uiProcessInput(), vec![(a, BUTTON0_UP)]);
    assert!(ctx.uiProcessInput().is_empty());
}

#[test]
fn active_rect_is_taken_from_hot_rect() {
    let mut ctx = context();
    ctx.uiItem();
    assert_eq!(ctx.uiGetActiveRect(), Rect { x: 0, y: 0, w: 0, h: 0 });
    ctx.uiSetButton(0, true);
    ctx.uiProcess();
    assert_eq!(ctx.uiGetActiveRect(), Rect { x: 0, y: 0, w: 0, h: 0 });
}

#[test]
fn data_allocation() {
    let mut ctx = context();
    let a = ctx.uiItem();
    let b = ctx.uiItem();
    {
        let bytes = ctx.uiAllocData(a, 16);
        assert_eq!(bytes.len(), 16);
        assert!(bytes.iter().all(|x| *x == 0));
    }
    assert_eq!(ctx.uiItemRef(a).data, 0);
    {
        // the second allocation starts where the first ended
        let bytes = ctx.uiAllocData(b, 20);
        assert_eq!(bytes.len(), 4);
    }
    assert_eq!(ctx.uiItemRef(b).data, 16);
    // the recorded size stays 0
    assert_eq!(ctx.uiItemRef(a).datasize, 0);
}

#[test]
fn data_reads_and_writes_in_place() {
    let mut ctx = context();
    let a = ctx.uiItem();
    ctx.uiAllocData(a, 8);
    ctx.uiItemRef(a).datasize = 8;
    {
        let bytes = ctx.uiGetData(a);
        assert_eq!(bytes.len(), 8);
        bytes[0] = 42;
        bytes[7] = 7;
    }
    let bytes = ctx.uiGetData(a);
    assert_eq!(bytes[0], 42);
    assert_eq!(bytes[7], 7);
    assert_eq!(bytes[1], 0);
}

#[test]
fn empty_data_for_zero_offset() {
    let mut ctx = context();
    let a = ctx.uiItem();
    ctx.uiAllocData(a, 4);
    assert_eq!(ctx.uiGetData(a).len(), 0);
}


#[test]
fn parents_decide_who_may_be_a_neighbour() {
    let mut ctx = context();
    let a = ctx.uiItem();
    let b = ctx.uiItem();
    let c = ctx.uiItem();
    ctx.uiItemRef(b).parent = a;
    ctx.uiItemRef(c).parent = a;
    assert_ne!(ctx.uiParent(b), ctx.uiParent(a));
    ctx.uiSetRelToLeft(b, c);
    ctx.uiSetRelToRight(c, b);
    assert_eq!(ctx.uiGetRelToLeft(b), c);
    assert_eq!(ctx.uiGetRelToRight(c), b);
}

#[test]
fn previous_frame_buttons_stay_up() {
    let mut ctx = context();
    let a = ctx.uiItem();
    for b in [0u64, 1, 63] {
        ctx.uiSetButton(b, true);
    }
    ctx.uiProcess();
    ctx.uiSetHandle(a, 0);
    ctx.uiProcess();
    ctx.uiSetButton(0, false);
    ctx.uiProcess();
    ctx.uiClear();
    ctx.uiItem();
    ctx.uiLayout();
    for b in [0u64, 1, 2, 63] {
        assert!(!ctx.uiGetLastButton(b));
        assert!(!ctx.uiButtonReleased(b));
        assert_eq!(ctx.uiButtonPressed(b), ctx.uiGetButton(b));
    }
}
