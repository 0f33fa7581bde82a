use region_select::error::SelectError;
use region_select::geometry::{to_global, Pos, Region};
use region_select::selection::Selection;
use region_select::tracker::{PointerKind, Tracker, BTN_LEFT};

#[test]
fn drag_resolves_to_bounding_box_forward() {
    let mut sel = Selection::new();
    sel.begin(Pos::new(10, 20));
    sel.end(Pos::new(110, 220));
    let r = sel.to_region().unwrap();
    assert_eq!(r, Region { x: 10, y: 20, width: 100, height: 200 });
}

#[test]
fn drag_resolves_to_bounding_box_reversed() {
    let mut sel = Selection::new();
    sel.begin(Pos::new(110, 220));
    sel.end(Pos::new(10, 20));
    let r = sel.to_region().unwrap();
    assert_eq!(r, Region { x: 10, y: 20, width: 100, height: 200 });
}

#[test]
fn drag_resolves_to_bounding_box_mixed_order() {
    let mut sel = Selection::new();
    sel.begin(Pos::new(110, 20));
    sel.end(Pos::new(10, 220));
    let r = sel.to_region().unwrap();
    assert_eq!(r, Region { x: 10, y: 20, width: 100, height: 200 });
}

#[test]
fn zero_area_rectangle_is_valid() {
    let mut sel = Selection::new();
    sel.begin(Pos::new(5, 5));
    sel.end(Pos::new(5, 5));
    let r = sel.to_region().unwrap();
    assert_eq!(r, Region { x: 5, y: 5, width: 0, height: 0 });
}

#[test]
fn update_is_ignored_while_not_dragging() {
    let mut sel = Selection::new();
    sel.update(Pos::new(7, 7));
    assert!(!sel.has_value());
    assert_eq!(sel.from(), None);
    assert_eq!(sel.to(), None);
}

#[test]
fn update_last_value_wins() {
    let mut twice = Selection::new();
    twice.begin(Pos::new(0, 0));
    twice.update(Pos::new(5, 5));
    twice.update(Pos::new(9, 3));

    let mut once = Selection::new();
    once.begin(Pos::new(0, 0));
    once.update(Pos::new(9, 3));

    assert_eq!(twice.to_region(), once.to_region());
    assert_eq!(twice.to_region().unwrap(), Region { x: 0, y: 0, width: 9, height: 3 });
}

#[test]
fn end_freezes_the_rectangle() {
    let mut sel = Selection::new();
    sel.begin(Pos::new(1, 1));
    sel.update(Pos::new(4, 4));
    sel.end(Pos::new(8, 2));
    sel.update(Pos::new(100, 100));
    assert_eq!(sel.to_region().unwrap(), Region { x: 1, y: 1, width: 7, height: 1 });
}

#[test]
fn set_to_on_empty_selection_pairs_with_origin() {
    let mut sel = Selection::new();
    sel.set_to(Pos::new(7, 8));
    assert_eq!(sel.from(), Some(Pos::new(0, 0)));
    assert_eq!(sel.to(), Some(Pos::new(7, 8)));
}

#[test]
fn reset_clears_everything() {
    let mut sel = Selection::new();
    sel.begin(Pos::new(3, 3));
    sel.reset();
    assert!(!sel.has_value());
    assert_eq!(sel.to_region(), None);
}

#[test]
fn local_position_is_offset_by_surface_origin() {
    let g = to_global(Pos::new(10, 10), Pos::new(1920, 0));
    assert_eq!(g, Pos::new(1930, 10));
}

#[test]
fn press_and_release_on_one_pixel_yields_no_selection() {
    let mut t = Tracker::new();
    t.pointer(Pos::new(40, 40), PointerKind::Press { button: BTN_LEFT });
    t.pointer(Pos::new(40, 40), PointerKind::Release { button: BTN_LEFT });
    assert!(t.exit);
    assert_eq!(t.finish(), Err(SelectError::NoSelection));
}

#[test]
fn drag_is_anchored_at_the_press_point() {
    let mut t = Tracker::new();
    t.pointer(Pos::new(40, 40), PointerKind::Press { button: BTN_LEFT });
    t.pointer(Pos::new(50, 45), PointerKind::Motion);
    t.frame_update();
    t.pointer(Pos::new(90, 70), PointerKind::Release { button: BTN_LEFT });
    assert!(t.exit);
    assert_eq!(t.finish(), Ok(Region { x: 40, y: 40, width: 50, height: 30 }));
}

#[test]
fn release_without_press_exits_with_no_selection() {
    let mut t = Tracker::new();
    t.pointer(Pos::new(12, 12), PointerKind::Release { button: BTN_LEFT });
    assert!(t.exit);
    assert_eq!(t.finish(), Err(SelectError::NoSelection));
}

#[test]
fn secondary_button_does_not_press_or_release() {
    let mut t = Tracker::new();
    t.pointer(Pos::new(3, 3), PointerKind::Press { button: 1 });
    assert_eq!(t.pos_pressed, None);
    t.pointer(Pos::new(9, 9), PointerKind::Release { button: 1 });
    assert!(!t.exit);
}

#[test]
fn cancel_while_idle_yields_no_selection() {
    let mut t = Tracker::new();
    t.cancel();
    assert!(t.exit);
    assert_eq!(t.finish(), Err(SelectError::NoSelection));
}

#[test]
fn cursor_update_waits_for_the_frame_tick() {
    let mut t = Tracker::new();
    t.pointer(Pos::new(0, 0), PointerKind::Press { button: BTN_LEFT });
    t.pointer(Pos::new(10, 10), PointerKind::Motion);
    // The drag begins at once, but the cursor is folded in per frame.
    assert_eq!(t.selection.to(), Some(Pos::new(0, 0)));
    t.frame_update();
    assert_eq!(t.selection.to(), Some(Pos::new(10, 10)));
}
