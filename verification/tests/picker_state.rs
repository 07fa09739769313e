use colorful_picker::picker::{
    initial_pool_size, scroll_direction, PickerState, PointerInput, SmoothScroll, ZoomDirection,
    BUTTON_LEFT, BUTTON_RIGHT, MAX_ZOOM_SCALE, MIN_ZOOM_SCALE,
};

#[test]
fn starts_unlocked_at_smallest_zoom() {
    let s = PickerState::new(1920, 1080);
    assert_eq!(s.zoom_scale, MIN_ZOOM_SCALE);
    assert!(!s.locked);
    assert!(s.first_configure);
    assert!(!s.exit);
    assert_eq!(s.picked_color, None);
    assert_eq!((s.width, s.height), (1920, 1080));
}

#[test]
fn motion_follows_cursor_until_locked() {
    let mut s = PickerState::new(100, 100);
    let act = s.pointer_event(PointerInput::Motion);
    assert!(act.snap_lens);
    assert!(s.needs_redraw);
    s.pointer_event(PointerInput::Scroll(Some(ZoomDirection::In)));
    assert!(s.locked);
    assert_eq!(s.zoom_scale, 30);
    let act = s.pointer_event(PointerInput::Motion);
    assert!(!act.snap_lens);
}

#[test]
fn zooming_out_to_minimum_unlocks_and_snaps() {
    let mut s = PickerState::new(100, 100);
    s.pointer_event(PointerInput::Scroll(Some(ZoomDirection::In)));
    s.pointer_event(PointerInput::Scroll(Some(ZoomDirection::In)));
    assert_eq!(s.zoom_scale, 35);
    let act = s.pointer_event(PointerInput::Scroll(Some(ZoomDirection::Out)));
    assert!(!act.snap_lens);
    assert_eq!(s.zoom_scale, 30);
    let act = s.pointer_event(PointerInput::Scroll(Some(ZoomDirection::Out)));
    assert!(act.snap_lens);
    assert!(!s.locked);
    assert_eq!(s.zoom_scale, MIN_ZOOM_SCALE);
    let act = s.pointer_event(PointerInput::Scroll(Some(ZoomDirection::Out)));
    assert!(act.snap_lens);
    assert_eq!(s.zoom_scale, MIN_ZOOM_SCALE);
}

#[test]
fn zoom_stops_at_maximum() {
    let mut s = PickerState::new(100, 100);
    for _ in 0..100 {
        s.pointer_event(PointerInput::Scroll(Some(ZoomDirection::In)));
    }
    assert_eq!(s.zoom_scale, MAX_ZOOM_SCALE);
    s.pointer_event(PointerInput::Scroll(Some(ZoomDirection::Out)));
    assert_eq!(s.zoom_scale, MAX_ZOOM_SCALE - 5);
}

#[test]
fn still_scroll_changes_nothing() {
    let mut s = PickerState::new(100, 100);
    let act = s.pointer_event(PointerInput::Scroll(None));
    assert!(!act.snap_lens);
    assert!(!s.needs_redraw);
    assert_eq!(s.zoom_scale, MIN_ZOOM_SCALE);
}

#[test]
fn scroll_direction_prefers_wheel_steps() {
    assert_eq!(scroll_direction(-1, SmoothScroll::Forward), Some(ZoomDirection::In));
    assert_eq!(scroll_direction(2, SmoothScroll::Backward), Some(ZoomDirection::Out));
    assert_eq!(scroll_direction(0, SmoothScroll::Backward), Some(ZoomDirection::In));
    assert_eq!(scroll_direction(0, SmoothScroll::Forward), Some(ZoomDirection::Out));
    assert_eq!(scroll_direction(0, SmoothScroll::Still), None);
}

#[test]
fn left_click_copies_drawn_colour_and_exits() {
    let mut s = PickerState::new(10, 10);
    assert!(s.begin_draw());
    s.finish_draw([1, 2, 3, 255]);
    assert!(s.frame_pending);
    let act = s.pointer_event(PointerInput::Press(BUTTON_LEFT));
    assert_eq!(act.copy, Some([1, 2, 3, 255]));
    assert!(s.exit);
}

#[test]
fn left_click_before_any_frame_copies_nothing() {
    let mut s = PickerState::new(10, 10);
    let act = s.pointer_event(PointerInput::Press(BUTTON_LEFT));
    assert_eq!(act.copy, None);
    assert!(s.exit);
}

#[test]
fn right_click_exits_without_copy() {
    let mut s = PickerState::new(10, 10);
    s.finish_draw([9, 9, 9, 255]);
    let act = s.pointer_event(PointerInput::Press(BUTTON_RIGHT));
    assert_eq!(act.copy, None);
    assert!(s.exit);
    let mut t = PickerState::new(10, 10);
    t.pointer_event(PointerInput::Press(0x112));
    assert!(!t.exit);
}

#[test]
fn redraw_waits_for_frame_callback() {
    let mut s = PickerState::new(10, 10);
    assert!(s.begin_draw());
    s.finish_draw([0, 0, 0, 255]);
    s.pointer_event(PointerInput::Motion);
    assert!(!s.should_draw());
    assert!(s.frame_done());
    assert!(s.should_draw());
    assert!(s.begin_draw());
    assert_eq!(s.frame_count, 2);
    assert!(!s.needs_redraw);
}

#[test]
fn empty_surface_is_not_rendered() {
    let mut s = PickerState::new(0, 10);
    assert!(!s.begin_draw());
    assert_eq!(s.frame_count, 1);
}

#[test]
fn configure_keeps_size_for_zero_and_draws_once() {
    let mut s = PickerState::new(800, 600);
    assert!(s.configure(0, 700));
    assert_eq!((s.width, s.height), (800, 700));
    assert!(!s.configure(1024, 0));
    assert_eq!((s.width, s.height), (1024, 700));
}

#[test]
fn escape_and_close_exit() {
    let mut s = PickerState::new(1, 1);
    s.key_pressed(false);
    assert!(!s.exit);
    s.key_pressed(true);
    assert!(s.exit);
    let mut t = PickerState::new(1, 1);
    t.closed();
    assert!(t.exit);
    t.keyboard_focus_changed(true);
    assert!(t.keyboard_focus);
}

#[test]
fn pool_size_formula() {
    assert_eq!(initial_pool_size(1920, 1080), 1920 * 1080 * 12);
    assert_eq!(initial_pool_size(10, 10), 256 * 256 * 4);
    assert_eq!(initial_pool_size(0, 0), 262144);
}
