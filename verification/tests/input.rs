use gpu_life::frame::{Event, State, normalize_pointer};

fn as_fraction(num: i64, den: i64) -> f64 {
    num as f64 / den as f64
}

#[test]
fn pointer_normalization_center_bottom() {
    let p = normalize_pointer(512, 1024, 1024, 1024);
    assert_eq!(as_fraction(p.x_num, p.x_den), 0.5);
    assert_eq!(as_fraction(p.y_num, p.y_den), 0.0);
}

#[test]
fn pointer_normalization_origin_flips_to_top() {
    let p = normalize_pointer(0, 0, 1024, 1024);
    assert_eq!(as_fraction(p.x_num, p.x_den), 0.0);
    assert_eq!(as_fraction(p.y_num, p.y_den), 1.0);
}

#[test]
fn fresh_state_starts_at_frame_zero() {
    let s = State::new(1024, 768, 100, 200, false);
    assert_eq!(s.frame_index, 0);
    assert_eq!(s.time_ms, 0);
    assert_eq!(s.width, 1024);
    assert_eq!(s.height, 768);
    assert!(!s.pointer_pressed);
    assert_eq!(s.pointer.x_num, 100);
    assert_eq!(s.pointer.x_den, 1024);
    assert_eq!(s.pointer.y_num, 768 - 200);
    assert_eq!(s.pointer.y_den, 768);
}

#[test]
fn resize_updates_window_and_viewport() {
    let mut s = State::new(100, 100, 0, 0, false);
    let out = s.process_events(&vec![
        Event::Resize { width: 640, height: 480 },
        Event::Resize { width: 200, height: 100 },
    ]);
    assert_eq!(s.width, 200);
    assert_eq!(s.height, 100);
    assert_eq!(out.viewport, Some((200, 100)));
    assert!(!out.close_requested);
}

#[test]
fn cursor_move_uses_window_size_at_event_time() {
    let mut s = State::new(100, 100, 0, 0, false);
    s.process_events(&vec![
        Event::Resize { width: 200, height: 100 },
        Event::CursorMoved { x: 50, y: 25 },
    ]);
    assert_eq!(as_fraction(s.pointer.x_num, s.pointer.x_den), 0.25);
    assert_eq!(as_fraction(s.pointer.y_num, s.pointer.y_den), 0.75);
}

#[test]
fn primary_button_state_is_recorded() {
    let mut s = State::new(100, 100, 0, 0, false);
    s.process_events(&vec![Event::PrimaryButton { pressed: true }]);
    assert!(s.pointer_pressed);
    s.process_events(&vec![Event::PrimaryButton { pressed: false }]);
    assert!(!s.pointer_pressed);
}

#[test]
fn close_request_and_escape_are_reported() {
    let mut s = State::new(100, 100, 0, 0, false);
    let out = s.process_events(&vec![Event::CloseRequested]);
    assert!(out.close_requested);
    let out = s.process_events(&vec![Event::EscapePressed]);
    assert!(out.close_requested);
    let out = s.process_events(&vec![Event::Other]);
    assert!(!out.close_requested);
}

#[test]
fn cursor_move_with_degenerate_window_keeps_pointer() {
    let mut s = State::new(100, 100, 10, 10, false);
    let before = s.pointer;
    s.process_events(&vec![
        Event::Resize { width: 0, height: 0 },
        Event::CursorMoved { x: 5, y: 5 },
    ]);
    assert_eq!(s.pointer, before);
}

#[test]
fn update_time_sets_elapsed_time() {
    let mut s = State::new(100, 100, 0, 0, false);
    s.update_time(12345);
    assert_eq!(s.time_ms, 12345);
    assert_eq!(s.frame_index, 0);
}
