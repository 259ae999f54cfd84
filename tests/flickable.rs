use winit_loop::flickable::{Flight, Viewport, DURATION_THRESHOLD, FLICK_DURATION, FORWARD_DELAY};
use winit_loop::{Flickable, InputEventFilterResult, InputEventResult, MouseEvent, Point, PointerEventButton};

fn press(x: i32, y: i32) -> MouseEvent {
    MouseEvent::Pressed { position: Point::new(x, y), button: PointerEventButton::Left }
}

fn release(x: i32, y: i32) -> MouseEvent {
    MouseEvent::Released { position: Point::new(x, y), button: PointerEventButton::Left }
}

fn moved(x: i32, y: i32) -> MouseEvent {
    MouseEvent::Moved { position: Point::new(x, y) }
}

/// A container of 100 x 300 over content of 100 x 400: 100 units to scroll vertically.
fn tall() -> Flickable {
    Flickable::new(100, 300, Viewport::new(100, 400))
}

#[test]
fn press_is_forwarded_with_delay() {
    let mut f = tall();
    assert_eq!(f.input_event_filter_before_children(press(10, 10), 0), InputEventFilterResult::DelayForwarding(FORWARD_DELAY));
    assert_eq!(FORWARD_DELAY, 100);
    assert!(!f.is_capturing());
}

#[test]
fn quick_drag_is_intercepted_and_clamped() {
    let mut f = tall();
    f.input_event_filter_before_children(press(10, 10), 0);
    assert_eq!(f.input_event_filter_before_children(moved(10, 200), 50), InputEventFilterResult::Intercept);
    assert_eq!(f.input_event(moved(10, 200), 50), InputEventResult::GrabMouse);
    // The content follows the pointer down: 0 + 190, clamped to 0.
    assert_eq!(f.viewport.y, 0);
    assert_eq!(f.viewport.x, 0);
    assert!(f.is_capturing());
}

#[test]
fn quick_drag_up_is_clamped_to_extra_height() {
    let mut f = tall();
    f.input_event_filter_before_children(press(10, 250), 0);
    assert_eq!(f.input_event_filter_before_children(moved(10, 60), 50), InputEventFilterResult::Intercept);
    assert_eq!(f.input_event(moved(10, 60), 50), InputEventResult::GrabMouse);
    // max(-100, 0 - 190)
    assert_eq!(f.viewport.y, -100);
}

#[test]
fn drag_within_bounds_follows_pointer() {
    let mut f = tall();
    f.input_event_filter_before_children(press(10, 100), 0);
    assert_eq!(f.input_event_filter_before_children(moved(10, 40), 20), InputEventFilterResult::Intercept);
    f.input_event(moved(10, 40), 20);
    assert_eq!(f.viewport.y, -60);
    // Dragging back past the start stops at zero.
    f.input_event(moved(10, 150), 30);
    assert_eq!(f.viewport.y, 0);
}

#[test]
fn move_along_fixed_axis_is_not_intercepted() {
    let mut f = tall();
    f.input_event_filter_before_children(press(10, 10), 0);
    // The content is as wide as the container: no horizontal scrolling.
    assert_eq!(f.input_event_filter_before_children(moved(60, 10), 10), InputEventFilterResult::ForwardAndInterceptGrab);
}

#[test]
fn short_move_is_not_intercepted() {
    let mut f = tall();
    f.input_event_filter_before_children(press(10, 10), 0);
    assert_eq!(f.input_event_filter_before_children(moved(10, 18), 10), InputEventFilterResult::ForwardAndInterceptGrab);
    assert_eq!(f.input_event_filter_before_children(moved(10, 19), 10), InputEventFilterResult::Intercept);
}

#[test]
fn late_move_is_not_intercepted() {
    let mut f = tall();
    f.input_event_filter_before_children(press(10, 10), 0);
    assert_eq!(f.input_event_filter_before_children(moved(10, 200), DURATION_THRESHOLD + 1), InputEventFilterResult::ForwardAndInterceptGrab);
    assert_eq!(f.input_event_filter_before_children(moved(10, 200), DURATION_THRESHOLD), InputEventFilterResult::Intercept);
}

#[test]
fn move_without_press_is_forwarded() {
    let mut f = tall();
    assert_eq!(f.input_event_filter_before_children(moved(10, 200), 0), InputEventFilterResult::ForwardEvent);
    assert_eq!(f.input_event(moved(10, 200), 0), InputEventResult::EventIgnored);
    assert_eq!(f.viewport.y, 0);
}

#[test]
fn wheel_is_dispatched_as_move_and_clamped() {
    let mut f = tall();
    let wheel = MouseEvent::Wheel { position: Point::new(5, 6), delta_x: -30, delta_y: -250 };
    assert_eq!(f.input_event_filter_before_children(wheel, 0), InputEventFilterResult::InterceptAndDispatch(moved(5, 6)));
    assert_eq!(f.input_event(wheel, 0), InputEventResult::EventAccepted);
    assert_eq!(f.viewport.y, -100);
    assert_eq!(f.viewport.x, 0);
    let up = MouseEvent::Wheel { position: Point::new(5, 6), delta_x: 0, delta_y: 40 };
    f.input_event(up, 0);
    assert_eq!(f.viewport.y, -60);
}

#[test]
fn flick_projects_and_clamps() {
    // 1000 units of content in a 300 unit container.
    let mut f = Flickable::new(100, 300, Viewport::new(100, 1000));
    f.input_event_filter_before_children(press(50, 250), 0);
    f.input_event(moved(50, 230), 50);
    assert_eq!(f.viewport.y, -20);
    // Drag of -40 over 100 ms: speed -0.4, 100 more units in the flight.
    assert_eq!(f.input_event_filter_before_children(release(50, 210), 100), InputEventFilterResult::Intercept);
    assert_eq!(f.viewport.flight, Some(Flight { target: Point::new(0, -140), duration: FLICK_DURATION }));
    assert_eq!(FLICK_DURATION, 250);
    assert!(!f.is_capturing());
}

#[test]
fn flick_target_is_clamped() {
    let mut f = tall();
    f.input_event_filter_before_children(press(50, 250), 0);
    f.input_event_filter_before_children(release(50, 150), 100);
    assert_eq!(f.viewport.flight, Some(Flight { target: Point::new(0, -100), duration: 250 }));
}

#[test]
fn slow_or_short_release_does_not_flick() {
    let mut f = tall();
    f.input_event_filter_before_children(press(50, 250), 0);
    assert_eq!(f.input_event_filter_before_children(release(50, 150), 1), InputEventFilterResult::ForwardEvent);
    assert_eq!(f.viewport.flight, None);
    f.input_event_filter_before_children(press(50, 250), 10);
    f.input_event_filter_before_children(release(50, 242), 200);
    assert_eq!(f.viewport.flight, None);
}

#[test]
fn other_buttons_are_ignored() {
    let mut f = tall();
    let right = MouseEvent::Pressed { position: Point::new(1, 1), button: PointerEventButton::Right };
    assert_eq!(f.input_event_filter_before_children(right, 0), InputEventFilterResult::ForwardAndIgnore);
}

#[test]
fn outside_events_are_intercepted_and_ignored() {
    let mut f = tall();
    assert_eq!(f.input_event_filter_before_children(press(-1, 10), 0), InputEventFilterResult::Intercept);
    assert_eq!(f.input_event(press(101, 10), 0), InputEventResult::EventIgnored);
    assert!(!f.is_capturing());
}

#[test]
fn non_interactive_only_scrolls_by_wheel() {
    let mut f = tall();
    f.interactive = false;
    assert_eq!(f.input_event_filter_before_children(press(10, 10), 0), InputEventFilterResult::ForwardAndIgnore);
    assert_eq!(f.input_event(press(10, 10), 0), InputEventResult::EventIgnored);
    let wheel = MouseEvent::Wheel { position: Point::new(5, 6), delta_x: 0, delta_y: -10 };
    assert_eq!(f.input_event(wheel, 0), InputEventResult::EventAccepted);
    assert_eq!(f.viewport.y, -10);
}

#[test]
fn handling_press_captures() {
    let mut f = tall();
    assert_eq!(f.input_event(press(10, 10), 0), InputEventResult::GrabMouse);
    assert!(f.is_capturing());
    assert_eq!(f.input_event_filter_before_children(press(10, 10), 5), InputEventFilterResult::Intercept);
    assert_eq!(f.input_event(MouseEvent::Exit, 6), InputEventResult::EventAccepted);
    assert!(!f.is_capturing());
}
