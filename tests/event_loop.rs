use winit_loop::channel::GlobalEventLoopProxyOrEventQueue;
use winit_loop::event_loop::{ControlFlow, EventLoopState};
use winit_loop::registry::WindowRegistry;
use winit_loop::{register_window, CustomEvent};

type Event = CustomEvent<u32>;

#[test]
fn queued_events_are_kept_until_bound() {
    let mut c: GlobalEventLoopProxyOrEventQueue<Event> = GlobalEventLoopProxyOrEventQueue::new();
    assert!(c.send_event(CustomEvent::UpdateWindowProperties(1)).is_ok());
    assert!(c.send_event(CustomEvent::UserEvent(5)).is_ok());
    assert!(c.send_event(CustomEvent::Exit).is_ok());
    assert_eq!(c.queued_len(), 3);
    assert!(!c.is_live());
}

#[test]
fn property_updates_are_batched_per_window() {
    let mut s = EventLoopState::new(true);
    let windows: WindowRegistry<()> = WindowRegistry::new();
    for id in [9u64, 2, 9, 2, 5] {
        assert!(s.custom_event(CustomEvent::<u32>::UpdateWindowProperties(id), &windows).is_none());
    }
    assert_eq!(s.main_events_cleared(), vec![2, 5, 9]);
    assert_eq!(s.main_events_cleared(), Vec::<u64>::new());
    assert_eq!(s.control_flow, ControlFlow::Wait);
}

#[test]
fn user_event_hands_back_closure() {
    let mut s = EventLoopState::new(true);
    let windows: WindowRegistry<()> = WindowRegistry::new();
    assert_eq!(s.custom_event(CustomEvent::UserEvent(42u32), &windows), Some(42));
    assert_eq!(s.control_flow, ControlFlow::Wait);
}

#[test]
fn last_hidden_window_ends_loop_by_policy() {
    let windows: WindowRegistry<()> = WindowRegistry::new();
    let mut s = EventLoopState::new(true);
    s.custom_event(CustomEvent::<u32>::WindowHidden, &windows);
    assert_eq!(s.control_flow, ControlFlow::Exit);

    let mut s = EventLoopState::new(false);
    s.custom_event(CustomEvent::<u32>::WindowHidden, &windows);
    assert_eq!(s.control_flow, ControlFlow::Wait);

    let mut open: WindowRegistry<()> = WindowRegistry::new();
    register_window(&mut open, 3, ());
    let mut s = EventLoopState::new(true);
    s.custom_event(CustomEvent::<u32>::WindowHidden, &open);
    assert_eq!(s.control_flow, ControlFlow::Wait);
    s.custom_event(CustomEvent::<u32>::Exit, &open);
    assert_eq!(s.control_flow, ControlFlow::Exit);
}

#[test]
fn redraws_not_serviced_natively_are_drawn_at_the_end() {
    let mut s = EventLoopState::new(true);
    s.new_events(&vec![4, 1, 4, 8]);
    s.redraw_requested(4);
    s.drawn(false);
    assert_eq!(s.control_flow, ControlFlow::Wait);
    assert_eq!(s.redraw_events_cleared(false), vec![1, 8]);
    assert_eq!(s.control_flow, ControlFlow::Wait);
    s.schedule_wake(1000, Some(16));
    assert_eq!(s.control_flow, ControlFlow::WaitUntil(1016));
}

#[test]
fn redraw_during_draw_or_animation_polls() {
    let mut s = EventLoopState::new(true);
    s.new_events(&vec![]);
    s.drawn(true);
    assert_eq!(s.control_flow, ControlFlow::Poll);
    s.schedule_wake(0, Some(5));
    assert_eq!(s.control_flow, ControlFlow::Poll);

    s.new_events(&vec![]);
    assert_eq!(s.control_flow, ControlFlow::Wait);
    assert!(s.redraw_events_cleared(true).is_empty());
    assert_eq!(s.control_flow, ControlFlow::Poll);
}

#[test]
fn exiting_loop_does_not_poll() {
    let windows: WindowRegistry<()> = WindowRegistry::new();
    let mut s = EventLoopState::new(true);
    s.new_events(&vec![2]);
    s.custom_event(CustomEvent::<u32>::Exit, &windows);
    assert_eq!(s.redraw_events_cleared(true), vec![2]);
    assert_eq!(s.control_flow, ControlFlow::Exit);
    s.schedule_wake(0, Some(5));
    assert_eq!(s.control_flow, ControlFlow::Exit);
}

#[test]
fn exit_survives_redraw_during_draw() {
    let windows: WindowRegistry<()> = WindowRegistry::new();
    let mut s = EventLoopState::new(true);
    s.new_events(&vec![1]);
    s.custom_event(CustomEvent::<u32>::WindowHidden, &windows);
    assert_eq!(s.control_flow, ControlFlow::Exit);
    s.redraw_requested(1);
    s.drawn(true);
    assert_eq!(s.control_flow, ControlFlow::Exit);
    assert!(s.redraw_events_cleared(true).is_empty());
    s.drawn(true);
    assert_eq!(s.control_flow, ControlFlow::Exit);
}

#[test]
fn idle_loop_without_timer_waits() {
    let mut s = EventLoopState::new(true);
    s.new_events(&vec![]);
    s.schedule_wake(10, None);
    assert_eq!(s.control_flow, ControlFlow::Wait);
}
