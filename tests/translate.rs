use winit::event::VirtualKeyCode;
use winit_loop::keys::{is_control, winit_key_code_to_string};
use winit_loop::translate::{
    map_modifiers, ElementState, ModifierLayout, ModifiersState, ScrollDelta, TouchPhase,
    TranslationSettings, WindowCall, WindowEvent, WindowInputState, BACKTAB,
};
use winit_loop::{process_window_event, KeyEventType, KeyboardModifiers, MouseEvent, Point, PointerEventButton};

fn settings() -> TranslationSettings {
    TranslationSettings { modifier_layout: ModifierLayout::Standard, scale_factor_override: false }
}

fn window() -> WindowInputState {
    WindowInputState {
        pressed_key: None,
        modifiers: KeyboardModifiers::default(),
        active: false,
        input_method_focused: false,
    }
}

fn shift() -> KeyboardModifiers {
    KeyboardModifiers { shift: true, ..KeyboardModifiers::default() }
}

fn run(w: &mut WindowInputState, event: WindowEvent) -> Vec<WindowCall> {
    let mut cursor = Point::new(0, 0);
    let mut pressed = false;
    process_window_event(w, &settings(), event, &mut cursor, &mut pressed)
}

fn key_texts(calls: &[WindowCall]) -> Vec<(KeyEventType, String)> {
    calls
        .iter()
        .map(|c| match c {
            WindowCall::ProcessKeyInput(e) => (e.event_type, e.text.clone()),
            _ => panic!("not a key event"),
        })
        .collect()
}

#[test]
fn control_character_without_key_is_dropped() {
    let mut w = window();
    assert!(run(&mut w, WindowEvent::ReceivedCharacter('\u{3}')).is_empty());
}

#[test]
fn control_character_uses_last_key() {
    let mut w = window();
    w.pressed_key = Some(VirtualKeyCode::C);
    w.modifiers.control = true;
    let calls = run(&mut w, WindowEvent::ReceivedCharacter('\u{3}'));
    assert_eq!(
        key_texts(&calls),
        vec![(KeyEventType::KeyPressed, "c".to_string()), (KeyEventType::KeyReleased, "c".to_string())]
    );
    assert_eq!(w.pressed_key, None);
    // The key was used: a second control character has nothing to stand for.
    assert!(run(&mut w, WindowEvent::ReceivedCharacter('\u{3}')).is_empty());
}

#[test]
fn control_character_of_control_key_is_dropped() {
    let mut w = window();
    w.pressed_key = Some(VirtualKeyCode::Tab);
    assert!(run(&mut w, WindowEvent::ReceivedCharacter('\t')).is_empty());
    w.pressed_key = Some(VirtualKeyCode::F1);
    assert!(run(&mut w, WindowEvent::ReceivedCharacter('\u{1b}')).is_empty());
}

#[test]
fn plain_character_is_a_key_stroke() {
    let mut w = window();
    w.pressed_key = Some(VirtualKeyCode::A);
    let calls = run(&mut w, WindowEvent::ReceivedCharacter('é'));
    assert_eq!(
        key_texts(&calls),
        vec![(KeyEventType::KeyPressed, "é".to_string()), (KeyEventType::KeyReleased, "é".to_string())]
    );
    assert_eq!(w.pressed_key, Some(VirtualKeyCode::A));
}

#[test]
fn shift_tab_key_is_backtab() {
    let mut w = window();
    w.modifiers = shift();
    let calls = run(
        &mut w,
        WindowEvent::KeyboardInput { state: ElementState::Pressed, key: Some(VirtualKeyCode::Tab), text: Some("\t".to_string()) },
    );
    assert_eq!(key_texts(&calls), vec![(KeyEventType::KeyPressed, BACKTAB.to_string())]);
    assert_eq!(BACKTAB, '\u{19}');
    assert_eq!(w.pressed_key, Some(VirtualKeyCode::Tab));
    let calls = run(
        &mut w,
        WindowEvent::KeyboardInput { state: ElementState::Released, key: Some(VirtualKeyCode::Tab), text: Some("\t".to_string()) },
    );
    assert_eq!(key_texts(&calls), vec![(KeyEventType::KeyReleased, "\u{19}".to_string())]);
    assert_eq!(w.pressed_key, None);
}

#[test]
fn shift_tab_commit_is_backtab() {
    let mut w = window();
    w.modifiers = shift();
    let calls = run(&mut w, WindowEvent::ImeCommit("\t".to_string()));
    assert_eq!(
        key_texts(&calls),
        vec![(KeyEventType::KeyPressed, "\u{19}".to_string()), (KeyEventType::KeyReleased, "\u{19}".to_string())]
    );
}

#[test]
fn tab_without_shift_stays_tab() {
    let mut w = window();
    let calls = run(&mut w, WindowEvent::ImeCommit("\t".to_string()));
    assert_eq!(key_texts(&calls)[0].1, "\t");
    let calls = run(&mut w, WindowEvent::ImeCommit("ab".to_string()));
    assert_eq!(key_texts(&calls)[1], (KeyEventType::KeyReleased, "ab".to_string()));
}

#[test]
fn key_without_text_makes_no_call() {
    let mut w = window();
    let calls = run(&mut w, WindowEvent::KeyboardInput { state: ElementState::Pressed, key: Some(VirtualKeyCode::A), text: None });
    assert!(calls.is_empty());
    assert_eq!(w.pressed_key, Some(VirtualKeyCode::A));
}

#[test]
fn focus_counts_input_method_and_changes_only() {
    let mut w = window();
    let calls = run(&mut w, WindowEvent::Focused(true));
    assert!(matches!(calls.as_slice(), [WindowCall::SetActive(true), WindowCall::SetFocus(true)]));
    assert!(w.active);
    assert!(run(&mut w, WindowEvent::Focused(true)).is_empty());
    w.input_method_focused = true;
    assert!(run(&mut w, WindowEvent::Focused(false)).is_empty());
    w.input_method_focused = false;
    let calls = run(&mut w, WindowEvent::Focused(false));
    assert!(matches!(calls.as_slice(), [WindowCall::SetActive(false), WindowCall::SetFocus(false)]));
}

#[test]
fn modifiers_follow_the_layout() {
    let state = ModifiersState { shift: false, ctrl: true, alt: true, logo: false };
    let std = map_modifiers(state, ModifierLayout::Standard);
    assert_eq!(std, KeyboardModifiers { alt: true, control: true, meta: false, shift: false });
    let mac = map_modifiers(state, ModifierLayout::CommandAsControl);
    assert_eq!(mac, KeyboardModifiers { alt: true, control: false, meta: true, shift: false });
    let mut w = window();
    let s = TranslationSettings { modifier_layout: ModifierLayout::CommandAsControl, scale_factor_override: false };
    let (mut c, mut p) = (Point::new(0, 0), false);
    let calls = process_window_event(&mut w, &s, WindowEvent::ModifiersChanged(ModifiersState { shift: true, ctrl: false, alt: false, logo: true }), &mut c, &mut p);
    assert!(calls.is_empty());
    assert_eq!(w.modifiers, KeyboardModifiers { alt: false, control: true, meta: false, shift: true });
}

#[test]
fn pointer_events_use_last_cursor() {
    let mut w = window();
    let (mut cursor, mut pressed) = (Point::new(0, 0), false);
    let s = settings();
    let calls = process_window_event(&mut w, &s, WindowEvent::CursorMoved { position: Point::new(3, 4) }, &mut cursor, &mut pressed);
    assert!(matches!(calls.as_slice(), [WindowCall::ProcessMouseInput(MouseEvent::Moved { position })] if *position == Point::new(3, 4)));
    let calls = process_window_event(&mut w, &s, WindowEvent::MouseInput { state: ElementState::Pressed, button: PointerEventButton::Left }, &mut cursor, &mut pressed);
    assert!(matches!(calls.as_slice(), [WindowCall::ProcessMouseInput(MouseEvent::Pressed { position, button: PointerEventButton::Left })] if *position == Point::new(3, 4)));
    assert!(pressed);
    // Leaving while pressed keeps the press.
    assert!(process_window_event(&mut w, &s, WindowEvent::CursorLeft, &mut cursor, &mut pressed).is_empty());
    process_window_event(&mut w, &s, WindowEvent::MouseInput { state: ElementState::Released, button: PointerEventButton::Left }, &mut cursor, &mut pressed);
    assert!(!pressed);
    let calls = process_window_event(&mut w, &s, WindowEvent::CursorLeft, &mut cursor, &mut pressed);
    assert!(matches!(calls.as_slice(), [WindowCall::ProcessMouseInput(MouseEvent::Exit)]));
}

#[test]
fn wheel_lines_are_sixty_pixels() {
    let mut w = window();
    let (mut cursor, mut pressed) = (Point::new(7, 8), false);
    let calls = process_window_event(&mut w, &settings(), WindowEvent::MouseWheel(ScrollDelta::LineDelta { x: -1500, y: 1000 }), &mut cursor, &mut pressed);
    assert!(matches!(calls.as_slice(), [WindowCall::ProcessMouseInput(MouseEvent::Wheel { position, delta_x: -90, delta_y: 60 })] if *position == Point::new(7, 8)));
    let calls = process_window_event(&mut w, &settings(), WindowEvent::MouseWheel(ScrollDelta::PixelDelta { x: 3, y: -4 }), &mut cursor, &mut pressed);
    assert!(matches!(calls.as_slice(), [WindowCall::ProcessMouseInput(MouseEvent::Wheel { delta_x: 3, delta_y: -4, .. })]));
}

#[test]
fn touch_is_left_button() {
    let mut w = window();
    let (mut cursor, mut pressed) = (Point::new(0, 0), false);
    let s = settings();
    let calls = process_window_event(&mut w, &s, WindowEvent::Touch { phase: TouchPhase::Started, position: Point::new(1, 2) }, &mut cursor, &mut pressed);
    assert!(matches!(calls.as_slice(), [WindowCall::ProcessMouseInput(MouseEvent::Pressed { button: PointerEventButton::Left, .. })]));
    assert!(pressed);
    let calls = process_window_event(&mut w, &s, WindowEvent::Touch { phase: TouchPhase::Cancelled, position: Point::new(1, 2) }, &mut cursor, &mut pressed);
    assert!(matches!(calls.as_slice(), [WindowCall::ProcessMouseInput(MouseEvent::Released { button: PointerEventButton::Left, .. })]));
    assert!(!pressed);
    assert_eq!(cursor, Point::new(0, 0));
}

#[test]
fn scale_factor_override_suppresses_update() {
    let mut w = window();
    let (mut cursor, mut pressed) = (Point::new(0, 0), false);
    let calls = process_window_event(&mut w, &settings(), WindowEvent::ScaleFactorChanged, &mut cursor, &mut pressed);
    assert!(matches!(calls.as_slice(), [WindowCall::ApplyScaleFactor]));
    let s = TranslationSettings { modifier_layout: ModifierLayout::Standard, scale_factor_override: true };
    assert!(process_window_event(&mut w, &s, WindowEvent::ScaleFactorChanged, &mut cursor, &mut pressed).is_empty());
}

#[test]
fn resize_and_close_are_passed_on() {
    let mut w = window();
    assert!(matches!(run(&mut w, WindowEvent::Resized { width: 640, height: 480 }).as_slice(), [WindowCall::Resize { width: 640, height: 480 }]));
    assert!(matches!(run(&mut w, WindowEvent::CloseRequested).as_slice(), [WindowCall::RequestClose]));
    assert!(run(&mut w, WindowEvent::Other).is_empty());
}

#[test]
fn key_code_table() {
    assert_eq!(winit_key_code_to_string(VirtualKeyCode::C), Some('c'));
    assert_eq!(winit_key_code_to_string(VirtualKeyCode::Key0), Some('0'));
    assert_eq!(winit_key_code_to_string(VirtualKeyCode::Backslash), Some('\\'));
    assert_eq!(winit_key_code_to_string(VirtualKeyCode::Apostrophe), Some('\''));
    assert_eq!(winit_key_code_to_string(VirtualKeyCode::Tab), Some('\t'));
    assert_eq!(winit_key_code_to_string(VirtualKeyCode::F1), None);
    assert!(is_control('\u{0}') && is_control('\u{7f}') && is_control('\u{9f}'));
    assert!(!is_control(' ') && !is_control('\u{a0}'));
}
