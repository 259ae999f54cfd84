//! Translation of one window event of the windowing system into the calls it
//! makes on the window's input pipeline. Positions and sizes arrive already
//! in logical units.
use vstd::prelude::*;
use vstd::string::*;

use winit::event::VirtualKeyCode;

use crate::input::{KeyEvent, KeyEventType, KeyboardModifiers, MouseEvent, Point, PointerEventButton};
use crate::keys::{is_control, key_code_char, winit_key_code_to_string};

verus! {

/// The text of the Tab key.
pub const TAB: char = '\u{9}';

/// The text of Shift+Tab.
pub const BACKTAB: char = '\u{19}';

/// Pixels scrolled per line of a wheel.
pub const LINE_PIXELS: i64 = 60;

/// Relies on std's `From<char> for String`: the string of that one character.
#[verifier::external_body]
fn char_to_string(c: char) -> (r: String)
    ensures
        r@ == seq![c],
{
    String::from(c)
}

/// Whether a key or button went down or up.
#[derive(Clone, Copy, Debug, PartialEq, Eq, Structural)]
pub enum ElementState {
    Pressed,
    Released,
}

/// The modifier keys as the windowing system names them.
#[derive(Clone, Copy, Debug, PartialEq, Eq, Structural)]
pub struct ModifiersState {
    pub shift: bool,
    pub ctrl: bool,
    pub alt: bool,
    /// The Windows, Command or Super key.
    pub logo: bool,
}

/// How the platform's modifier keys map onto the toolkit's.
#[derive(Clone, Copy, Debug, PartialEq, Eq, Structural)]
pub enum ModifierLayout {
    /// Control is control and the logo key is meta.
    Standard,
    /// As on macOS: Command is control and Control is meta.
    CommandAsControl,
}

/// How far a wheel turned.
#[derive(Clone, Copy, Debug, PartialEq, Eq, Structural)]
pub enum ScrollDelta {
    /// In thousandths of a line.
    LineDelta { x: i32, y: i32 },
    /// In logical pixels.
    PixelDelta { x: i32, y: i32 },
}

/// The phase of a touch.
#[derive(Clone, Copy, Debug, PartialEq, Eq, Structural)]
pub enum TouchPhase {
    Started,
    Moved,
    Ended,
    Cancelled,
}

/// A window event of the windowing system, in logical units.
pub enum WindowEvent {
    Resized { width: u32, height: u32 },
    CloseRequested,
    ReceivedCharacter(char),
    Focused(bool),
    /// `text` is what the key stands for when it has a text of its own.
    KeyboardInput { state: ElementState, key: Option<VirtualKeyCode>, text: Option<String> },
    ImeCommit(String),
    ModifiersChanged(ModifiersState),
    CursorMoved { position: Point },
    CursorLeft,
    MouseWheel(ScrollDelta),
    MouseInput { state: ElementState, button: PointerEventButton },
    Touch { phase: TouchPhase, position: Point },
    ScaleFactorChanged,
    Other,
}

/// A call on the window or on its input pipeline.
pub enum WindowCall {
    /// The window was resized to the given physical size.
    Resize { width: u32, height: u32 },
    /// Ask the window whether it agrees to close, and hide it if it does.
    RequestClose,
    ProcessKeyInput(KeyEvent),
    SetActive(bool),
    SetFocus(bool),
    ProcessMouseInput(MouseEvent),
    /// Take over the new scale factor and the geometry that goes with it.
    ApplyScaleFactor,
}

/// What the translation keeps per window, and reads of the window.
#[derive(Clone, Copy, Debug)]
pub struct WindowInputState {
    /// The key last pressed, until it is released or used.
    pub pressed_key: Option<VirtualKeyCode>,
    pub modifiers: KeyboardModifiers,
    /// Whether the window is active (and focused).
    pub active: bool,
    /// Whether the proxy element of the input method holds the focus.
    pub input_method_focused: bool,
}

/// Settings of the platform that the translation follows.
#[derive(Clone, Copy, Debug, PartialEq, Eq, Structural)]
pub struct TranslationSettings {
    pub modifier_layout: ModifierLayout,
    /// Set when the scale factor is fixed by the environment: changes of
    /// the platform's scale factor are then ignored.
    pub scale_factor_override: bool,
}

// ---------------------------------------------------------------------------
// The model

/// The text of a key event: Shift+Tab is Backtab.
pub open spec fn key_text(text: Seq<char>, m: KeyboardModifiers) -> Seq<char> {
    if text == seq![TAB] && m.shift {
        seq![BACKTAB]
    } else {
        text
    }
}

pub open spec fn is_key_call(c: WindowCall, t: KeyEventType, text: Seq<char>, m: KeyboardModifiers) -> bool {
    match c {
        WindowCall::ProcessKeyInput(e) => e.event_type == t && e.text@ == key_text(text, m)
            && e.modifiers == m,
        _ => false,
    }
}

/// A press and a release of `text`.
pub open spec fn is_key_stroke(calls: Seq<WindowCall>, text: Seq<char>, m: KeyboardModifiers) -> bool {
    &&& calls.len() == 2
    &&& is_key_call(calls[0], KeyEventType::KeyPressed, text, m)
    &&& is_key_call(calls[1], KeyEventType::KeyReleased, text, m)
}

/// Whether `c` hands the pipeline a literal tab while shift is held.
pub open spec fn is_shift_tab(c: WindowCall) -> bool {
    match c {
        WindowCall::ProcessKeyInput(e) => e.modifiers.shift && e.text@ == seq![TAB],
        _ => false,
    }
}

/// No call in `calls` hands the pipeline a literal tab while shift is held.
pub open spec fn no_shift_tab(calls: Seq<WindowCall>) -> bool {
    forall|i: int| 0 <= i < calls.len() ==> !is_shift_tab(#[trigger] calls[i])
}

/// The text of a received character: a control character stands for the
/// last pressed key, when that key has a character that is no control
/// character itself.
pub open spec fn received_text(ch: char, pressed_key: Option<VirtualKeyCode>) -> Option<Seq<char>> {
    if is_control(ch) {
        match pressed_key {
            Some(k) => match key_code_char(k) {
                Some(c) => if is_control(c) {
                    None
                } else {
                    Some(seq![c])
                },
                None => None,
            },
            None => None,
        }
    } else {
        Some(seq![ch])
    }
}

pub open spec fn mapped_modifiers(s: ModifiersState, layout: ModifierLayout) -> KeyboardModifiers {
    match layout {
        ModifierLayout::Standard => KeyboardModifiers {
            alt: s.alt,
            control: s.ctrl,
            meta: s.logo,
            shift: s.shift,
        },
        ModifierLayout::CommandAsControl => KeyboardModifiers {
            alt: s.alt,
            control: s.logo,
            meta: s.ctrl,
            shift: s.shift,
        },
    }
}

/// Thousandths of a line in pixels, rounded toward zero.
pub open spec fn line_pixels(millis: int) -> int {
    if millis >= 0 {
        millis * LINE_PIXELS / 1000
    } else {
        -((-millis) * LINE_PIXELS / 1000)
    }
}

pub open spec fn wheel_delta(d: ScrollDelta) -> (int, int) {
    match d {
        ScrollDelta::LineDelta { x, y } => (line_pixels(x as int), line_pixels(y as int)),
        ScrollDelta::PixelDelta { x, y } => (x as int, y as int),
    }
}

// ---------------------------------------------------------------------------
// The code

/// A key event for the pipeline; Shift+Tab becomes Backtab.
fn key_event(event_type: KeyEventType, text: String, modifiers: KeyboardModifiers) -> (r: KeyEvent)
    ensures
        r.event_type == event_type,
        r.text@ == key_text(text@, modifiers),
        r.modifiers == modifiers,
        !is_shift_tab(WindowCall::ProcessKeyInput(r)),
{
    let is_tab = text.as_str().unicode_len() == 1 && text.as_str().get_char(0) == TAB;
    proof {
        if text@ == seq![TAB] {
            assert(text@.len() == 1 && text@[0] == TAB);
        }
        if is_tab {
            assert(text@ =~= seq![TAB]);
        }
    }
    if is_tab && modifiers.shift {
        KeyEvent { event_type, text: char_to_string(BACKTAB), modifiers }
    } else {
        KeyEvent { event_type, text, modifiers }
    }
}

/// A press and a release of `text`.
fn key_stroke(text: String, modifiers: KeyboardModifiers) -> (r: Vec<WindowCall>)
    ensures
        is_key_stroke(r@, text@, modifiers),
        no_shift_tab(r@),
{
    let pressed = key_event(KeyEventType::KeyPressed, text, modifiers);
    let released = KeyEvent {
        event_type: KeyEventType::KeyReleased,
        text: pressed.text.clone(),
        modifiers,
    };
    let mut calls: Vec<WindowCall> = Vec::new();
    calls.push(WindowCall::ProcessKeyInput(pressed));
    calls.push(WindowCall::ProcessKeyInput(released));
    proof {
        assert(calls@ =~= seq![calls@[0], calls@[1]]);
    }
    calls
}

/// The modifier state in the toolkit's terms.
pub fn map_modifiers(state: ModifiersState, layout: ModifierLayout) -> (r: KeyboardModifiers)
    ensures
        r == mapped_modifiers(state, layout),
{
    let (control, meta) = match layout {
        ModifierLayout::Standard => (state.ctrl, state.logo),
        ModifierLayout::CommandAsControl => (state.logo, state.ctrl),
    };
    KeyboardModifiers { alt: state.alt, control, meta, shift: state.shift }
}

fn line_delta_pixels(millis: i32) -> (r: i32)
    ensures
        r == line_pixels(millis as int),
{
    let magnitude: i64 = if millis >= 0 {
        millis as i64
    } else {
        -(millis as i64)
    };
    let p: i64 = magnitude * LINE_PIXELS / 1000;
    if millis >= 0 {
        p as i32
    } else {
        -p as i32
    }
}

fn one_call(c: WindowCall) -> (r: Vec<WindowCall>)
    ensures
        r@ == seq![c],
        !is_shift_tab(c) ==> no_shift_tab(r@),
{
    let mut calls: Vec<WindowCall> = Vec::new();
    calls.push(c);
    proof {
        assert(calls@ =~= seq![c]);
    }
    calls
}

fn no_call() -> (r: Vec<WindowCall>)
    ensures
        r@.len() == 0,
        no_shift_tab(r@),
{
    Vec::new()
}

/// Translates `event` for a window in the state `window`. `cursor_pos` and
/// `pressed` are the last pointer position and whether a button or touch is
/// down; they are shared by all windows of the loop.
pub fn process_window_event(
    window: &mut WindowInputState,
    settings: &TranslationSettings,
    event: WindowEvent,
    cursor_pos: &mut Point,
    pressed: &mut bool,
) -> (r: Vec<WindowCall>)
    ensures
        no_shift_tab(r@),
        final(window).active == old(window).active || event is Focused,
        final(window).input_method_focused == old(window).input_method_focused,
        match event {
            WindowEvent::Resized { width, height } => {
                &&& r@ == seq![WindowCall::Resize { width, height }]
                &&& *final(window) == *old(window)
                &&& *final(cursor_pos) == *old(cursor_pos) && *final(pressed) == *old(pressed)
            },
            WindowEvent::CloseRequested => {
                &&& r@ == seq![WindowCall::RequestClose]
                &&& *final(window) == *old(window)
                &&& *final(cursor_pos) == *old(cursor_pos) && *final(pressed) == *old(pressed)
            },
            WindowEvent::ReceivedCharacter(ch) => {
                &&& match received_text(ch, old(window).pressed_key) {
                    Some(text) => is_key_stroke(r@, text, old(window).modifiers),
                    None => r@.len() == 0,
                }
                &&& *final(window) == (WindowInputState {
                    pressed_key: if is_control(ch) {
                        None
                    } else {
                        old(window).pressed_key
                    },
                    ..*old(window)
                })
                &&& *final(cursor_pos) == *old(cursor_pos) && *final(pressed) == *old(pressed)
            },
            WindowEvent::Focused(focused) => {
                let have_focus = focused || old(window).input_method_focused;
                &&& if have_focus != old(window).active {
                    &&& r@ == seq![WindowCall::SetActive(have_focus), WindowCall::SetFocus(have_focus)]
                    &&& *final(window) == (WindowInputState { active: have_focus, ..*old(window) })
                } else {
                    r@.len() == 0 && *final(window) == *old(window)
                }
                &&& *final(cursor_pos) == *old(cursor_pos) && *final(pressed) == *old(pressed)
            },
            WindowEvent::KeyboardInput { state, key, text } => {
                &&& match text {
                    Some(t) => r@.len() == 1 && is_key_call(
                        r@[0],
                        if state == ElementState::Pressed {
                            KeyEventType::KeyPressed
                        } else {
                            KeyEventType::KeyReleased
                        },
                        t@,
                        old(window).modifiers,
                    ),
                    None => r@.len() == 0,
                }
                &&& *final(window) == (WindowInputState {
                    pressed_key: if state == ElementState::Pressed {
                        key
                    } else {
                        None
                    },
                    ..*old(window)
                })
                &&& *final(cursor_pos) == *old(cursor_pos) && *final(pressed) == *old(pressed)
            },
            WindowEvent::ImeCommit(text) => {
                &&& is_key_stroke(r@, text@, old(window).modifiers)
                &&& *final(window) == *old(window)
                &&& *final(cursor_pos) == *old(cursor_pos) && *final(pressed) == *old(pressed)
            },
            WindowEvent::ModifiersChanged(state) => {
                &&& r@.len() == 0
                &&& *final(window) == (WindowInputState {
                    modifiers: mapped_modifiers(state, settings.modifier_layout),
                    ..*old(window)
                })
                &&& *final(cursor_pos) == *old(cursor_pos) && *final(pressed) == *old(pressed)
            },
            WindowEvent::CursorMoved { position } => {
                &&& r@ == seq![WindowCall::ProcessMouseInput(MouseEvent::Moved { position })]
                &&& *final(window) == *old(window)
                &&& *final(cursor_pos) == position && *final(pressed) == *old(pressed)
            },
            WindowEvent::CursorLeft => {
                &&& r@ == if *old(pressed) {
                    Seq::<WindowCall>::empty()
                } else {
                    seq![WindowCall::ProcessMouseInput(MouseEvent::Exit)]
                }
                &&& *final(window) == *old(window)
                &&& *final(cursor_pos) == *old(cursor_pos) && *final(pressed) == *old(pressed)
            },
            WindowEvent::MouseWheel(delta) => {
                &&& r@ == seq![
                    WindowCall::ProcessMouseInput(
                        MouseEvent::Wheel {
                            position: *old(cursor_pos),
                            delta_x: wheel_delta(delta).0 as i32,
                            delta_y: wheel_delta(delta).1 as i32,
                        },
                    ),
                ]
                &&& *final(window) == *old(window)
                &&& *final(cursor_pos) == *old(cursor_pos) && *final(pressed) == *old(pressed)
            },
            WindowEvent::MouseInput { state, button } => {
                &&& r@ == seq![
                    WindowCall::ProcessMouseInput(
                        if state == ElementState::Pressed {
                            MouseEvent::Pressed { position: *old(cursor_pos), button }
                        } else {
                            MouseEvent::Released { position: *old(cursor_pos), button }
                        },
                    ),
                ]
                &&& *final(window) == *old(window)
                &&& *final(cursor_pos) == *old(cursor_pos)
                &&& *final(pressed) == (state == ElementState::Pressed)
            },
            WindowEvent::Touch { phase, position } => {
                &&& r@ == seq![
                    WindowCall::ProcessMouseInput(
                        match phase {
                            TouchPhase::Started => MouseEvent::Pressed {
                                position,
                                button: PointerEventButton::Left,
                            },
                            TouchPhase::Moved => MouseEvent::Moved { position },
                            _ => MouseEvent::Released { position, button: PointerEventButton::Left },
                        },
                    ),
                ]
                &&& *final(window) == *old(window)
                &&& *final(cursor_pos) == *old(cursor_pos)
                &&& *final(pressed) == match phase {
                    TouchPhase::Started => true,
                    TouchPhase::Moved => *old(pressed),
                    _ => false,
                }
            },
            WindowEvent::ScaleFactorChanged => {
                &&& r@ == if settings.scale_factor_override {
                    Seq::<WindowCall>::empty()
                } else {
                    seq![WindowCall::ApplyScaleFactor]
                }
                &&& *final(window) == *old(window)
                &&& *final(cursor_pos) == *old(cursor_pos) && *final(pressed) == *old(pressed)
            },
            WindowEvent::Other => {
                &&& r@.len() == 0
                &&& *final(window) == *old(window)
                &&& *final(cursor_pos) == *old(cursor_pos) && *final(pressed) == *old(pressed)
            },
        },
{
    match event {
        WindowEvent::Resized { width, height } => one_call(WindowCall::Resize { width, height }),
        WindowEvent::CloseRequested => one_call(WindowCall::RequestClose),
        WindowEvent::ReceivedCharacter(ch) => {
            // After a key press such as Ctrl+C some platforms report a control
            // character. That key event was already delivered; use the text
            // of the key itself instead, unless it is a control key too.
            let text: Option<String> = if is_control(ch) {
                let key = window.pressed_key;
                window.pressed_key = None;
                match key {
                    Some(k) => match winit_key_code_to_string(k) {
                        Some(c) => if is_control(c) {
                            None
                        } else {
                            Some(char_to_string(c))
                        },
                        None => None,
                    },
                    None => None,
                }
            } else {
                Some(char_to_string(ch))
            };
            match text {
                Some(text) => key_stroke(text, window.modifiers),
                None => no_call(),
            }
        },
        WindowEvent::Focused(have_focus) => {
            let have_focus = have_focus || window.input_method_focused;
            // Popups are no windows of their own: being focused is being
            // active.
            if have_focus != window.active {
                window.active = have_focus;
                let mut calls = one_call(WindowCall::SetActive(have_focus));
                calls.push(WindowCall::SetFocus(have_focus));
                proof {
                    assert(calls@ =~= seq![WindowCall::SetActive(have_focus), WindowCall::SetFocus(have_focus)]);
                }
                calls
            } else {
                no_call()
            }
        },
        WindowEvent::KeyboardInput { state, key, text } => {
            window.pressed_key = match state {
                ElementState::Pressed => key,
                ElementState::Released => None,
            };
            match text {
                Some(text) => {
                    let event_type = match state {
                        ElementState::Pressed => KeyEventType::KeyPressed,
                        ElementState::Released => KeyEventType::KeyReleased,
                    };
                    one_call(WindowCall::ProcessKeyInput(key_event(event_type, text, window.modifiers)))
                },
                None => no_call(),
            }
        },
        WindowEvent::ImeCommit(text) => key_stroke(text, window.modifiers),
        WindowEvent::ModifiersChanged(state) => {
            window.modifiers = map_modifiers(state, settings.modifier_layout);
            no_call()
        },
        WindowEvent::CursorMoved { position } => {
            *cursor_pos = position;
            one_call(WindowCall::ProcessMouseInput(MouseEvent::Moved { position }))
        },
        WindowEvent::CursorLeft => {
            if !*pressed {
                *pressed = false;
                one_call(WindowCall::ProcessMouseInput(MouseEvent::Exit))
            } else {
                no_call()
            }
        },
        WindowEvent::MouseWheel(delta) => {
            let (delta_x, delta_y) = match delta {
                ScrollDelta::LineDelta { x, y } => (line_delta_pixels(x), line_delta_pixels(y)),
                ScrollDelta::PixelDelta { x, y } => (x, y),
            };
            one_call(
                WindowCall::ProcessMouseInput(
                    MouseEvent::Wheel { position: *cursor_pos, delta_x, delta_y },
                ),
            )
        },
        WindowEvent::MouseInput { state, button } => {
            let ev = match state {
                ElementState::Pressed => {
                    *pressed = true;
                    MouseEvent::Pressed { position: *cursor_pos, button }
                },
                ElementState::Released => {
                    *pressed = false;
                    MouseEvent::Released { position: *cursor_pos, button }
                },
            };
            one_call(WindowCall::ProcessMouseInput(ev))
        },
        WindowEvent::Touch { phase, position } => {
            let ev = match phase {
                TouchPhase::Started => {
                    *pressed = true;
                    MouseEvent::Pressed { position, button: PointerEventButton::Left }
                },
                TouchPhase::Ended | TouchPhase::Cancelled => {
                    *pressed = false;
                    MouseEvent::Released { position, button: PointerEventButton::Left }
                },
                TouchPhase::Moved => MouseEvent::Moved { position },
            };
            one_call(WindowCall::ProcessMouseInput(ev))
        },
        WindowEvent::ScaleFactorChanged => {
            if settings.scale_factor_override {
                no_call()
            } else {
                one_call(WindowCall::ApplyScaleFactor)
            }
        },
        WindowEvent::Other => no_call(),
    }
}

/// A control character whose last pressed key has no character, or none
/// that is not a control character itself, yields no text and so no call.
pub proof fn lemma_unresolved_control_character_is_dropped(ch: char, pressed_key: Option<VirtualKeyCode>)
    requires
        is_control(ch),
        match pressed_key {
            Some(k) => key_code_char(k) matches Some(c) ==> is_control(c),
            None => true,
        },
    ensures
        received_text(ch, pressed_key) is None,
{
}

/// With shift held, the text of the Tab key always reaches the pipeline as
/// Backtab.
pub proof fn lemma_shift_tab_is_backtab(modifiers: KeyboardModifiers)
    requires
        modifiers.shift,
    ensures
        key_text(seq![TAB], modifiers) == seq![BACKTAB],
        forall|text: Seq<char>| #[trigger] key_text(text, modifiers) != seq![TAB],
{
    assert(seq![BACKTAB] != seq![TAB]) by {
        assert(seq![BACKTAB][0] != seq![TAB][0]);
    }
}

} // verus!
