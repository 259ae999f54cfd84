//! The input vocabulary shared by the gesture engine and the event translator.
use vstd::prelude::*;

verus! {

/// A position in logical units.
#[derive(Clone, Copy, Debug, PartialEq, Eq, Structural)]
pub struct Point {
    pub x: i32,
    pub y: i32,
}

impl Point {
    pub fn new(x: i32, y: i32) -> (r: Point)
        ensures
            r.x == x,
            r.y == y,
    {
        Point { x, y }
    }
}

/// The button that caused a pointer event.
#[derive(Clone, Copy, Debug, PartialEq, Eq, Structural)]
pub enum PointerEventButton {
    Other,
    Left,
    Right,
    Middle,
}

/// A pointer event as seen by an item, in logical coordinates.
#[derive(Clone, Copy, Debug, PartialEq, Eq, Structural)]
pub enum MouseEvent {
    Pressed { position: Point, button: PointerEventButton },
    Released { position: Point, button: PointerEventButton },
    Moved { position: Point },
    Wheel { position: Point, delta_x: i32, delta_y: i32 },
    Exit,
}

impl MouseEvent {
    pub open spec fn position_spec(&self) -> Option<Point> {
        match *self {
            MouseEvent::Pressed { position, .. } => Some(position),
            MouseEvent::Released { position, .. } => Some(position),
            MouseEvent::Moved { position } => Some(position),
            MouseEvent::Wheel { position, .. } => Some(position),
            MouseEvent::Exit => None,
        }
    }

    /// The position of the event, if it has one.
    #[verifier::when_used_as_spec(position_spec)]
    pub fn position(&self) -> (r: Option<Point>)
        ensures
            r == self.position_spec(),
    {
        match *self {
            MouseEvent::Pressed { position, .. } => Some(position),
            MouseEvent::Released { position, .. } => Some(position),
            MouseEvent::Moved { position } => Some(position),
            MouseEvent::Wheel { position, .. } => Some(position),
            MouseEvent::Exit => None,
        }
    }
}

/// What an item's filter pass decides about a pointer event before its
/// children see it.
#[derive(Clone, Copy, Debug, PartialEq, Eq, Structural)]
pub enum InputEventFilterResult {
    /// Hand the event to the children; the item sees it afterwards only if no
    /// child accepted it.
    ForwardEvent,
    /// Hand the event to the children and never to this item.
    ForwardAndIgnore,
    /// Hand the event to the children, but let this item take the grab if no
    /// child claims it.
    ForwardAndInterceptGrab,
    /// Keep the event from the children and handle it here.
    Intercept,
    /// Hand the event to the children now and replay it to this item after
    /// the given number of milliseconds.
    DelayForwarding(u64),
    /// Keep the event from the children and handle the given event instead.
    InterceptAndDispatch(MouseEvent),
}

/// What an item's handling pass did with a pointer event.
#[derive(Clone, Copy, Debug, PartialEq, Eq, Structural)]
pub enum InputEventResult {
    EventAccepted,
    EventIgnored,
    GrabMouse,
}

/// Whether a key went down or up.
#[derive(Clone, Copy, Debug, PartialEq, Eq, Structural)]
pub enum KeyEventType {
    KeyPressed,
    KeyReleased,
}

/// The state of the keyboard modifiers.
#[derive(Clone, Copy, Debug, PartialEq, Eq, Structural, Default)]
pub struct KeyboardModifiers {
    pub alt: bool,
    pub control: bool,
    pub meta: bool,
    pub shift: bool,
}

/// A key event for the input pipeline: the text the key stands for and the
/// modifiers held at the time.
#[derive(Clone, Debug)]
pub struct KeyEvent {
    pub event_type: KeyEventType,
    pub text: String,
    pub modifiers: KeyboardModifiers,
}

} // verus!
