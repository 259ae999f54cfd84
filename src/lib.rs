//! Event dispatch core for a windowing backend: the pending-work sets of the
//! scheduler, the channel for injected events, the window registry, the
//! translation of window events into input-pipeline calls, and the
//! momentum-scrolling gesture engine of a scrollable viewport.

pub mod channel;
pub mod enum_docs;
pub mod event_loop;
pub mod flickable;
pub mod input;
pub mod keys;
pub mod loop_proxy;
pub mod properties;
pub mod registry;
pub mod translate;
pub mod window_set;

pub use enum_docs::to_kebab_case;
pub use flickable::{Flickable, FlickableData, FlickableDataBox};
pub use input::{
    InputEventFilterResult, InputEventResult, KeyEvent, KeyEventType, KeyboardModifiers,
    MouseEvent, Point, PointerEventButton,
};
pub use event_loop::CustomEvent;
pub use properties::insert_property_definition_range;
pub use registry::{register_window, unregister_window};
pub use translate::process_window_event;
