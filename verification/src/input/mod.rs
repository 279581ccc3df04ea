//! Input: the portable event model that capture produces and injection
//! consumes, and the state that a back-end keeps of its devices.

pub mod evdev;
pub mod events;
pub mod keycodes;
pub mod keymap_linux;
pub mod keymap_macos;
pub mod keymap_windows;
pub mod quartz;
pub mod rawinput;
pub mod sendinput;
pub mod traits;

pub use events::{
    EventTimestamp, InputEvent, KeyboardEvent, KeyboardState, MouseButtonEvent, MouseMoveEvent,
    MouseScrollEvent, MouseState,
};
pub use traits::{inject, InputError, InputInjector, InputResult};
