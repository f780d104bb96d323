//! A verified core for a native window library.
//!
//! The crate holds the decisions of an event loop for native windows: the
//! registry of windows, the decoding of native messages into events, the
//! decoding of text-composition and raw-input data, and the containment of
//! faults raised by event handlers. Everything that touches the operating
//! system is left to the caller, which hands plain values in and performs the
//! commands that come back.
use vstd::prelude::*;

pub mod api;
pub mod context;
pub mod device;
pub mod error;
pub mod event;
pub mod geometry;
pub mod ime;
pub mod monitor;
pub mod procedure;
pub mod pump;
pub mod raw_input;
pub mod resource;
pub mod text;
pub mod window;

pub use context::RunType;
pub use device::{
    as_virtual_key, get_key_state, keyboard_state, to_raw_virtual_key, Cursor, KeyCode,
    KeyNameError, KeyState, MouseButton, MouseState, ScanCode, VirtualKey, VirtualKeyVisitor,
};
pub use error::ApiError;
pub use event::{Event, EventHandler};
pub use geometry::{
    Logical, LogicalPosition, LogicalSize, Physical, PhysicalPosition, PhysicalSize, Position,
    Screen, ScreenPosition, Size, ToLogicalPosition, ToLogicalSize, ToPhysicalPosition,
    ToPhysicalSize,
};
pub use monitor::{get_monitors_proc, monitor_from_point, Monitor};
pub use resource::Icon;
pub use window::{
    BorderlessStyle, InnerWindowBuilder, Style, Window, WindowBuilder, WindowHandle, WindowStyle,
};

verus! {

/// The value is an unit in logical coordinates.
pub const DEFAULT_DPI: i32 = 96;

} // verus!
