//! The capture interface: a capability contract for reading the
//! foreground window and draining buffered input events, with an inert
//! fallback implementation.  Operating-system backends implement the
//! same contract in the surrounding application.

use vstd::prelude::*;

use crate::errors::TrackerError;

verus! {

/// A best-effort snapshot of the foreground window.
#[derive(Debug, Clone)]
pub struct WindowInfo {
    pub process_name: String,
    pub window_title: String,
    pub bundle_id: Option<String>,
    pub x: Option<i32>,
    pub y: Option<i32>,
    pub width: Option<i32>,
    pub height: Option<i32>,
}

/// Identity of a pointer button.
#[derive(Debug, Clone, PartialEq, Eq, Structural)]
pub enum MouseButton {
    Left,
    Right,
    Middle,
}

/// One captured input event.  Scroll deltas are reported in whole
/// steps.
#[derive(Debug, Clone)]
pub enum InputEvent {
    KeyPress { key: String },
    KeyRelease { key: String },
    MouseMove { x: i32, y: i32 },
    MouseClick { x: i32, y: i32, button: MouseButton },
    MouseScroll { delta_x: i32, delta_y: i32 },
}

impl MouseButton {
    /// The button's persisted name.
    pub fn as_str(&self) -> (r: &str)
        ensures
            r@ == (match self {
                MouseButton::Left => "left"@,
                MouseButton::Right => "right"@,
                MouseButton::Middle => "middle"@,
            }),
    {
        match self {
            MouseButton::Left => "left",
            MouseButton::Right => "right",
            MouseButton::Middle => "middle",
        }
    }
}

/// The capture capability: read the foreground window, switch input
/// capture on and off, and drain the events buffered since the last
/// drain.  Backends are best-effort; no behaviour is promised beyond
/// the signatures.
pub trait PlatformTracker {
    /// A snapshot of the foreground window, or a tracker error when no
    /// foreground information is obtainable.
    fn get_active_window(&mut self) -> Result<WindowInfo, TrackerError>;

    /// Enable event capture; idempotent.
    fn start_input_tracking(&mut self) -> Result<(), TrackerError>;

    /// Disable event capture; idempotent.
    fn stop_input_tracking(&mut self) -> Result<(), TrackerError>;

    /// All events captured since the previous drain; the internal
    /// buffer is cleared.
    fn get_input_events(&mut self) -> Vec<InputEvent>;
}

/// The inert fallback used where no operating-system backend is
/// available: it reports a fixed unknown window and captures nothing.
pub struct FallbackTracker;

impl PlatformTracker for FallbackTracker {
    fn get_active_window(&mut self) -> (r: Result<WindowInfo, TrackerError>)
        ensures
            (match r {
                Ok(w) => w.process_name@ == "Unknown"@ && w.window_title@ == "Unknown Window"@
                    && w.bundle_id is None && w.x is None && w.y is None && w.width is None
                    && w.height is None,
                Err(_) => false,
            }),
    {
        Ok(
            WindowInfo {
                process_name: "Unknown".to_owned(),
                window_title: "Unknown Window".to_owned(),
                bundle_id: None,
                x: None,
                y: None,
                width: None,
                height: None,
            },
        )
    }

    fn start_input_tracking(&mut self) -> (r: Result<(), TrackerError>)
        ensures
            r is Ok,
    {
        Ok(())
    }

    fn stop_input_tracking(&mut self) -> (r: Result<(), TrackerError>)
        ensures
            r is Ok,
    {
        Ok(())
    }

    fn get_input_events(&mut self) -> (r: Vec<InputEvent>)
        ensures
            r@.len() == 0,
    {
        Vec::new()
    }
}

/// The tracker this library can construct by itself: the inert
/// fallback.  The surrounding application selects an
/// operating-system backend instead where one exists.
pub fn create_tracker() -> FallbackTracker {
    FallbackTracker
}

} // verus!
