//! The window-event decisions of the render loop.
//!
//! The event loop itself belongs to the windowing library; this module fixes
//! what the backend does for each kind of window event, so that the loop is
//! a plain dispatch on the returned action.

use vstd::prelude::*;

verus! {

/// The kinds of window event the backend reacts to. Everything else is
/// `Other`.
#[derive(Clone, Copy, Debug, PartialEq, Eq, Structural)]
pub enum WindowEventKind {
    RedrawRequested,
    ScaleFactorChanged,
    Resized { width: u32, height: u32 },
    CloseRequested,
    Other,
}

/// What the render loop does in response to a window event.
#[derive(Clone, Copy, Debug, PartialEq, Eq, Structural)]
pub enum WindowAction {
    /// Render one frame to the surface.
    Render,
    /// Ask the window for a new inner size scaled by the new factor.
    RescaleWindow,
    /// Recreate the surface and reconfigure it for the new size.
    RemakeSurface { width: u32, height: u32 },
    /// Leave the event loop.
    Exit,
    /// Do nothing.
    Ignore,
}

/// The action owed to each event: a redraw request renders, a scale-factor
/// change rescales the window, a resize remakes the surface at the new size,
/// a close request exits, and any other event is ignored.
pub open spec fn spec_window_action(e: WindowEventKind) -> WindowAction {
    match e {
        WindowEventKind::RedrawRequested => WindowAction::Render,
        WindowEventKind::ScaleFactorChanged => WindowAction::RescaleWindow,
        WindowEventKind::Resized { width, height } => WindowAction::RemakeSurface { width, height },
        WindowEventKind::CloseRequested => WindowAction::Exit,
        WindowEventKind::Other => WindowAction::Ignore,
    }
}

/// Decides the render loop's response to one window event.
pub fn window_event_action(event: &WindowEventKind) -> (a: WindowAction)
    ensures
        a == spec_window_action(*event),
{
    match *event {
        WindowEventKind::RedrawRequested => WindowAction::Render,
        WindowEventKind::ScaleFactorChanged => WindowAction::RescaleWindow,
        WindowEventKind::Resized { width, height } => WindowAction::RemakeSurface { width, height },
        WindowEventKind::CloseRequested => WindowAction::Exit,
        WindowEventKind::Other => WindowAction::Ignore,
    }
}

} // verus!
