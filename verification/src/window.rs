//! The application window as this library sees it: the settings it is
//! opened with, and what its events call for.

use vstd::prelude::*;

verus! {

/// Title and inner size of the application window.
#[derive(Debug)]
pub struct WindowSettings {
    pub title: String,
    pub width: u32,
    pub height: u32,
}

/// The window of this application: 800 by 600, titled
/// "Vulkan tutorial with Ash".
pub fn default_window_settings() -> (settings: WindowSettings)
    ensures
        settings.title@ == "Vulkan tutorial with Ash"@,
        settings.width == 800,
        settings.height == 600,
{
    WindowSettings { title: "Vulkan tutorial with Ash".to_owned(), width: 800, height: 600 }
}

/// An event of the window, as far as the application tells events apart.
#[derive(Clone, Copy, Debug, PartialEq, Eq, Structural)]
pub enum WindowEvent {
    /// The user asked for the window to be closed.
    CloseRequested,
    /// Anything else.
    Other,
}

/// What the event loop is to do next.
#[derive(Clone, Copy, Debug, PartialEq, Eq, Structural)]
pub enum LoopControl {
    /// Keep dispatching events.
    Continue,
    /// Leave the event loop and end the application.
    Exit,
}

/// The reaction to one event: a request to close ends the application,
/// nothing else does.
pub fn on_window_event(event: WindowEvent) -> (control: LoopControl)
    ensures
        control is Exit <==> event is CloseRequested,
{
    match event {
        WindowEvent::CloseRequested => LoopControl::Exit,
        WindowEvent::Other => LoopControl::Continue,
    }
}

/// The reaction to a batch of polled events: the application ends exactly
/// if one of them is a request to close.
pub fn on_window_events(events: &Vec<WindowEvent>) -> (control: LoopControl)
    ensures
        control is Exit <==> events@.contains(WindowEvent::CloseRequested),
{
    let mut i: usize = 0;
    while i < events.len()
        invariant
            i <= events.len(),
            forall|k: int| 0 <= k < i ==> events@[k] != WindowEvent::CloseRequested,
        decreases events.len() - i,
    {
        match on_window_event(events[i]) {
            LoopControl::Exit => {
                return LoopControl::Exit;
            },
            LoopControl::Continue => {},
        }
        i += 1;
    }
    LoopControl::Continue
}

} // verus!
