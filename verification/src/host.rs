//! What the renderer does about the events of the window system.

use vstd::prelude::*;

verus! {

/// The pause before each request for a redraw, in milliseconds.
pub const FRAME_INTERVAL_MS: u64 = 100;

/// An event of the host's event loop, as far as the renderer tells events
/// apart.
#[derive(Clone, Copy, Debug, PartialEq, Eq, Structural)]
pub enum HostEvent {
    /// The application has been started or resumed.
    Resumed,
    /// The user has asked to close the window.
    CloseRequested,
    /// The escape key has been pressed.
    EscapePressed,
    /// The window has to be drawn again.
    RedrawRequested,
    /// All pending events have been handled.
    AboutToWait,
    /// Any other event.
    Other,
}

/// What to do about an event.
#[derive(Clone, Copy, Debug, PartialEq, Eq, Structural)]
pub enum HostAction {
    /// Open the window and start the simulation.
    Initialize,
    /// Run one tick, then ask for the next redraw.
    Redraw,
    /// Pause for `FRAME_INTERVAL_MS`, then ask for a redraw.
    Pace,
    /// Leave the event loop.
    Exit,
    /// Nothing.
    Ignore,
}

/// The action that an event calls for, where `started` says whether the
/// window is open and the simulation has been started.
pub open spec fn response(started: bool, event: HostEvent) -> HostAction {
    match event {
        HostEvent::Resumed => if started {
            HostAction::Ignore
        } else {
            HostAction::Initialize
        },
        HostEvent::CloseRequested => HostAction::Exit,
        HostEvent::EscapePressed => HostAction::Exit,
        HostEvent::RedrawRequested => if started {
            HostAction::Redraw
        } else {
            HostAction::Ignore
        },
        HostEvent::AboutToWait => if started {
            HostAction::Pace
        } else {
            HostAction::Ignore
        },
        HostEvent::Other => HostAction::Ignore,
    }
}

/// The renderer's side of the event loop.
#[derive(Clone, Copy, Debug, PartialEq, Eq, Structural)]
pub struct Host {
    /// Whether the window is open and the simulation has been started.
    pub started: bool,
}

impl Host {
    /// A host whose window is not open yet.
    pub fn new() -> (host: Host)
        ensures
            !host.started,
    {
        Host { started: false }
    }

    /// Decides what to do about `event`. The simulation counts as started
    /// from the moment its start has been called for.
    pub fn handle(&mut self, event: HostEvent) -> (action: HostAction)
        ensures
            action == response(old(self).started, event),
            final(self).started == (old(self).started || action == HostAction::Initialize),
    {
        let started = self.started;
        match event {
            HostEvent::Resumed => {
                if started {
                    HostAction::Ignore
                } else {
                    self.started = true;
                    HostAction::Initialize
                }
            },
            HostEvent::CloseRequested => HostAction::Exit,
            HostEvent::EscapePressed => HostAction::Exit,
            HostEvent::RedrawRequested => {
                if started {
                    HostAction::Redraw
                } else {
                    HostAction::Ignore
                }
            },
            HostEvent::AboutToWait => {
                if started {
                    HostAction::Pace
                } else {
                    HostAction::Ignore
                }
            },
            HostEvent::Other => HostAction::Ignore,
        }
    }
}

/// A tick runs only on a request for a redraw and only once the simulation
/// has been started, and the simulation is started at most once.
pub proof fn lemma_ticks_need_a_started_simulation(started: bool, event: HostEvent)
    ensures
        response(started, event) == HostAction::Redraw <==> started && event
            == HostEvent::RedrawRequested,
        response(started, event) == HostAction::Initialize <==> !started && event
            == HostEvent::Resumed,
{
}

} // verus!
