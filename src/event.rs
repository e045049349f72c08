//! The events handed to the application callback, and the control flow that
//! the callback sets.
use crate::window::WindowId;
use vstd::prelude::*;

verus! {

/// Why a batch of events began.
#[derive(Debug, Clone, Copy, PartialEq, Eq, Structural)]
pub enum StartCause {
    /// The loop has just started.
    Init,
}

/// An event that the native toolkit raised for one window.
#[derive(Debug, Clone, Copy, PartialEq, Eq, Structural)]
pub enum WindowEvent {
    /// The window is about to be destroyed.
    CloseRequested,
}

/// An event delivered to the application callback.
#[derive(Debug, Clone)]
pub enum Event<T> {
    NewEvents(StartCause),
    WindowEvent { window_id: WindowId, event: WindowEvent },
    UserEvent(T),
    MainEventsCleared,
}

/// How the loop goes on after the callback returns.
#[derive(Debug, Clone, Copy, PartialEq, Eq, Structural)]
pub enum ControlFlow {
    /// Tick again as soon as the native loop is idle.
    Poll,
    /// Tick again when an event is pending; ticks like `Poll` here.
    Wait,
    /// Tick again by the given deadline, in milliseconds of the caller's
    /// monotonic clock; ticks like `Poll` here.
    WaitUntil(u64),
    /// Stop after the current tick, for good.
    Exit,
}

impl Default for ControlFlow {
    fn default() -> (r: ControlFlow)
        ensures
            r == ControlFlow::Poll,
    {
        ControlFlow::Poll
    }
}

} // verus!
