//! The loop's per-tick decisions, apart from any native toolkit: which queued
//! item is taken at each point of a tick, what is delivered to the
//! application, and when the loop ends.
use crate::event::{ControlFlow, Event, StartCause, WindowEvent};
use crate::registry::WindowRegistry;
use crate::window::{WindowId, WindowRequest};
use std::collections::VecDeque;
use vstd::prelude::*;

verus! {

/// Where the loop stands inside a tick. A tick runs `UserEvent`, `Request`,
/// `Dispatch` and `Settle` in this order.
#[derive(Debug, Clone, Copy, PartialEq, Eq, Structural)]
pub enum Phase {
    /// Deliver at most one user event.
    UserEvent,
    /// Carry out at most one window request.
    Request,
    /// Deliver one structural event, or `MainEventsCleared`.
    Dispatch,
    /// End the tick, or the loop when the callback asked to exit.
    Settle,
    /// The loop has ended.
    Finished,
}

/// What the native side does next.
#[derive(Debug)]
pub enum TickAction<T> {
    /// Hand the event to the application callback, then report the control
    /// flow that the callback left.
    Deliver(Event<T>),
    /// Carry the request out on the window's native handle.
    Apply(WindowId, WindowRequest),
    /// The request names a window that is not registered: the registry and the
    /// queue disagree, and the loop cannot go on.
    UnknownWindow(WindowId, WindowRequest),
    /// Nothing to do at this point of the tick; ask again.
    Continue,
    /// The tick is over; tick again when the native loop is idle.
    Yield,
    /// The loop has ended.
    Stop,
}

/// The loop's state as mathematical values.
pub struct LoopModel<T> {
    /// Payloads received from proxies and not yet delivered, oldest first.
    pub user_events: Seq<T>,
    /// Window requests received and not yet carried out, oldest first.
    pub requests: Seq<(WindowId, WindowRequest)>,
    /// Structural events raised by the toolkit and not yet delivered.
    pub pending: Seq<Event<T>>,
    /// The live windows.
    pub windows: Set<WindowId>,
    pub control_flow: ControlFlow,
    pub phase: Phase,
}

/// The event raised when window `id` is about to be destroyed.
pub open spec fn close_event<T>(id: WindowId) -> Event<T> {
    Event::WindowEvent { window_id: id, event: WindowEvent::CloseRequested }
}

/// The state of a new loop: nothing queued but the start event, no window,
/// polling, at the start of a tick.
pub open spec fn initial_model<T>() -> LoopModel<T> {
    LoopModel {
        user_events: Seq::empty(),
        requests: Seq::empty(),
        pending: seq![Event::NewEvents(StartCause::Init)],
        windows: Set::empty(),
        control_flow: ControlFlow::Poll,
        phase: Phase::UserEvent,
    }
}

/// One step of a tick: the next state and what the native side does.
pub open spec fn step_spec<T>(s: LoopModel<T>) -> (LoopModel<T>, TickAction<T>) {
    match s.phase {
        Phase::UserEvent => if s.control_flow is Exit {
            (LoopModel { phase: Phase::Finished, ..s }, TickAction::Stop)
        } else if s.user_events.len() > 0 {
            (
                LoopModel {
                    user_events: s.user_events.subrange(1, s.user_events.len() as int),
                    phase: Phase::Request,
                    ..s
                },
                TickAction::Deliver(Event::UserEvent(s.user_events[0])),
            )
        } else {
            (LoopModel { phase: Phase::Request, ..s }, TickAction::Continue)
        },
        Phase::Request => if s.requests.len() > 0 {
            let rest = s.requests.subrange(1, s.requests.len() as int);
            let (id, req) = s.requests[0];
            if s.windows.contains(id) {
                (
                    LoopModel { requests: rest, phase: Phase::Dispatch, ..s },
                    TickAction::Apply(id, req),
                )
            } else {
                (
                    LoopModel { requests: rest, phase: Phase::Finished, ..s },
                    TickAction::UnknownWindow(id, req),
                )
            }
        } else {
            (LoopModel { phase: Phase::Dispatch, ..s }, TickAction::Continue)
        },
        Phase::Dispatch => if s.control_flow is Exit {
            (LoopModel { phase: Phase::Finished, ..s }, TickAction::Stop)
        } else if s.pending.len() > 0 {
            (
                LoopModel {
                    pending: s.pending.subrange(1, s.pending.len() as int),
                    phase: Phase::Settle,
                    ..s
                },
                TickAction::Deliver(s.pending[0]),
            )
        } else {
            (
                LoopModel { phase: Phase::Settle, ..s },
                TickAction::Deliver(Event::MainEventsCleared),
            )
        },
        Phase::Settle => if s.control_flow is Exit {
            (LoopModel { phase: Phase::Finished, ..s }, TickAction::Stop)
        } else {
            (LoopModel { phase: Phase::UserEvent, ..s }, TickAction::Yield)
        },
        Phase::Finished => (s, TickAction::Stop),
    }
}

/// The state after the callback left `cf`: `Exit` is never taken back.
pub open spec fn control_spec<T>(s: LoopModel<T>, cf: ControlFlow) -> LoopModel<T> {
    LoopModel { control_flow: if s.control_flow is Exit { ControlFlow::Exit } else { cf }, ..s }
}

/// The state after the toolkit reported that window `id` is being destroyed:
/// a live window leaves the registry and one close event is queued; any other
/// report changes nothing.
pub open spec fn close_spec<T>(s: LoopModel<T>, id: WindowId) -> LoopModel<T> {
    if s.windows.contains(id) {
        LoopModel { windows: s.windows.remove(id), pending: s.pending.push(close_event(id)), ..s }
    } else {
        s
    }
}

/// The state after payload `v` was received from a proxy.
pub open spec fn receive_spec<T>(s: LoopModel<T>, v: T) -> LoopModel<T> {
    LoopModel { user_events: s.user_events.push(v), ..s }
}

/// The state after request `req` for window `id` was received.
pub open spec fn enqueue_spec<T>(s: LoopModel<T>, id: WindowId, req: WindowRequest) -> LoopModel<
    T,
> {
    LoopModel { requests: s.requests.push((id, req)), ..s }
}

/// The state after window `id` was registered.
pub open spec fn register_spec<T>(s: LoopModel<T>, id: WindowId) -> LoopModel<T> {
    LoopModel { windows: s.windows.insert(id), ..s }
}

/// The loop's state: its queues, the registry of live windows, the control
/// flow and the point reached in the current tick.
pub struct LoopState<T> {
    user_events: VecDeque<T>,
    requests: VecDeque<(WindowId, WindowRequest)>,
    pending: VecDeque<Event<T>>,
    windows: WindowRegistry,
    control_flow: ControlFlow,
    phase: Phase,
}

impl<T> View for LoopState<T> {
    type V = LoopModel<T>;

    closed spec fn view(&self) -> LoopModel<T> {
        LoopModel {
            user_events: self.user_events@,
            requests: self.requests@,
            pending: self.pending@,
            windows: self.windows@,
            control_flow: self.control_flow,
            phase: self.phase,
        }
    }
}

impl<T> LoopState<T> {
    /// A new loop, with the start event queued.
    pub fn new() -> (r: LoopState<T>)
        ensures
            r@ == initial_model::<T>(),
    {
        let mut pending: VecDeque<Event<T>> = VecDeque::new();
        pending.push_back(Event::NewEvents(StartCause::Init));
        let r = LoopState {
            user_events: VecDeque::new(),
            requests: VecDeque::new(),
            pending,
            windows: WindowRegistry::new(),
            control_flow: ControlFlow::Poll,
            phase: Phase::UserEvent,
        };
        assert(r@.pending =~= seq![Event::NewEvents(StartCause::Init)]);
        r
    }

    /// The control flow that the callback last left.
    pub fn control_flow(&self) -> (r: ControlFlow)
        ensures
            r == self@.control_flow,
    {
        self.control_flow
    }

    /// The point reached in the current tick.
    pub fn phase(&self) -> (r: Phase)
        ensures
            r == self@.phase,
    {
        self.phase
    }

    /// Whether `id` is a live window.
    pub fn is_registered(&self, id: WindowId) -> (r: bool)
        ensures
            r == self@.windows.contains(id),
    {
        self.windows.contains(id)
    }

    /// The live windows.
    pub fn windows(&self) -> (r: Vec<WindowId>)
        ensures
            forall|id: WindowId| r@.contains(id) <==> self@.windows.contains(id),
    {
        self.windows.snapshot()
    }

    /// Whether no user event waits for delivery.
    pub fn user_events_empty(&self) -> (r: bool)
        ensures
            r == (self@.user_events.len() == 0),
    {
        self.user_events.len() == 0
    }

    /// Whether no window request waits to be carried out.
    pub fn requests_empty(&self) -> (r: bool)
        ensures
            r == (self@.requests.len() == 0),
    {
        self.requests.len() == 0
    }

    /// Queues a payload received from a proxy.
    pub fn receive_user_event(&mut self, v: T)
        ensures
            final(self)@ == receive_spec(old(self)@, v),
    {
        self.user_events.push_back(v);
    }

    /// Queues a request received for window `id`.
    pub fn enqueue_request(&mut self, id: WindowId, req: WindowRequest)
        ensures
            final(self)@ == enqueue_spec(old(self)@, id, req),
    {
        self.requests.push_back((id, req));
    }

    /// Registers window `id`; returns whether it was new.
    pub fn register_window(&mut self, id: WindowId) -> (r: bool)
        ensures
            final(self)@ == register_spec(old(self)@, id),
            r == !old(self)@.windows.contains(id),
    {
        self.windows.insert(id)
    }

    /// Takes the toolkit's report that window `id` is about to be destroyed;
    /// returns whether `id` was live.
    pub fn window_closed(&mut self, id: WindowId) -> (r: bool)
        ensures
            final(self)@ == close_spec(old(self)@, id),
            r == old(self)@.windows.contains(id),
    {
        if self.windows.remove(id) {
            self.pending.push_back(Event::WindowEvent { window_id: id, event: WindowEvent::CloseRequested });
            true
        } else {
            assert(old(self)@.windows.remove(id) =~= old(self)@.windows);
            assert(self@ == old(self)@);
            false
        }
    }

    /// Takes the control flow that the callback left.
    pub fn set_control_flow(&mut self, cf: ControlFlow)
        ensures
            final(self)@ == control_spec(old(self)@, cf),
    {
        if !matches!(self.control_flow, ControlFlow::Exit) {
            self.control_flow = cf;
        }
    }

    /// Takes one step of the tick.
    pub fn step(&mut self) -> (r: TickAction<T>)
        ensures
            (final(self)@, r) == step_spec(old(self)@),
    {
        let exiting = matches!(self.control_flow, ControlFlow::Exit);
        match self.phase {
            Phase::UserEvent => {
                if exiting {
                    self.phase = Phase::Finished;
                    return TickAction::Stop;
                }
                self.phase = Phase::Request;
                match self.user_events.pop_front() {
                    Some(v) => TickAction::Deliver(Event::UserEvent(v)),
                    None => TickAction::Continue,
                }
            },
            Phase::Request => {
                match self.requests.pop_front() {
                    Some((id, req)) => {
                        if self.windows.contains(id) {
                            self.phase = Phase::Dispatch;
                            TickAction::Apply(id, req)
                        } else {
                            self.phase = Phase::Finished;
                            TickAction::UnknownWindow(id, req)
                        }
                    },
                    None => {
                        self.phase = Phase::Dispatch;
                        TickAction::Continue
                    },
                }
            },
            Phase::Dispatch => {
                if exiting {
                    self.phase = Phase::Finished;
                    return TickAction::Stop;
                }
                self.phase = Phase::Settle;
                match self.pending.pop_front() {
                    Some(e) => TickAction::Deliver(e),
                    None => TickAction::Deliver(Event::MainEventsCleared),
                }
            },
            Phase::Settle => {
                if exiting {
                    self.phase = Phase::Finished;
                    TickAction::Stop
                } else {
                    self.phase = Phase::UserEvent;
                    TickAction::Yield
                }
            },
            Phase::Finished => TickAction::Stop,
        }
    }
}

} // verus!
