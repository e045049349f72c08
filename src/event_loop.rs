//! The event loop, the target that its callback sees, and the proxies through
//! which other threads send it events.
//!
//! Other threads reach the loop only through two channels: one for
//! application-defined payloads, sent through an [`EventLoopProxy`], and one
//! for window requests. The loop takes at most one item of each per tick.
use crate::channel::{clone_sender, open_channel, send_value, try_take};
use crate::event::ControlFlow;
use crate::state::{
    enqueue_spec, initial_model, receive_spec, step_spec, LoopModel, LoopState, Phase, TickAction,
    close_spec, control_spec, register_spec,
};
use crate::window::{WindowId, WindowRequest};
use std::marker::PhantomData;
use std::sync::mpsc::{Receiver, Sender};
use vstd::prelude::*;

verus! {

/// The error of a send to a loop that no longer exists; it hands the payload
/// back.
#[derive(Debug, Clone)]
pub struct EventLoopClosed<T>(pub T);

/// What the application callback is given besides the event: the means to
/// address the loop's windows.
pub struct EventLoopWindowTarget<T> {
    window_requests_tx: Sender<(WindowId, WindowRequest)>,
    loop_id: Ghost<nat>,
    _marker: PhantomData<T>,
}

impl<T> EventLoopWindowTarget<T> {
    /// A ghost tag of the loop that this target belongs to. The loop, its
    /// target and the proxies made from it share it; nothing makes the tags
    /// of two loops differ.
    pub closed spec fn loop_id(&self) -> nat {
        self.loop_id@
    }

    /// A sender through which any thread queues requests for the loop's
    /// windows.
    pub fn request_sender(&self) -> Sender<(WindowId, WindowRequest)> {
        clone_sender(&self.window_requests_tx)
    }
}

/// The event loop: its channels and its state.
#[verifier::reject_recursive_types(T)]
pub struct EventLoop<T> {
    window_target: EventLoopWindowTarget<T>,
    window_requests_rx: Receiver<(WindowId, WindowRequest)>,
    user_event_tx: Sender<T>,
    user_event_rx: Receiver<T>,
    state: LoopState<T>,
}

impl<T> View for EventLoop<T> {
    type V = LoopModel<T>;

    closed spec fn view(&self) -> LoopModel<T> {
        self.state@
    }
}

/// Whether `m` is `s`, or `s` with one item taken from a channel at the point
/// of the tick that consumes it, while nothing of that kind was queued.
pub open spec fn fed_spec<T>(s: LoopModel<T>, m: LoopModel<T>) -> bool {
    ||| m == s
    ||| s.phase is UserEvent && !(s.control_flow is Exit) && s.user_events.len() == 0 && exists|
        v: T,
    | m == #[trigger] receive_spec(s, v)
    ||| s.phase is Request && s.requests.len() == 0 && exists|id: WindowId, req: WindowRequest|
        m == #[trigger] enqueue_spec(s, id, req)
}

impl EventLoop<()> {
    /// A loop whose user events carry no payload.
    pub fn new() -> (r: EventLoop<()>)
        ensures
            r@ == initial_model::<()>(),
    {
        EventLoop::<()>::with_user_event()
    }
}

impl<T> EventLoop<T> {
    /// A ghost tag of this loop, shared by its target and the proxies made
    /// from it; nothing makes the tags of two loops differ.
    pub closed spec fn loop_id(&self) -> nat {
        self.window_target.loop_id@
    }

    /// The target that the callback sees.
    pub closed spec fn target(&self) -> EventLoopWindowTarget<T> {
        self.window_target
    }

    /// A loop with nothing queued but the start event and no window.
    pub fn with_user_event() -> (r: EventLoop<T>)
        ensures
            r@ == initial_model::<T>(),
    {
        let (window_requests_tx, window_requests_rx) = open_channel();
        let (user_event_tx, user_event_rx) = open_channel();
        let ghost id: nat = arbitrary();
        EventLoop {
            window_target: EventLoopWindowTarget {
                window_requests_tx,
                loop_id: Ghost(id),
                _marker: PhantomData,
            },
            window_requests_rx,
            user_event_tx,
            user_event_rx,
            state: LoopState::new(),
        }
    }

    /// The target that the callback sees.
    pub fn window_target(&self) -> (r: &EventLoopWindowTarget<T>)
        ensures
            *r == self.target(),
            r.loop_id() == self.loop_id(),
    {
        &self.window_target
    }

    /// A handle through which any thread sends payloads to this loop.
    pub fn create_proxy(&self) -> (r: EventLoopProxy<T>)
        ensures
            r.loop_id() == self.loop_id(),
    {
        EventLoopProxy {
            user_event_tx: clone_sender(&self.user_event_tx),
            loop_id: Ghost(self.window_target.loop_id@),
        }
    }

    /// The control flow that the callback last left.
    pub fn control_flow(&self) -> (r: ControlFlow)
        ensures
            r == self@.control_flow,
    {
        self.state.control_flow()
    }

    /// The live windows.
    pub fn windows(&self) -> (r: Vec<WindowId>)
        ensures
            forall|id: WindowId| r@.contains(id) <==> self@.windows.contains(id),
    {
        self.state.windows()
    }

    /// Registers a window whose native handle exists; returns whether it was
    /// new.
    pub fn register_window(&mut self, id: WindowId) -> (r: bool)
        ensures
            final(self)@ == register_spec(old(self)@, id),
            r == !old(self)@.windows.contains(id),
    {
        self.state.register_window(id)
    }

    /// Takes the toolkit's report that window `id` is about to be destroyed;
    /// returns whether `id` was live.
    pub fn window_closed(&mut self, id: WindowId) -> (r: bool)
        ensures
            final(self)@ == close_spec(old(self)@, id),
            r == old(self)@.windows.contains(id),
    {
        self.state.window_closed(id)
    }

    /// Takes the control flow that the callback left.
    pub fn set_control_flow(&mut self, cf: ControlFlow)
        ensures
            final(self)@ == control_spec(old(self)@, cf),
    {
        self.state.set_control_flow(cf)
    }

    /// Takes one step of the tick, first taking from a channel the item that
    /// this point of the tick consumes when none is queued.
    pub fn next_action(&mut self) -> (r: TickAction<T>)
        ensures
            exists|m: LoopModel<T>| fed_spec(old(self)@, m) && (final(self)@, r) == step_spec(m),
    {
        let ghost s = self.state@;
        let phase = self.state.phase();
        let exiting = matches!(self.state.control_flow(), ControlFlow::Exit);
        if matches!(phase, Phase::UserEvent) && !exiting && self.state.user_events_empty() {
            match try_take(&self.user_event_rx) {
                Some(v) => {
                    self.state.receive_user_event(v);
                    assert(fed_spec(s, receive_spec(s, v)));
                },
                None => {},
            }
        } else if matches!(phase, Phase::Request) && self.state.requests_empty() {
            match try_take(&self.window_requests_rx) {
                Some((id, req)) => {
                    self.state.enqueue_request(id, req);
                    assert(fed_spec(s, enqueue_spec(s, id, req)));
                },
                None => {},
            }
        }
        let ghost m = self.state@;
        assert(fed_spec(s, m));
        self.state.step()
    }
}

impl<T> std::ops::Deref for EventLoop<T> {
    type Target = EventLoopWindowTarget<T>;

    fn deref(&self) -> (r: &EventLoopWindowTarget<T>)
        ensures
            *r == self.target(),
    {
        &self.window_target
    }
}

/// A handle, usable from any thread, that sends payloads to one loop.
#[verifier::reject_recursive_types(T)]
pub struct EventLoopProxy<T> {
    user_event_tx: Sender<T>,
    loop_id: Ghost<nat>,
}

impl<T> Clone for EventLoopProxy<T> {
    fn clone(&self) -> (r: Self)
        ensures
            r.loop_id() == self.loop_id(),
    {
        EventLoopProxy { user_event_tx: clone_sender(&self.user_event_tx), loop_id: self.loop_id }
    }
}

impl<T> EventLoopProxy<T> {
    /// The ghost tag of the loop that made this proxy; nothing makes the tags
    /// of two loops differ.
    pub closed spec fn loop_id(&self) -> nat {
        self.loop_id@
    }

    /// Sends `event` to the loop, which delivers it as `Event::UserEvent`.
    /// Fails, handing the payload back, when the loop no longer exists.
    pub fn send_event(&self, event: T) -> (r: Result<(), EventLoopClosed<T>>)
        ensures
            r matches Err(e) ==> e == EventLoopClosed(event),
    {
        match send_value(&self.user_event_tx, event) {
            Ok(()) => Ok(()),
            Err(back) => Err(EventLoopClosed(back)),
        }
    }
}

} // verus!
