//! What holds of every run of the loop: the order in which queued items come
//! out, how window closes are reported, and how the loop ends.
use crate::event::{ControlFlow, Event};
use crate::state::{
    close_event, close_spec, control_spec, enqueue_spec, initial_model, receive_spec,
    register_spec, step_spec, LoopModel, TickAction,
};
use crate::window::{WindowId, WindowRequest};
use vstd::prelude::*;

verus! {

/// One thing that happens to a loop.
pub enum LoopInput<T> {
    /// A payload arrives from a proxy.
    Receive(T),
    /// A request for a window arrives.
    Enqueue(WindowId, WindowRequest),
    /// A window is registered.
    Register(WindowId),
    /// The toolkit reports that a window is about to be destroyed.
    Close(WindowId),
    /// The callback leaves a control flow.
    Control(ControlFlow),
    /// The loop takes one step of its tick.
    Step,
}

/// The state after one input, and the action that it gave, if any.
pub open spec fn input_spec<T>(s: LoopModel<T>, i: LoopInput<T>) -> (LoopModel<T>, Seq<TickAction<T>>) {
    match i {
        LoopInput::Receive(v) => (receive_spec(s, v), Seq::empty()),
        LoopInput::Enqueue(id, req) => (enqueue_spec(s, id, req), Seq::empty()),
        LoopInput::Register(id) => (register_spec(s, id), Seq::empty()),
        LoopInput::Close(id) => (close_spec(s, id), Seq::empty()),
        LoopInput::Control(cf) => (control_spec(s, cf), Seq::empty()),
        LoopInput::Step => {
            let (t, a) = step_spec(s);
            (t, seq![a])
        },
    }
}

/// The state after a run of inputs, and the actions that it gave, in order.
pub open spec fn run_spec<T>(s: LoopModel<T>, ins: Seq<LoopInput<T>>) -> (LoopModel<T>, Seq<TickAction<T>>)
    decreases ins.len(),
{
    if ins.len() == 0 {
        (s, Seq::empty())
    } else {
        let (m, acts) = run_spec(s, ins.drop_last());
        let (t, more) = input_spec(m, ins.last());
        (t, acts + more)
    }
}

/// The requests that the actions took from the queue, in order.
pub open spec fn taken_requests<T>(acts: Seq<TickAction<T>>) -> Seq<(WindowId, WindowRequest)>
    decreases acts.len(),
{
    if acts.len() == 0 {
        Seq::empty()
    } else {
        taken_requests(acts.drop_last()) + match acts.last() {
            TickAction::Apply(id, req) => seq![(id, req)],
            TickAction::UnknownWindow(id, req) => seq![(id, req)],
            _ => Seq::empty(),
        }
    }
}

/// The requests that arrived during the inputs, in order.
pub open spec fn enqueued<T>(ins: Seq<LoopInput<T>>) -> Seq<(WindowId, WindowRequest)>
    decreases ins.len(),
{
    if ins.len() == 0 {
        Seq::empty()
    } else {
        enqueued(ins.drop_last()) + match ins.last() {
            LoopInput::Enqueue(id, req) => seq![(id, req)],
            _ => Seq::empty(),
        }
    }
}

/// The payloads that the actions delivered as user events, in order.
pub open spec fn delivered_payloads<T>(acts: Seq<TickAction<T>>) -> Seq<T>
    decreases acts.len(),
{
    if acts.len() == 0 {
        Seq::empty()
    } else {
        delivered_payloads(acts.drop_last()) + match acts.last() {
            TickAction::Deliver(Event::UserEvent(v)) => seq![v],
            _ => Seq::empty(),
        }
    }
}

/// The payloads that arrived during the inputs, in order.
pub open spec fn received<T>(ins: Seq<LoopInput<T>>) -> Seq<T>
    decreases ins.len(),
{
    if ins.len() == 0 {
        Seq::empty()
    } else {
        received(ins.drop_last()) + match ins.last() {
            LoopInput::Receive(v) => seq![v],
            _ => Seq::empty(),
        }
    }
}

proof fn lemma_run_unfold<T>(s: LoopModel<T>, ins: Seq<LoopInput<T>>)
    requires
        ins.len() > 0,
    ensures
        ({
            let (m, acts) = run_spec(s, ins.drop_last());
            let (t, more) = input_spec(m, ins.last());
            run_spec(s, ins) == (t, acts + more) && more.len() <= 1 && (more.len() == 1 ==> (
            acts + more).drop_last() == acts && (acts + more).last() == more[0]) && (more.len()
                == 0 ==> acts + more == acts)
        }),
{
    let (m, acts) = run_spec(s, ins.drop_last());
    let (t, more) = input_spec(m, ins.last());
    if more.len() == 1 {
        assert((acts + more).drop_last() =~= acts);
    } else {
        assert(acts + more =~= acts);
    }
}

/// Window requests are carried out in the order in which they arrived, each
/// once: at every point of every run, the requests taken so far followed by
/// those still queued are the requests queued at the start followed by those
/// that arrived. So for any one window, its native mutations come in the
/// order in which its requests were queued.
pub proof fn lemma_requests_in_arrival_order<T>(s: LoopModel<T>, ins: Seq<LoopInput<T>>)
    ensures
        taken_requests(run_spec(s, ins).1) + run_spec(s, ins).0.requests == s.requests + enqueued(
            ins,
        ),
    decreases ins.len(),
{
    if ins.len() == 0 {
        assert(taken_requests(Seq::<TickAction<T>>::empty()) =~= Seq::empty());
        assert(Seq::<(WindowId, WindowRequest)>::empty() + s.requests =~= s.requests
            + Seq::empty());
    } else {
        let prev = ins.drop_last();
        lemma_requests_in_arrival_order(s, prev);
        lemma_run_unfold(s, ins);
        let (m, acts) = run_spec(s, prev);
        let (t, more) = input_spec(m, ins.last());
        let e0 = enqueued(prev);
        match ins.last() {
            LoopInput::Enqueue(id, req) => {
                assert(enqueued(ins) == e0 + seq![(id, req)]);
                assert(t.requests == m.requests.push((id, req)));
                assert(taken_requests(acts) + m.requests == s.requests + e0);
                assert((taken_requests(acts) + m.requests).push((id, req)) =~= taken_requests(acts)
                    + t.requests);
                assert((s.requests + e0).push((id, req)) =~= s.requests + enqueued(ins));
            },
            LoopInput::Step => {
                assert(enqueued(ins) =~= e0);
                let a = step_spec(m).1;
                assert(more == seq![a]);
                assert(taken_requests(acts + more) == taken_requests(acts) + match a {
                    TickAction::Apply(id, req) => seq![(id, req)],
                    TickAction::UnknownWindow(id, req) => seq![(id, req)],
                    _ => Seq::empty(),
                });
                if m.phase is Request && m.requests.len() > 0 {
                    assert(m.requests =~= seq![m.requests[0]] + t.requests);
                    assert(taken_requests(acts + more) =~= taken_requests(acts) + seq![
                        m.requests[0],
                    ]);
                    assert(taken_requests(acts + more) + t.requests =~= taken_requests(acts)
                        + m.requests);
                } else {
                    assert(t.requests == m.requests);
                    assert(taken_requests(acts + more) =~= taken_requests(acts));
                }
            },
            _ => {
                assert(enqueued(ins) =~= e0);
            },
        }
    }
}

/// Whether a queued request is for window `w`.
pub open spec fn for_window(w: WindowId) -> spec_fn((WindowId, WindowRequest)) -> bool {
    |q: (WindowId, WindowRequest)| q.0 == w
}

/// For any one window, its requests are carried out in the order in which
/// they arrived, each once, whatever arrives for other windows meanwhile.
pub proof fn lemma_window_requests_in_arrival_order<T>(
    s: LoopModel<T>,
    ins: Seq<LoopInput<T>>,
    w: WindowId,
)
    ensures
        taken_requests(run_spec(s, ins).1).filter(for_window(w)) + run_spec(
            s,
            ins,
        ).0.requests.filter(for_window(w)) == s.requests.filter(for_window(w)) + enqueued(
            ins,
        ).filter(for_window(w)),
{
    lemma_requests_in_arrival_order(s, ins);
    let (t, acts) = run_spec(s, ins);
    Seq::filter_distributes_over_add(taken_requests(acts), t.requests, for_window(w));
    Seq::filter_distributes_over_add(s.requests, enqueued(ins), for_window(w));
}

/// Whether the queue of structural events holds no user event.
pub open spec fn structural_only<T>(q: Seq<Event<T>>) -> bool {
    forall|i: int| 0 <= i < q.len() ==> !(#[trigger] q[i] is UserEvent)
}

/// A new loop's structural queue holds no user event, so the law below holds
/// of every run from a new loop.
pub proof fn lemma_new_loop_structural_only<T>()
    ensures
        structural_only(initial_model::<T>().pending),
{
}

/// Payloads received from proxies are delivered as user events in the order
/// in which they arrived, each exactly once: at every point of every run, the
/// payloads delivered so far followed by those still queued are the payloads
/// queued at the start followed by those that arrived.
pub proof fn lemma_user_events_delivered_once_in_order<T>(
    s: LoopModel<T>,
    ins: Seq<LoopInput<T>>,
)
    requires
        structural_only(s.pending),
    ensures
        structural_only(run_spec(s, ins).0.pending),
        delivered_payloads(run_spec(s, ins).1) + run_spec(s, ins).0.user_events == s.user_events
            + received(ins),
    decreases ins.len(),
{
    if ins.len() == 0 {
        assert(delivered_payloads(Seq::<TickAction<T>>::empty()) =~= Seq::empty());
        assert(Seq::<T>::empty() + s.user_events =~= s.user_events + Seq::empty());
    } else {
        let prev = ins.drop_last();
        lemma_user_events_delivered_once_in_order(s, prev);
        lemma_run_unfold(s, ins);
        let (m, acts) = run_spec(s, prev);
        let (t, more) = input_spec(m, ins.last());
        let r0 = received(prev);
        match ins.last() {
            LoopInput::Receive(v) => {
                assert(received(ins) == r0 + seq![v]);
                assert(t.user_events == m.user_events.push(v));
                assert(delivered_payloads(acts) + m.user_events == s.user_events + r0);
                assert((delivered_payloads(acts) + m.user_events).push(v) =~= delivered_payloads(
                    acts,
                ) + t.user_events);
                assert((s.user_events + r0).push(v) =~= s.user_events + received(ins));
            },
            LoopInput::Close(id) => {
                assert(received(ins) =~= r0);
                if m.windows.contains(id) {
                    assert forall|i: int| 0 <= i < t.pending.len() implies !(#[trigger] t.pending[i] is UserEvent) by {
                        if i < m.pending.len() {
                            assert(t.pending[i] == m.pending[i]);
                        }
                    }
                }
            },
            LoopInput::Step => {
                assert(received(ins) =~= r0);
                let a = step_spec(m).1;
                assert(more == seq![a]);
                if m.phase is Dispatch && !(m.control_flow is Exit) && m.pending.len() > 0 {
                    assert(!(m.pending[0] is UserEvent));
                    assert forall|i: int| 0 <= i < t.pending.len() implies !(#[trigger] t.pending[i] is UserEvent) by {
                        assert(t.pending == m.pending.subrange(1, m.pending.len() as int));
                        assert(t.pending[i] == m.pending[i + 1]);
                    }
                }
                assert(delivered_payloads(acts + more) == delivered_payloads(acts) + match a {
                    TickAction::Deliver(Event::UserEvent(v)) => seq![v],
                    _ => Seq::empty(),
                });
                if m.phase is UserEvent && !(m.control_flow is Exit) && m.user_events.len() > 0 {
                    assert(m.user_events =~= seq![m.user_events[0]] + t.user_events);
                    assert(delivered_payloads(acts + more) =~= delivered_payloads(acts) + seq![
                        m.user_events[0],
                    ]);
                    assert(delivered_payloads(acts + more) + t.user_events =~= delivered_payloads(
                        acts,
                    ) + m.user_events);
                } else {
                    assert(t.user_events == m.user_events);
                    assert(delivered_payloads(acts + more) =~= delivered_payloads(acts));
                }
            },
            _ => {
                assert(received(ins) =~= r0);
            },
        }
    }
}

/// Destroying a registered window takes its id out of the registry and queues
/// exactly one close event for it; a further report for the same window
/// changes nothing.
pub proof fn lemma_close_reported_once<T>(s: LoopModel<T>, id: WindowId)
    requires
        s.windows.contains(id),
    ensures
        close_spec(s, id).windows == s.windows.remove(id),
        !close_spec(s, id).windows.contains(id),
        close_spec(s, id).pending == s.pending.push(close_event::<T>(id)),
        close_spec(close_spec(s, id), id) == close_spec(s, id),
{
}

/// Whether an event is the close event of window `id`.
pub open spec fn is_close_of<T>(id: WindowId) -> spec_fn(Event<T>) -> bool {
    |e: Event<T>| e == close_event::<T>(id)
}

/// How many close events of window `id` the actions delivered.
pub open spec fn delivered_closes<T>(acts: Seq<TickAction<T>>, id: WindowId) -> nat
    decreases acts.len(),
{
    if acts.len() == 0 {
        0
    } else {
        delivered_closes(acts.drop_last(), id) + if acts.last() == TickAction::Deliver(
            close_event::<T>(id),
        ) {
            1nat
        } else {
            0nat
        }
    }
}

/// Once a window is gone, and until it is registered again, no run raises
/// another close event for it: every close event of it that is delivered was
/// already queued. With `lemma_close_reported_once`, destroying a window
/// gives exactly one close event for it.
pub proof fn lemma_no_second_close<T>(s: LoopModel<T>, ins: Seq<LoopInput<T>>, id: WindowId)
    requires
        !s.windows.contains(id),
        forall|i: int| 0 <= i < ins.len() ==> ins[i] != LoopInput::<T>::Register(id),
    ensures
        !run_spec(s, ins).0.windows.contains(id),
        delivered_closes(run_spec(s, ins).1, id) + run_spec(s, ins).0.pending.filter(
            is_close_of::<T>(id),
        ).len() == s.pending.filter(is_close_of::<T>(id)).len(),
    decreases ins.len(),
{
    if ins.len() == 0 {
        return;
    }
    let prev = ins.drop_last();
    assert forall|i: int| 0 <= i < prev.len() implies prev[i] != LoopInput::<T>::Register(id) by {
        assert(prev[i] == ins[i]);
    }
    lemma_no_second_close(s, prev, id);
    lemma_run_unfold(s, ins);
    let (m, acts) = run_spec(s, prev);
    let (t, more) = input_spec(m, ins.last());
    let f = is_close_of::<T>(id);
    assert(ins.last() == ins[ins.len() - 1]);
    match ins.last() {
        LoopInput::Close(x) => {
            if m.windows.contains(x) {
                assert(x != id);
                assert(close_event::<T>(x) != close_event::<T>(id));
                Seq::filter_distributes_over_add(m.pending, seq![close_event::<T>(x)], f);
                assert(seq![close_event::<T>(x)].filter(f) =~= Seq::empty()) by {
                    reveal_with_fuel(Seq::filter, 2);
                }
                assert(m.pending.push(close_event::<T>(x)) == m.pending + seq![close_event::<T>(x)]);
            }
        },
        LoopInput::Step => {
            let a = step_spec(m).1;
            assert(more == seq![a]);
            assert(delivered_closes(acts + more, id) == delivered_closes(acts, id) + if a
                == TickAction::Deliver(close_event::<T>(id)) {
                1nat
            } else {
                0nat
            });
            if m.phase is Dispatch && !(m.control_flow is Exit) && m.pending.len() > 0 {
                let p0 = m.pending[0];
                assert(m.pending =~= seq![p0] + t.pending);
                Seq::filter_distributes_over_add(seq![p0], t.pending, f);
                reveal_with_fuel(Seq::filter, 2);
                if p0 == close_event::<T>(id) {
                    assert(seq![p0].filter(f) =~= seq![p0]);
                } else {
                    assert(seq![p0].filter(f) =~= Seq::empty());
                }
            } else {
                assert(t.pending == m.pending);
                assert(!(a == TickAction::Deliver(close_event::<T>(id))));
            }
        },
        _ => {},
    }
}

/// Destroying a registered window, with no close event of it left over from
/// an earlier life, gives exactly one close event for it over any run that
/// follows, until it is registered again: the close events of it delivered
/// plus those still queued number exactly one.
pub proof fn lemma_destroy_gives_one_close<T>(s: LoopModel<T>, ins: Seq<LoopInput<T>>, id: WindowId)
    requires
        s.windows.contains(id),
        s.pending.filter(is_close_of::<T>(id)).len() == 0,
        forall|i: int| 0 <= i < ins.len() ==> ins[i] != LoopInput::<T>::Register(id),
    ensures
        !close_spec(s, id).windows.contains(id),
        delivered_closes(run_spec(close_spec(s, id), ins).1, id) + run_spec(
            close_spec(s, id),
            ins,
        ).0.pending.filter(is_close_of::<T>(id)).len() == 1,
{
    let f = is_close_of::<T>(id);
    let e = close_event::<T>(id);
    let s1 = close_spec(s, id);
    assert(s1.pending == s.pending + seq![e]);
    Seq::filter_distributes_over_add(s.pending, seq![e], f);
    assert(seq![e].filter(f) =~= seq![e]) by {
        reveal_with_fuel(Seq::filter, 2);
    }
    assert(s1.pending.filter(f).len() == 1);
    lemma_no_second_close(s1, ins, id);
}

/// Once the control flow is `Exit`, it stays `Exit`, and no run ever delivers
/// another event or begins another tick; at most the request of the tick in
/// progress is still carried out.
pub proof fn lemma_exit_is_final<T>(s: LoopModel<T>, ins: Seq<LoopInput<T>>)
    requires
        s.control_flow is Exit,
    ensures
        run_spec(s, ins).0.control_flow is Exit,
        forall|i: int|
            0 <= i < run_spec(s, ins).1.len() ==> !(#[trigger] run_spec(s, ins).1[i] is Deliver)
                && !(run_spec(s, ins).1[i] is Yield),
    decreases ins.len(),
{
    if ins.len() > 0 {
        let prev = ins.drop_last();
        lemma_exit_is_final(s, prev);
        lemma_run_unfold(s, ins);
        let (m, acts) = run_spec(s, prev);
        let (t, more) = input_spec(m, ins.last());
        assert forall|i: int| 0 <= i < (acts + more).len() implies !(#[trigger] (acts + more)[i] is Deliver)
            && !((acts + more)[i] is Yield) by {
            if i < acts.len() {
                assert((acts + more)[i] == acts[i]);
            }
        }
    }
}

/// Once the control flow is `Exit`, the loop has ended within two steps, the
/// rest of the tick in progress.
pub proof fn lemma_exit_ends_loop<T>(s: LoopModel<T>)
    requires
        s.control_flow is Exit,
    ensures
        run_spec(s, seq![LoopInput::Step, LoopInput::Step]).0.phase is Finished,
{
    let ins = seq![LoopInput::<T>::Step, LoopInput::Step];
    let one = seq![LoopInput::<T>::Step];
    assert(ins.drop_last() =~= one);
    assert(one.drop_last() =~= Seq::<LoopInput<T>>::empty());
    lemma_run_unfold(s, one);
    lemma_run_unfold(s, ins);
    let s1 = step_spec(s).0;
    assert(run_spec(s, one).0 == s1);
    assert(s1.control_flow is Exit);
    assert(run_spec(s, ins).0 == step_spec(s1).0);
}

} // verus!
