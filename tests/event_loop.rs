use wry::event::{ControlFlow, Event, StartCause, WindowEvent};
use wry::event_loop::{EventLoop, EventLoopClosed};
use wry::state::TickAction;
use wry::window::{native_call, NativeCall, WindowId, WindowRequest};

/// Steps until the tick in progress ends; the callback leaves `cf` after every
/// delivery.
fn one_tick<T>(el: &mut EventLoop<T>, cf: ControlFlow) -> Vec<TickAction<T>> {
    let mut out = Vec::new();
    loop {
        let a = el.next_action();
        let end = matches!(a, TickAction::Yield | TickAction::Stop);
        if matches!(a, TickAction::Deliver(_)) {
            el.set_control_flow(cf);
        }
        out.push(a);
        if end {
            return out;
        }
    }
}

fn user_payloads<T: Clone>(acts: &[TickAction<T>]) -> Vec<T> {
    acts.iter()
        .filter_map(|a| match a {
            TickAction::Deliver(Event::UserEvent(v)) => Some(v.clone()),
            _ => None,
        })
        .collect()
}

#[test]
fn first_tick_delivers_init_then_yields() {
    let mut el = EventLoop::new();
    let acts = one_tick(&mut el, ControlFlow::Poll);
    assert_eq!(acts.len(), 4);
    assert!(matches!(acts[0], TickAction::Continue));
    assert!(matches!(acts[1], TickAction::Continue));
    assert!(matches!(acts[2], TickAction::Deliver(Event::NewEvents(StartCause::Init))));
    assert!(matches!(acts[3], TickAction::Yield));
    let acts = one_tick(&mut el, ControlFlow::Poll);
    assert!(matches!(acts[2], TickAction::Deliver(Event::MainEventsCleared)));
}

#[test]
fn requests_for_one_window_apply_in_order() {
    let mut el: EventLoop<()> = EventLoop::new();
    let w1 = WindowId(1);
    assert!(el.register_window(w1));
    let tx = el.window_target().request_sender();
    tx.send((w1, WindowRequest::Position(10, 20))).unwrap();
    tx.send((w1, WindowRequest::Size(300, 200))).unwrap();
    let mut calls = Vec::new();
    for _ in 0..3 {
        for a in one_tick(&mut el, ControlFlow::Poll) {
            if let TickAction::Apply(id, req) = a {
                assert_eq!(id, w1);
                calls.push(native_call(req));
            }
        }
    }
    assert_eq!(calls.len(), 2);
    assert!(matches!(calls[0], Some(NativeCall::Move(10, 20))));
    assert!(matches!(calls[1], Some(NativeCall::Resize(300, 200))));
}

#[test]
fn at_most_one_request_per_tick() {
    let mut el: EventLoop<()> = EventLoop::new();
    el.register_window(WindowId(4));
    let tx = el.window_target().request_sender();
    tx.send((WindowId(4), WindowRequest::Visible(true))).unwrap();
    tx.send((WindowId(4), WindowRequest::Visible(false))).unwrap();
    let acts = one_tick(&mut el, ControlFlow::Poll);
    let applied = acts.iter().filter(|a| matches!(a, TickAction::Apply(..))).count();
    assert_eq!(applied, 1);
}

#[test]
fn request_for_unknown_window_is_fatal() {
    let mut el: EventLoop<()> = EventLoop::new();
    let tx = el.window_target().request_sender();
    tx.send((WindowId(9), WindowRequest::SkipTaskbar)).unwrap();
    let acts = one_tick(&mut el, ControlFlow::Poll);
    let n = acts.len();
    assert!(matches!(acts[n - 2], TickAction::UnknownWindow(WindowId(9), WindowRequest::SkipTaskbar)));
    assert!(matches!(acts[n - 1], TickAction::Stop));
    assert!(matches!(el.next_action(), TickAction::Stop));
}

#[test]
fn user_events_delivered_once_in_send_order() {
    let mut el: EventLoop<u32> = EventLoop::with_user_event();
    let proxy = el.create_proxy();
    for v in [7u32, 8, 9] {
        assert!(proxy.send_event(v).is_ok());
    }
    let mut got = Vec::new();
    for _ in 0..5 {
        got.extend(user_payloads(&one_tick(&mut el, ControlFlow::Poll)));
    }
    assert_eq!(got, vec![7, 8, 9]);
}

#[test]
fn user_event_comes_first_in_its_tick() {
    let mut el: EventLoop<&'static str> = EventLoop::with_user_event();
    el.create_proxy().send_event("x").unwrap();
    let acts = one_tick(&mut el, ControlFlow::Poll);
    assert!(matches!(acts[0], TickAction::Deliver(Event::UserEvent("x"))));
}

#[test]
fn each_producer_keeps_its_order() {
    let mut el: EventLoop<&'static str> = EventLoop::with_user_event();
    let pa = el.create_proxy();
    let pb = pa.clone();
    pb.send_event("b").unwrap();
    pa.send_event("a").unwrap();
    pa.send_event("a2").unwrap();
    pb.send_event("b2").unwrap();
    let mut got = Vec::new();
    for _ in 0..6 {
        got.extend(user_payloads(&one_tick(&mut el, ControlFlow::Poll)));
    }
    assert_eq!(got.len(), 4);
    let pos = |s: &str| got.iter().position(|g| *g == s).unwrap();
    assert!(pos("a") < pos("a2"));
    assert!(pos("b") < pos("b2"));
}

#[test]
fn send_after_loop_dropped_is_closed() {
    let el: EventLoop<String> = EventLoop::with_user_event();
    let proxy = el.create_proxy();
    drop(el);
    match proxy.send_event("x".to_string()) {
        Err(EventLoopClosed(back)) => assert_eq!(back, "x"),
        Ok(()) => panic!("send to a dropped loop succeeded"),
    }
}

#[test]
fn closing_a_window_reports_once() {
    let mut el: EventLoop<()> = EventLoop::new();
    let w = WindowId(3);
    el.register_window(w);
    assert!(el.window_closed(w));
    assert!(!el.window_closed(w));
    assert!(el.windows().is_empty());
    let mut closes = 0;
    for _ in 0..4 {
        for a in one_tick(&mut el, ControlFlow::Poll) {
            if let TickAction::Deliver(Event::WindowEvent { window_id, event: WindowEvent::CloseRequested }) = a {
                assert_eq!(window_id, w);
                closes += 1;
            }
        }
    }
    assert_eq!(closes, 1);
}

#[test]
fn register_twice_keeps_one() {
    let mut el: EventLoop<()> = EventLoop::new();
    assert!(el.register_window(WindowId(5)));
    assert!(!el.register_window(WindowId(5)));
    assert_eq!(el.windows(), vec![WindowId(5)]);
}

#[test]
fn exit_ends_the_tick_and_the_loop() {
    let mut el: EventLoop<u8> = EventLoop::with_user_event();
    let proxy = el.create_proxy();
    proxy.send_event(1).unwrap();
    proxy.send_event(2).unwrap();
    let acts = one_tick(&mut el, ControlFlow::Exit);
    assert!(matches!(acts.last(), Some(TickAction::Stop)));
    assert!(!acts.iter().any(|a| matches!(a, TickAction::Yield)));
    assert_eq!(user_payloads(&acts), vec![1]);
    assert!(matches!(el.next_action(), TickAction::Stop));
    el.set_control_flow(ControlFlow::Poll);
    assert_eq!(el.control_flow(), ControlFlow::Exit);
    assert!(matches!(el.next_action(), TickAction::Stop));
}

#[test]
fn exit_set_in_dispatch_stops_at_settle() {
    let mut el: EventLoop<()> = EventLoop::new();
    let acts = one_tick(&mut el, ControlFlow::Exit);
    assert_eq!(acts.len(), 4);
    assert!(matches!(acts[2], TickAction::Deliver(Event::NewEvents(StartCause::Init))));
    assert!(matches!(acts[3], TickAction::Stop));
}

#[test]
fn wait_ticks_like_poll() {
    let mut el: EventLoop<()> = EventLoop::new();
    let acts = one_tick(&mut el, ControlFlow::WaitUntil(5));
    assert!(matches!(acts.last(), Some(TickAction::Yield)));
    let acts = one_tick(&mut el, ControlFlow::Wait);
    assert!(matches!(acts.last(), Some(TickAction::Yield)));
}

#[test]
fn control_flow_defaults_to_poll() {
    assert_eq!(ControlFlow::default(), ControlFlow::Poll);
    let el: EventLoop<()> = EventLoop::new();
    assert_eq!(el.control_flow(), ControlFlow::Poll);
}
