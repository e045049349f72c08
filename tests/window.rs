use wry::window::{
    cursor_name, native_call, CursorIcon, Icon, MonitorId, NativeCall, SizeConstraint,
    UserAttentionType, WindowRequest,
};

#[test]
fn geometry_requests_map_to_moves_and_hints() {
    assert!(matches!(native_call(WindowRequest::Position(-5, 7)), Some(NativeCall::Move(-5, 7))));
    assert!(matches!(native_call(WindowRequest::Size(640, 480)), Some(NativeCall::Resize(640, 480))));
    assert!(matches!(
        native_call(WindowRequest::MinSize(10, 20)),
        Some(NativeCall::SetSizeHint { constraint: SizeConstraint::Min, width: 10, height: 20 })
    ));
    assert!(matches!(
        native_call(WindowRequest::MaxSize(0, 0)),
        Some(NativeCall::SetSizeHint { constraint: SizeConstraint::Max, width: 0, height: 0 })
    ));
}

#[test]
fn boolean_requests_pick_the_matching_call() {
    assert!(matches!(native_call(WindowRequest::Visible(true)), Some(NativeCall::Show)));
    assert!(matches!(native_call(WindowRequest::Visible(false)), Some(NativeCall::Hide)));
    assert!(matches!(native_call(WindowRequest::Minimized(true)), Some(NativeCall::Iconify)));
    assert!(matches!(native_call(WindowRequest::Minimized(false)), Some(NativeCall::Deiconify)));
    assert!(matches!(native_call(WindowRequest::Maximized(true)), Some(NativeCall::Maximize)));
    assert!(matches!(native_call(WindowRequest::Maximized(false)), Some(NativeCall::Unmaximize)));
    assert!(matches!(native_call(WindowRequest::Resizable(false)), Some(NativeCall::SetResizable(false))));
    assert!(matches!(native_call(WindowRequest::Decorations(true)), Some(NativeCall::SetDecorated(true))));
    assert!(matches!(native_call(WindowRequest::AlwaysOnTop(true)), Some(NativeCall::SetKeepAbove(true))));
}

#[test]
fn fullscreen_and_one_shot_requests() {
    assert!(matches!(native_call(WindowRequest::Fullscreen(Some(MonitorId(0)))), Some(NativeCall::Fullscreen)));
    assert!(matches!(native_call(WindowRequest::Fullscreen(None)), Some(NativeCall::Unfullscreen)));
    assert!(matches!(native_call(WindowRequest::DragWindow), Some(NativeCall::BeginMoveDrag)));
    assert!(matches!(native_call(WindowRequest::SkipTaskbar), Some(NativeCall::SetSkipTaskbarHint(true))));
}

#[test]
fn optional_requests_without_value_do_nothing() {
    assert!(native_call(WindowRequest::WindowIcon(None)).is_none());
    assert!(native_call(WindowRequest::UserAttention(None)).is_none());
    assert!(matches!(
        native_call(WindowRequest::UserAttention(Some(UserAttentionType::Critical))),
        Some(NativeCall::SetUrgencyHint(true))
    ));
}

#[test]
fn title_and_icon_are_passed_on() {
    match native_call(WindowRequest::Title("hello".to_string())) {
        Some(NativeCall::SetTitle(t)) => assert_eq!(t, "hello"),
        other => panic!("unexpected {:?}", other),
    }
    let icon = Icon { rgba: vec![1, 2, 3, 4], width: 1, height: 1 };
    match native_call(WindowRequest::WindowIcon(Some(icon))) {
        Some(NativeCall::SetIcon(i)) => assert_eq!(i.rgba, vec![1, 2, 3, 4]),
        other => panic!("unexpected {:?}", other),
    }
}

#[test]
fn cursor_requests_and_names() {
    assert!(matches!(native_call(WindowRequest::CursorIcon(None)), Some(NativeCall::SetCursor(None))));
    assert!(matches!(
        native_call(WindowRequest::CursorIcon(Some(CursorIcon::Hand))),
        Some(NativeCall::SetCursor(Some(CursorIcon::Hand)))
    ));
    assert_eq!(cursor_name(CursorIcon::Hand), "pointer");
    assert_eq!(cursor_name(CursorIcon::Arrow), "crosshair");
    assert_eq!(cursor_name(CursorIcon::NotAllowed), "not-allowed");
    assert_eq!(cursor_name(CursorIcon::NwseResize), "nwse-resize");
    assert_eq!(cursor_name(CursorIcon::Default), "default");
}

#[test]
fn icon_well_formedness() {
    assert!(Icon { rgba: vec![0; 8], width: 2, height: 1 }.is_well_formed());
    assert!(!Icon { rgba: vec![0; 7], width: 2, height: 1 }.is_well_formed());
    assert!(!Icon { rgba: Vec::new(), width: 0, height: 0 }.is_well_formed());
    assert!(!Icon { rgba: vec![0; 4], width: -1, height: -1 }.is_well_formed());
}
