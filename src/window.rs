//! Window identifiers, the requests that mutate a window, and the native
//! calls that carry each request out.
use vstd::prelude::*;

verus! {

/// Identifier of a live window, as the native toolkit numbers it.
#[derive(Debug, Clone, Copy, PartialEq, Eq, Hash, Structural)]
pub struct WindowId(pub u32);

/// Identifier of a monitor that a window may go fullscreen on.
#[derive(Debug, Clone, Copy, PartialEq, Eq, Hash, Structural)]
pub struct MonitorId(pub u32);

/// How urgently a window asks for the user's attention.
#[derive(Debug, Clone, Copy, PartialEq, Eq, Hash, Structural)]
pub enum UserAttentionType {
    Critical,
    Informational,
}

/// A window icon as RGBA pixels, four bytes per pixel, row by row.
#[derive(Debug, Clone)]
pub struct Icon {
    pub rgba: Vec<u8>,
    pub width: i32,
    pub height: i32,
}

impl Icon {
    /// Whether the pixels fill the icon exactly: both sides positive and four
    /// bytes for each pixel.
    pub fn is_well_formed(&self) -> (r: bool)
        ensures
            r == (self.width > 0 && self.height > 0 && self.rgba@.len() == 4 * self.width
                * self.height),
    {
        if self.width <= 0 || self.height <= 0 {
            return false;
        }
        let w = self.width as u64;
        let h = self.height as u64;
        assert(w * h <= 0x3FFF_FFFF_0000_0001) by (nonlinear_arith)
            requires
                0 < w < 0x8000_0000,
                0 < h < 0x8000_0000,
        ;
        let pixels = w * h;
        assert(4 * self.width * self.height == 4 * pixels) by (nonlinear_arith)
            requires
                pixels == w * h,
                w == self.width,
                h == self.height,
        ;
        (self.rgba.len() as u64) == 4 * pixels
    }
}

/// The shape of the mouse cursor over a window.
#[derive(Debug, Clone, Copy, PartialEq, Eq, Hash, Structural)]
pub enum CursorIcon {
    Crosshair,
    Hand,
    Arrow,
    Move,
    Text,
    Wait,
    Help,
    Progress,
    NotAllowed,
    ContextMenu,
    Cell,
    VerticalText,
    Alias,
    Copy,
    NoDrop,
    Grab,
    Grabbing,
    AllScroll,
    ZoomIn,
    ZoomOut,
    EResize,
    NResize,
    NeResize,
    NwResize,
    SResize,
    SeResize,
    SwResize,
    WResize,
    EwResize,
    NsResize,
    NeswResize,
    NwseResize,
    ColResize,
    RowResize,
    Default,
}

/// A mutation of one window, sent from any thread and carried out on the
/// loop's own thread.
#[derive(Debug, Clone)]
pub enum WindowRequest {
    Title(String),
    Position(i32, i32),
    Size(i32, i32),
    MinSize(i32, i32),
    MaxSize(i32, i32),
    Visible(bool),
    Resizable(bool),
    Minimized(bool),
    Maximized(bool),
    DragWindow,
    Fullscreen(Option<MonitorId>),
    Decorations(bool),
    AlwaysOnTop(bool),
    WindowIcon(Option<Icon>),
    UserAttention(Option<UserAttentionType>),
    SkipTaskbar,
    CursorIcon(Option<CursorIcon>),
}

/// Which geometry constraint a size hint sets.
#[derive(Debug, Clone, Copy, PartialEq, Eq, Hash, Structural)]
pub enum SizeConstraint {
    Min,
    Max,
}

/// One call on a native window handle.
#[derive(Debug, Clone)]
pub enum NativeCall {
    SetTitle(String),
    /// Move to absolute screen coordinates, without clamping.
    Move(i32, i32),
    Resize(i32, i32),
    /// Set a size constraint; zero means unconstrained.
    SetSizeHint { constraint: SizeConstraint, width: i32, height: i32 },
    Show,
    Hide,
    SetResizable(bool),
    Iconify,
    Deiconify,
    Maximize,
    Unmaximize,
    /// Start an interactive move from the pointer's position with the primary
    /// button; nothing happens when there is no pointer device.
    BeginMoveDrag,
    Fullscreen,
    Unfullscreen,
    SetDecorated(bool),
    SetKeepAbove(bool),
    SetIcon(Icon),
    SetUrgencyHint(bool),
    SetSkipTaskbarHint(bool),
    /// Show the named cursor, or a blank one for `None`.
    SetCursor(Option<CursorIcon>),
}

/// The native call that carries out `req`, or `None` when the request leaves
/// the window as it is.
pub open spec fn native_call_of(req: WindowRequest) -> Option<NativeCall> {
    match req {
        WindowRequest::Title(t) => Some(NativeCall::SetTitle(t)),
        WindowRequest::Position(x, y) => Some(NativeCall::Move(x, y)),
        WindowRequest::Size(w, h) => Some(NativeCall::Resize(w, h)),
        WindowRequest::MinSize(w, h) => Some(
            NativeCall::SetSizeHint { constraint: SizeConstraint::Min, width: w, height: h },
        ),
        WindowRequest::MaxSize(w, h) => Some(
            NativeCall::SetSizeHint { constraint: SizeConstraint::Max, width: w, height: h },
        ),
        WindowRequest::Visible(v) => Some(if v { NativeCall::Show } else { NativeCall::Hide }),
        WindowRequest::Resizable(r) => Some(NativeCall::SetResizable(r)),
        WindowRequest::Minimized(m) => Some(
            if m {
                NativeCall::Iconify
            } else {
                NativeCall::Deiconify
            },
        ),
        WindowRequest::Maximized(m) => Some(
            if m {
                NativeCall::Maximize
            } else {
                NativeCall::Unmaximize
            },
        ),
        WindowRequest::DragWindow => Some(NativeCall::BeginMoveDrag),
        WindowRequest::Fullscreen(f) => Some(
            if f is Some {
                NativeCall::Fullscreen
            } else {
                NativeCall::Unfullscreen
            },
        ),
        WindowRequest::Decorations(d) => Some(NativeCall::SetDecorated(d)),
        WindowRequest::AlwaysOnTop(a) => Some(NativeCall::SetKeepAbove(a)),
        WindowRequest::WindowIcon(i) => match i {
            Some(icon) => Some(NativeCall::SetIcon(icon)),
            None => None,
        },
        WindowRequest::UserAttention(a) => if a is Some {
            Some(NativeCall::SetUrgencyHint(true))
        } else {
            None
        },
        WindowRequest::SkipTaskbar => Some(NativeCall::SetSkipTaskbarHint(true)),
        WindowRequest::CursorIcon(c) => Some(NativeCall::SetCursor(c)),
    }
}

/// The native call that carries out a window request, if any.
pub fn native_call(req: WindowRequest) -> (r: Option<NativeCall>)
    ensures
        r == native_call_of(req),
{
    match req {
        WindowRequest::Title(t) => Some(NativeCall::SetTitle(t)),
        WindowRequest::Position(x, y) => Some(NativeCall::Move(x, y)),
        WindowRequest::Size(w, h) => Some(NativeCall::Resize(w, h)),
        WindowRequest::MinSize(w, h) => Some(
            NativeCall::SetSizeHint { constraint: SizeConstraint::Min, width: w, height: h },
        ),
        WindowRequest::MaxSize(w, h) => Some(
            NativeCall::SetSizeHint { constraint: SizeConstraint::Max, width: w, height: h },
        ),
        WindowRequest::Visible(v) => Some(if v { NativeCall::Show } else { NativeCall::Hide }),
        WindowRequest::Resizable(r) => Some(NativeCall::SetResizable(r)),
        WindowRequest::Minimized(m) => Some(
            if m {
                NativeCall::Iconify
            } else {
                NativeCall::Deiconify
            },
        ),
        WindowRequest::Maximized(m) => Some(
            if m {
                NativeCall::Maximize
            } else {
                NativeCall::Unmaximize
            },
        ),
        WindowRequest::DragWindow => Some(NativeCall::BeginMoveDrag),
        WindowRequest::Fullscreen(f) => Some(
            match f {
                Some(_) => NativeCall::Fullscreen,
                None => NativeCall::Unfullscreen,
            },
        ),
        WindowRequest::Decorations(d) => Some(NativeCall::SetDecorated(d)),
        WindowRequest::AlwaysOnTop(a) => Some(NativeCall::SetKeepAbove(a)),
        WindowRequest::WindowIcon(i) => match i {
            Some(icon) => Some(NativeCall::SetIcon(icon)),
            None => None,
        },
        WindowRequest::UserAttention(a) => match a {
            Some(_) => Some(NativeCall::SetUrgencyHint(true)),
            None => None,
        },
        WindowRequest::SkipTaskbar => Some(NativeCall::SetSkipTaskbarHint(true)),
        WindowRequest::CursorIcon(c) => Some(NativeCall::SetCursor(c)),
    }
}

/// The native toolkit's name for a cursor shape.
pub open spec fn cursor_name_of(icon: CursorIcon) -> Seq<char> {
    match icon {
        CursorIcon::Crosshair => "crosshair"@,
        CursorIcon::Hand => "pointer"@,
        CursorIcon::Arrow => "crosshair"@,
        CursorIcon::Move => "move"@,
        CursorIcon::Text => "text"@,
        CursorIcon::Wait => "wait"@,
        CursorIcon::Help => "help"@,
        CursorIcon::Progress => "progress"@,
        CursorIcon::NotAllowed => "not-allowed"@,
        CursorIcon::ContextMenu => "context-menu"@,
        CursorIcon::Cell => "cell"@,
        CursorIcon::VerticalText => "vertical-text"@,
        CursorIcon::Alias => "alias"@,
        CursorIcon::Copy => "copy"@,
        CursorIcon::NoDrop => "no-drop"@,
        CursorIcon::Grab => "grab"@,
        CursorIcon::Grabbing => "grabbing"@,
        CursorIcon::AllScroll => "all-scroll"@,
        CursorIcon::ZoomIn => "zoom-in"@,
        CursorIcon::ZoomOut => "zoom-out"@,
        CursorIcon::EResize => "e-resize"@,
        CursorIcon::NResize => "n-resize"@,
        CursorIcon::NeResize => "ne-resize"@,
        CursorIcon::NwResize => "nw-resize"@,
        CursorIcon::SResize => "s-resize"@,
        CursorIcon::SeResize => "se-resize"@,
        CursorIcon::SwResize => "sw-resize"@,
        CursorIcon::WResize => "w-resize"@,
        CursorIcon::EwResize => "ew-resize"@,
        CursorIcon::NsResize => "ns-resize"@,
        CursorIcon::NeswResize => "nesw-resize"@,
        CursorIcon::NwseResize => "nwse-resize"@,
        CursorIcon::ColResize => "col-resize"@,
        CursorIcon::RowResize => "row-resize"@,
        CursorIcon::Default => "default"@,
    }
}

/// The native toolkit's name for a cursor shape.
pub fn cursor_name(icon: CursorIcon) -> (r: &'static str)
    ensures
        r@ == cursor_name_of(icon),
{
    match icon {
        CursorIcon::Crosshair => "crosshair",
        CursorIcon::Hand => "pointer",
        CursorIcon::Arrow => "crosshair",
        CursorIcon::Move => "move",
        CursorIcon::Text => "text",
        CursorIcon::Wait => "wait",
        CursorIcon::Help => "help",
        CursorIcon::Progress => "progress",
        CursorIcon::NotAllowed => "not-allowed",
        CursorIcon::ContextMenu => "context-menu",
        CursorIcon::Cell => "cell",
        CursorIcon::VerticalText => "vertical-text",
        CursorIcon::Alias => "alias",
        CursorIcon::Copy => "copy",
        CursorIcon::NoDrop => "no-drop",
        CursorIcon::Grab => "grab",
        CursorIcon::Grabbing => "grabbing",
        CursorIcon::AllScroll => "all-scroll",
        CursorIcon::ZoomIn => "zoom-in",
        CursorIcon::ZoomOut => "zoom-out",
        CursorIcon::EResize => "e-resize",
        CursorIcon::NResize => "n-resize",
        CursorIcon::NeResize => "ne-resize",
        CursorIcon::NwResize => "nw-resize",
        CursorIcon::SResize => "s-resize",
        CursorIcon::SeResize => "se-resize",
        CursorIcon::SwResize => "sw-resize",
        CursorIcon::WResize => "w-resize",
        CursorIcon::EwResize => "ew-resize",
        CursorIcon::NsResize => "ns-resize",
        CursorIcon::NeswResize => "nesw-resize",
        CursorIcon::NwseResize => "nwse-resize",
        CursorIcon::ColResize => "col-resize",
        CursorIcon::RowResize => "row-resize",
        CursorIcon::Default => "default",
    }
}

} // verus!
