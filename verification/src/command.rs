//! The closed command set carried from producer contexts to the engine
//! thread, the host-bound events, and the actions the engine hands back to
//! the platform adapter.

use vstd::prelude::*;
use crate::geometry::Rect;
use crate::hittest::ResizeDirection;
use crate::options::WindowOptions;

verus! {

/// System theme, as resolved by the platform probe.
#[derive(Clone, Copy, PartialEq, Eq, Structural, Debug)]
pub enum ThemeMode {
    Dark,
    Light,
    Unspecified,
}

/// A mouse button, as delivered by the windowing toolkit.
#[derive(Clone, Copy, PartialEq, Eq, Structural, Debug)]
pub enum MouseButton {
    Left,
    Right,
    Middle,
    Back,
    Forward,
    Other(u16),
}

/// Load progress of a page.
#[derive(Clone, Copy, PartialEq, Eq, Structural, Debug)]
pub enum LoadStatus {
    Started,
    HeadParsed,
    Complete,
}

/// Every mutation the host may request; immutable once enqueued. A command
/// that targets a window identifier no longer registered is silently
/// ignored.
#[derive(Clone, Debug)]
pub enum EngineCommand {
    /// Keep-alive: spin the rendering engine's own event pump once.
    Wake,
    /// Create a window under the given logical identifier.
    CreateWindow(WindowOptions, String),
    /// Stop the dispatch loop; the process exits afterwards.
    Quit,
    /// window id, url
    LoadUrl(String, String),
    /// window id, channel, payload as JSON text
    SendToRenderer(String, String, String),
    /// window id, host-bound message bytes, forwarded as they are
    IpcMessage(String, Vec<u8>),
    /// window id, new inner size
    Resize(String, u32, u32),
    /// window id, new outer position
    SetPosition(String, i32, i32),
    SetAlwaysOnTop(String, bool),
    RequestAttention(String),
    SetTitle(String, String),
    CloseWindow(String),
    SetDecorations(String, bool),
    ExecuteScript(String, String),
    ShowWindow(String),
    HideWindow(String),
    /// window id, drag rectangles, no-drag rectangles; replaces both sets
    UpdateDragRegions(String, Vec<Rect>, Vec<Rect>),
    MinimizeWindow(String),
    UnminimizeWindow(String),
    MaximizeWindow(String),
    UnmaximizeWindow(String),
    FocusWindow(String),
}

/// A host-bound event record; encoded to bytes at the callback boundary.
#[derive(Clone, Debug)]
pub enum HostEvent {
    AppReady { ipc_port: u16, ipc_token: String },
    Ready { window_id: String },
    LoadStatus { window_id: String, status: LoadStatus },
    FrameReady { window_id: String },
    WindowClosed { window_id: String },
    Resized { window_id: String, width: u32, height: u32 },
    Moved { window_id: String, x: i32, y: i32 },
    Focused { window_id: String },
    Unfocused { window_id: String },
}

/// The cursor icon the engine asks the toolkit to show.
#[derive(Clone, Copy, PartialEq, Eq, Structural, Debug)]
pub enum CursorChoice {
    ResizeIcon(ResizeDirection),
    DefaultIcon,
}

/// Everything the engine asks the platform adapter to create, describing one
/// native window plus its page content.
#[derive(Clone, Debug)]
pub struct CreateWindowPlan {
    pub window_id: String,
    pub title: String,
    /// Inner size the window is created with (restored or requested).
    pub width: u32,
    pub height: u32,
    /// Restored outer position, when a geometry record was used.
    pub position: Option<(i32, i32)>,
    /// OS decorations; false exactly for frameless windows.
    pub decorations: bool,
    pub transparent: bool,
    pub theme: ThemeMode,
    pub wm_class: Option<String>,
    pub frameless: bool,
    /// Reveal the window once built.
    pub visible: bool,
    /// Root path recorded as window metadata for resource resolution.
    pub root: Option<String>,
    /// Values bound into the page bootstrap scripts.
    pub port: u16,
    pub token: String,
    pub initial_url: Option<String>,
}

/// One effect the engine thread asks its surroundings to perform. The
/// engine never performs I/O itself; it returns an ordered list of these.
#[derive(Clone, Debug)]
pub enum Action {
    /// Deliver a structured event to the host callback (non-blocking).
    Emit(HostEvent),
    /// Deliver already-encoded bytes to the host callback unchanged.
    EmitRaw(Vec<u8>),
    /// Build and initialize the rendering engine; requested at most once.
    StartEngine,
    /// Create a native window and its page per the plan; report back through
    /// `Engine::complete_create` only on success.
    CreateNativeWindow(CreateWindowPlan),
    LoadUrl { window_id: String, url: String },
    EvaluateScript { window_id: String, script: String },
    /// Update the page's theme state via injected script.
    SetPageTheme { window_id: String, dark: bool },
    /// Resize the page's viewport.
    ResizeWebView { window_id: String, width: u32, height: u32 },
    /// Resize the rendering surface bound to the window.
    ResizeSurface { window_id: String, width: u32, height: u32 },
    SetOuterPosition { window_id: String, x: i32, y: i32 },
    SetAlwaysOnTop { window_id: String, flag: bool },
    RequestAttention { window_id: String },
    SetTitle { window_id: String, title: String },
    SetDecorations { window_id: String, flag: bool },
    SetVisible { window_id: String, visible: bool },
    SetMinimized { window_id: String, flag: bool },
    SetMaximized { window_id: String, flag: bool },
    FocusNative { window_id: String },
    SetCursorIcon { window_id: String, cursor: CursorChoice },
    /// Start a native resize gesture; the event that caused it is swallowed.
    BeginResizeDrag { window_id: String, direction: ResizeDirection },
    /// Start a native move gesture; the event that caused it is swallowed.
    BeginMoveDrag { window_id: String },
    /// Deliver a pointer-move input to the page.
    ForwardMouseMove { window_id: String, x: i32, y: i32 },
    /// Deliver a button input to the page.
    ForwardMouseButton { window_id: String, pressed: bool, button: MouseButton, x: i32, y: i32 },
    /// Deliver a button release to the page before a native gesture, so the
    /// page clears any pending drag or selection state.
    SyntheticMouseRelease { window_id: String, button: MouseButton, x: i32, y: i32 },
    /// Deliver a wheel input, deltas already scaled to pixels.
    ForwardWheel { window_id: String, dx: i64, dy: i64 },
    /// Repaint the window's surface now.
    RedrawSurface { window_id: String },
    /// Ask the toolkit to schedule a redraw.
    RequestRedraw { window_id: String },
    /// Write the geometry store to durable storage.
    PersistStates,
    /// Terminate the dispatch loop; the process then exits.
    Exit,
}

} // verus!
