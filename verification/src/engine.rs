//! The engine thread's state: the window registry, the native-identifier
//! index, and the dispatch of commands into effects.
//!
//! Dispatch never performs I/O: each step returns the ordered actions the
//! surrounding loop must perform. A command that targets an unknown logical
//! identifier changes nothing and yields no action — window closure races
//! with in-flight commands, so this soft-fail is deliberate.

use vstd::prelude::*;
use vstd::string::StringExecFns;
use crate::app::App;
use crate::command::{
    Action, CreateWindowPlan, CursorChoice, EngineCommand, HostEvent, MouseButton, ThemeMode,
};
use crate::geometry::Rect;
use crate::hittest::{
    classify_press, motion_decision, spec_classify_press, spec_motion_decision, CursorDecision,
    PressOutcome,
};
use crate::kvlist::KvList;
use crate::natmap::NativeIndex;
use crate::options::WindowOptions;
use crate::window_state::WindowState;

verus! {

/// What page-originated URLs the rendering engine accepts: whether parsing
/// the text as an absolute URL succeeds.
pub uninterp spec fn url_accepted(s: Seq<char>) -> bool;

/// Relies on `url::Url::parse`: with no base URL it either yields an
/// absolute URL or rejects the text, deterministically in the text alone.
#[verifier::external_body]
fn check_url(s: &str) -> (r: bool)
    ensures
        r == url_accepted(s@),
{
    url::Url::parse(s).is_ok()
}

/// One live window, as the engine tracks it: the immutable frameless flag,
/// the pointer state used for hit-testing, the two region sets, and the
/// geometry last reported by the toolkit (persisted when the window closes).
pub struct WindowInstance {
    pub frameless: bool,
    pub last_mouse_x: i32,
    pub last_mouse_y: i32,
    pub is_mouse_down: bool,
    pub drag_regions: Vec<Rect>,
    pub no_drag_regions: Vec<Rect>,
    /// Whether the cursor currently sits in the resize border band; kept to
    /// avoid redundant cursor-icon churn.
    pub in_resize_border: bool,
    pub native_id: u64,
    pub x: i32,
    pub y: i32,
    pub width: u32,
    pub height: u32,
    pub maximized: bool,
}

/// The engine thread's whole state.
pub struct Engine {
    /// Whether the rendering engine instance has been initialized.
    pub engine_started: bool,
    /// Live windows by logical identifier.
    pub windows: KvList<WindowInstance>,
    /// Native toolkit identifiers back to logical identifiers.
    pub native_index: NativeIndex,
}

/// The plan a creation command resolves to, before any native call: restored
/// geometry wins over the requested one when restore is on and a record
/// exists.
pub open spec fn spec_create_plan(
    states: Map<Seq<char>, WindowState>,
    port: u16,
    token: String,
    options: WindowOptions,
    window_id: String,
    theme: ThemeMode,
) -> CreateWindowPlan {
    let restored: Option<WindowState> = if options.restore_state && states.contains_key(
        window_id@,
    ) {
        Some(states[window_id@])
    } else {
        None
    };
    CreateWindowPlan {
        window_id: window_id,
        title: options.title,
        width: if restored is Some {
            restored->Some_0.width
        } else {
            options.width
        },
        height: if restored is Some {
            restored->Some_0.height
        } else {
            options.height
        },
        position: match restored {
            Some(st) => Some((st.x, st.y)),
            None => None,
        },
        decorations: !options.frameless,
        transparent: options.transparent,
        theme: theme,
        wm_class: options.wm_class,
        frameless: options.frameless,
        visible: options.visible,
        root: options.root,
        port: port,
        token: token,
        initial_url: options.initial_url,
    }
}

/// The script that delivers a host message to the page's channel handlers.
pub open spec fn emit_script_text(channel: Seq<char>, json: Seq<char>) -> Seq<char> {
    "if (window.lotus) { window.lotus.emit('"@ + channel + "', "@ + json + "); }"@
}

/// A newly registered window: empty region sets, pointer state cleared,
/// geometry tracking seeded from the plan.
pub open spec fn inst_init(inst: WindowInstance, plan: CreateWindowPlan, native_id: u64) -> bool {
    &&& inst.frameless == plan.frameless
    &&& inst.last_mouse_x == 0
    &&& inst.last_mouse_y == 0
    &&& !inst.is_mouse_down
    &&& inst.drag_regions@ =~= Seq::<Rect>::empty()
    &&& inst.no_drag_regions@ =~= Seq::<Rect>::empty()
    &&& !inst.in_resize_border
    &&& inst.native_id == native_id
    &&& inst.x == (match plan.position {
        Some(p) => p.0,
        None => 0,
    })
    &&& inst.y == (match plan.position {
        Some(p) => p.1,
        None => 0,
    })
    &&& inst.width == plan.width
    &&& inst.height == plan.height
    &&& !inst.maximized
}

/// A native window event, as the toolkit delivers it to the engine thread.
/// Each variant carries the geometry the dispatch needs, read at event time.
#[derive(Clone, Copy, PartialEq, Eq, Structural, Debug)]
pub enum WindowEvent {
    /// The user asked to close the window; carries the geometry snapshot to
    /// persist.
    CloseRequested { x: i32, y: i32, width: u32, height: u32, maximized: bool },
    RedrawRequested,
    Resized { width: u32, height: u32 },
    /// Pointer motion at `(x, y)`, with the window's current inner size.
    CursorMoved { x: i32, y: i32, win_width: u32, win_height: u32 },
    /// A button press or release, with the window's current inner size; the
    /// pointer position is the last reported motion.
    MouseInput { pressed: bool, button: MouseButton, win_width: u32, win_height: u32 },
    /// Wheel deltas, in device pixels before scroll scaling.
    Wheel { dx: i32, dy: i32 },
    Moved { x: i32, y: i32 },
    Focused { focused: bool },
    ThemeChanged { dark: bool },
}

/// The record persisted for an instance when its window closes.
pub open spec fn closing_record(inst: WindowInstance) -> WindowState {
    WindowState {
        x: inst.x,
        y: inst.y,
        width: inst.width,
        height: inst.height,
        maximized: inst.maximized,
        fullscreen: false,
    }
}

impl Engine {
    pub open spec fn wf(&self) -> bool {
        &&& self.windows.wf()
        &&& self.native_index.wf()
    }

    /// A fresh engine thread state: nothing started, nothing registered.
    pub fn new() -> (r: Engine)
        ensures
            r.wf(),
            !r.engine_started,
            r.windows@ =~= Map::<Seq<char>, WindowInstance>::empty(),
            r.native_index@ =~= Map::<u64, String>::empty(),
    {
        Engine { engine_started: false, windows: KvList::new(), native_index: NativeIndex::new() }
    }

    /// Lazily marks the rendering engine initialized. Returns whether it
    /// still has to be built: true exactly on the first call, so a second
    /// initialization attempt is a no-op.
    pub fn ensure_engine(&mut self) -> (needs_start: bool)
        ensures
            final(self).engine_started,
            needs_start == !old(self).engine_started,
            final(self).windows == old(self).windows,
            final(self).native_index == old(self).native_index,
    {
        let needs_start = !self.engine_started;
        self.engine_started = true;
        needs_start
    }

    /// Dispatches one command: mutates the registry and the shared state,
    /// and returns the actions the loop must perform, in order. `theme` is
    /// the system theme the platform probe resolved for this dispatch.
    pub fn handle_command(&mut self, app: &mut App, cmd: EngineCommand, theme: ThemeMode) -> (r:
        Vec<Action>)
        requires
            old(self).wf(),
            old(app).wf(),
        ensures
            final(self).wf(),
            final(app).wf(),
            match cmd {
                EngineCommand::Wake => {
                    &&& *final(self) == *old(self)
                    &&& *final(app) == *old(app)
                    &&& r@ =~= Seq::<Action>::empty()
                },
                EngineCommand::Quit => {
                    &&& *final(self) == *old(self)
                    &&& *final(app) == *old(app)
                    &&& r@ =~= seq![Action::Exit]
                },
                EngineCommand::IpcMessage(_window_id, bytes) => {
                    &&& *final(self) == *old(self)
                    &&& *final(app) == *old(app)
                    &&& r@ =~= seq![Action::EmitRaw(bytes)]
                },
                EngineCommand::CreateWindow(options, window_id) => {
                    &&& final(self).engine_started
                    &&& final(self).windows == old(self).windows
                    &&& final(self).native_index == old(self).native_index
                    &&& *final(app) == *old(app)
                    &&& r@ =~= (if old(self).engine_started {
                        Seq::<Action>::empty()
                    } else {
                        seq![Action::StartEngine]
                    }) + seq![
                        Action::CreateNativeWindow(
                            spec_create_plan(
                                old(app).window_states@,
                                old(app).ipc_server_port,
                                old(app).ipc_server_token,
                                options,
                                window_id,
                                theme,
                            ),
                        ),
                    ]
                },
                EngineCommand::LoadUrl(window_id, url) => {
                    &&& *final(self) == *old(self)
                    &&& *final(app) == *old(app)
                    &&& r@ =~= if old(self).windows@.contains_key(window_id@) && url_accepted(
                        url@,
                    ) {
                        seq![Action::LoadUrl { window_id, url }]
                    } else {
                        Seq::<Action>::empty()
                    }
                },
                EngineCommand::SendToRenderer(window_id, channel, json) => {
                    &&& *final(self) == *old(self)
                    &&& *final(app) == *old(app)
                    &&& if old(self).windows@.contains_key(window_id@) {
                        &&& r@.len() == 1
                        &&& (r@[0] matches Action::EvaluateScript { window_id: wid, script }
                            && wid == window_id && script@ == emit_script_text(channel@, json@))
                    } else {
                        r@ =~= Seq::<Action>::empty()
                    }
                },
                EngineCommand::Resize(window_id, width, height) => {
                    &&& *final(self) == *old(self)
                    &&& *final(app) == *old(app)
                    &&& r@ =~= if old(self).windows@.contains_key(window_id@) {
                        seq![Action::ResizeWebView { window_id, width, height }]
                    } else {
                        Seq::<Action>::empty()
                    }
                },
                EngineCommand::SetPosition(window_id, x, y) => {
                    &&& *final(self) == *old(self)
                    &&& *final(app) == *old(app)
                    &&& r@ =~= if old(self).windows@.contains_key(window_id@) {
                        seq![Action::SetOuterPosition { window_id, x, y }]
                    } else {
                        Seq::<Action>::empty()
                    }
                },
                EngineCommand::SetAlwaysOnTop(window_id, flag) => {
                    &&& *final(self) == *old(self)
                    &&& *final(app) == *old(app)
                    &&& r@ =~= if old(self).windows@.contains_key(window_id@) {
                        seq![Action::SetAlwaysOnTop { window_id, flag }]
                    } else {
                        Seq::<Action>::empty()
                    }
                },
                EngineCommand::RequestAttention(window_id) => {
                    &&& *final(self) == *old(self)
                    &&& *final(app) == *old(app)
                    &&& r@ =~= if old(self).windows@.contains_key(window_id@) {
                        seq![Action::RequestAttention { window_id }]
                    } else {
                        Seq::<Action>::empty()
                    }
                },
                EngineCommand::SetTitle(window_id, title) => {
                    &&& *final(self) == *old(self)
                    &&& *final(app) == *old(app)
                    &&& r@ =~= if old(self).windows@.contains_key(window_id@) {
                        seq![Action::SetTitle { window_id, title }]
                    } else {
                        Seq::<Action>::empty()
                    }
                },
                EngineCommand::CloseWindow(window_id) => {
                    if old(self).windows@.contains_key(window_id@) {
                        let inst = old(self).windows@[window_id@];
                        &&& final(self).windows@ =~= old(self).windows@.remove(window_id@)
                        &&& final(self).native_index@ =~= old(self).native_index@.remove(
                            inst.native_id,
                        )
                        &&& final(self).engine_started == old(self).engine_started
                        &&& final(app).window_states@ =~= old(app).window_states@.insert(
                            window_id@,
                            closing_record(inst),
                        )
                        &&& final(app).window_metadata == old(app).window_metadata
                        &&& final(app).ipc_server_port == old(app).ipc_server_port
                        &&& final(app).ipc_server_token == old(app).ipc_server_token
                        &&& r@ =~= seq![
                            Action::PersistStates,
                            Action::Emit(HostEvent::WindowClosed { window_id }),
                        ] + (if final(self).windows@ =~= Map::<Seq<char>, WindowInstance>::empty() {
                            seq![Action::Exit]
                        } else {
                            Seq::<Action>::empty()
                        })
                    } else {
                        &&& *final(self) == *old(self)
                        &&& *final(app) == *old(app)
                        &&& r@ =~= Seq::<Action>::empty()
                    }
                },
                EngineCommand::SetDecorations(window_id, flag) => {
                    &&& *final(self) == *old(self)
                    &&& *final(app) == *old(app)
                    &&& r@ =~= if old(self).windows@.contains_key(window_id@) {
                        seq![Action::SetDecorations { window_id, flag }]
                    } else {
                        Seq::<Action>::empty()
                    }
                },
                EngineCommand::ExecuteScript(window_id, script) => {
                    &&& *final(self) == *old(self)
                    &&& *final(app) == *old(app)
                    &&& r@ =~= if old(self).windows@.contains_key(window_id@) {
                        seq![Action::EvaluateScript { window_id, script }]
                    } else {
                        Seq::<Action>::empty()
                    }
                },
                EngineCommand::ShowWindow(window_id) => {
                    &&& *final(self) == *old(self)
                    &&& *final(app) == *old(app)
                    &&& r@ =~= if old(self).windows@.contains_key(window_id@) {
                        seq![Action::SetVisible { window_id, visible: true }]
                    } else {
                        Seq::<Action>::empty()
                    }
                },
                EngineCommand::HideWindow(window_id) => {
                    &&& *final(self) == *old(self)
                    &&& *final(app) == *old(app)
                    &&& r@ =~= if old(self).windows@.contains_key(window_id@) {
                        seq![Action::SetVisible { window_id, visible: false }]
                    } else {
                        Seq::<Action>::empty()
                    }
                },
                EngineCommand::UpdateDragRegions(window_id, drag, no_drag) => {
                    &&& *final(app) == *old(app)
                    &&& final(self).engine_started == old(self).engine_started
                    &&& final(self).native_index == old(self).native_index
                    &&& r@ =~= Seq::<Action>::empty()
                    &&& if old(self).windows@.contains_key(window_id@) {
                        final(self).windows@ =~= old(self).windows@.insert(
                            window_id@,
                            WindowInstance {
                                drag_regions: drag,
                                no_drag_regions: no_drag,
                                ..old(self).windows@[window_id@]
                            },
                        )
                    } else {
                        final(self).windows == old(self).windows
                    }
                },
                EngineCommand::MinimizeWindow(window_id) => {
                    &&& *final(self) == *old(self)
                    &&& *final(app) == *old(app)
                    &&& r@ =~= if old(self).windows@.contains_key(window_id@) {
                        seq![Action::SetMinimized { window_id, flag: true }]
                    } else {
                        Seq::<Action>::empty()
                    }
                },
                EngineCommand::UnminimizeWindow(window_id) => {
                    &&& *final(self) == *old(self)
                    &&& *final(app) == *old(app)
                    &&& r@ =~= if old(self).windows@.contains_key(window_id@) {
                        seq![Action::SetMinimized { window_id, flag: false }]
                    } else {
                        Seq::<Action>::empty()
                    }
                },
                EngineCommand::MaximizeWindow(window_id) => {
                    &&& *final(app) == *old(app)
                    &&& final(self).engine_started == old(self).engine_started
                    &&& final(self).native_index == old(self).native_index
                    &&& if old(self).windows@.contains_key(window_id@) {
                        &&& final(self).windows@ =~= old(self).windows@.insert(
                            window_id@,
                            WindowInstance {
                                maximized: true,
                                ..old(self).windows@[window_id@]
                            },
                        )
                        &&& r@ =~= seq![Action::SetMaximized { window_id, flag: true }]
                    } else {
                        &&& final(self).windows == old(self).windows
                        &&& r@ =~= Seq::<Action>::empty()
                    }
                },
                EngineCommand::UnmaximizeWindow(window_id) => {
                    &&& *final(app) == *old(app)
                    &&& final(self).engine_started == old(self).engine_started
                    &&& final(self).native_index == old(self).native_index
                    &&& if old(self).windows@.contains_key(window_id@) {
                        &&& final(self).windows@ =~= old(self).windows@.insert(
                            window_id@,
                            WindowInstance {
                                maximized: false,
                                ..old(self).windows@[window_id@]
                            },
                        )
                        &&& r@ =~= seq![Action::SetMaximized { window_id, flag: false }]
                    } else {
                        &&& final(self).windows == old(self).windows
                        &&& r@ =~= Seq::<Action>::empty()
                    }
                },
                EngineCommand::FocusWindow(window_id) => {
                    &&& *final(self) == *old(self)
                    &&& *final(app) == *old(app)
                    &&& r@ =~= if old(self).windows@.contains_key(window_id@) {
                        seq![Action::FocusNative { window_id }]
                    } else {
                        Seq::<Action>::empty()
                    }
                },
            },
    {
        match cmd {
            EngineCommand::Wake => Vec::new(),
            EngineCommand::Quit => {
                let mut acts: Vec<Action> = Vec::new();
                acts.push(Action::Exit);
                proof {
                    assert(acts@ =~= seq![Action::Exit]);
                }
                acts
            },
            EngineCommand::IpcMessage(_window_id, bytes) => {
                let ghost b = bytes@;
                let mut acts: Vec<Action> = Vec::new();
                acts.push(Action::EmitRaw(bytes));
                proof {
                    assert(acts@.len() == 1);
                }
                acts
            },
            EngineCommand::CreateWindow(options, window_id) => {
                let mut acts: Vec<Action> = Vec::new();
                if self.ensure_engine() {
                    acts.push(Action::StartEngine);
                }
                let restored: Option<&WindowState> = if options.restore_state {
                    app.window_states.get_window_state(window_id.as_str())
                } else {
                    None
                };
                let (width, height, position) = match restored {
                    Some(st) => (st.width, st.height, Some((st.x, st.y))),
                    None => (options.width, options.height, None),
                };
                let plan = CreateWindowPlan {
                    window_id: window_id,
                    title: options.title,
                    width,
                    height,
                    position,
                    decorations: !options.frameless,
                    transparent: options.transparent,
                    theme,
                    wm_class: options.wm_class,
                    frameless: options.frameless,
                    visible: options.visible,
                    root: options.root,
                    port: app.ipc_server_port,
                    token: app.ipc_server_token.clone(),
                    initial_url: options.initial_url,
                };
                acts.push(Action::CreateNativeWindow(plan));
                acts
            },
            EngineCommand::LoadUrl(window_id, url) => {
                if self.windows.contains_key(&window_id) && check_url(url.as_str()) {
                    let mut acts: Vec<Action> = Vec::new();
                    acts.push(Action::LoadUrl { window_id, url });
                    acts
                } else {
                    Vec::new()
                }
            },
            EngineCommand::SendToRenderer(window_id, channel, json) => {
                if self.windows.contains_key(&window_id) {
                    let mut script = String::from_str("if (window.lotus) { window.lotus.emit('");
                    script.append(channel.as_str());
                    script.append("', ");
                    script.append(json.as_str());
                    script.append("); }");
                    let mut acts: Vec<Action> = Vec::new();
                    acts.push(Action::EvaluateScript { window_id, script });
                    acts
                } else {
                    Vec::new()
                }
            },
            EngineCommand::Resize(window_id, width, height) => {
                if self.windows.contains_key(&window_id) {
                    let mut acts: Vec<Action> = Vec::new();
                    acts.push(Action::ResizeWebView { window_id, width, height });
                    acts
                } else {
                    Vec::new()
                }
            },
            EngineCommand::SetPosition(window_id, x, y) => {
                if self.windows.contains_key(&window_id) {
                    let mut acts: Vec<Action> = Vec::new();
                    acts.push(Action::SetOuterPosition { window_id, x, y });
                    acts
                } else {
                    Vec::new()
                }
            },
            EngineCommand::SetAlwaysOnTop(window_id, flag) => {
                if self.windows.contains_key(&window_id) {
                    let mut acts: Vec<Action> = Vec::new();
                    acts.push(Action::SetAlwaysOnTop { window_id, flag });
                    acts
                } else {
                    Vec::new()
                }
            },
            EngineCommand::RequestAttention(window_id) => {
                if self.windows.contains_key(&window_id) {
                    let mut acts: Vec<Action> = Vec::new();
                    acts.push(Action::RequestAttention { window_id });
                    acts
                } else {
                    Vec::new()
                }
            },
            EngineCommand::SetTitle(window_id, title) => {
                if self.windows.contains_key(&window_id) {
                    let mut acts: Vec<Action> = Vec::new();
                    acts.push(Action::SetTitle { window_id, title });
                    acts
                } else {
                    Vec::new()
                }
            },
            EngineCommand::CloseWindow(window_id) => {
                match self.windows.remove(&window_id) {
                    Some(inst) => {
                        app.window_states.save_window_state(
                            window_id.as_str(),
                            WindowState {
                                x: inst.x,
                                y: inst.y,
                                width: inst.width,
                                height: inst.height,
                                maximized: inst.maximized,
                                fullscreen: false,
                            },
                        );
                        self.native_index.remove(inst.native_id);
                        let mut acts: Vec<Action> = Vec::new();
                        acts.push(Action::PersistStates);
                        acts.push(
                            Action::Emit(HostEvent::WindowClosed { window_id: window_id }),
                        );
                        if self.windows.is_empty() {
                            acts.push(Action::Exit);
                        }
                        acts
                    },
                    None => Vec::new(),
                }
            },
            EngineCommand::SetDecorations(window_id, flag) => {
                if self.windows.contains_key(&window_id) {
                    let mut acts: Vec<Action> = Vec::new();
                    acts.push(Action::SetDecorations { window_id, flag });
                    acts
                } else {
                    Vec::new()
                }
            },
            EngineCommand::ExecuteScript(window_id, script) => {
                if self.windows.contains_key(&window_id) {
                    let mut acts: Vec<Action> = Vec::new();
                    acts.push(Action::EvaluateScript { window_id, script });
                    acts
                } else {
                    Vec::new()
                }
            },
            EngineCommand::ShowWindow(window_id) => {
                if self.windows.contains_key(&window_id) {
                    let mut acts: Vec<Action> = Vec::new();
                    acts.push(Action::SetVisible { window_id, visible: true });
                    acts
                } else {
                    Vec::new()
                }
            },
            EngineCommand::HideWindow(window_id) => {
                if self.windows.contains_key(&window_id) {
                    let mut acts: Vec<Action> = Vec::new();
                    acts.push(Action::SetVisible { window_id, visible: false });
                    acts
                } else {
                    Vec::new()
                }
            },
            EngineCommand::UpdateDragRegions(window_id, drag, no_drag) => {
                match self.windows.remove(&window_id) {
                    Some(inst) => {
                        let updated = WindowInstance { drag_regions: drag, no_drag_regions: no_drag, ..inst };
                        self.windows.insert(window_id, updated);
                    },
                    None => {},
                }
                Vec::new()
            },
            EngineCommand::MinimizeWindow(window_id) => {
                if self.windows.contains_key(&window_id) {
                    let mut acts: Vec<Action> = Vec::new();
                    acts.push(Action::SetMinimized { window_id, flag: true });
                    acts
                } else {
                    Vec::new()
                }
            },
            EngineCommand::UnminimizeWindow(window_id) => {
                if self.windows.contains_key(&window_id) {
                    let mut acts: Vec<Action> = Vec::new();
                    acts.push(Action::SetMinimized { window_id, flag: false });
                    acts
                } else {
                    Vec::new()
                }
            },
            EngineCommand::MaximizeWindow(window_id) => {
                match self.windows.remove(&window_id) {
                    Some(inst) => {
                        let updated = WindowInstance { maximized: true, ..inst };
                        self.windows.insert(window_id.clone(), updated);
                        let mut acts: Vec<Action> = Vec::new();
                        acts.push(Action::SetMaximized { window_id, flag: true });
                        acts
                    },
                    None => Vec::new(),
                }
            },
            EngineCommand::UnmaximizeWindow(window_id) => {
                match self.windows.remove(&window_id) {
                    Some(inst) => {
                        let updated = WindowInstance { maximized: false, ..inst };
                        self.windows.insert(window_id.clone(), updated);
                        let mut acts: Vec<Action> = Vec::new();
                        acts.push(Action::SetMaximized { window_id, flag: false });
                        acts
                    },
                    None => Vec::new(),
                }
            },
            EngineCommand::FocusWindow(window_id) => {
                if self.windows.contains_key(&window_id) {
                    let mut acts: Vec<Action> = Vec::new();
                    acts.push(Action::FocusNative { window_id });
                    acts
                } else {
                    Vec::new()
                }
            },
        }
    }

    /// Registers a window whose native creation succeeded, and returns the
    /// follow-up actions: reveal it when requested, schedule the first
    /// paint, and announce readiness. On failure this is never called, so
    /// the identifier stays unregistered and later commands against it are
    /// ignored. Creating over an existing identifier replaces it.
    pub fn complete_create(&mut self, app: &mut App, plan: CreateWindowPlan, native_id: u64) -> (r:
        Vec<Action>)
        requires
            old(self).wf(),
            old(app).wf(),
        ensures
            final(self).wf(),
            final(app).wf(),
            final(self).engine_started == old(self).engine_started,
            final(self).windows@ =~= old(self).windows@.insert(
                plan.window_id@,
                final(self).windows@[plan.window_id@],
            ),
            final(self).windows@.contains_key(plan.window_id@),
            inst_init(final(self).windows@[plan.window_id@], plan, native_id),
            final(self).native_index@ =~= old(self).native_index@.insert(
                native_id,
                plan.window_id,
            ),
            final(app).window_metadata@ =~= old(app).window_metadata@.insert(
                plan.window_id@,
                plan.root,
            ),
            final(app).window_states == old(app).window_states,
            final(app).ipc_server_port == old(app).ipc_server_port,
            final(app).ipc_server_token == old(app).ipc_server_token,
            r@ =~= (if plan.visible {
                seq![Action::SetVisible { window_id: plan.window_id, visible: true }]
            } else {
                Seq::<Action>::empty()
            }) + seq![
                Action::RequestRedraw { window_id: plan.window_id },
                Action::Emit(HostEvent::Ready { window_id: plan.window_id }),
            ],
    {
        let instance = WindowInstance {
            frameless: plan.frameless,
            last_mouse_x: 0,
            last_mouse_y: 0,
            is_mouse_down: false,
            drag_regions: Vec::new(),
            no_drag_regions: Vec::new(),
            in_resize_border: false,
            native_id,
            x: match plan.position {
                Some(p) => p.0,
                None => 0,
            },
            y: match plan.position {
                Some(p) => p.1,
                None => 0,
            },
            width: plan.width,
            height: plan.height,
            maximized: false,
        };
        self.windows.insert(plan.window_id.clone(), instance);
        self.native_index.insert(native_id, plan.window_id.clone());
        app.window_metadata.insert(plan.window_id.clone(), plan.root);
        let mut acts: Vec<Action> = Vec::new();
        if plan.visible {
            acts.push(Action::SetVisible { window_id: plan.window_id.clone(), visible: true });
        }
        acts.push(Action::RequestRedraw { window_id: plan.window_id.clone() });
        acts.push(Action::Emit(HostEvent::Ready { window_id: plan.window_id }));
        acts
    }

    /// Dispatches one native window event. An event whose native identifier
    /// maps to no registered window changes nothing and yields no action.
    #[verifier::rlimit(100)]
    pub fn handle_window_event(&mut self, app: &mut App, native_id: u64, event: WindowEvent) -> (r:
        Vec<Action>)
        requires
            old(self).wf(),
            old(app).wf(),
        ensures
            final(self).wf(),
            final(app).wf(),
            final(self).engine_started == old(self).engine_started,
            ({
                let known = old(self).native_index@.contains_key(native_id)
                    && old(self).windows@.contains_key(old(self).native_index@[native_id]@);
                if !known {
                    &&& *final(self) == *old(self)
                    &&& *final(app) == *old(app)
                    &&& r@ =~= Seq::<Action>::empty()
                } else {
                    let uuid = old(self).native_index@[native_id];
                    let inst = old(self).windows@[uuid@];
                    match event {
                        WindowEvent::ThemeChanged { dark } => {
                            &&& *final(self) == *old(self)
                            &&& *final(app) == *old(app)
                            &&& r@ =~= seq![Action::SetPageTheme { window_id: uuid, dark }]
                        },
                        WindowEvent::RedrawRequested => {
                            &&& *final(self) == *old(self)
                            &&& *final(app) == *old(app)
                            &&& r@ =~= seq![Action::RedrawSurface { window_id: uuid }]
                        },
                        WindowEvent::Wheel { dx, dy } => {
                            &&& *final(self) == *old(self)
                            &&& *final(app) == *old(app)
                            &&& r@ =~= seq![
                                Action::ForwardWheel {
                                    window_id: uuid,
                                    dx: ((dx as int) * 20) as i64,
                                    dy: ((dy as int) * 20) as i64,
                                },
                            ]
                        },
                        WindowEvent::Focused { focused } => {
                            &&& *final(self) == *old(self)
                            &&& *final(app) == *old(app)
                            &&& r@ =~= seq![
                                Action::Emit(
                                    if focused {
                                        HostEvent::Focused { window_id: uuid }
                                    } else {
                                        HostEvent::Unfocused { window_id: uuid }
                                    },
                                ),
                            ]
                        },
                        WindowEvent::Moved { x, y } => {
                            &&& final(self).windows@ =~= old(self).windows@.insert(
                                uuid@,
                                WindowInstance { x, y, ..inst },
                            )
                            &&& final(self).native_index == old(self).native_index
                            &&& *final(app) == *old(app)
                            &&& r@ =~= seq![
                                Action::Emit(HostEvent::Moved { window_id: uuid, x, y }),
                            ]
                        },
                        WindowEvent::Resized { width, height } => {
                            &&& final(self).windows@ =~= old(self).windows@.insert(
                                uuid@,
                                WindowInstance { width, height, ..inst },
                            )
                            &&& final(self).native_index == old(self).native_index
                            &&& *final(app) == *old(app)
                            &&& r@ =~= seq![
                                Action::ResizeWebView { window_id: uuid, width, height },
                                Action::ResizeSurface { window_id: uuid, width, height },
                                Action::Emit(
                                    HostEvent::Resized { window_id: uuid, width, height },
                                ),
                            ]
                        },
                        WindowEvent::CloseRequested { x, y, width, height, maximized } => {
                            &&& final(self).windows@ =~= old(self).windows@.remove(uuid@)
                            &&& final(self).native_index@ =~= old(self).native_index@.remove(
                                native_id,
                            )
                            &&& final(app).window_states@ =~= old(app).window_states@.insert(
                                uuid@,
                                WindowState { x, y, width, height, maximized, fullscreen: false },
                            )
                            &&& final(app).window_metadata == old(app).window_metadata
                            &&& final(app).ipc_server_port == old(app).ipc_server_port
                            &&& final(app).ipc_server_token == old(app).ipc_server_token
                            &&& r@ =~= seq![
                                Action::PersistStates,
                                Action::Emit(HostEvent::WindowClosed { window_id: uuid }),
                            ] + (if final(self).windows@ =~= Map::<
                                Seq<char>,
                                WindowInstance,
                            >::empty() {
                                seq![Action::Exit]
                            } else {
                                Seq::<Action>::empty()
                            })
                        },
                        WindowEvent::CursorMoved { x, y, win_width, win_height } => {
                            let step = spec_motion_decision(
                                inst.frameless,
                                inst.no_drag_regions@,
                                inst.in_resize_border,
                                x as int,
                                y as int,
                                win_width as int,
                                win_height as int,
                            );
                            &&& final(self).windows@ =~= old(self).windows@.insert(
                                uuid@,
                                WindowInstance {
                                    last_mouse_x: x,
                                    last_mouse_y: y,
                                    in_resize_border: step.0,
                                    ..inst
                                },
                            )
                            &&& final(self).native_index == old(self).native_index
                            &&& *final(app) == *old(app)
                            &&& r@ =~= (match step.1 {
                                CursorDecision::SetResize(d) => seq![
                                    Action::SetCursorIcon {
                                        window_id: uuid,
                                        cursor: CursorChoice::ResizeIcon(d),
                                    },
                                ],
                                CursorDecision::SetDefault => seq![
                                    Action::SetCursorIcon {
                                        window_id: uuid,
                                        cursor: CursorChoice::DefaultIcon,
                                    },
                                ],
                                CursorDecision::Yield => Seq::<Action>::empty(),
                            }) + seq![Action::ForwardMouseMove { window_id: uuid, x, y }]
                        },
                        WindowEvent::MouseInput { pressed, button, win_width, win_height } => {
                            let gesture = pressed && button == MouseButton::Left && inst.frameless;
                            let outcome = spec_classify_press(
                                inst.frameless,
                                inst.drag_regions@,
                                inst.no_drag_regions@,
                                inst.last_mouse_x as int,
                                inst.last_mouse_y as int,
                                win_width as int,
                                win_height as int,
                            );
                            &&& final(self).native_index == old(self).native_index
                            &&& *final(app) == *old(app)
                            &&& if gesture && outcome is BeginResize {
                                &&& final(self).windows@ =~= old(self).windows@.insert(
                                    uuid@,
                                    WindowInstance { is_mouse_down: false, ..inst },
                                )
                                &&& r@ =~= seq![
                                    Action::SyntheticMouseRelease {
                                        window_id: uuid,
                                        button,
                                        x: inst.last_mouse_x,
                                        y: inst.last_mouse_y,
                                    },
                                    Action::BeginResizeDrag {
                                        window_id: uuid,
                                        direction: outcome->BeginResize_0,
                                    },
                                ]
                            } else if gesture && outcome is BeginMove {
                                &&& final(self).windows@ =~= old(self).windows@.insert(
                                    uuid@,
                                    WindowInstance { is_mouse_down: false, ..inst },
                                )
                                &&& r@ =~= seq![
                                    Action::SyntheticMouseRelease {
                                        window_id: uuid,
                                        button,
                                        x: inst.last_mouse_x,
                                        y: inst.last_mouse_y,
                                    },
                                    Action::BeginMoveDrag { window_id: uuid },
                                ]
                            } else {
                                &&& final(self).windows@ =~= old(self).windows@.insert(
                                    uuid@,
                                    WindowInstance { is_mouse_down: pressed, ..inst },
                                )
                                &&& r@ =~= seq![
                                    Action::ForwardMouseButton {
                                        window_id: uuid,
                                        pressed,
                                        button,
                                        x: inst.last_mouse_x,
                                        y: inst.last_mouse_y,
                                    },
                                ]
                            }
                        },
                    }
                }
            }),
    {
        let uuid = match self.native_index.get(native_id) {
            Some(s) => s.clone(),
            None => {
                return Vec::new();
            },
        };
        match event {
            WindowEvent::ThemeChanged { dark } => {
                if self.windows.contains_key(&uuid) {
                    let mut acts: Vec<Action> = Vec::new();
                    acts.push(Action::SetPageTheme { window_id: uuid, dark });
                    acts
                } else {
                    Vec::new()
                }
            },
            WindowEvent::RedrawRequested => {
                if self.windows.contains_key(&uuid) {
                    let mut acts: Vec<Action> = Vec::new();
                    acts.push(Action::RedrawSurface { window_id: uuid });
                    acts
                } else {
                    Vec::new()
                }
            },
            WindowEvent::Wheel { dx, dy } => {
                if self.windows.contains_key(&uuid) {
                    let mut acts: Vec<Action> = Vec::new();
                    acts.push(
                        Action::ForwardWheel {
                            window_id: uuid,
                            dx: (dx as i64) * 20,
                            dy: (dy as i64) * 20,
                        },
                    );
                    acts
                } else {
                    Vec::new()
                }
            },
            WindowEvent::Focused { focused } => {
                if self.windows.contains_key(&uuid) {
                    let mut acts: Vec<Action> = Vec::new();
                    if focused {
                        acts.push(Action::Emit(HostEvent::Focused { window_id: uuid }));
                    } else {
                        acts.push(Action::Emit(HostEvent::Unfocused { window_id: uuid }));
                    }
                    acts
                } else {
                    Vec::new()
                }
            },
            WindowEvent::Moved { x, y } => {
                match self.windows.remove(&uuid) {
                    Some(inst) => {
                        let updated = WindowInstance { x, y, ..inst };
                        self.windows.insert(uuid.clone(), updated);
                        let mut acts: Vec<Action> = Vec::new();
                        acts.push(Action::Emit(HostEvent::Moved { window_id: uuid, x, y }));
                        acts
                    },
                    None => Vec::new(),
                }
            },
            WindowEvent::Resized { width, height } => {
                match self.windows.remove(&uuid) {
                    Some(inst) => {
                        let updated = WindowInstance { width, height, ..inst };
                        self.windows.insert(uuid.clone(), updated);
                        let mut acts: Vec<Action> = Vec::new();
                        acts.push(Action::ResizeWebView { window_id: uuid.clone(), width, height });
                        acts.push(Action::ResizeSurface { window_id: uuid.clone(), width, height });
                        acts.push(
                            Action::Emit(HostEvent::Resized { window_id: uuid, width, height }),
                        );
                        acts
                    },
                    None => Vec::new(),
                }
            },
            WindowEvent::CloseRequested { x, y, width, height, maximized } => {
                match self.windows.remove(&uuid) {
                    Some(_inst) => {
                        app.window_states.save_window_state(
                            uuid.as_str(),
                            WindowState { x, y, width, height, maximized, fullscreen: false },
                        );
                        self.native_index.remove(native_id);
                        let mut acts: Vec<Action> = Vec::new();
                        acts.push(Action::PersistStates);
                        acts.push(Action::Emit(HostEvent::WindowClosed { window_id: uuid }));
                        if self.windows.is_empty() {
                            acts.push(Action::Exit);
                        }
                        acts
                    },
                    None => Vec::new(),
                }
            },
            WindowEvent::CursorMoved { x, y, win_width, win_height } => {
                match self.windows.remove(&uuid) {
                    Some(inst) => {
                        let (new_flag, decision) = motion_decision(
                            inst.frameless,
                            &inst.no_drag_regions,
                            inst.in_resize_border,
                            x,
                            y,
                            win_width,
                            win_height,
                        );
                        let updated = WindowInstance {
                            last_mouse_x: x,
                            last_mouse_y: y,
                            in_resize_border: new_flag,
                            ..inst
                        };
                        self.windows.insert(uuid.clone(), updated);
                        let mut acts: Vec<Action> = Vec::new();
                        match decision {
                            CursorDecision::SetResize(d) => {
                                acts.push(
                                    Action::SetCursorIcon {
                                        window_id: uuid.clone(),
                                        cursor: CursorChoice::ResizeIcon(d),
                                    },
                                );
                            },
                            CursorDecision::SetDefault => {
                                acts.push(
                                    Action::SetCursorIcon {
                                        window_id: uuid.clone(),
                                        cursor: CursorChoice::DefaultIcon,
                                    },
                                );
                            },
                            CursorDecision::Yield => {},
                        }
                        acts.push(Action::ForwardMouseMove { window_id: uuid, x, y });
                        acts
                    },
                    None => Vec::new(),
                }
            },
            WindowEvent::MouseInput { pressed, button, win_width, win_height } => {
                match self.windows.remove(&uuid) {
                    Some(inst) => {
                        let gesture = pressed && button == MouseButton::Left && inst.frameless;
                        let outcome = if gesture {
                            classify_press(
                                inst.frameless,
                                &inst.drag_regions,
                                &inst.no_drag_regions,
                                inst.last_mouse_x,
                                inst.last_mouse_y,
                                win_width,
                                win_height,
                            )
                        } else {
                            PressOutcome::Forward
                        };
                        let mx = inst.last_mouse_x;
                        let my = inst.last_mouse_y;
                        let mut acts: Vec<Action> = Vec::new();
                        match outcome {
                            PressOutcome::BeginResize(d) => {
                                let updated = WindowInstance { is_mouse_down: false, ..inst };
                                self.windows.insert(uuid.clone(), updated);
                                acts.push(
                                    Action::SyntheticMouseRelease {
                                        window_id: uuid.clone(),
                                        button,
                                        x: mx,
                                        y: my,
                                    },
                                );
                                acts.push(
                                    Action::BeginResizeDrag { window_id: uuid, direction: d },
                                );
                            },
                            PressOutcome::BeginMove => {
                                let updated = WindowInstance { is_mouse_down: false, ..inst };
                                self.windows.insert(uuid.clone(), updated);
                                acts.push(
                                    Action::SyntheticMouseRelease {
                                        window_id: uuid.clone(),
                                        button,
                                        x: mx,
                                        y: my,
                                    },
                                );
                                acts.push(Action::BeginMoveDrag { window_id: uuid });
                            },
                            PressOutcome::Forward => {
                                let updated = WindowInstance { is_mouse_down: pressed, ..inst };
                                self.windows.insert(uuid.clone(), updated);
                                acts.push(
                                    Action::ForwardMouseButton {
                                        window_id: uuid,
                                        pressed,
                                        button,
                                        x: mx,
                                        y: my,
                                    },
                                );
                            },
                        }
                        acts
                    },
                    None => Vec::new(),
                }
            },
        }
    }
}

/// Replacing a window's region sets is an idempotent state replace: after an
/// update with `(drag, no_drag)`, a press at any fixed point classifies the
/// same whatever region sets the instance held before — the classification
/// depends only on the most recent regions, never on history.
pub proof fn lemma_region_update_history_free(
    before1: WindowInstance,
    before2: WindowInstance,
    drag: Vec<Rect>,
    no_drag: Vec<Rect>,
    px: int,
    py: int,
    w: int,
    h: int,
)
    requires
        before1.frameless == before2.frameless,
    ensures
        ({
            let after1 = WindowInstance { drag_regions: drag, no_drag_regions: no_drag, ..before1 };
            let after2 = WindowInstance { drag_regions: drag, no_drag_regions: no_drag, ..before2 };
            spec_classify_press(
                after1.frameless,
                after1.drag_regions@,
                after1.no_drag_regions@,
                px,
                py,
                w,
                h,
            ) == spec_classify_press(
                after2.frameless,
                after2.drag_regions@,
                after2.no_drag_regions@,
                px,
                py,
                w,
                h,
            )
        }),
{
}

/// Persisting a geometry record and then planning a creation with restore on
/// for the same identifier reproduces exactly the recorded position and
/// size in the native window attributes.
pub proof fn lemma_geometry_restore_round_trip(
    states: Map<Seq<char>, WindowState>,
    port: u16,
    token: String,
    options: WindowOptions,
    window_id: String,
    theme: ThemeMode,
    record: WindowState,
)
    requires
        options.restore_state,
    ensures
        ({
            let plan = spec_create_plan(
                states.insert(window_id@, record),
                port,
                token,
                options,
                window_id,
                theme,
            );
            &&& plan.width == record.width
            &&& plan.height == record.height
            &&& plan.position == Some((record.x, record.y))
        }),
{
}

} // verus!
