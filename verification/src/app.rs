//! Process-wide application state and the host-facing entry points that
//! enqueue commands.
//!
//! Public operations here only build `EngineCommand` values; the surrounding
//! program owns the channel that carries them to the engine thread and sends
//! each returned command on it.

use vstd::prelude::*;
use vstd::utf8::encode_utf8;
use crate::command::EngineCommand;
use crate::json::spec_parse_regions;
use crate::kvlist::{kv_map, KvList};
use crate::options::WindowOptions;
use crate::window_state::{WindowState, WindowStateManager};

verus! {

/// Whether a text is well-formed JSON, as the serializer library used on
/// the wire accepts it.
pub uninterp spec fn json_accepted(s: Seq<char>) -> bool;

/// Relies on `serde_json::from_str::<Value>`: it accepts or rejects a text
/// deterministically in the text alone (well-formed JSON within the
/// parser's nesting limit).
#[verifier::external_body]
fn json_valid(s: &str) -> (r: bool)
    ensures
        r == json_accepted(s@),
{
    serde_json::from_str::<serde_json::Value>(s).is_ok()
}

/// Why a handle operation was rejected before any command was enqueued.
#[derive(Clone, Copy, PartialEq, Eq, Structural, Debug)]
pub enum CommandError {
    /// The payload was not well-formed JSON.
    InvalidJson,
}

impl CommandError {
    /// A human-readable description of the rejection.
    pub fn message(&self) -> (r: &'static str)
        ensures
            r@ == "Invalid JSON"@,
    {
        "Invalid JSON"
    }
}

/// Relies on `uuid::Uuid::new_v4` and its `Display` form: a fresh random
/// version-4 UUID rendered in the 36-character hyphenated form. The value is
/// random, so nothing but its length is promised.
#[verifier::external_body]
fn new_uuid_string() -> (r: String)
    ensures
        r@.len() == 36,
{
    uuid::Uuid::new_v4().to_string()
}

/// Shared mutable state of the bridge: window metadata (the resource root
/// kept per window, outliving the instance), the geometry store, and the
/// transport coordinates. One value of this lives behind the process's lock.
pub struct App {
    /// Resource root per logical window identifier.
    pub window_metadata: KvList<Option<String>>,
    /// Persisted geometry records.
    pub window_states: WindowStateManager,
    /// The transport's bound port; zero until the server reports it.
    pub ipc_server_port: u16,
    /// The session token required on every transport request.
    pub ipc_server_token: String,
    /// Source of the page-side message-pack library, injected into pages.
    pub msgpackr_source: String,
    /// Whether timing diagnostics were requested.
    pub profiling: bool,
}

impl App {
    pub open spec fn wf(&self) -> bool {
        &&& self.window_metadata.wf()
        &&& self.window_states.wf()
    }

    /// Fresh application state: a random session token, no port yet, no
    /// metadata, and the geometry records loaded from storage (later entries
    /// win on a duplicated identifier).
    pub fn new(profiling: bool, msgpackr_source: String, saved_states: Vec<(String, WindowState)>) -> (r:
        App)
        ensures
            r.wf(),
            r.window_metadata@ =~= Map::<Seq<char>, Option<String>>::empty(),
            r.window_states@ =~= kv_map(saved_states@),
            r.ipc_server_port == 0,
            r.ipc_server_token@.len() == 36,
            r.msgpackr_source == msgpackr_source,
            r.profiling == profiling,
    {
        App {
            window_metadata: KvList::new(),
            window_states: WindowStateManager::from_entries(saved_states),
            ipc_server_port: 0,
            ipc_server_token: new_uuid_string(),
            msgpackr_source,
            profiling,
        }
    }

    /// Records the port the transport actually bound.
    pub fn set_ipc_port(&mut self, port: u16)
        ensures
            *final(self) == (App { ipc_server_port: port, ..*old(self) }),
    {
        self.ipc_server_port = port;
    }

    /// The startup handshake event, sent once the transport port is known
    /// (or zero when the wait for it gave up).
    pub fn app_ready_event(&self) -> (r: crate::command::HostEvent)
        ensures
            r == (crate::command::HostEvent::AppReady {
                ipc_port: self.ipc_server_port,
                ipc_token: self.ipc_server_token,
            }),
    {
        crate::command::HostEvent::AppReady {
            ipc_port: self.ipc_server_port,
            ipc_token: self.ipc_server_token.clone(),
        }
    }

    /// Asks the engine thread to stop.
    pub fn quit(&self) -> (r: EngineCommand)
        ensures
            r == EngineCommand::Quit,
    {
        EngineCommand::Quit
    }
}

/// A host-side handle to one window: it knows only the logical identifier
/// and turns each operation into the command to enqueue.
pub struct WindowHandle {
    pub id: String,
}

/// Builds the handle and the creation command for a window. The identifier
/// is the caller's when given, else a fresh UUID.
pub fn create_window(options: WindowOptions) -> (r: (WindowHandle, EngineCommand))
    ensures
        match options.id {
            Some(given) => r.0.id == given,
            None => r.0.id@.len() == 36,
        },
        r.1 == EngineCommand::CreateWindow(options, r.0.id),
{
    let window_id = match &options.id {
        Some(given) => given.clone(),
        None => new_uuid_string(),
    };
    let handle = WindowHandle { id: window_id.clone() };
    (handle, EngineCommand::CreateWindow(options, window_id))
}

impl WindowHandle {
    pub fn get_id(&self) -> (r: String)
        ensures
            r == self.id,
    {
        self.id.clone()
    }

    pub fn load_url(&self, url: String) -> (r: EngineCommand)
        ensures
            r == EngineCommand::LoadUrl(self.id, url),
    {
        EngineCommand::LoadUrl(self.id.clone(), url)
    }

    /// Validates the payload as JSON and builds the delivery command; a
    /// payload that is not well-formed JSON is rejected and nothing is
    /// enqueued. The validated text itself travels in the command.
    pub fn send_to_renderer(&self, channel: String, data: String) -> (r: Result<
        EngineCommand,
        CommandError,
    >)
        ensures
            r is Ok <==> json_accepted(data@),
            r matches Ok(cmd) ==> cmd == EngineCommand::SendToRenderer(self.id, channel, data),
            r matches Err(e) ==> e == CommandError::InvalidJson,
    {
        if json_valid(data.as_str()) {
            Ok(EngineCommand::SendToRenderer(self.id.clone(), channel, data))
        } else {
            Err(CommandError::InvalidJson)
        }
    }

    /// Parses the drag-region payload and builds the replace command: any
    /// well-formed JSON text yields exactly one command carrying the
    /// leniently extracted lists; only a text that is not JSON yields
    /// `None`, and the operation is then dropped.
    pub fn update_drag_regions(&self, rects_json: String) -> (r: Option<EngineCommand>)
        ensures
            match spec_parse_regions(encode_utf8(rects_json@)) {
                Some(lists) => r matches Some(cmd) && (cmd matches EngineCommand::UpdateDragRegions(
                    id,
                    drag,
                    no_drag,
                ) && id == self.id && drag@ == lists.0 && no_drag@ == lists.1),
                None => r is None,
            },
    {
        let bytes = vstd::slice::slice_to_vec(rects_json.as_str().as_bytes());
        match crate::json::parse_regions(&bytes) {
            Some((drag, no_drag)) => Some(
                EngineCommand::UpdateDragRegions(self.id.clone(), drag, no_drag),
            ),
            None => None,
        }
    }

    pub fn resize(&self, width: u32, height: u32) -> (r: EngineCommand)
        ensures
            r == EngineCommand::Resize(self.id, width, height),
    {
        EngineCommand::Resize(self.id.clone(), width, height)
    }

    pub fn set_position(&self, x: i32, y: i32) -> (r: EngineCommand)
        ensures
            r == EngineCommand::SetPosition(self.id, x, y),
    {
        EngineCommand::SetPosition(self.id.clone(), x, y)
    }

    pub fn show(&self) -> (r: EngineCommand)
        ensures
            r == EngineCommand::ShowWindow(self.id),
    {
        EngineCommand::ShowWindow(self.id.clone())
    }

    pub fn hide_window(&self) -> (r: EngineCommand)
        ensures
            r == EngineCommand::HideWindow(self.id),
    {
        EngineCommand::HideWindow(self.id.clone())
    }

    pub fn set_always_on_top(&self, always_on_top: bool) -> (r: EngineCommand)
        ensures
            r == EngineCommand::SetAlwaysOnTop(self.id, always_on_top),
    {
        EngineCommand::SetAlwaysOnTop(self.id.clone(), always_on_top)
    }

    pub fn request_attention(&self) -> (r: EngineCommand)
        ensures
            r == EngineCommand::RequestAttention(self.id),
    {
        EngineCommand::RequestAttention(self.id.clone())
    }

    pub fn set_title(&self, title: String) -> (r: EngineCommand)
        ensures
            r == EngineCommand::SetTitle(self.id, title),
    {
        EngineCommand::SetTitle(self.id.clone(), title)
    }

    pub fn set_decorations(&self, decorations: bool) -> (r: EngineCommand)
        ensures
            r == EngineCommand::SetDecorations(self.id, decorations),
    {
        EngineCommand::SetDecorations(self.id.clone(), decorations)
    }

    pub fn close(&self) -> (r: EngineCommand)
        ensures
            r == EngineCommand::CloseWindow(self.id),
    {
        EngineCommand::CloseWindow(self.id.clone())
    }

    pub fn execute_script(&self, script: String) -> (r: EngineCommand)
        ensures
            r == EngineCommand::ExecuteScript(self.id, script),
    {
        EngineCommand::ExecuteScript(self.id.clone(), script)
    }

    pub fn minimize(&self) -> (r: EngineCommand)
        ensures
            r == EngineCommand::MinimizeWindow(self.id),
    {
        EngineCommand::MinimizeWindow(self.id.clone())
    }

    pub fn unminimize(&self) -> (r: EngineCommand)
        ensures
            r == EngineCommand::UnminimizeWindow(self.id),
    {
        EngineCommand::UnminimizeWindow(self.id.clone())
    }

    pub fn maximize(&self) -> (r: EngineCommand)
        ensures
            r == EngineCommand::MaximizeWindow(self.id),
    {
        EngineCommand::MaximizeWindow(self.id.clone())
    }

    pub fn unmaximize(&self) -> (r: EngineCommand)
        ensures
            r == EngineCommand::UnmaximizeWindow(self.id),
    {
        EngineCommand::UnmaximizeWindow(self.id.clone())
    }

    pub fn focus(&self) -> (r: EngineCommand)
        ensures
            r == EngineCommand::FocusWindow(self.id),
    {
        EngineCommand::FocusWindow(self.id.clone())
    }
}

} // verus!
