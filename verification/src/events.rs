//! Host-bound events rendered to their wire bytes: each event is a small
//! map record keyed by field name, fields in byte-order of their names.

use vstd::prelude::*;
use vstd::string::StringSliceAdditionalSpecFns;
use vstd::utf8::encode_utf8;
use crate::command::{HostEvent, LoadStatus};
use crate::msgpack::{
    mp_map_header, mp_sint, mp_str, mp_uint, push_map_header, push_sint, push_string, push_uint,
};

verus! {

/// The name under which a load status travels.
pub open spec fn load_status_name(status: LoadStatus) -> Seq<char> {
    match status {
        LoadStatus::Started => "started"@,
        LoadStatus::HeadParsed => "head-parsed"@,
        LoadStatus::Complete => "complete"@,
    }
}

/// The event name of a record.
pub open spec fn host_event_name(e: HostEvent) -> Seq<char> {
    match e {
        HostEvent::AppReady { .. } => "app-ready"@,
        HostEvent::Ready { .. } => "ready"@,
        HostEvent::LoadStatus { .. } => "load-status"@,
        HostEvent::FrameReady { .. } => "frame-ready"@,
        HostEvent::WindowClosed { .. } => "window-closed"@,
        HostEvent::Resized { .. } => "resized"@,
        HostEvent::Moved { .. } => "moved"@,
        HostEvent::Focused { .. } => "focused"@,
        HostEvent::Unfocused { .. } => "unfocused"@,
    }
}

/// A string field value, as its wire bytes.
pub open spec fn mp_str_chars(s: Seq<char>) -> Seq<u8> {
    mp_str(encode_utf8(s))
}

/// The exact bytes of a host-bound event record.
pub open spec fn host_event_bytes(e: HostEvent) -> Seq<u8> {
    match e {
        HostEvent::AppReady { ipc_port, ipc_token } => mp_map_header(3) + mp_str_chars("event"@)
            + mp_str_chars("app-ready"@) + mp_str_chars("ipc_port"@) + mp_uint(ipc_port as int)
            + mp_str_chars("ipc_token"@) + mp_str_chars(ipc_token@),
        HostEvent::LoadStatus { window_id, status } => mp_map_header(3) + mp_str_chars("event"@)
            + mp_str_chars("load-status"@) + mp_str_chars("status"@) + mp_str_chars(
            load_status_name(status),
        ) + mp_str_chars("window_id"@) + mp_str_chars(window_id@),
        HostEvent::Resized { window_id, width, height } => mp_map_header(4) + mp_str_chars(
            "event"@,
        ) + mp_str_chars("resized"@) + mp_str_chars("height"@) + mp_uint(height as int)
            + mp_str_chars("width"@) + mp_uint(width as int) + mp_str_chars("window_id"@)
            + mp_str_chars(window_id@),
        HostEvent::Moved { window_id, x, y } => mp_map_header(4) + mp_str_chars("event"@)
            + mp_str_chars("moved"@) + mp_str_chars("window_id"@) + mp_str_chars(window_id@)
            + mp_str_chars("x"@) + mp_sint(x as int) + mp_str_chars("y"@) + mp_sint(y as int),
        HostEvent::Ready { window_id } => two_field_event("ready"@, window_id@),
        HostEvent::FrameReady { window_id } => two_field_event("frame-ready"@, window_id@),
        HostEvent::WindowClosed { window_id } => two_field_event("window-closed"@, window_id@),
        HostEvent::Focused { window_id } => two_field_event("focused"@, window_id@),
        HostEvent::Unfocused { window_id } => two_field_event("unfocused"@, window_id@),
    }
}

/// A record with only the event name and the window identifier.
pub open spec fn two_field_event(name: Seq<char>, window_id: Seq<char>) -> Seq<u8> {
    mp_map_header(2) + mp_str_chars("event"@) + mp_str_chars(name) + mp_str_chars("window_id"@)
        + mp_str_chars(window_id)
}

/// Whether the event's variable strings fit the wire format's length limit
/// (a machine bound; every real identifier or token does).
pub open spec fn host_event_encodable(e: HostEvent) -> bool {
    match e {
        HostEvent::AppReady { ipc_token, .. } => encode_utf8(ipc_token@).len() < 0x100000000,
        HostEvent::LoadStatus { window_id, .. } => encode_utf8(window_id@).len() < 0x100000000,
        HostEvent::Resized { window_id, .. } => encode_utf8(window_id@).len() < 0x100000000,
        HostEvent::Moved { window_id, .. } => encode_utf8(window_id@).len() < 0x100000000,
        HostEvent::Ready { window_id } => encode_utf8(window_id@).len() < 0x100000000,
        HostEvent::FrameReady { window_id } => encode_utf8(window_id@).len() < 0x100000000,
        HostEvent::WindowClosed { window_id } => encode_utf8(window_id@).len() < 0x100000000,
        HostEvent::Focused { window_id } => encode_utf8(window_id@).len() < 0x100000000,
        HostEvent::Unfocused { window_id } => encode_utf8(window_id@).len() < 0x100000000,
    }
}

fn push_literal(out: &mut Vec<u8>, s: &str)
    requires
        s@.len() < 32,
        vstd::string::is_ascii(s),
    ensures
        final(out)@ =~= old(out)@ + mp_str_chars(s@),
{
    proof {
        vstd::string::is_ascii_spec_bytes(s);
    }
    push_string(out, s);
}

fn push_two_field_event(out: &mut Vec<u8>, name: &str, window_id: &str)
    requires
        name@.len() < 32,
        vstd::string::is_ascii(name),
        encode_utf8(window_id@).len() < 0x100000000,
    ensures
        final(out)@ =~= old(out)@ + two_field_event(name@, window_id@),
{
    proof {
        reveal_strlit("event");
        reveal_strlit("window_id");
        lemma_literals_ascii();
    }
    push_map_header(out, 2);
    push_literal(out, "event");
    push_literal(out, name);
    push_literal(out, "window_id");
    push_string(out, window_id);
}

proof fn lemma_literals_ascii()
    ensures
        vstd::string::is_ascii("event") && ("event")@.len() == 5,
        vstd::string::is_ascii("window_id") && ("window_id")@.len() == 9,
        vstd::string::is_ascii("status") && ("status")@.len() == 6,
        vstd::string::is_ascii("width") && ("width")@.len() == 5,
        vstd::string::is_ascii("height") && ("height")@.len() == 6,
        vstd::string::is_ascii("x") && ("x")@.len() == 1,
        vstd::string::is_ascii("y") && ("y")@.len() == 1,
        vstd::string::is_ascii("ipc_port") && ("ipc_port")@.len() == 8,
        vstd::string::is_ascii("ipc_token") && ("ipc_token")@.len() == 9,
        vstd::string::is_ascii("app-ready") && ("app-ready")@.len() == 9,
        vstd::string::is_ascii("ready") && ("ready")@.len() == 5,
        vstd::string::is_ascii("load-status") && ("load-status")@.len() == 11,
        vstd::string::is_ascii("frame-ready") && ("frame-ready")@.len() == 11,
        vstd::string::is_ascii("window-closed") && ("window-closed")@.len() == 13,
        vstd::string::is_ascii("resized") && ("resized")@.len() == 7,
        vstd::string::is_ascii("moved") && ("moved")@.len() == 5,
        vstd::string::is_ascii("focused") && ("focused")@.len() == 7,
        vstd::string::is_ascii("unfocused") && ("unfocused")@.len() == 9,
        vstd::string::is_ascii("started") && ("started")@.len() == 7,
        vstd::string::is_ascii("head-parsed") && ("head-parsed")@.len() == 11,
        vstd::string::is_ascii("complete") && ("complete")@.len() == 8,
{
    reveal_strlit("event");
    reveal_strlit("window_id");
    reveal_strlit("status");
    reveal_strlit("width");
    reveal_strlit("height");
    reveal_strlit("x");
    reveal_strlit("y");
    reveal_strlit("ipc_port");
    reveal_strlit("ipc_token");
    reveal_strlit("app-ready");
    reveal_strlit("ready");
    reveal_strlit("load-status");
    reveal_strlit("frame-ready");
    reveal_strlit("window-closed");
    reveal_strlit("resized");
    reveal_strlit("moved");
    reveal_strlit("focused");
    reveal_strlit("unfocused");
    reveal_strlit("started");
    reveal_strlit("head-parsed");
    reveal_strlit("complete");
}

/// The command a load-status notification from the rendering engine turns
/// into: the event's wire bytes, forwarded like any host-bound message.
pub fn load_status_command(window_id: String, status: LoadStatus) -> (r: crate::command::EngineCommand)
    requires
        encode_utf8(window_id@).len() < 0x100000000,
    ensures
        (r matches crate::command::EngineCommand::IpcMessage(w, m) && w == window_id && m@
            =~= host_event_bytes(HostEvent::LoadStatus { window_id, status })),
{
    let bytes = encode_host_event(&HostEvent::LoadStatus { window_id: window_id.clone(), status });
    crate::command::EngineCommand::IpcMessage(window_id, bytes)
}

/// The command a new-frame notification turns into; the adapter also asks
/// the toolkit for a redraw, which is no decision of the bridge.
pub fn frame_ready_command(window_id: String) -> (r: crate::command::EngineCommand)
    requires
        encode_utf8(window_id@).len() < 0x100000000,
    ensures
        (r matches crate::command::EngineCommand::IpcMessage(w, m) && w == window_id && m@
            =~= host_event_bytes(HostEvent::FrameReady { window_id })),
{
    let bytes = encode_host_event(&HostEvent::FrameReady { window_id: window_id.clone() });
    crate::command::EngineCommand::IpcMessage(window_id, bytes)
}

/// Renders a host-bound event to the exact bytes the host callback receives.
pub fn encode_host_event(e: &HostEvent) -> (r: Vec<u8>)
    requires
        host_event_encodable(*e),
    ensures
        r@ =~= host_event_bytes(*e),
{
    proof {
        lemma_literals_ascii();
    }
    let mut out: Vec<u8> = Vec::new();
    match e {
        HostEvent::AppReady { ipc_port, ipc_token } => {
            push_map_header(&mut out, 3);
            push_literal(&mut out, "event");
            push_literal(&mut out, "app-ready");
            push_literal(&mut out, "ipc_port");
            push_uint(&mut out, *ipc_port as u32);
            push_literal(&mut out, "ipc_token");
            push_string(&mut out, ipc_token.as_str());
        },
        HostEvent::LoadStatus { window_id, status } => {
            push_map_header(&mut out, 3);
            push_literal(&mut out, "event");
            push_literal(&mut out, "load-status");
            push_literal(&mut out, "status");
            match status {
                LoadStatus::Started => push_literal(&mut out, "started"),
                LoadStatus::HeadParsed => push_literal(&mut out, "head-parsed"),
                LoadStatus::Complete => push_literal(&mut out, "complete"),
            }
            push_literal(&mut out, "window_id");
            push_string(&mut out, window_id.as_str());
        },
        HostEvent::Resized { window_id, width, height } => {
            push_map_header(&mut out, 4);
            push_literal(&mut out, "event");
            push_literal(&mut out, "resized");
            push_literal(&mut out, "height");
            push_uint(&mut out, *height);
            push_literal(&mut out, "width");
            push_uint(&mut out, *width);
            push_literal(&mut out, "window_id");
            push_string(&mut out, window_id.as_str());
        },
        HostEvent::Moved { window_id, x, y } => {
            push_map_header(&mut out, 4);
            push_literal(&mut out, "event");
            push_literal(&mut out, "moved");
            push_literal(&mut out, "window_id");
            push_string(&mut out, window_id.as_str());
            push_literal(&mut out, "x");
            push_sint(&mut out, *x);
            push_literal(&mut out, "y");
            push_sint(&mut out, *y);
        },
        HostEvent::Ready { window_id } => {
            push_two_field_event(&mut out, "ready", window_id.as_str());
        },
        HostEvent::FrameReady { window_id } => {
            push_two_field_event(&mut out, "frame-ready", window_id.as_str());
        },
        HostEvent::WindowClosed { window_id } => {
            push_two_field_event(&mut out, "window-closed", window_id.as_str());
        },
        HostEvent::Focused { window_id } => {
            push_two_field_event(&mut out, "focused", window_id.as_str());
        },
        HostEvent::Unfocused { window_id } => {
            push_two_field_event(&mut out, "unfocused", window_id.as_str());
        },
    }
    out
}

} // verus!
