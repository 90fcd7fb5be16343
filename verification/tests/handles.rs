//! The host-facing handle: every operation becomes exactly one command
//! carrying the handle's identifier.

use lotus_core::app::create_window;
use lotus_core::command::EngineCommand;
use lotus_core::options::WindowOptions;

fn handle_for(id: &str) -> lotus_core::app::WindowHandle {
    let mut o = WindowOptions::default();
    o.id = Some(id.to_string());
    let (handle, cmd) = create_window(o);
    match cmd {
        EngineCommand::CreateWindow(options, cmd_id) => {
            assert_eq!(cmd_id, id);
            assert_eq!(options.id.as_deref(), Some(id));
        },
        other => panic!("expected a creation command, got {:?}", other),
    }
    handle
}

#[test]
fn creation_uses_the_given_identifier() {
    let h = handle_for("w-main");
    assert_eq!(h.get_id(), "w-main");
}

#[test]
fn window_operations_build_their_commands() {
    let h = handle_for("w");
    assert!(matches!(h.load_url("https://x".to_string()), EngineCommand::LoadUrl(id, u) if id == "w" && u == "https://x"));
    assert!(matches!(h.resize(640, 480), EngineCommand::Resize(id, 640, 480) if id == "w"));
    assert!(matches!(h.set_position(-5, 9), EngineCommand::SetPosition(id, -5, 9) if id == "w"));
    assert!(matches!(h.show(), EngineCommand::ShowWindow(id) if id == "w"));
    assert!(matches!(h.hide_window(), EngineCommand::HideWindow(id) if id == "w"));
    assert!(matches!(h.set_always_on_top(true), EngineCommand::SetAlwaysOnTop(id, true) if id == "w"));
    assert!(matches!(h.request_attention(), EngineCommand::RequestAttention(id) if id == "w"));
    assert!(matches!(h.set_title("t".to_string()), EngineCommand::SetTitle(id, t) if id == "w" && t == "t"));
    assert!(matches!(h.set_decorations(false), EngineCommand::SetDecorations(id, false) if id == "w"));
    assert!(matches!(h.close(), EngineCommand::CloseWindow(id) if id == "w"));
    assert!(matches!(h.execute_script("1".to_string()), EngineCommand::ExecuteScript(id, s) if id == "w" && s == "1"));
    assert!(matches!(h.minimize(), EngineCommand::MinimizeWindow(id) if id == "w"));
    assert!(matches!(h.unminimize(), EngineCommand::UnminimizeWindow(id) if id == "w"));
    assert!(matches!(h.maximize(), EngineCommand::MaximizeWindow(id) if id == "w"));
    assert!(matches!(h.unmaximize(), EngineCommand::UnmaximizeWindow(id) if id == "w"));
    assert!(matches!(h.focus(), EngineCommand::FocusWindow(id) if id == "w"));
}

#[test]
fn update_drag_regions_parses_the_payload() {
    let h = handle_for("w");
    let cmd = h
        .update_drag_regions(
            "{\"drag\":[{\"x\":0,\"y\":0,\"width\":100,\"height\":30}],\"noDrag\":[]}".to_string(),
        )
        .expect("well-formed payload");
    match cmd {
        EngineCommand::UpdateDragRegions(id, drag, no_drag) => {
            assert_eq!(id, "w");
            assert_eq!(drag.len(), 1);
            assert_eq!((drag[0].x, drag[0].y, drag[0].width, drag[0].height), (0, 0, 100, 30));
            assert!(no_drag.is_empty());
        },
        other => panic!("expected a region update, got {:?}", other),
    }
    assert!(h.update_drag_regions("{not json".to_string()).is_none());
}

#[test]
fn any_json_payload_yields_one_replace_command() {
    let h = handle_for("w");
    // A bare number is well-formed JSON: one command, both lists empty.
    match h.update_drag_regions("1".to_string()).expect("well-formed payload") {
        EngineCommand::UpdateDragRegions(id, drag, no_drag) => {
            assert_eq!(id, "w");
            assert!(drag.is_empty());
            assert!(no_drag.is_empty());
        },
        other => panic!("expected a region update, got {:?}", other),
    }
    // An element missing a field is skipped; the command still goes out.
    match h
        .update_drag_regions("{\"drag\":[{\"x\":0,\"y\":0,\"width\":100}],\"zoom\":true}".to_string())
        .expect("well-formed payload")
    {
        EngineCommand::UpdateDragRegions(_, drag, no_drag) => {
            assert!(drag.is_empty());
            assert!(no_drag.is_empty());
        },
        other => panic!("expected a region update, got {:?}", other),
    }
}
