//! Engine dispatch: creation with and without restore, soft-fail on
//! unknown identifiers, region replacement, and termination on last close.

use lotus_core::app::{create_window, App};
use lotus_core::command::{Action, EngineCommand, HostEvent, MouseButton, ThemeMode};
use lotus_core::engine::{Engine, WindowEvent};
use lotus_core::geometry::Rect;
use lotus_core::options::WindowOptions;
use lotus_core::window_state::WindowState;

fn fresh_app() -> App {
    App::new(false, String::new(), Vec::new())
}

fn options_with_id(id: &str) -> WindowOptions {
    let mut o = WindowOptions::default();
    o.id = Some(id.to_string());
    o.restore_state = false;
    o
}

/// Runs the full creation flow and returns the engine-side actions of the
/// completion step.
fn create(engine: &mut Engine, app: &mut App, options: WindowOptions, native_id: u64) -> Vec<Action> {
    let (_handle, cmd) = create_window(options);
    let actions = engine.handle_command(app, cmd, ThemeMode::Light);
    let plan = actions
        .into_iter()
        .find_map(|a| match a {
            Action::CreateNativeWindow(p) => Some(p),
            _ => None,
        })
        .expect("creation plan");
    engine.complete_create(app, plan, native_id)
}

#[test]
fn create_with_defaults_emits_ready_with_generated_id() {
    let mut app = fresh_app();
    let mut engine = Engine::new();
    let mut o = WindowOptions::default();
    o.restore_state = false;
    let (handle, cmd) = create_window(o);
    let id = handle.get_id();
    assert_eq!(id.len(), 36);

    let actions = engine.handle_command(&mut app, cmd, ThemeMode::Light);
    assert!(matches!(actions[0], Action::StartEngine));
    let plan = match &actions[1] {
        Action::CreateNativeWindow(p) => p.clone(),
        other => panic!("expected a creation plan, got {:?}", other),
    };
    assert_eq!(plan.width, 1024);
    assert_eq!(plan.height, 768);
    assert_eq!(plan.position, None);
    assert!(plan.decorations);
    assert_eq!(plan.title, "Lotus App");

    let done = engine.complete_create(&mut app, plan, 11);
    match done.last() {
        Some(Action::Emit(HostEvent::Ready { window_id })) => assert_eq!(*window_id, id),
        other => panic!("expected a ready event, got {:?}", other),
    }
    // No drag-region effect exists before any batch arrives.
    let inst = engine.windows.get(&id).expect("registered");
    assert!(inst.drag_regions.is_empty());
    assert!(inst.no_drag_regions.is_empty());
}

#[test]
fn geometry_restore_round_trip() {
    let mut app = fresh_app();
    let mut engine = Engine::new();
    let record = WindowState { x: 40, y: 50, width: 640, height: 480, maximized: false, fullscreen: false };
    app.window_states.save_window_state("main", record);

    let mut o = WindowOptions::default();
    o.id = Some("main".to_string());
    let (_h, cmd) = create_window(o);
    let actions = engine.handle_command(&mut app, cmd, ThemeMode::Light);
    let plan = match &actions[1] {
        Action::CreateNativeWindow(p) => p,
        other => panic!("expected a creation plan, got {:?}", other),
    };
    assert_eq!(plan.width, 640);
    assert_eq!(plan.height, 480);
    assert_eq!(plan.position, Some((40, 50)));
}

#[test]
fn restore_off_ignores_the_record() {
    let mut app = fresh_app();
    let mut engine = Engine::new();
    let record = WindowState { x: 40, y: 50, width: 640, height: 480, maximized: false, fullscreen: false };
    app.window_states.save_window_state("main", record);

    let (_h, cmd) = create_window(options_with_id("main"));
    let actions = engine.handle_command(&mut app, cmd, ThemeMode::Light);
    let plan = match &actions[1] {
        Action::CreateNativeWindow(p) => p,
        other => panic!("expected a creation plan, got {:?}", other),
    };
    assert_eq!(plan.width, 1024);
    assert_eq!(plan.position, None);
}

#[test]
fn unknown_identifier_is_silently_ignored() {
    let mut app = fresh_app();
    let mut engine = Engine::new();
    let actions = engine.handle_command(
        &mut app,
        EngineCommand::SetTitle("ghost".to_string(), "t".to_string()),
        ThemeMode::Light,
    );
    assert!(actions.is_empty());
    let actions = engine.handle_command(
        &mut app,
        EngineCommand::CloseWindow("ghost".to_string()),
        ThemeMode::Light,
    );
    assert!(actions.is_empty());
}

#[test]
fn engine_initialization_is_idempotent() {
    let mut app = fresh_app();
    let mut engine = Engine::new();
    create(&mut engine, &mut app, options_with_id("a"), 1);
    // The second creation must not start the rendering engine again.
    let (_h, cmd) = create_window(options_with_id("b"));
    let actions = engine.handle_command(&mut app, cmd, ThemeMode::Light);
    assert!(actions.iter().all(|a| !matches!(a, Action::StartEngine)));
}

#[test]
fn region_update_replaces_and_depends_only_on_latest() {
    let mut app = fresh_app();
    let mut engine = Engine::new();
    create(&mut engine, &mut app, options_with_id("w"), 1);

    let first = vec![Rect { x: 0, y: 0, width: 10, height: 10 }];
    let second = vec![Rect { x: 0, y: 0, width: 100, height: 30 }];
    engine.handle_command(
        &mut app,
        EngineCommand::UpdateDragRegions("w".to_string(), first, vec![]),
        ThemeMode::Light,
    );
    engine.handle_command(
        &mut app,
        EngineCommand::UpdateDragRegions("w".to_string(), second.clone(), vec![]),
        ThemeMode::Light,
    );
    let inst = engine.windows.get(&"w".to_string()).expect("registered");
    assert_eq!(inst.drag_regions, second);
}

#[test]
fn closing_last_window_terminates_only_then() {
    let mut app = fresh_app();
    let mut engine = Engine::new();
    create(&mut engine, &mut app, options_with_id("a"), 1);
    create(&mut engine, &mut app, options_with_id("b"), 2);

    let actions = engine.handle_command(
        &mut app,
        EngineCommand::CloseWindow("a".to_string()),
        ThemeMode::Light,
    );
    assert!(actions.iter().any(
        |a| matches!(a, Action::Emit(HostEvent::WindowClosed { window_id }) if window_id == "a"),
    ));
    assert!(actions.iter().all(|a| !matches!(a, Action::Exit)));
    assert!(engine.windows.get(&"b".to_string()).is_some());

    let actions = engine.handle_command(
        &mut app,
        EngineCommand::CloseWindow("b".to_string()),
        ThemeMode::Light,
    );
    assert!(actions.iter().any(|a| matches!(a, Action::Exit)));
}

#[test]
fn close_requested_persists_the_snapshot_and_may_exit() {
    let mut app = fresh_app();
    let mut engine = Engine::new();
    create(&mut engine, &mut app, options_with_id("w"), 9);

    let actions = engine.handle_window_event(
        &mut app,
        9,
        WindowEvent::CloseRequested { x: 7, y: 8, width: 300, height: 200, maximized: true },
    );
    assert!(actions.iter().any(|a| matches!(a, Action::PersistStates)));
    assert!(actions.iter().any(|a| matches!(a, Action::Exit)));
    let saved = app.window_states.get_window_state("w").expect("persisted");
    assert_eq!((saved.x, saved.y, saved.width, saved.height, saved.maximized), (7, 8, 300, 200, true));
}

#[test]
fn press_in_drag_region_releases_then_moves() {
    let mut app = fresh_app();
    let mut engine = Engine::new();
    let mut o = options_with_id("w");
    o.frameless = true;
    create(&mut engine, &mut app, o, 3);
    engine.handle_command(
        &mut app,
        EngineCommand::UpdateDragRegions(
            "w".to_string(),
            vec![Rect { x: 0, y: 0, width: 800, height: 30 }],
            vec![],
        ),
        ThemeMode::Light,
    );
    engine.handle_window_event(
        &mut app,
        3,
        WindowEvent::CursorMoved { x: 400, y: 15, win_width: 800, win_height: 600 },
    );
    let actions = engine.handle_window_event(
        &mut app,
        3,
        WindowEvent::MouseInput {
            pressed: true,
            button: MouseButton::Left,
            win_width: 800,
            win_height: 600,
        },
    );
    assert!(matches!(actions[0], Action::SyntheticMouseRelease { .. }));
    assert!(matches!(actions[1], Action::BeginMoveDrag { .. }));
    // The swallowed press leaves no button held.
    assert!(!engine.windows.get(&"w".to_string()).unwrap().is_mouse_down);
}

#[test]
fn press_outside_gestures_is_forwarded() {
    let mut app = fresh_app();
    let mut engine = Engine::new();
    let mut o = options_with_id("w");
    o.frameless = true;
    create(&mut engine, &mut app, o, 3);
    engine.handle_window_event(
        &mut app,
        3,
        WindowEvent::CursorMoved { x: 400, y: 300, win_width: 800, win_height: 600 },
    );
    let actions = engine.handle_window_event(
        &mut app,
        3,
        WindowEvent::MouseInput {
            pressed: true,
            button: MouseButton::Left,
            win_width: 800,
            win_height: 600,
        },
    );
    assert_eq!(actions.len(), 1);
    assert!(matches!(
        actions[0],
        Action::ForwardMouseButton { pressed: true, x: 400, y: 300, .. }
    ));
    assert!(engine.windows.get(&"w".to_string()).unwrap().is_mouse_down);
}

#[test]
fn events_for_unknown_native_windows_are_ignored() {
    let mut app = fresh_app();
    let mut engine = Engine::new();
    create(&mut engine, &mut app, options_with_id("w"), 3);
    let actions = engine.handle_window_event(&mut app, 99, WindowEvent::RedrawRequested);
    assert!(actions.is_empty());
}

#[test]
fn resize_and_move_events_update_the_tracked_geometry() {
    let mut app = fresh_app();
    let mut engine = Engine::new();
    create(&mut engine, &mut app, options_with_id("w"), 3);
    engine.handle_window_event(&mut app, 3, WindowEvent::Resized { width: 555, height: 444 });
    engine.handle_window_event(&mut app, 3, WindowEvent::Moved { x: 12, y: -3 });
    let actions = engine.handle_command(
        &mut app,
        EngineCommand::CloseWindow("w".to_string()),
        ThemeMode::Light,
    );
    assert!(actions.iter().any(|a| matches!(a, Action::PersistStates)));
    let saved = app.window_states.get_window_state("w").expect("persisted");
    assert_eq!((saved.x, saved.y, saved.width, saved.height), (12, -3, 555, 444));
}

#[test]
fn wheel_deltas_are_scaled() {
    let mut app = fresh_app();
    let mut engine = Engine::new();
    create(&mut engine, &mut app, options_with_id("w"), 3);
    let actions = engine.handle_window_event(&mut app, 3, WindowEvent::Wheel { dx: 1, dy: -2 });
    assert!(matches!(actions[0], Action::ForwardWheel { dx: 20, dy: -40, .. }));
}

#[test]
fn load_url_is_checked_before_forwarding() {
    let mut app = fresh_app();
    let mut engine = Engine::new();
    create(&mut engine, &mut app, options_with_id("w"), 3);
    let ok = engine.handle_command(
        &mut app,
        EngineCommand::LoadUrl("w".to_string(), "https://example.org/app".to_string()),
        ThemeMode::Light,
    );
    assert!(matches!(&ok[0], Action::LoadUrl { url, .. } if url == "https://example.org/app"));
    let bad = engine.handle_command(
        &mut app,
        EngineCommand::LoadUrl("w".to_string(), "not a url".to_string()),
        ThemeMode::Light,
    );
    assert!(bad.is_empty());
}

#[test]
fn send_to_renderer_builds_the_emit_script() {
    let mut app = fresh_app();
    let mut engine = Engine::new();
    create(&mut engine, &mut app, options_with_id("w"), 3);
    let (handle, _) = create_window(options_with_id("w"));
    let cmd = handle
        .send_to_renderer("chan".to_string(), "{\"a\":1}".to_string())
        .expect("valid JSON");
    let actions = engine.handle_command(&mut app, cmd, ThemeMode::Light);
    match &actions[0] {
        Action::EvaluateScript { script, .. } => {
            assert_eq!(
                script,
                "if (window.lotus) { window.lotus.emit('chan', {\"a\":1}); }"
            );
        },
        other => panic!("expected a script, got {:?}", other),
    }
    assert!(handle.send_to_renderer("c".to_string(), "{oops".to_string()).is_err());
}
