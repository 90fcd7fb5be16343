//! The geometry store, the application state, and the theme and resource
//! decisions.

use lotus_core::app::App;
use lotus_core::command::ThemeMode;
use lotus_core::resource::{resource_plan, ResourcePlan};
use lotus_core::theme::resolve_theme;
use lotus_core::window_state::{WindowState, WindowStateManager};

fn record(x: i32, y: i32, w: u32, h: u32) -> WindowState {
    WindowState { x, y, width: w, height: h, maximized: false, fullscreen: false }
}

#[test]
fn save_then_get_returns_the_record() {
    let mut m = WindowStateManager::new();
    m.save_window_state("main", record(10, 20, 300, 400));
    let r = m.get_window_state("main").expect("saved");
    assert_eq!((r.x, r.y, r.width, r.height), (10, 20, 300, 400));
    assert!(m.get_window_state("other").is_none());
}

#[test]
fn saving_again_replaces() {
    let mut m = WindowStateManager::new();
    m.save_window_state("main", record(1, 1, 2, 2));
    m.save_window_state("main", record(9, 9, 8, 8));
    let r = m.get_window_state("main").expect("saved");
    assert_eq!((r.x, r.y), (9, 9));
    assert_eq!(m.entries().len(), 1);
}

#[test]
fn later_loaded_entry_wins() {
    let m = WindowStateManager::from_entries(vec![
        ("a".to_string(), record(1, 1, 2, 2)),
        ("a".to_string(), record(3, 3, 4, 4)),
    ]);
    assert_eq!(m.get_window_state("a").expect("loaded").x, 3);
}

#[test]
fn fresh_app_state() {
    let app = App::new(true, "lib source".to_string(), Vec::new());
    assert_eq!(app.ipc_server_port, 0);
    assert_eq!(app.ipc_server_token.len(), 36);
    assert!(app.profiling);
    assert_eq!(app.msgpackr_source, "lib source");
}

#[test]
fn two_apps_draw_different_tokens() {
    let a = App::new(false, String::new(), Vec::new());
    let b = App::new(false, String::new(), Vec::new());
    assert_ne!(a.ipc_server_token, b.ipc_server_token);
}

#[test]
fn dark_initial_answer_stands() {
    assert_eq!(resolve_theme(ThemeMode::Dark, None, None), ThemeMode::Dark);
}

#[test]
fn color_scheme_probe_decides_dark() {
    let out = Some(b"'Prefer-Dark'\n".to_vec());
    assert_eq!(resolve_theme(ThemeMode::Light, out, None), ThemeMode::Dark);
}

#[test]
fn theme_name_probe_decides_dark() {
    let gtk = Some(b"'Adwaita-dark'\n".to_vec());
    assert_eq!(resolve_theme(ThemeMode::Unspecified, None, gtk), ThemeMode::Dark);
    let gtk = Some(b"'Breeze:DARK'\n".to_vec());
    assert_eq!(resolve_theme(ThemeMode::Light, None, gtk), ThemeMode::Dark);
}

#[test]
fn without_dark_marks_the_initial_answer_stands() {
    let cs = Some(b"'default'\n".to_vec());
    let gtk = Some(b"'Adwaita'\n".to_vec());
    assert_eq!(resolve_theme(ThemeMode::Light, cs, gtk), ThemeMode::Light);
}

#[test]
fn resource_interception_requires_scheme_and_root() {
    let url = b"lotus-resource://localhost//pages/index.html?v=1".to_vec();
    match resource_plan(&url, true) {
        ResourcePlan::Intercept { relative } => assert_eq!(relative, b"pages/index.html".to_vec()),
        other => panic!("expected interception, got {:?}", other),
    }
    assert!(matches!(resource_plan(&url, false), ResourcePlan::PassThrough));
    let http = b"https://example.org/x".to_vec();
    assert!(matches!(resource_plan(&http, true), ResourcePlan::PassThrough));
}
