//! Transport handling: authorization, routing, the single-message wrap,
//! and batch interception of the reserved drag-region channel.

use lotus_core::command::EngineCommand;
use lotus_core::transport::{handle_request, Method, Request, TransportReply};

fn request(method: Method, path: &str, auth: Option<&str>, body: Vec<u8>) -> Request {
    Request {
        method,
        path: path.as_bytes().to_vec(),
        auth: auth.map(|a| a.to_string()),
        window_id: Some("win-1".to_string()),
        body,
    }
}

const TOKEN: &str = "session-token";

#[test]
fn preflight_is_answered_before_auth() {
    let out = handle_request(request(Method::Options, "/ipc/x", None, vec![]), &TOKEN.to_string());
    assert!(matches!(out.reply, TransportReply::Preflight));
    assert!(out.commands.is_empty());
}

#[test]
fn missing_token_is_unauthorized_and_produces_no_command() {
    let out = handle_request(request(Method::Post, "/ipc/x", None, vec![1]), &TOKEN.to_string());
    assert!(matches!(out.reply, TransportReply::Unauthorized));
    assert!(out.commands.is_empty());
}

#[test]
fn wrong_token_is_unauthorized_on_every_route() {
    for path in ["/ipc/x", "/batch", "/resource/a", "/other"] {
        let out = handle_request(
            request(Method::Post, path, Some("other-token"), vec![1]),
            &TOKEN.to_string(),
        );
        assert!(matches!(out.reply, TransportReply::Unauthorized));
        assert!(out.commands.is_empty());
    }
}

#[test]
fn single_post_is_wrapped_as_a_one_element_batch() {
    let body = vec![1u8, 2, 250];
    let out = handle_request(
        request(Method::Post, "/ipc/my%20channel", Some(TOKEN), body.clone()),
        &TOKEN.to_string(),
    );
    assert!(matches!(out.reply, TransportReply::Accepted));
    assert_eq!(out.commands.len(), 1);
    match &out.commands[0] {
        EngineCommand::IpcMessage(wid, msg) => {
            assert_eq!(wid, "win-1");
            // The wire bytes must decode as the batch [[channel, payload]].
            let decoded: Vec<(String, Vec<u8>)> = rmp_serde::from_slice(msg).expect("wire batch");
            assert_eq!(decoded, vec![("my channel".to_string(), body)]);
        },
        other => panic!("expected a forwarded message, got {:?}", other),
    }
}

#[test]
fn batch_intercepts_drag_regions_and_forwards_everything() {
    let regions: serde_json::Value =
        serde_json::from_str("{\"drag\":[{\"x\":0,\"y\":0,\"width\":100,\"height\":30}],\"noDrag\":[]}")
            .unwrap();
    let custom: serde_json::Value = serde_json::from_str("{\"a\":1}").unwrap();
    let batch = vec![
        ("lotus:set-drag-regions".to_string(), regions),
        ("custom-channel".to_string(), custom),
    ];
    let body = rmp_serde::to_vec(&batch).unwrap();

    let out = handle_request(
        request(Method::Post, "/batch", Some(TOKEN), body.clone()),
        &TOKEN.to_string(),
    );
    assert!(matches!(out.reply, TransportReply::Accepted));
    assert_eq!(out.commands.len(), 2);
    match &out.commands[0] {
        EngineCommand::UpdateDragRegions(wid, drag, no_drag) => {
            assert_eq!(wid, "win-1");
            assert_eq!(drag.len(), 1);
            assert_eq!((drag[0].x, drag[0].y, drag[0].width, drag[0].height), (0, 0, 100, 30));
            assert!(no_drag.is_empty());
        },
        other => panic!("expected a region update, got {:?}", other),
    }
    match &out.commands[1] {
        EngineCommand::IpcMessage(wid, bytes) => {
            assert_eq!(wid, "win-1");
            assert_eq!(*bytes, body);
        },
        other => panic!("expected the forwarded batch, got {:?}", other),
    }
}

#[test]
fn batch_with_fractional_coordinates_truncates() {
    let regions: serde_json::Value =
        serde_json::from_str("{\"drag\":[{\"x\":1.75,\"y\":2.5,\"width\":99.9,\"height\":30.0}]}")
            .unwrap();
    let batch = vec![("lotus:set-drag-regions".to_string(), regions)];
    let body = rmp_serde::to_vec(&batch).unwrap();
    let out = handle_request(
        request(Method::Post, "/batch", Some(TOKEN), body),
        &TOKEN.to_string(),
    );
    match &out.commands[0] {
        EngineCommand::UpdateDragRegions(_, drag, _) => {
            assert_eq!((drag[0].x, drag[0].y, drag[0].width, drag[0].height), (1, 2, 99, 30));
        },
        other => panic!("expected a region update, got {:?}", other),
    }
}

#[test]
fn undecodable_batch_is_still_forwarded() {
    let body = vec![0xc1u8, 0, 1];
    let out = handle_request(
        request(Method::Post, "/batch", Some(TOKEN), body.clone()),
        &TOKEN.to_string(),
    );
    assert!(matches!(out.reply, TransportReply::Accepted));
    assert_eq!(out.commands.len(), 1);
    assert!(matches!(&out.commands[0], EngineCommand::IpcMessage(_, b) if *b == body));
}

#[test]
fn invalid_percent_escapes_are_kept_literally() {
    let out = handle_request(
        request(Method::Post, "/ipc/a%zz%2Fb", Some(TOKEN), vec![9]),
        &TOKEN.to_string(),
    );
    match &out.commands[0] {
        EngineCommand::IpcMessage(_, msg) => {
            let decoded: Vec<(String, Vec<u8>)> = rmp_serde::from_slice(msg).expect("wire batch");
            assert_eq!(decoded[0].0, "a%zz/b");
        },
        other => panic!("expected a forwarded message, got {:?}", other),
    }
}

#[test]
fn resource_route_resolves_the_relative_path() {
    let out = handle_request(
        request(Method::Get, "/resource//assets/logo.png", Some(TOKEN), vec![]),
        &TOKEN.to_string(),
    );
    match out.reply {
        TransportReply::ServeFile { path } => assert_eq!(path, b"assets/logo.png".to_vec()),
        other => panic!("expected a file reply, got {:?}", other),
    }
    assert!(out.commands.is_empty());
}

#[test]
fn unknown_route_is_not_found() {
    let out = handle_request(
        request(Method::Get, "/elsewhere", Some(TOKEN), vec![]),
        &TOKEN.to_string(),
    );
    assert!(matches!(out.reply, TransportReply::NotFound));
    assert!(out.commands.is_empty());
}
