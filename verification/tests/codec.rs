//! The wire encodings and the payload parser, cross-checked against the
//! serializer libraries that read them.

use lotus_core::command::{HostEvent, LoadStatus};
use lotus_core::events::encode_host_event;
use lotus_core::json::parse_regions;

fn parse(text: &str) -> Option<(Vec<lotus_core::geometry::Rect>, Vec<lotus_core::geometry::Rect>)> {
    parse_regions(&text.as_bytes().to_vec())
}

#[test]
fn payload_with_both_lists() {
    let (drag, no_drag) = parse(
        "{\"drag\":[{\"x\":0,\"y\":0,\"width\":100,\"height\":30}],\"noDrag\":[{\"x\":5,\"y\":6,\"width\":7,\"height\":8}]}",
    )
    .expect("well-formed");
    assert_eq!((drag[0].x, drag[0].y, drag[0].width, drag[0].height), (0, 0, 100, 30));
    assert_eq!((no_drag[0].x, no_drag[0].y, no_drag[0].width, no_drag[0].height), (5, 6, 7, 8));
}

#[test]
fn payload_accepts_whitespace_and_any_field_order() {
    let (drag, no_drag) =
        parse(" { \"noDrag\" : [ ] , \"drag\" : [ { \"height\": 30, \"width\": 100, \"y\": -7, \"x\": 0 } ] } ")
            .expect("well-formed");
    assert_eq!(drag.len(), 1);
    assert_eq!(drag[0].y, -7);
    assert!(no_drag.is_empty());
}

#[test]
fn missing_keys_mean_empty_lists() {
    let (drag, no_drag) = parse("{}").expect("well-formed");
    assert!(drag.is_empty());
    assert!(no_drag.is_empty());
    let (drag, no_drag) = parse("{\"drag\":[]}").expect("well-formed");
    assert!(drag.is_empty());
    assert!(no_drag.is_empty());
}

#[test]
fn fractions_truncate_toward_zero() {
    let (drag, _) = parse("{\"drag\":[{\"x\":1.9,\"y\":-2.9,\"width\":3.5,\"height\":4.0}]}")
        .expect("well-formed");
    assert_eq!((drag[0].x, drag[0].y, drag[0].width, drag[0].height), (1, -2, 3, 4));
}

#[test]
fn exponent_numbers_are_read() {
    let (drag, _) = parse("{\"drag\":[{\"x\":1e3,\"y\":-2.5e1,\"width\":120E-1,\"height\":0.4e2}]}")
        .expect("well-formed");
    assert_eq!((drag[0].x, drag[0].y, drag[0].width, drag[0].height), (1000, -25, 12, 40));
}

#[test]
fn any_well_formed_json_yields_one_command_with_empty_lists() {
    for text in ["1", "[]", "true", "null", "\"text\"", "-3.5", "{\"other\":{\"deep\":[1,2]}}"] {
        let (drag, no_drag) = parse(text).expect("well-formed");
        assert!(drag.is_empty(), "payload {}", text);
        assert!(no_drag.is_empty(), "payload {}", text);
    }
}

#[test]
fn non_array_region_values_read_as_empty() {
    let (drag, no_drag) = parse("{\"drag\":{\"x\":1},\"noDrag\":7}").expect("well-formed");
    assert!(drag.is_empty());
    assert!(no_drag.is_empty());
}

#[test]
fn incomplete_or_foreign_elements_are_skipped() {
    let (drag, _) = parse(
        "{\"drag\":[{\"x\":0,\"y\":0,\"width\":100},17,\"s\",{},{\"x\":1,\"y\":2,\"width\":3,\"height\":4,\"extra\":[true]}]}",
    )
    .expect("well-formed");
    assert_eq!(drag.len(), 1);
    assert_eq!((drag[0].x, drag[0].y, drag[0].width, drag[0].height), (1, 2, 3, 4));
}

#[test]
fn repeated_keys_last_occurrence_wins() {
    let (drag, _) = parse(
        "{\"drag\":[{\"x\":0,\"y\":0,\"width\":100,\"height\":30,\"x\":7}],\"drag\":[{\"x\":5,\"y\":6,\"width\":7,\"height\":8}]}",
    )
    .expect("well-formed");
    assert_eq!(drag.len(), 1);
    assert_eq!(drag[0].x, 5);
    let (drag, _) = parse("{\"drag\":[{\"x\":0,\"y\":0,\"width\":100,\"height\":30,\"x\":7}]}")
        .expect("well-formed");
    assert_eq!(drag[0].x, 7);
}

#[test]
fn out_of_pixel_range_elements_are_skipped() {
    let (drag, _) = parse(
        "{\"drag\":[{\"x\":99999999999,\"y\":0,\"width\":1,\"height\":1},{\"x\":3000000000,\"y\":0,\"width\":1,\"height\":1},{\"x\":\"5\",\"y\":0,\"width\":1,\"height\":1}]}",
    )
    .expect("well-formed");
    assert!(drag.is_empty());
}

#[test]
fn string_escapes_are_validated() {
    assert!(parse("{\"a\":\"q\\u0041\\n\\\"\"}").is_some());
    assert!(parse("{\"a\":\"\\uD83D\\uDE00\"}").is_some());
    assert!(parse("{\"a\":\"\\x\"}").is_none());
    assert!(parse("{\"a\":\"\\uD800\"}").is_none());
}

#[test]
fn nesting_past_the_depth_limit_is_rejected() {
    let shallow = format!("{}1{}", "[".repeat(100), "]".repeat(100));
    assert!(parse(&shallow).is_some());
    let deep = format!("{}1{}", "[".repeat(150), "]".repeat(150));
    assert!(parse(&deep).is_none());
}

#[test]
fn only_non_json_is_rejected() {
    assert!(parse("").is_none());
    assert!(parse("{not json").is_none());
    assert!(parse("{\"drag\":[]} trailing").is_none());
    assert!(parse("{\"drag\":[{\"x\":01,\"y\":0,\"width\":1,\"height\":1}]}").is_none());
    assert!(parse("{\"drag\":[{\"x\":1.,\"y\":0,\"width\":1,\"height\":1}]}").is_none());
    assert!(parse("{\"drag\":[{\"x\":1e1000,\"y\":0,\"width\":1,\"height\":1}]}").is_none());
    assert!(parse("{\"drag\":[1,]}").is_none());
}

#[test]
fn integer_wire_forms_round_trip_through_the_decoder() {
    // One value per encoded form: positive fixint, uint 8/16/32, negative
    // fixint, int 8/16/32.
    for (x, y) in [(0i32, 127i32), (128, 255), (256, 65535), (65536, i32::MAX), (-1, -32), (-33, -128), (-129, -32768), (-32769, i32::MIN)] {
        for v in [x, y] {
            let bytes = encode_host_event(&HostEvent::Moved { window_id: "w".to_string(), x: v, y: 0 });
            let decoded: serde_json::Value = rmp_serde::from_slice(&bytes).expect("wire record");
            assert_eq!(decoded["x"], v, "value {}", v);
        }
    }
    let bytes = encode_host_event(&HostEvent::Resized { window_id: "w".to_string(), width: u32::MAX, height: 70000 });
    let decoded: serde_json::Value = rmp_serde::from_slice(&bytes).expect("wire record");
    assert_eq!(decoded["width"], u32::MAX);
    assert_eq!(decoded["height"], 70000);
}

#[test]
fn long_strings_round_trip_through_the_decoder() {
    // Over the fixstr and str 8 header limits.
    for len in [31usize, 32, 255, 256] {
        let id = "x".repeat(len);
        let bytes = encode_host_event(&HostEvent::Ready { window_id: id.clone() });
        let decoded: serde_json::Value = rmp_serde::from_slice(&bytes).expect("wire record");
        assert_eq!(decoded["window_id"], id.as_str());
    }
}

fn decode_event(e: &HostEvent) -> serde_json::Value {
    rmp_serde::from_slice(&encode_host_event(e)).expect("wire record")
}

#[test]
fn ready_event_wire_record() {
    let v = decode_event(&HostEvent::Ready { window_id: "w-1".to_string() });
    assert_eq!(v["event"], "ready");
    assert_eq!(v["window_id"], "w-1");
}

#[test]
fn app_ready_event_wire_record() {
    let v = decode_event(&HostEvent::AppReady { ipc_port: 38231, ipc_token: "tok".to_string() });
    assert_eq!(v["event"], "app-ready");
    assert_eq!(v["ipc_port"], 38231);
    assert_eq!(v["ipc_token"], "tok");
}

#[test]
fn load_status_event_wire_record() {
    let v = decode_event(&HostEvent::LoadStatus {
        window_id: "w".to_string(),
        status: LoadStatus::HeadParsed,
    });
    assert_eq!(v["event"], "load-status");
    assert_eq!(v["status"], "head-parsed");
}

#[test]
fn geometry_event_wire_records() {
    let v = decode_event(&HostEvent::Resized { window_id: "w".to_string(), width: 800, height: 600 });
    assert_eq!(v["event"], "resized");
    assert_eq!(v["width"], 800);
    assert_eq!(v["height"], 600);
    let v = decode_event(&HostEvent::Moved { window_id: "w".to_string(), x: -120, y: 45 });
    assert_eq!(v["event"], "moved");
    assert_eq!(v["x"], -120);
    assert_eq!(v["y"], 45);
}

#[test]
fn load_status_notification_becomes_a_forwarded_message() {
    let cmd = lotus_core::events::load_status_command("w-2".to_string(), LoadStatus::Complete);
    match cmd {
        lotus_core::command::EngineCommand::IpcMessage(wid, bytes) => {
            assert_eq!(wid, "w-2");
            let v: serde_json::Value = rmp_serde::from_slice(&bytes).expect("wire record");
            assert_eq!(v["event"], "load-status");
            assert_eq!(v["status"], "complete");
            assert_eq!(v["window_id"], "w-2");
        },
        other => panic!("expected a forwarded message, got {:?}", other),
    }
}

#[test]
fn focus_and_close_event_wire_records() {
    assert_eq!(decode_event(&HostEvent::Focused { window_id: "w".to_string() })["event"], "focused");
    assert_eq!(
        decode_event(&HostEvent::Unfocused { window_id: "w".to_string() })["event"],
        "unfocused"
    );
    assert_eq!(
        decode_event(&HostEvent::WindowClosed { window_id: "w".to_string() })["event"],
        "window-closed"
    );
    assert_eq!(
        decode_event(&HostEvent::FrameReady { window_id: "w".to_string() })["event"],
        "frame-ready"
    );
}
