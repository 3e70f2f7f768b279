use axum_kit::middleware::body::{log_text, read_failure_message, Direction};
use axum_kit::middleware::request_response_logger::{buffer_outcome, BAD_REQUEST, INTERNAL_SERVER_ERROR};
use axum_kit::middleware::trace_body::{inspect_body, trace_body, BodyVerdict};

#[test]
fn direction_tags() {
    assert_eq!(Direction::Request.as_str(), "request");
    assert_eq!(Direction::Response.as_str(), "response");
}

#[test]
fn text_body_is_logged_as_itself() {
    let body = br#"{"username":"abc"}"#;
    assert_eq!(log_text(body), Some(r#"{"username":"abc"}"#.to_string()));
    assert_eq!(log_text("héllo".as_bytes()), Some("héllo".to_string()));
    assert_eq!(log_text(b""), Some(String::new()));
}

#[test]
fn binary_body_is_not_logged() {
    assert_eq!(log_text(&[0xff, 0xfe, 0x00]), None);
    assert_eq!(log_text(&[0x61, 0xc3]), None);
}

#[test]
fn read_failure_message_names_direction_and_cause() {
    assert_eq!(
        read_failure_message(Direction::Response, "stream reset"),
        "failed to read response body: stream reset"
    );
}

#[test]
fn echoed_text_body_is_logged_verbatim_both_ways() {
    let body = br#"{"username":"abc"}"#.to_vec();
    let layer = trace_body();
    let svc = layer.layer(0u8);
    assert_eq!(*svc.inner_ref(), 0u8);
    let forwarded = match inspect_body(Direction::Request, Ok(body.clone())) {
        BodyVerdict::Pass { body: b, text } => {
            assert_eq!(text.unwrap().as_bytes(), body.as_slice());
            b
        }
        other => panic!("unexpected {:?}", other),
    };
    assert_eq!(forwarded, body);
    match inspect_body(Direction::Response, Ok(forwarded)) {
        BodyVerdict::Pass { body: b, text } => {
            assert_eq!(text.unwrap().as_bytes(), body.as_slice());
            assert_eq!(b, body);
        }
        other => panic!("unexpected {:?}", other),
    }
}

#[test]
fn unreadable_request_body_is_a_client_error() {
    match inspect_body(Direction::Request, Err("connection reset".to_string())) {
        BodyVerdict::Reject { status, message, cause } => {
            assert_eq!(status, 400);
            assert_eq!(message, "Bad Request");
            assert_eq!(cause, "connection reset");
        }
        other => panic!("unexpected {:?}", other),
    }
}

#[test]
fn unreadable_response_body_is_a_server_error() {
    match inspect_body(Direction::Response, Err("broken".to_string())) {
        BodyVerdict::Reject { status, message, .. } => {
            assert_eq!(status, 500);
            assert_eq!(message, "Internal Server Error");
        }
        other => panic!("unexpected {:?}", other),
    }
}

#[test]
fn binary_body_passes_byte_for_byte() {
    let body = vec![0x00, 0xff, 0x80, 0x7f];
    match inspect_body(Direction::Request, Ok(body.clone())) {
        BodyVerdict::Pass { body: b, text } => {
            assert_eq!(b, body);
            assert_eq!(text, None);
        }
        other => panic!("unexpected {:?}", other),
    }
}

#[test]
fn printing_middleware_outcomes() {
    assert_eq!(buffer_outcome(Direction::Request, Ok(vec![1, 2])), Ok(vec![1, 2]));
    assert_eq!(
        buffer_outcome(Direction::Request, Err("eof".to_string())),
        Err((BAD_REQUEST, "failed to read request body: eof".to_string()))
    );
    assert_eq!(
        buffer_outcome(Direction::Response, Err("eof".to_string())),
        Err((INTERNAL_SERVER_ERROR, "failed to read response body: eof".to_string()))
    );
    assert_eq!(
        buffer_outcome(Direction::Response, Err("reset".to_string())),
        Err((500, "failed to read response body: reset".to_string()))
    );
}
