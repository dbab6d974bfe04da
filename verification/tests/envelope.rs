use camelmailer_rs::{Envelope, Error, ErrorBody, Http};
use serde_json::Value;

fn success(data: Option<Value>) -> Option<Envelope> {
    Some(Envelope { status: "success".to_string(), data, error: None })
}

fn failure(code: &str, message: &str) -> Option<Envelope> {
    Some(Envelope {
        status: "error".to_string(),
        data: None,
        error: Some(ErrorBody { code: code.to_string(), message: message.to_string() }),
    })
}

#[test]
fn success_envelope_yields_data() {
    let text = r#"{"status":"success","time":0.1,"data":{"pong":true}}"#;
    let data: Value = serde_json::from_str(r#"{"pong":true}"#).unwrap();
    let value = Http::parse_envelope(200, text, success(Some(data))).expect("parses").unwrap();
    assert_eq!(value["pong"], Value::Bool(true));
}

#[test]
fn error_envelope_yields_api_error() {
    let text = r#"{"status":"error","time":0.1,"error":{"code":"ValidationError","message":"nope"}}"#;
    let result = Http::parse_envelope(422, text, failure("ValidationError", "nope"));
    match result.unwrap_err() {
        Error::Api { code, message, status } => {
            assert_eq!(code, "ValidationError");
            assert_eq!(message, "nope");
            assert_eq!(status, 422);
        }
        other => panic!("expected Error::Api, got {other:?}"),
    }
}

#[test]
fn http_non_envelope_body_is_unexpected_response() {
    let result = Http::parse_envelope(502, "<html>Bad gateway</html>", None);
    match result.unwrap_err() {
        Error::UnexpectedResponse { status, body } => {
            assert_eq!(status, 502);
            assert!(body.contains("Bad gateway"));
        }
        other => panic!("expected UnexpectedResponse, got {other:?}"),
    }
}

#[test]
fn http_error_with_success_body_still_fails() {
    // A proxy could rewrite the status; a non-2xx is never a success.
    let result = Http::parse_envelope(502, r#"{"status":"success","time":0.1}"#, success(None));
    assert!(matches!(result.unwrap_err(), Error::Api { status: 502, .. }));
}

#[test]
fn error_without_error_member_is_named_after_the_status() {
    let text = r#"{"status":"error"}"#;
    let envelope = Some(Envelope { status: "error".to_string(), data: None, error: None });
    match Http::parse_envelope(503, text, envelope).unwrap_err() {
        Error::Api { code, message, status } => {
            assert_eq!(code, "Http503");
            assert_eq!(message, text);
            assert_eq!(status, 503);
        }
        other => panic!("expected Error::Api, got {other:?}"),
    }
}

#[test]
fn success_without_data_gives_none() {
    let result = Http::parse_envelope(204, r#"{"status":"success"}"#, success(None));
    assert!(matches!(result, Ok(None)));
}

#[test]
fn error_status_in_a_2xx_response_fails() {
    let result = Http::parse_envelope(200, "{}", failure("NotFound", "gone"));
    let error = result.unwrap_err();
    assert!(error.is_not_found());
    assert_eq!(error.status(), Some(200));
}

#[test]
fn long_bodies_are_cut_to_the_snippet() {
    let body = "x".repeat(600);
    match Http::parse_envelope(500, &body, None).unwrap_err() {
        Error::UnexpectedResponse { body, .. } => assert_eq!(body.len(), 512),
        other => panic!("unexpected {other:?}"),
    }
    // A cut never splits a character: 511 ASCII bytes and a 2-byte char.
    let body = format!("{}é{}", "a".repeat(511), "b".repeat(10));
    match Http::parse_envelope(500, &body, None).unwrap_err() {
        Error::UnexpectedResponse { body, .. } => assert_eq!(body, "a".repeat(511)),
        other => panic!("unexpected {other:?}"),
    }
}

#[test]
fn error_helpers_classify_codes() {
    let api = |code: &str| Error::Api { code: code.to_string(), message: String::new(), status: 401 };
    assert!(api("Unauthorized").is_unauthorized());
    assert!(!api("Forbidden").is_unauthorized());
    assert!(api("NotFound").is_not_found());
    assert!(api("ValidationError").is_validation_error());
    assert!(api("ParameterMissing").is_validation_error());
    assert!(!api("NotFound").is_validation_error());
    assert_eq!(api("Forbidden").code(), Some("Forbidden"));
    assert_eq!(Error::Network("down".to_string()).code(), None);
    assert_eq!(Error::Network("down".to_string()).status(), None);
    let unexpected = Error::UnexpectedResponse { status: 502, body: String::new() };
    assert_eq!(unexpected.status(), Some(502));
    assert!(!Error::Config("x".to_string()).is_not_found());
}

#[test]
fn error_messages_per_variant() {
    let api = Error::Api { code: "NotFound".to_string(), message: "no such message".to_string(), status: 404 };
    assert_eq!(api.to_string(), "CamelMailer API error NotFound: no such message (HTTP 404)");
    assert_eq!(Error::Network("timed out".to_string()).to_string(), "network error: timed out");
    assert_eq!(Error::Serde("bad json".to_string()).to_string(), "serialization error: bad json");
    let unexpected = Error::UnexpectedResponse { status: 502, body: "<html>".to_string() };
    assert_eq!(unexpected.to_string(), "unexpected response (HTTP 502): <html>");
    assert_eq!(Error::Config("nope".to_string()).to_string(), "invalid configuration: nope");
    assert_eq!(Error::Decode("bad".to_string()).to_string(), "decode error: bad");
}
