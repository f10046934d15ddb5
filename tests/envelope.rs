use teloxide_core::{decode_envelope, decode_response, Exchange, RequestError};

#[test]
fn success_envelope_yields_result() {
    let r = decode_envelope(r#"{"ok":true,"result":{"id":7,"is_bot":true}}"#);
    assert_eq!(r, Ok(r#"{"id":7,"is_bot":true}"#.to_string()));
}

#[test]
fn success_envelope_with_scalar_result() {
    assert_eq!(decode_envelope(r#"{"result":true,"ok":true}"#), Ok("true".to_string()));
}

#[test]
fn too_many_requests_carries_code_and_retry_after() {
    let body = r#"{"ok":false,"error_code":429,"description":"Too Many Requests","parameters":{"retry_after":5}}"#;
    assert_eq!(
        decode_envelope(body),
        Err(RequestError::Api {
            error_code: 429,
            description: "Too Many Requests".to_string(),
            retry_after: Some(5),
        })
    );
}

#[test]
fn api_error_without_parameters_has_no_hint() {
    let body = r#"{"ok":false,"error_code":400,"description":"Bad Request: chat not found"}"#;
    assert_eq!(
        decode_envelope(body),
        Err(RequestError::Api {
            error_code: 400,
            description: "Bad Request: chat not found".to_string(),
            retry_after: None,
        })
    );
}

#[test]
fn api_error_description_is_unescaped() {
    let body = r#"{"ok":false,"error_code":403,"description":"a \"quoted\" word"}"#;
    match decode_envelope(body) {
        Err(RequestError::Api { description, .. }) => assert_eq!(description, "a \"quoted\" word"),
        other => panic!("unexpected {:?}", other),
    }
}

#[test]
fn transport_timeout_is_network_error() {
    let r = decode_response(Exchange::Failed { message: "operation timed out".to_string() });
    assert_eq!(r, Err(RequestError::Network { message: "operation timed out".to_string() }));
    assert!(!matches!(r, Err(RequestError::Api { .. })));
}

#[test]
fn received_body_is_decoded() {
    let r = decode_response(Exchange::Received { body: r#"{"ok":true,"result":1}"#.to_string() });
    assert_eq!(r, Ok("1".to_string()));
}

#[test]
fn missing_ok_is_invalid_envelope() {
    let body = r#"{"result":{"id":1}}"#;
    assert_eq!(decode_envelope(body), Err(RequestError::InvalidJson { raw: body.to_string() }));
}

#[test]
fn non_boolean_ok_is_invalid_envelope() {
    let body = r#"{"ok":1,"result":2}"#;
    assert_eq!(decode_envelope(body), Err(RequestError::InvalidJson { raw: body.to_string() }));
}

#[test]
fn success_with_error_fields_is_invalid_envelope() {
    let body = r#"{"ok":true,"result":2,"error_code":400}"#;
    assert_eq!(decode_envelope(body), Err(RequestError::InvalidJson { raw: body.to_string() }));
}

#[test]
fn success_without_result_is_invalid_envelope() {
    let body = r#"{"ok":true}"#;
    assert_eq!(decode_envelope(body), Err(RequestError::InvalidJson { raw: body.to_string() }));
}

#[test]
fn failure_without_code_is_invalid_envelope() {
    let body = r#"{"ok":false,"description":"x"}"#;
    assert_eq!(decode_envelope(body), Err(RequestError::InvalidJson { raw: body.to_string() }));
}

#[test]
fn malformed_retry_hint_is_invalid_envelope() {
    let body = r#"{"ok":false,"error_code":429,"description":"x","parameters":{"retry_after":"soon"}}"#;
    assert_eq!(decode_envelope(body), Err(RequestError::InvalidJson { raw: body.to_string() }));
}

#[test]
fn body_that_is_not_an_object_is_invalid_envelope() {
    for body in ["", "[1,2]", "not json", "{\"ok\":true"] {
        assert_eq!(decode_envelope(body), Err(RequestError::InvalidJson { raw: body.to_string() }));
    }
}
