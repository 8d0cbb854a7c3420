use patisserie::response::{classify_reply, interpret_response, Response, ResponseError};

#[test]
fn reply_with_url_is_a_success() {
    let reply = interpret_response(br#"{"url":"https://pastery.net/abc"}"#).unwrap();
    assert!(matches!(&reply, Response::Paste { url } if url == "https://pastery.net/abc"));
    assert_eq!(reply.into_result().unwrap(), "https://pastery.net/abc");
}

#[test]
fn reply_with_error_msg_is_a_failure() {
    let reply = interpret_response(br#"{"error_msg":"bad key"}"#).unwrap();
    assert!(matches!(&reply, Response::Error { error_msg } if error_msg == "bad key"));
    match reply.into_result() {
        Err(ResponseError::RemoteFailure { message }) => assert_eq!(message, "bad key"),
        other => panic!("expected the service's refusal, got {:?}", other),
    }
}

#[test]
fn reply_of_another_shape_is_malformed() {
    assert!(matches!(
        interpret_response(br#"{"foo":1}"#),
        Err(ResponseError::MalformedResponse)
    ));
}

#[test]
fn success_shape_is_tried_first() {
    let reply = interpret_response(br#"{"error_msg":"no","url":"https://pastery.net/x"}"#).unwrap();
    assert!(matches!(reply, Response::Paste { url } if url == "https://pastery.net/x"));
}

#[test]
fn other_members_are_ignored() {
    let reply = interpret_response(br#"{"id":"x","url":"u","views":3}"#).unwrap();
    assert!(matches!(reply, Response::Paste { url } if url == "u"));
}

#[test]
fn member_that_is_no_string_does_not_count() {
    let reply = interpret_response(br#"{"url":1,"error_msg":"oops"}"#).unwrap();
    assert!(matches!(reply, Response::Error { error_msg } if error_msg == "oops"));
    assert!(matches!(
        interpret_response(br#"{"url":null}"#),
        Err(ResponseError::MalformedResponse)
    ));
    assert!(matches!(
        interpret_response(br#"{"error_msg":["a"]}"#),
        Err(ResponseError::MalformedResponse)
    ));
}

#[test]
fn what_is_no_json_object_is_malformed() {
    for body in [&b""[..], b"not json", b"[\"https://pastery.net/abc\"]", b"\"url\"", b"{\"url\":\"a\"", b"{\"url\":\"a\"} x", b"\xff\xfe"] {
        assert!(matches!(interpret_response(body), Err(ResponseError::MalformedResponse)));
    }
}

#[test]
fn escapes_are_decoded() {
    let body = r#"{"error_msg":"line\nbreak \"quoted\" \u00e9"}"#;
    let reply = interpret_response(body.as_bytes()).unwrap();
    assert!(matches!(reply, Response::Error { error_msg } if error_msg == "line\nbreak \"quoted\" \u{e9}"));
}

#[test]
fn members_decide_the_reply() {
    let both = classify_reply(Some("u".to_string()), Some("m".to_string())).unwrap();
    assert!(matches!(both, Response::Paste { url } if url == "u"));
    let only_url = classify_reply(Some("u".to_string()), None).unwrap();
    assert!(matches!(only_url, Response::Paste { url } if url == "u"));
    let only_msg = classify_reply(None, Some("m".to_string())).unwrap();
    assert!(matches!(only_msg, Response::Error { error_msg } if error_msg == "m"));
    assert!(matches!(classify_reply(None, None), Err(ResponseError::MalformedResponse)));
}

#[test]
fn response_messages() {
    assert_eq!(ResponseError::MalformedResponse.message(), "Could not parse JSON response");
    let e = ResponseError::RemoteFailure { message: "bad key".to_string() };
    assert_eq!(e.message(), "bad key");
}

#[test]
fn members_of_nested_objects_do_not_count() {
    assert!(matches!(
        interpret_response(br#"{"data":{"url":"u"}}"#),
        Err(ResponseError::MalformedResponse)
    ));
    assert!(matches!(
        interpret_response(br#"[{"url":"u"}]"#),
        Err(ResponseError::MalformedResponse)
    ));
}

#[test]
fn last_of_repeated_members_counts() {
    let reply = interpret_response(br#"{"url":"first","url":"second"}"#).unwrap();
    assert!(matches!(reply, Response::Paste { url } if url == "second"));
}
