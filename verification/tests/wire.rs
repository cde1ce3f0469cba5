use zmctf_core::backend::{HttpReply, endpoint_url, interpret_exchange};
use zmctf_core::model::{AnalysisError, AnalysisRequest};
use zmctf_core::text::decimal_string;
use zmctf_core::wire::encode_request;

#[test]
fn round_trip_request_and_fixture_response() {
    let req = AnalysisRequest { content: "flag{test}".to_string(), mode: None };
    assert_eq!(
        encode_request(&req).as_str(),
        "{\"content\":\"flag{test}\",\"mode\":null}",
    );

    let fixture = "{\"success\":true,\"flags\":[{\"content\":\"flag{test}\",\"confidence\":0.97,\"source\":\"plain\",\"encoding\":\"base64\"},{\"content\":\"ZmxhZw==\",\"confidence\":0.5,\"source\":\"base64\",\"encoding\":null}],\"logs\":[{\"timestamp\":\"t0\",\"level\":\"info\",\"module\":\"detector\",\"action\":\"scan started\"}]}";
    let a = interpret_exchange(HttpReply::Success(fixture.to_string()))
        .expect("the fixture decodes");
    assert!(a.success);
    assert_eq!(a.flags.len(), 2);
    assert_eq!(a.flags[0].content, "flag{test}");
    assert_eq!(a.flags[0].confidence, "0.97");
    assert_eq!(a.flags[0].source, "plain");
    assert_eq!(a.flags[0].encoding, Some("base64".to_string()));
    assert_eq!(a.flags[1].content, "ZmxhZw==");
    assert_eq!(a.flags[1].confidence, "0.5");
    assert_eq!(a.flags[1].source, "base64");
    assert_eq!(a.flags[1].encoding, None);
    assert_eq!(a.logs.len(), 1);
    assert_eq!(a.logs[0].timestamp, "t0");
    assert_eq!(a.logs[0].level, "info");
    assert_eq!(a.logs[0].module, "detector");
    assert_eq!(a.logs[0].action, "scan started");
}

#[test]
fn encode_escapes_quotes_backslashes_and_controls() {
    let req = AnalysisRequest {
        content: "a\"b\\c\nd\te\u{1}f".to_string(),
        mode: None,
    };
    assert_eq!(
        encode_request(&req).as_str(),
        "{\"content\":\"a\\\"b\\\\c\\nd\\te\\u0001f\",\"mode\":null}",
    );
}

#[test]
fn encode_keeps_a_present_mode() {
    let req = AnalysisRequest {
        content: "text".to_string(),
        mode: Some("fast".to_string()),
    };
    assert_eq!(
        encode_request(&req).as_str(),
        "{\"content\":\"text\",\"mode\":\"fast\"}",
    );
}

#[test]
fn non_json_body_is_malformed() {
    match interpret_exchange(HttpReply::Success("<html>boom</html>".to_string())) {
        Err(AnalysisError::MalformedResponse(m)) => {
            assert_eq!(m, "invalid JSON in response body");
        }
        other => panic!("expected a malformed-response error, got {other:?}"),
    }
}

#[test]
fn wrong_schema_is_malformed() {
    match interpret_exchange(HttpReply::Success("{\"success\":true}".to_string())) {
        Err(AnalysisError::MalformedResponse(m)) => {
            assert_eq!(m, "unexpected response shape");
        }
        other => panic!("expected a malformed-response error, got {other:?}"),
    }
    let bad_confidence = "{\"success\":true,\"flags\":[{\"content\":\"x\",\"confidence\":\"high\",\"source\":\"plain\"}],\"logs\":[]}";
    match interpret_exchange(HttpReply::Success(bad_confidence.to_string())) {
        Err(AnalysisError::MalformedResponse(m)) => {
            assert_eq!(m, "unexpected response shape");
        }
        other => panic!("expected a malformed-response error, got {other:?}"),
    }
}

#[test]
fn absent_encoding_field_reads_as_none() {
    let fixture = "{\"success\":false,\"flags\":[{\"content\":\"x\",\"confidence\":1,\"source\":\"plain\"}],\"logs\":[]}";
    let a = interpret_exchange(HttpReply::Success(fixture.to_string()))
        .expect("an absent optional field is accepted");
    assert!(!a.success);
    assert_eq!(a.flags[0].encoding, None);
    assert_eq!(a.flags[0].confidence, "1");
}

#[test]
fn unknown_fields_are_ignored() {
    let fixture = "{\"success\":true,\"flags\":[],\"logs\":[],\"extra\":42}";
    let a = interpret_exchange(HttpReply::Success(fixture.to_string()))
        .expect("unknown fields do not break decoding");
    assert!(a.success);
    assert!(a.flags.is_empty());
    assert!(a.logs.is_empty());
}

#[test]
fn transport_and_status_map_to_their_errors() {
    match interpret_exchange(HttpReply::Transport("dns failure".to_string())) {
        Err(AnalysisError::Transport(m)) => assert_eq!(m, "dns failure"),
        other => panic!("expected a transport error, got {other:?}"),
    }
    match interpret_exchange(HttpReply::Status(404, "not found".to_string())) {
        Err(AnalysisError::RemoteRejected(code, body)) => {
            assert_eq!(code, 404);
            assert_eq!(body, "not found");
        }
        other => panic!("expected a rejection, got {other:?}"),
    }
}

#[test]
fn decimal_text_is_exact() {
    assert_eq!(decimal_string(0).as_str(), "0");
    assert_eq!(decimal_string(7).as_str(), "7");
    assert_eq!(decimal_string(10).as_str(), "10");
    assert_eq!(decimal_string(509).as_str(), "509");
    assert_eq!(decimal_string(12345).as_str(), "12345");
}

#[test]
fn endpoint_url_strips_trailing_slashes() {
    assert_eq!(
        endpoint_url("http://127.0.0.1:8080").as_str(),
        "http://127.0.0.1:8080/api/analyze",
    );
    assert_eq!(
        endpoint_url("http://127.0.0.1:8080///").as_str(),
        "http://127.0.0.1:8080/api/analyze",
    );
    assert_eq!(endpoint_url("").as_str(), "/api/analyze");
}
