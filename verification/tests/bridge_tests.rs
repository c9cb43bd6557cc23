use rust_tls_client::TlsClientError;
use rust_tls_client::bridge::{
    destroy_session_payload, export_cookies_payload, import_cookies_payload, plan_request_outcome,
};

#[test]
fn request_scenario_get_ok() {
    // A GET descriptor with a named profile and default transport options.
    let client = rust_tls_client::client::TlsClient::new(
        rust_tls_client::types::ClientIdentifier::Chrome120,
        false,
    );
    let wire = client.get("https://example.test/ok").to_wire();
    assert!(wire.starts_with('{'));
    assert!(wire.contains("\"requestMethod\":\"GET\""));
    assert!(wire.contains("\"requestUrl\":\"https://example.test/ok\""));
    assert!(wire.contains("\"tlsClientIdentifier\":\"chrome_120\""));

    // The simulated module reply, and the bridge's reading of it.
    let raw = "{\"id\":\"r1\",\"sessionId\":\"s1\",\"status\":200,\"target\":\"https://example.test/ok\",\"body\":\"hello\"}";
    let (res, free) = plan_request_outcome(raw);
    let resp = res.unwrap();
    assert_eq!(resp.get_status(), 200);
    assert_eq!(resp.get_content().unwrap(), "hello");
    assert_eq!(free.unwrap(), "r1");
}

#[test]
fn request_malformed_reply_is_protocol_violation() {
    // Truncated payload: the call fails and no identifier is freed.
    let raw = "{\"id\":\"r1\",\"sessionId\":";
    let (res, free) = plan_request_outcome(raw);
    assert_eq!(res.unwrap_err(), TlsClientError::ProtocolViolation);
    assert!(free.is_none());
}

#[test]
fn request_reply_with_trailing_whitespace_is_trimmed() {
    let raw = "{\"id\":\"r2\",\"sessionId\":\"s1\",\"status\":204,\"target\":\"https://t\"}  \n";
    let (res, free) = plan_request_outcome(raw);
    let resp = res.unwrap();
    assert_eq!(resp.get_status(), 204);
    assert!(resp.get_content().is_none());
    assert_eq!(free.unwrap(), "r2");
}

#[test]
fn request_reply_in_spaced_form_is_accepted() {
    // A reply as a pretty-printing writer would send it: interior whitespace
    // and a hex escape of a printable character in the body.
    let raw = "{ \"id\": \"r9\", \"sessionId\": \"s1\", \"status\": 200, \"target\": \"https://t\", \"body\": \"a \\u003cb\\u003e tag\" }";
    let (res, free) = plan_request_outcome(raw);
    let resp = res.unwrap();
    assert_eq!(resp.get_status(), 200);
    assert_eq!(resp.get_content().unwrap(), "a <b> tag");
    assert_eq!(free.unwrap(), "r9");
}

#[test]
fn request_reply_wrong_shape_is_protocol_violation() {
    // Parses as a value, but not as a reply: status is a string.
    let raw = "{\"id\":\"r1\",\"sessionId\":\"s1\",\"status\":\"ok\",\"target\":\"t\"}";
    let (res, free) = plan_request_outcome(raw);
    assert_eq!(res.unwrap_err(), TlsClientError::ProtocolViolation);
    assert!(free.is_none());
}

#[test]
fn session_destroy_then_reuse_succeeds_with_fresh_identifier() {
    // The bridge enforces nothing about identifier reuse: after a destroy
    // payload for "s1", a new request under "s1" is decoded like any other
    // and carries a fresh response identifier.
    assert_eq!(destroy_session_payload("s1"), "{\"sessionId\":\"s1\"}");
    let first = "{\"id\":\"r1\",\"sessionId\":\"s1\",\"status\":200,\"target\":\"https://t\"}";
    let again = "{\"id\":\"r2\",\"sessionId\":\"s1\",\"status\":200,\"target\":\"https://t\"}";
    let (res1, free1) = plan_request_outcome(first);
    let (res2, free2) = plan_request_outcome(again);
    let r1 = res1.unwrap();
    let r2 = res2.unwrap();
    assert_eq!(r1.get_id(), "r1");
    assert_eq!(r2.get_id(), "r2");
    assert_ne!(r1.get_id(), r2.get_id());
    assert_eq!(free1.unwrap(), "r1");
    assert_eq!(free2.unwrap(), "r2");
}

#[test]
fn session_payloads_are_exact() {
    assert_eq!(
        export_cookies_payload("s9", "https://example.test"),
        "{\"sessionId\":\"s9\",\"url\":\"https://example.test\"}"
    );
    let cookies = vec![("k".to_string(), "v".to_string())];
    assert_eq!(
        import_cookies_payload("s9", "https://example.test", &cookies),
        "{\"sessionId\":\"s9\",\"url\":\"https://example.test\",\"cookies\":[{\"name\":\"k\",\"value\":\"v\"}]}"
    );
}

#[test]
fn response_headers_and_cookies_are_read() {
    let raw = "{\"id\":\"r3\",\"sessionId\":\"s1\",\"status\":200,\"target\":\"https://t\",\"usedProtocol\":\"h2\",\"headers\":{\"Set-Cookie\":[\"a=1\",\"b=2\"]},\"cookies\":{\"a\":\"1\"}}";
    let (res, _free) = plan_request_outcome(raw);
    let resp = res.unwrap();
    let headers = resp.get_headers().unwrap();
    assert_eq!(headers.len(), 1);
    assert_eq!(headers[0].0, "Set-Cookie");
    assert_eq!(headers[0].1, vec!["a=1".to_string(), "b=2".to_string()]);
    let cookies = resp.get_cookies().unwrap();
    assert_eq!(cookies, vec![("a".to_string(), "1".to_string())]);
}
