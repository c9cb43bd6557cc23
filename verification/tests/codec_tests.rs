use rust_tls_client::json::{encode, parse_json, JsonValue};
use rust_tls_client::client::{CandidateCipherSuite, CustomClient, PriorityFrames, PriorityParam, TlsClient};
use rust_tls_client::request::{RequestPayload, TransportOptions};
use rust_tls_client::types::{
    AeadId, ClientIdentifier, H2Setting, KdfId, KeyShareCurve, SupportedVersion,
};

#[test]
fn make_custom_client() {
}

#[test]
fn descriptor_serializes_set_fields_only() {
    let w = RequestPayload::default().body("foo=bar&baz=foo".to_string()).to_wire();
    assert_eq!(w, "{\"requestBody\":\"foo=bar&baz=foo\"}");

    let w = RequestPayload::default().byte_request().byte_response().to_wire();
    assert_eq!(w, "{\"isByteRequest\":true,\"isByteResponse\":true}");

    let w = RequestPayload::default()
        .headers(vec![("Accept".to_string(), "text/html".to_string())])
        .to_wire();
    assert_eq!(w, "{\"headers\":{\"Accept\":\"text/html\"}}");

    assert_eq!(RequestPayload::default().to_wire(), "{}");
}

#[test]
fn json_body_sets_content_type_once() {
    let v = JsonValue::Obj(vec![("k".to_string(), JsonValue::UInt(7))]);
    let w = RequestPayload::default()
        .headers(vec![("Content-Type".to_string(), "text/plain".to_string())])
        .json(&v)
        .to_wire();
    assert_eq!(
        w,
        "{\"headers\":{\"Content-Type\":\"application/json\"},\"requestBody\":\"{\\\"k\\\":7}\"}"
    );
}

#[test]
fn strings_are_escaped_on_the_wire() {
    let v = JsonValue::Str("a\"b\\c\nd\te\r".to_string());
    assert_eq!(encode(&v), "\"a\\\"b\\\\c\\nd\\te\\r\"");
    let ctl = JsonValue::Str("\u{01}".to_string());
    assert_eq!(encode(&ctl), "\"\\u0001\"");
}

#[test]
fn wire_values_round_trip_through_the_codec() {
    let samples = [
        "{\"requestBody\":\"foo\",\"timeoutSeconds\":30}",
        "[\"a\",\"b\",\"c\"]",
        "{\"x\":{\"y\":[1,2,3]},\"z\":null,\"w\":true,\"v\":false}",
        "\"a\\\"b\\\\c\\nd\"",
        "18446744073709551615",
        "{}",
        "[]",
    ];
    for s in samples {
        let v = parse_json(s).unwrap();
        assert_eq!(encode(&v), *s);
    }
    assert!(parse_json("{\"a\":1,").is_none());
}

#[test]
fn interior_whitespace_and_standard_escapes_are_accepted() {
    // Whitespace between tokens, as common writers put it.
    let spaced = "{ \"a\" : [ 1 , 2 ] , \"b\" : \"x\" }";
    let v = parse_json(spaced).unwrap();
    assert_eq!(encode(&v), "{\"a\":[1,2],\"b\":\"x\"}");

    // Hex escapes of printable characters, either case, and the solidus.
    let escaped = "\"a\\u003cb\\u003Ec\\/d\"";
    let v = parse_json(escaped).unwrap();
    assert_eq!(encode(&v), "\"a<b>c/d\"");

    // A hex escape past the surrogate gap.
    let high = "\"\\uE000\"";
    assert!(parse_json(high).is_some());

    // A lone surrogate escape stays refused.
    assert!(parse_json("\"\\uD800\"").is_none());
}

#[test]
fn client_descriptor_carries_profile_and_session() {
    let client = TlsClient::new(ClientIdentifier::Chrome105, true)
        .set_timeout_seconds(10)
        .set_insecure_skip_verify(true)
        .set_proxy_url("http://127.0.0.1:8080".to_string());
    let w = client.post("https://t/p").to_wire();
    assert!(w.contains("\"requestMethod\":\"POST\""));
    assert!(w.contains("\"requestUrl\":\"https://t/p\""));
    assert!(w.contains("\"tlsClientIdentifier\":\"chrome_105\""));
    assert!(w.contains("\"withRandomTLSExtensionOrder\":true"));
    assert!(w.contains("\"timeoutSeconds\":10"));
    assert!(w.contains("\"insecureSkipVerify\":true"));
    assert!(w.contains("\"proxyUrl\":\"http://127.0.0.1:8080\""));
    assert!(w.contains("\"followRedirects\":true"));
    assert!(w.contains("\"sessionId\":\""));

    let w2 = client.remove_proxy_url().get("https://t/q").to_wire();
    assert!(!w2.contains("proxyUrl"));
    assert!(w2.contains("\"requestMethod\":\"GET\""));
}

#[test]
fn custom_profile_serializes_under_exact_keys() {
    let custom = CustomClient::new()
        .with_ja3_string("771,4865,0-23,29,0".to_string())
        .with_connection_flow(15663105)
        .with_h2_settings(vec![(H2Setting::HeaderTableSize, 65536), (H2Setting::EnablePush, 0)])
        .with_h2_settings_order(vec![H2Setting::HeaderTableSize, H2Setting::EnablePush])
        .with_header_priority(PriorityParam { stream_dep: 0, exclusive: true, weight: 255 })
        .with_priority_frames(vec![PriorityFrames {
            stream_id: 3,
            frame_payload: PriorityParam { stream_dep: 0, exclusive: false, weight: 200 },
        }])
        .with_key_share_curves(vec![KeyShareCurve::Grease, KeyShareCurve::X25519])
        .with_alpn_protocols(vec!["h2".to_string(), "http/1.1".to_string()])
        .with_ech_candidate_payloads(128)
        .with_ech_candidate_cipher_suites(vec![CandidateCipherSuite {
            kdf_id: KdfId::HKDF_SHA256,
            aead_id: AeadId::AEAD_AES_128_GCM,
        }])
        .with_supported_versions(vec![SupportedVersion::Grease, SupportedVersion::V1_3]);
    let w = encode(&custom.to_json());
    assert!(w.contains("\"ja3String\":\"771,4865,0-23,29,0\""));
    assert!(w.contains("\"connectionFlow\":15663105"));
    assert!(w.contains("\"h2Settings\":{\"HEADER_TABLE_SIZE\":65536,\"ENABLE_PUSH\":0}"));
    assert!(w.contains("\"h2SettingsOrder\":[\"HEADER_TABLE_SIZE\",\"ENABLE_PUSH\"]"));
    assert!(w.contains("\"headerPriority\":{\"streamDep\":0,\"exclusive\":true,\"weight\":255}"));
    assert!(w.contains(
        "\"priorityFrames\":[{\"streamID\":3,\"framePayload\":{\"streamDep\":0,\"exclusive\":false,\"weight\":200}}]"
    ));
    assert!(w.contains("\"keyShareCurves\":[\"GREASE\",\"X25519\"]"));
    assert!(w.contains("\"alpnProtocols\":[\"h2\",\"http/1.1\"]"));
    assert!(w.contains("\"ECHCandidatePayloads\":128"));
    assert!(w.contains(
        "\"ECHCandidateCipherSuites\":[{\"kdfId\":\"HKDF_SHA256\",\"aeadId\":\"AEAD_AES_128_GCM\"}]"
    ));
    assert!(w.contains("\"supportedVersions\":[\"GREASE\",\"1.3\"]"));
}

#[test]
fn transport_options_use_snake_case_keys() {
    let t = TransportOptions::default();
    assert_eq!(
        encode(&t.to_json()),
        "{\"disable_keep_alives\":false,\"disable_compression\":false,\"max_idle_conns\":0,\"max_idle_conns_per_host\":0,\"max_conns_per_host\":0,\"max_response_header_bytes\":0,\"write_buffer_size\":0,\"read_buffer_size\":0,\"idle_conn_timeout\":0}"
    );
}

#[test]
fn client_identifier_wire_names_are_exact() {
    assert_eq!(ClientIdentifier::Chrome105.wire_name(), "chrome_105");
    assert_eq!(ClientIdentifier::Chrome116PskPq.wire_name(), "chrome_116_PSK_PQ");
    assert_eq!(ClientIdentifier::Cloudscraper.wire_name(), "Cloudscraper");
    assert_eq!(ClientIdentifier::SafariIOS156.wire_name(), "safari_ios_15_6");
    assert_eq!(ClientIdentifier::ZalandoIOSMobile.wire_name(), "zalando_ios_mobile");
}
