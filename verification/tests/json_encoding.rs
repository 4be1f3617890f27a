use sha2::Digest;
use simple_notary::JsonEncoder;
use simple_notary::JsonValue;

fn s(x: &str) -> JsonValue {
    JsonValue::Str(x.as_bytes().to_vec())
}

fn n(x: u64) -> JsonValue {
    JsonValue::UInt(x)
}

fn obj(ms: Vec<(&str, JsonValue)>) -> JsonValue {
    JsonValue::Object(ms.into_iter().map(|(k, v)| (k.as_bytes().to_vec(), v)).collect())
}

#[test]
fn roundtrip_encode() {
    let context = obj(vec![
        ("request", obj(vec![("method", s("GET"))])),
        ("response", obj(vec![("status", n(200))])),
    ]);
    let encoded = JsonEncoder.encode(&context);

    let decoded: serde_json::Value = serde_json::from_slice(&encoded.data).unwrap();
    let expected: serde_json::Value =
        serde_json::from_str(r#"{"request":{"method":"GET"},"response":{"status":200}}"#).unwrap();
    assert_eq!(decoded, expected);
}

#[test]
fn digest_matches_sha256() {
    let context = obj(vec![("key", s("value"))]);
    let encoded = JsonEncoder.encode(&context);

    let expected_digest = sha2::Sha256::digest(&encoded.data).to_vec();
    assert_eq!(encoded.digest, expected_digest);
}

#[test]
fn json_deterministic_encoding() {
    let make = || obj(vec![("b", n(2)), ("a", n(1))]);
    let enc1 = JsonEncoder.encode(&make());
    let enc2 = JsonEncoder.encode(&make());
    assert_eq!(enc1.data, enc2.data);
    assert_eq!(enc1.digest, enc2.digest);
}

#[test]
fn name_is_json() {
    assert_eq!(JsonEncoder.name(), "json");
}

#[test]
fn digest_is_32_bytes() {
    let encoded = JsonEncoder.encode(&obj(vec![]));
    assert_eq!(encoded.digest.len(), 32);
}

#[test]
fn string_escapes_reparse() {
    let context = obj(vec![("text", s("a\"b\\c\n\t\u{1}"))]);
    let encoded = JsonEncoder.encode(&context);
    let decoded: serde_json::Value = serde_json::from_slice(&encoded.data).unwrap();
    assert_eq!(decoded["text"].as_str().unwrap(), "a\"b\\c\n\t\u{1}");
}
