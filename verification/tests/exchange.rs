use simple_notary::{
    context_message_bytes, reply_for_filtered, reply_for_request, signer_encoder_compatible,
    signing_reply, AbiEncoder, Eip712Encoder, EncoderChoice, ExchangeError, JsonEncoder,
};
use simple_notary::{ContextSigner, EthereumSecp256k1Signer, Secp256k1Signer};
use simple_notary::JsonValue;

fn s(x: &str) -> JsonValue {
    JsonValue::Str(x.as_bytes().to_vec())
}

fn n(x: u64) -> JsonValue {
    JsonValue::UInt(x)
}

fn arr(vs: Vec<JsonValue>) -> JsonValue {
    JsonValue::Array(vs)
}

fn obj(ms: Vec<(&str, JsonValue)>) -> JsonValue {
    JsonValue::Object(ms.into_iter().map(|(k, v)| (k.as_bytes().to_vec(), v)).collect())
}

fn test_context() -> JsonValue {
    obj(vec![
        ("requests", arr(vec![obj(vec![
            ("method", s("GET")),
            ("target", s("/")),
            ("headers", arr(vec![arr(vec![s("Host"), s("example.com")])])),
            ("body", JsonValue::Null),
        ])])),
        ("responses", arr(vec![obj(vec![
            ("status", n(200)),
            ("headers", arr(vec![arr(vec![s("Content-Length"), s("2")])])),
            ("body", obj(vec![("Unknown", arr(vec![n(79), n(75)]))])),
        ])])),
    ])
}

/// Strips the 4-byte big-endian length prefix, checking it.
fn unframe(bytes: &[u8]) -> Vec<u8> {
    assert!(bytes.len() >= 4);
    let len = u32::from_be_bytes([bytes[0], bytes[1], bytes[2], bytes[3]]) as usize;
    assert_eq!(len, bytes.len() - 4);
    bytes[4..].to_vec()
}

fn sign_request_payload() -> Vec<u8> {
    b"{\"type\":\"SignRequest\"}".to_vec()
}

fn sign_filtered_payload(filtered: &JsonValue) -> Vec<u8> {
    let text = String::from_utf8(simple_notary::text::to_json_bytes(filtered)).unwrap();
    format!(
        "{{\"type\":\"SignFiltered\",\"data\":{}}}",
        serde_json::to_string(&text).unwrap()
    )
    .into_bytes()
}

#[test]
fn full_signing_exchange() {
    let ctx = test_context();
    let signer = Secp256k1Signer::from_seed(&b"test-seed".to_vec()).unwrap();
    let encoder = EncoderChoice::Json(JsonEncoder);

    let ctx_frame = context_message_bytes(&ctx);
    let ctx_env: serde_json::Value = serde_json::from_slice(&unframe(&ctx_frame)).unwrap();
    assert_eq!(ctx_env["type"], "Context");
    let context_data = ctx_env["data"].as_str().unwrap().to_string();
    assert!(!context_data.is_empty());

    let reply = signing_reply(&ctx, &sign_request_payload(), &signer, &encoder).unwrap();
    let env: serde_json::Value = serde_json::from_slice(&unframe(&reply)).unwrap();
    assert_eq!(env["type"], "Signed");
    assert_eq!(env["format"], "json");
    assert_eq!(env["algorithm"], "secp256k1");

    let signed_value: serde_json::Value =
        serde_json::from_str(env["data"].as_str().unwrap()).unwrap();
    let context_value: serde_json::Value = serde_json::from_str(&context_data).unwrap();
    assert_eq!(signed_value, context_value, "signed data should match context data");

    let sig_bytes = hex::decode(env["signature"].as_str().unwrap()).unwrap();
    assert_eq!(sig_bytes.len(), 64, "secp256k1 signature should be 64 bytes");

    let pk_bytes = hex::decode(env["public_key"].as_str().unwrap()).unwrap();
    assert_eq!(pk_bytes.len(), 33, "compressed public key should be 33 bytes");
}

#[test]
fn signed_data_matches_canonical_serialization() {
    let ctx = test_context();
    let expected = String::from_utf8(simple_notary::text::to_json_bytes(&ctx)).unwrap();
    let signer = Secp256k1Signer::from_seed(&b"canonical-test".to_vec()).unwrap();
    let encoder = EncoderChoice::Json(JsonEncoder);

    let reply = signing_reply(&ctx, &sign_request_payload(), &signer, &encoder).unwrap();
    let env: serde_json::Value = serde_json::from_slice(&unframe(&reply)).unwrap();

    let signed_value: serde_json::Value =
        serde_json::from_str(env["data"].as_str().unwrap()).unwrap();
    let expected_value: serde_json::Value = serde_json::from_str(&expected).unwrap();
    assert_eq!(signed_value, expected_value, "signed data should be canonical JSON");
}

#[test]
fn selective_disclosure_filtered_signing() {
    let ctx = test_context();
    let signer = Secp256k1Signer::from_seed(&b"filtered-test".to_vec()).unwrap();
    let encoder = EncoderChoice::Json(JsonEncoder);

    // Null the first response header and drop the response body key.
    let filtered = obj(vec![
        ("requests", arr(vec![obj(vec![
            ("method", s("GET")),
            ("target", s("/")),
            ("headers", arr(vec![arr(vec![s("Host"), s("example.com")])])),
            ("body", JsonValue::Null),
        ])])),
        ("responses", arr(vec![obj(vec![
            ("status", n(200)),
            ("headers", arr(vec![JsonValue::Null])),
        ])])),
    ]);

    let reply = signing_reply(&ctx, &sign_filtered_payload(&filtered), &signer, &encoder).unwrap();
    let env: serde_json::Value = serde_json::from_slice(&unframe(&reply)).unwrap();
    assert_eq!(env["type"], "Signed");
    assert!(!env["signature"].as_str().unwrap().is_empty());
    assert_eq!(env["algorithm"], "secp256k1");

    let signed_bytes = env["data"].as_str().unwrap().as_bytes().to_vec();
    let signed = simple_notary::parse::parse_json(&signed_bytes).unwrap();
    assert!(simple_notary::is_json_subset(&signed, &ctx));
}

#[test]
fn selective_disclosure_rejects_modified_scalar() {
    let ctx = test_context();
    let signer = Secp256k1Signer::from_seed(&b"reject-test".to_vec()).unwrap();
    let encoder = EncoderChoice::Json(JsonEncoder);

    // Tamper: change the request method from GET to POST.
    let tampered = obj(vec![
        ("requests", arr(vec![obj(vec![
            ("method", s("POST")),
            ("target", s("/")),
            ("headers", arr(vec![arr(vec![s("Host"), s("example.com")])])),
            ("body", JsonValue::Null),
        ])])),
        ("responses", arr(vec![obj(vec![
            ("status", n(200)),
            ("headers", arr(vec![arr(vec![s("Content-Length"), s("2")])])),
            ("body", obj(vec![("Unknown", arr(vec![n(79), n(75)]))])),
        ])])),
    ]);

    let result = signing_reply(&ctx, &sign_filtered_payload(&tampered), &signer, &encoder);
    assert!(matches!(result, Err(ExchangeError::NotSubset)));
}

#[test]
fn abi_signing_exchange() {
    let ctx = test_context();
    let signer = Secp256k1Signer::from_seed(&b"abi-test".to_vec()).unwrap();
    let encoder = EncoderChoice::Abi(AbiEncoder);

    let reply = signing_reply(&ctx, &sign_request_payload(), &signer, &encoder).unwrap();
    let env: serde_json::Value = serde_json::from_slice(&unframe(&reply)).unwrap();
    assert_eq!(env["format"], "abi");
    assert_eq!(env["algorithm"], "secp256k1");

    let abi_bytes = hex::decode(env["data"].as_str().unwrap()).unwrap();
    assert!(!abi_bytes.is_empty());

    let sig_bytes = hex::decode(env["signature"].as_str().unwrap()).unwrap();
    assert_eq!(sig_bytes.len(), 64);
}

#[test]
fn abi_selective_disclosure() {
    let ctx = test_context();
    let signer = Secp256k1Signer::from_seed(&b"abi-filtered".to_vec()).unwrap();
    let encoder = EncoderChoice::Abi(AbiEncoder);

    // Null out the first response entirely.
    let filtered = obj(vec![
        ("requests", arr(vec![obj(vec![
            ("method", s("GET")),
            ("target", s("/")),
            ("headers", arr(vec![arr(vec![s("Host"), s("example.com")])])),
            ("body", JsonValue::Null),
        ])])),
        ("responses", arr(vec![JsonValue::Null])),
    ]);

    let reply = signing_reply(&ctx, &sign_filtered_payload(&filtered), &signer, &encoder).unwrap();
    let env: serde_json::Value = serde_json::from_slice(&unframe(&reply)).unwrap();
    assert_eq!(env["format"], "abi");
    let abi_bytes = hex::decode(env["data"].as_str().unwrap()).unwrap();
    assert!(!abi_bytes.is_empty());
}

#[test]
fn eip712_signing_exchange() {
    let ctx = test_context();
    let signer = Secp256k1Signer::from_seed(&b"eip712-test".to_vec()).unwrap();
    let encoder = EncoderChoice::Eip712(Eip712Encoder::new(
        b"SimpleNotary".to_vec(),
        b"1".to_vec(),
        1,
        [0u8; 20],
    ));

    let reply = signing_reply(&ctx, &sign_request_payload(), &signer, &encoder).unwrap();
    let env: serde_json::Value = serde_json::from_slice(&unframe(&reply)).unwrap();
    assert_eq!(env["format"], "eip712");
    assert_eq!(env["algorithm"], "secp256k1");

    let abi_bytes = hex::decode(env["data"].as_str().unwrap()).unwrap();
    assert!(!abi_bytes.is_empty());

    let sig_bytes = hex::decode(env["signature"].as_str().unwrap()).unwrap();
    assert_eq!(sig_bytes.len(), 64);
}

#[test]
fn ethereum_signer_produces_recoverable_signature() {
    let ctx = test_context();
    let signer = EthereumSecp256k1Signer::from_seed(&b"eth-test".to_vec()).unwrap();
    let encoder = EncoderChoice::Abi(AbiEncoder);

    let reply = signing_reply(&ctx, &sign_request_payload(), &signer, &encoder).unwrap();
    let env: serde_json::Value = serde_json::from_slice(&unframe(&reply)).unwrap();
    assert_eq!(env["algorithm"], "ethereum-secp256k1");

    let sig_bytes = hex::decode(env["signature"].as_str().unwrap()).unwrap();
    assert_eq!(sig_bytes.len(), 65, "ethereum signature should be 65 bytes (r+s+v)");

    let pk_bytes = hex::decode(env["public_key"].as_str().unwrap()).unwrap();
    assert_eq!(pk_bytes.len(), 65, "uncompressed public key should be 65 bytes");
    assert_eq!(pk_bytes[0], 0x04, "uncompressed key should start with 0x04");

    let v = sig_bytes[64];
    assert!(v <= 1, "recovery ID should be 0 or 1, got {v}");

    // ecrecover(keccak256(data), r, s, v) must equal the reported key.
    let data_bytes = hex::decode(env["data"].as_str().unwrap()).unwrap();
    let digest = alloy_primitives::keccak256(&data_bytes);
    let signature = k256::ecdsa::Signature::from_slice(&sig_bytes[..64]).unwrap();
    let recovery_id = k256::ecdsa::RecoveryId::from_byte(v).unwrap();
    let recovered =
        k256::ecdsa::VerifyingKey::recover_from_prehash(digest.as_slice(), &signature, recovery_id)
            .unwrap();
    let reported = k256::ecdsa::VerifyingKey::from_sec1_bytes(&pk_bytes).unwrap();
    assert_eq!(recovered, reported);
}

#[test]
fn ethereum_signer_with_eip712() {
    let ctx = test_context();
    let signer = EthereumSecp256k1Signer::from_seed(&b"eth-eip712".to_vec()).unwrap();
    let encoder = EncoderChoice::Eip712(Eip712Encoder::new(
        b"SimpleNotary".to_vec(),
        b"1".to_vec(),
        1,
        [0u8; 20],
    ));

    let reply = signing_reply(&ctx, &sign_request_payload(), &signer, &encoder).unwrap();
    let env: serde_json::Value = serde_json::from_slice(&unframe(&reply)).unwrap();
    assert_eq!(env["format"], "eip712");
    assert_eq!(env["algorithm"], "ethereum-secp256k1");

    let sig_bytes = hex::decode(env["signature"].as_str().unwrap()).unwrap();
    assert_eq!(sig_bytes.len(), 65, "ethereum sig should be 65 bytes");
}

#[test]
fn reply_for_request_signs_the_context() {
    let ctx = test_context();
    let signer = Secp256k1Signer::from_seed(&b"direct-test".to_vec()).unwrap();
    let encoder = EncoderChoice::Json(JsonEncoder);

    let direct = reply_for_request(&ctx, &signer, &encoder).unwrap();
    let via_payload = signing_reply(&ctx, &sign_request_payload(), &signer, &encoder).unwrap();
    assert_eq!(direct, via_payload);
}

#[test]
fn reply_for_filtered_rejects_a_non_subset() {
    let ctx = test_context();
    let signer = Secp256k1Signer::from_seed(&b"direct-filtered".to_vec()).unwrap();
    let encoder = EncoderChoice::Json(JsonEncoder);

    let tampered = obj(vec![("requests", arr(vec![obj(vec![("method", s("POST"))])]))]);
    let result = reply_for_filtered(&ctx, &tampered, &signer, &encoder);
    assert!(matches!(result, Err(ExchangeError::NotSubset)));

    let legal = obj(vec![("requests", arr(vec![JsonValue::Null]))]);
    let result = reply_for_filtered(&ctx, &legal, &signer, &encoder).unwrap();
    let env: serde_json::Value = serde_json::from_slice(&unframe(&result)).unwrap();
    assert_eq!(env["type"], "Signed");
}

#[test]
fn garbage_payload_is_rejected() {
    let ctx = test_context();
    let signer = Secp256k1Signer::from_seed(&b"garbage-test".to_vec()).unwrap();
    let encoder = EncoderChoice::Json(JsonEncoder);

    let result = signing_reply(&ctx, &b"not json at all".to_vec(), &signer, &encoder);
    assert!(matches!(result, Err(ExchangeError::BadProverMessage)));

    let result = signing_reply(&ctx, &b"{\"type\":\"Bogus\"}".to_vec(), &signer, &encoder);
    assert!(matches!(result, Err(ExchangeError::BadProverMessage)));
}

#[test]
fn rsa_with_non_json_encoding_is_rejected() {
    let rsa_tag = b"rsa-pkcs1v15-sha256".to_vec();
    assert!(!signer_encoder_compatible(&rsa_tag, &EncoderChoice::Abi(AbiEncoder)));
    assert!(!signer_encoder_compatible(
        &rsa_tag,
        &EncoderChoice::Eip712(Eip712Encoder::new(b"A".to_vec(), b"1".to_vec(), 1, [0u8; 20]))
    ));
    assert!(signer_encoder_compatible(&rsa_tag, &EncoderChoice::Json(JsonEncoder)));
    assert!(signer_encoder_compatible(
        &b"secp256k1".to_vec(),
        &EncoderChoice::Abi(AbiEncoder)
    ));
    assert!(signer_encoder_compatible(
        &b"ethereum-secp256k1".to_vec(),
        &EncoderChoice::Eip712(Eip712Encoder::new(b"A".to_vec(), b"1".to_vec(), 1, [0u8; 20]))
    ));
}
