use alloy_primitives::keccak256;
use alloy_sol_types::{sol_data, SolType};
use simple_notary::AbiEncoder;
use simple_notary::JsonValue;

type HeaderTy = (sol_data::String, sol_data::String);
type ReqTy = (
    sol_data::Bool,
    sol_data::String,
    sol_data::String,
    sol_data::Array<HeaderTy>,
    sol_data::Bytes,
    sol_data::Uint<8>,
);
type RespTy = (
    sol_data::Bool,
    sol_data::Uint<16>,
    sol_data::Array<HeaderTy>,
    sol_data::Bytes,
    sol_data::Uint<8>,
);
type AttTy = (sol_data::Array<ReqTy>, sol_data::Array<RespTy>);

fn s(x: &str) -> JsonValue {
    JsonValue::Str(x.as_bytes().to_vec())
}

fn n(x: u64) -> JsonValue {
    JsonValue::UInt(x)
}

fn arr(vs: Vec<JsonValue>) -> JsonValue {
    JsonValue::Array(vs)
}

fn obj(ms: Vec<(&str, JsonValue)>) -> JsonValue {
    JsonValue::Object(ms.into_iter().map(|(k, v)| (k.as_bytes().to_vec(), v)).collect())
}

#[test]
fn encode_simple_context() {
    let context = obj(vec![
        ("requests", arr(vec![obj(vec![
            ("target", s("/")),
            ("method", s("GET")),
            ("headers", arr(vec![arr(vec![s("Host"), s("example.com")])])),
            ("body", JsonValue::Null),
        ])])),
        ("responses", arr(vec![obj(vec![
            ("status", n(200)),
            ("headers", arr(vec![arr(vec![s("Content-Length"), s("2")])])),
            ("body", obj(vec![("Unknown", arr(vec![n(79), n(75)]))])),
        ])])),
    ]);

    let encoded = AbiEncoder.encode(&context);
    assert!(!encoded.data.is_empty());
    assert_eq!(encoded.digest.len(), 32, "keccak256 digest should be 32 bytes");

    let (requests, responses) = <AttTy as SolType>::abi_decode(&encoded.data).unwrap();
    assert_eq!(requests.len(), 1);
    assert_eq!(responses.len(), 1);
    assert!(requests[0].0);
    assert_eq!(requests[0].1, "GET");
    assert_eq!(requests[0].2, "/");
    assert_eq!(requests[0].3.len(), 1);
    assert_eq!(requests[0].3[0].0, "Host");
    assert_eq!(requests[0].5, 0u8);
    assert!(responses[0].0);
    assert_eq!(responses[0].1, 200u16);
    assert_eq!(responses[0].3.as_ref(), &[79u8, 75u8]);
    assert_eq!(responses[0].4, 1u8);
}

#[test]
fn encode_with_redactions() {
    let context = obj(vec![
        ("requests", arr(vec![JsonValue::Null])),
        ("responses", arr(vec![obj(vec![
            ("status", n(200)),
            (
                "headers",
                arr(vec![
                    JsonValue::Null,
                    arr(vec![s("Content-Type"), s("text/plain")]),
                ]),
            ),
            ("body", JsonValue::Null),
        ])])),
    ]);

    let encoded = AbiEncoder.encode(&context);
    let (requests, responses) = <AttTy as SolType>::abi_decode(&encoded.data).unwrap();

    assert!(!requests[0].0);
    assert_eq!(requests[0].1, "");

    assert!(responses[0].0);
    assert_eq!(responses[0].2[0].0, "");
    assert_eq!(responses[0].2[0].1, "");
    assert_eq!(responses[0].2[1].0, "Content-Type");
    assert_eq!(responses[0].4, 0u8);
}

#[test]
fn encode_json_body_as_kv() {
    let context = obj(vec![
        ("requests", arr(vec![obj(vec![
            ("target", s("/api")),
            ("method", s("POST")),
            ("headers", arr(vec![])),
            ("body", obj(vec![("Json", obj(vec![
                ("name", s("Alice")),
                ("age", n(30)),
            ]))])),
        ])])),
        ("responses", arr(vec![])),
    ]);

    let encoded = AbiEncoder.encode(&context);
    let (requests, _) = <AttTy as SolType>::abi_decode(&encoded.data).unwrap();

    assert_eq!(requests[0].5, 2u8);
    assert!(!requests[0].4.is_empty());

    type KvTy = (sol_data::Array<sol_data::String>, sol_data::Array<sol_data::String>);
    let (keys, values) = <KvTy as SolType>::abi_decode(requests[0].4.as_ref()).unwrap();
    assert!(keys.contains(&"name".to_string()));
    assert!(keys.contains(&"age".to_string()));
    let name_idx = keys.iter().position(|k| k == "name").unwrap();
    assert_eq!(values[name_idx], "\"Alice\"");
}

#[test]
fn encode_json_array_body_as_raw() {
    let context = obj(vec![
        ("requests", arr(vec![])),
        ("responses", arr(vec![obj(vec![
            ("status", n(200)),
            ("headers", arr(vec![])),
            ("body", obj(vec![("Json", arr(vec![n(1), n(2), n(3)]))])),
        ])])),
    ]);

    let encoded = AbiEncoder.encode(&context);
    let (_, responses) = <AttTy as SolType>::abi_decode(&encoded.data).unwrap();

    assert_eq!(responses[0].4, 1u8);
    let body_str = String::from_utf8(responses[0].3.to_vec()).unwrap();
    assert_eq!(body_str, "[1,2,3]");
}

#[test]
fn abi_deterministic_encoding() {
    let make = || {
        obj(vec![
            ("requests", arr(vec![obj(vec![
                ("target", s("/")),
                ("method", s("GET")),
                ("headers", arr(vec![])),
                ("body", JsonValue::Null),
            ])])),
            ("responses", arr(vec![obj(vec![
                ("status", n(200)),
                ("headers", arr(vec![])),
                ("body", JsonValue::Null),
            ])])),
        ])
    };
    let enc1 = AbiEncoder.encode(&make());
    let enc2 = AbiEncoder.encode(&make());
    assert_eq!(enc1.data, enc2.data);
    assert_eq!(enc1.digest, enc2.digest);
}

#[test]
fn abi_digest_is_keccak256() {
    let context = obj(vec![("requests", arr(vec![])), ("responses", arr(vec![]))]);
    let encoded = AbiEncoder.encode(&context);
    let expected = keccak256(&encoded.data).to_vec();
    assert_eq!(encoded.digest, expected);
}

#[test]
fn name_is_abi() {
    assert_eq!(AbiEncoder.name(), "abi");
}

#[test]
fn empty_context_encodes_to_empty_arrays() {
    let encoded = AbiEncoder.encode(&obj(vec![]));
    let (requests, responses) = <AttTy as SolType>::abi_decode(&encoded.data).unwrap();
    assert!(requests.is_empty());
    assert!(responses.is_empty());
}

#[test]
fn embedding_attestation_layout_decodes() {
    let model = b"all-MiniLM-L6-v2".to_vec();
    let embedding: Vec<u8> = vec![1, 2, 3, 255];
    let mut scale = vec![0u8; 32];
    scale[31] = 7;
    let data = simple_notary::embedding::enc_embedding_attestation(&model, 4, 1, &embedding, &scale);

    type EmbTy = (
        sol_data::String,
        sol_data::Uint<16>,
        sol_data::Uint<8>,
        sol_data::Bytes,
        sol_data::Uint<256>,
    );
    let (m, dims, quant, emb, wad) = <EmbTy as SolType>::abi_decode(&data).unwrap();
    assert_eq!(m, "all-MiniLM-L6-v2");
    assert_eq!(dims, 4u16);
    assert_eq!(quant, 1u8);
    assert_eq!(emb.as_ref(), &[1u8, 2, 3, 255]);
    assert_eq!(wad, alloy_primitives::U256::from(7u64));
}

#[test]
fn embedding_allow_list_is_exact() {
    let allowed: Vec<Vec<u8>> = vec![b"all-MiniLM-L6-v2".to_vec(), b"bge-small-en-v1.5".to_vec()];
    assert!(simple_notary::embedding::embedding_model_allowed(
        &b"all-MiniLM-L6-v2".to_vec(),
        &allowed
    ));
    assert!(!simple_notary::embedding::embedding_model_allowed(
        &b"unknown-model".to_vec(),
        &allowed
    ));
}

#[test]
fn missing_headers_key_produces_empty_array() {
    let context = obj(vec![
        ("requests", arr(vec![obj(vec![("target", s("/")), ("method", s("GET"))])])),
        ("responses", arr(vec![])),
    ]);
    let encoded = AbiEncoder.encode(&context);
    let (requests, _) = <AttTy as SolType>::abi_decode(&encoded.data).unwrap();
    assert!(requests[0].3.is_empty());
}
