use simple_notary::protocol::{frame_len_within_limit, frame_message, parse_frame_len};
use simple_notary::server_config::parse_hex_address;
use simple_notary::text::{hex_encode, to_json_bytes};
use simple_notary::parse::parse_json;
use simple_notary::IoYoinker;
use simple_notary::JsonValue;

#[test]
fn frame_roundtrip() {
    let payload = b"{\"type\":\"SignRequest\"}".to_vec();
    let framed = frame_message(&payload);
    assert_eq!(framed.len(), payload.len() + 4);
    let header = framed[..4].to_vec();
    let len = parse_frame_len(&header).unwrap();
    assert_eq!(len as usize, payload.len());
    assert_eq!(&framed[4..], payload.as_slice());
}

#[test]
fn frame_length_is_big_endian() {
    let payload = vec![0u8; 300];
    let framed = frame_message(&payload);
    assert_eq!(&framed[..4], &[0, 0, 1, 44]);
}

#[test]
fn frame_len_limit_is_ten_mebibytes() {
    assert!(frame_len_within_limit(10 * 1024 * 1024));
    assert!(!frame_len_within_limit(10 * 1024 * 1024 + 1));
    assert!(frame_len_within_limit(0));
}

#[test]
fn parse_frame_len_needs_four_bytes() {
    assert!(parse_frame_len(&vec![1, 2, 3]).is_none());
    assert!(parse_frame_len(&vec![1, 2, 3, 4, 5]).is_none());
}

#[test]
fn hex_is_lowercase_two_digits_per_byte() {
    assert_eq!(hex_encode(&vec![0xde, 0xad, 0xbe, 0xef]), b"deadbeef".to_vec());
    assert_eq!(hex_encode(&vec![0x00, 0x0f, 0xa0]), b"000fa0".to_vec());
    assert_eq!(hex_encode(&vec![]), Vec::<u8>::new());
}

#[test]
fn parser_roundtrips_canonical_text() {
    let text = b"{\"a\":[1,2.5,\"x\\n\",null,true],\"b\":false}".to_vec();
    let v = parse_json(&text).unwrap();
    assert_eq!(to_json_bytes(&v), text);
}

#[test]
fn parser_skips_whitespace() {
    let text = b" { \"a\" : [ 1 , 2 ] } ".to_vec();
    let v = parse_json(&text).unwrap();
    assert_eq!(to_json_bytes(&v), b"{\"a\":[1,2]}".to_vec());
}

#[test]
fn parser_rejects_duplicate_keys() {
    assert!(parse_json(&b"{\"a\":1,\"a\":2}".to_vec()).is_none());
}

#[test]
fn parser_rejects_malformed_input() {
    assert!(parse_json(&b"{\"a\":1".to_vec()).is_none());
    assert!(parse_json(&b"[1,]".to_vec()).is_none());
    assert!(parse_json(&b"01".to_vec()).is_none());
    assert!(parse_json(&b"\"\\q\"".to_vec()).is_none());
    assert!(parse_json(&b"{} extra".to_vec()).is_none());
}

#[test]
fn parser_handles_unicode_escapes() {
    let v = parse_json(&b"\"\\u0041\\u00e9\\ud83d\\ude00\"".to_vec()).unwrap();
    match v {
        JsonValue::Str(bytes) => {
            assert_eq!(String::from_utf8(bytes).unwrap(), "A\u{e9}\u{1F600}");
        },
        _ => panic!("expected a string"),
    }
}

#[test]
fn parser_keeps_large_and_fractional_numbers_as_text() {
    let text = b"[18446744073709551616,-1,1e3]".to_vec();
    let v = parse_json(&text).unwrap();
    assert_eq!(to_json_bytes(&v), text);
    let small = parse_json(&b"18446744073709551615".to_vec()).unwrap();
    assert!(matches!(small, JsonValue::UInt(u64::MAX)));
}

#[test]
fn serializer_writes_decimal_and_literals() {
    assert_eq!(to_json_bytes(&JsonValue::UInt(0)), b"0".to_vec());
    assert_eq!(to_json_bytes(&JsonValue::UInt(1234567890)), b"1234567890".to_vec());
    assert_eq!(to_json_bytes(&JsonValue::UInt(u64::MAX)), b"18446744073709551615".to_vec());
    assert_eq!(to_json_bytes(&JsonValue::Bool(true)), b"true".to_vec());
    assert_eq!(to_json_bytes(&JsonValue::Bool(false)), b"false".to_vec());
    assert_eq!(to_json_bytes(&JsonValue::Null), b"null".to_vec());
    assert_eq!(to_json_bytes(&JsonValue::Array(vec![])), b"[]".to_vec());
    assert_eq!(to_json_bytes(&JsonValue::Object(vec![])), b"{}".to_vec());
}

#[test]
fn new_yoinker_lends_and_yoink_reclaims() {
    let (yoinker, boinker) = IoYoinker::new_yoinker(7u32);
    let strong = boinker.shared.upgrade().unwrap();
    assert_eq!(*strong.lock().unwrap(), 7);
    drop(strong);
    drop(boinker);
    assert_eq!(yoinker.yoink(), Some(7));
}

#[test]
fn encode_options_default_is_empty() {
    let o = simple_notary::EncodeOptions::default();
    assert!(o.embedding_model.is_none());
    assert!(o.quantization.is_none());
    assert!(simple_notary::Quantization::Float32 != simple_notary::Quantization::Int8);
    assert!(simple_notary::Quantization::Int8 == simple_notary::Quantization::Int8);
}

#[test]
fn parse_hex_address_reads_prefixed_hex() {
    let a = parse_hex_address(&b"0x00112233445566778899aabbccddeeff00112233".to_vec()).unwrap();
    assert_eq!(a[0], 0x00);
    assert_eq!(a[1], 0x11);
    assert_eq!(a[19], 0x33);
    let b = parse_hex_address(&b"00112233445566778899aabbccddeeff00112233".to_vec()).unwrap();
    assert_eq!(a, b);
    assert!(parse_hex_address(&b"0x1234".to_vec()).is_none());
    assert!(parse_hex_address(&b"0xzz112233445566778899aabbccddeeff00112233".to_vec()).is_none());
}
