use vstd::prelude::*;

use crate::abi::{append_bytes, be_bytes, push_be_bytes};
use crate::attest::jv_get;
use crate::text::{push_string_text, string_text};
use crate::value::{bytes_eq, JsonValue};

verus! {

/// The largest framed payload a reader accepts: 10 MiB.
pub const MAX_MESSAGE_SIZE: u32 = 10485760;

/// Notary-to-prover messages.
pub enum NotaryMessage {
    /// The HTTP context, as canonical JSON text, for the prover to review
    /// before choosing what to disclose.
    Context { data: Vec<u8> },
    /// The signed attestation: the encoded data (JSON text, or lowercase
    /// hex of the encoder's raw bytes), the encoder's format tag, and
    /// lowercase-hex signature and public key with the algorithm tag.
    Signed {
        data: Vec<u8>,
        format: Vec<u8>,
        signature: Vec<u8>,
        public_key: Vec<u8>,
        algorithm: Vec<u8>,
    },
}

/// Prover-to-notary messages.
pub enum ProverMessage {
    /// Sign the full context.
    SignRequest,
    /// Sign the supplied filtered view, carried as JSON text.
    SignFiltered { data: Vec<u8> },
}

/// The bytes of `"type"`.
pub open spec fn key_type() -> Seq<u8> {
    seq![
        0x74u8, 0x79u8, 0x70u8, 0x65u8,
    ]
}

/// The bytes of `"data"`.
pub open spec fn key_data() -> Seq<u8> {
    seq![
        0x64u8, 0x61u8, 0x74u8, 0x61u8,
    ]
}

/// The bytes of `"format"`.
pub open spec fn key_format() -> Seq<u8> {
    seq![
        0x66u8, 0x6fu8, 0x72u8, 0x6du8, 0x61u8, 0x74u8,
    ]
}

/// The bytes of `"signature"`.
pub open spec fn key_signature() -> Seq<u8> {
    seq![
        0x73u8, 0x69u8, 0x67u8, 0x6eu8, 0x61u8, 0x74u8, 0x75u8, 0x72u8,
        0x65u8,
    ]
}

/// The bytes of `"public_key"`.
pub open spec fn key_public_key() -> Seq<u8> {
    seq![
        0x70u8, 0x75u8, 0x62u8, 0x6cu8, 0x69u8, 0x63u8, 0x5fu8, 0x6bu8,
        0x65u8, 0x79u8,
    ]
}

/// The bytes of `"algorithm"`.
pub open spec fn key_algorithm() -> Seq<u8> {
    seq![
        0x61u8, 0x6cu8, 0x67u8, 0x6fu8, 0x72u8, 0x69u8, 0x74u8, 0x68u8,
        0x6du8,
    ]
}

/// The bytes of `"Context"`.
pub open spec fn tag_context() -> Seq<u8> {
    seq![
        0x43u8, 0x6fu8, 0x6eu8, 0x74u8, 0x65u8, 0x78u8, 0x74u8,
    ]
}

/// The bytes of `"Signed"`.
pub open spec fn tag_signed() -> Seq<u8> {
    seq![
        0x53u8, 0x69u8, 0x67u8, 0x6eu8, 0x65u8, 0x64u8,
    ]
}

/// The bytes of `"SignRequest"`.
pub open spec fn tag_sign_request() -> Seq<u8> {
    seq![
        0x53u8, 0x69u8, 0x67u8, 0x6eu8, 0x52u8, 0x65u8, 0x71u8, 0x75u8,
        0x65u8, 0x73u8, 0x74u8,
    ]
}

/// The bytes of `"SignFiltered"`.
pub open spec fn tag_sign_filtered() -> Seq<u8> {
    seq![
        0x53u8, 0x69u8, 0x67u8, 0x6eu8, 0x46u8, 0x69u8, 0x6cu8, 0x74u8,
        0x65u8, 0x72u8, 0x65u8, 0x64u8,
    ]
}

/// A length-prefixed frame: a 4-byte big-endian length, then the payload.
/// A payload longer than 2^32 - 1 bytes wraps, as a 32-bit length must.
pub open spec fn frame_of(payload: Seq<u8>) -> Seq<u8> {
    be_bytes(payload.len(), 4) + payload
}

/// The JSON text of a `Context` message holding `data`.
pub open spec fn context_msg_text(data: Seq<u8>) -> Seq<u8> {
    seq![0x7bu8] + string_text(key_type()) + seq![0x3au8] + string_text(tag_context()) + seq![
        0x2cu8,
    ] + string_text(key_data()) + seq![0x3au8] + string_text(data) + seq![0x7du8]
}

/// The JSON text of a `Signed` message.
pub open spec fn signed_msg_text(
    data: Seq<u8>,
    format: Seq<u8>,
    signature: Seq<u8>,
    public_key: Seq<u8>,
    algorithm: Seq<u8>,
) -> Seq<u8> {
    seq![0x7bu8] + string_text(key_type()) + seq![0x3au8] + string_text(tag_signed()) + seq![
        0x2cu8,
    ] + string_text(key_data()) + seq![0x3au8] + string_text(data) + seq![0x2cu8] + string_text(
        key_format(),
    ) + seq![0x3au8] + string_text(format) + seq![0x2cu8] + string_text(key_signature()) + seq![
        0x3au8,
    ] + string_text(signature) + seq![0x2cu8] + string_text(key_public_key()) + seq![0x3au8]
        + string_text(public_key) + seq![0x2cu8] + string_text(key_algorithm()) + seq![0x3au8]
        + string_text(algorithm) + seq![0x7du8]
}

/// Whether `v` is a `SignRequest` message.
pub open spec fn is_sign_request(v: JsonValue) -> bool {
    match jv_get(v, key_type()) {
        Some(JsonValue::Str(t)) => t@ == tag_sign_request(),
        _ => false,
    }
}

/// The filtered JSON text carried by a `SignFiltered` message.
pub open spec fn sign_filtered_data(v: JsonValue) -> Option<Seq<u8>> {
    match jv_get(v, key_type()) {
        Some(JsonValue::Str(t)) => if t@ == tag_sign_filtered() {
            match jv_get(v, key_data()) {
                Some(JsonValue::Str(d)) => Some(d@),
                _ => None,
            }
        } else {
            None
        },
        _ => None,
    }
}

fn key_type_vec() -> (r: Vec<u8>)
    ensures
        r@ == key_type(),
{
    let r: Vec<u8> = vec![
        0x74, 0x79, 0x70, 0x65,
    ];
    proof {
        assert(r@ =~= key_type());
    }
    r
}

fn key_data_vec() -> (r: Vec<u8>)
    ensures
        r@ == key_data(),
{
    let r: Vec<u8> = vec![
        0x64, 0x61, 0x74, 0x61,
    ];
    proof {
        assert(r@ =~= key_data());
    }
    r
}

fn key_format_vec() -> (r: Vec<u8>)
    ensures
        r@ == key_format(),
{
    let r: Vec<u8> = vec![
        0x66, 0x6f, 0x72, 0x6d, 0x61, 0x74,
    ];
    proof {
        assert(r@ =~= key_format());
    }
    r
}

fn key_signature_vec() -> (r: Vec<u8>)
    ensures
        r@ == key_signature(),
{
    let r: Vec<u8> = vec![
        0x73, 0x69, 0x67, 0x6e, 0x61, 0x74, 0x75, 0x72, 0x65,
    ];
    proof {
        assert(r@ =~= key_signature());
    }
    r
}

fn key_public_key_vec() -> (r: Vec<u8>)
    ensures
        r@ == key_public_key(),
{
    let r: Vec<u8> = vec![
        0x70, 0x75, 0x62, 0x6c, 0x69, 0x63, 0x5f, 0x6b, 0x65, 0x79,
    ];
    proof {
        assert(r@ =~= key_public_key());
    }
    r
}

fn key_algorithm_vec() -> (r: Vec<u8>)
    ensures
        r@ == key_algorithm(),
{
    let r: Vec<u8> = vec![
        0x61, 0x6c, 0x67, 0x6f, 0x72, 0x69, 0x74, 0x68, 0x6d,
    ];
    proof {
        assert(r@ =~= key_algorithm());
    }
    r
}

fn tag_context_vec() -> (r: Vec<u8>)
    ensures
        r@ == tag_context(),
{
    let r: Vec<u8> = vec![
        0x43, 0x6f, 0x6e, 0x74, 0x65, 0x78, 0x74,
    ];
    proof {
        assert(r@ =~= tag_context());
    }
    r
}

fn tag_signed_vec() -> (r: Vec<u8>)
    ensures
        r@ == tag_signed(),
{
    let r: Vec<u8> = vec![
        0x53, 0x69, 0x67, 0x6e, 0x65, 0x64,
    ];
    proof {
        assert(r@ =~= tag_signed());
    }
    r
}

fn tag_sign_request_vec() -> (r: Vec<u8>)
    ensures
        r@ == tag_sign_request(),
{
    let r: Vec<u8> = vec![
        0x53, 0x69, 0x67, 0x6e, 0x52, 0x65, 0x71, 0x75, 0x65, 0x73,
        0x74,
    ];
    proof {
        assert(r@ =~= tag_sign_request());
    }
    r
}

fn tag_sign_filtered_vec() -> (r: Vec<u8>)
    ensures
        r@ == tag_sign_filtered(),
{
    let r: Vec<u8> = vec![
        0x53, 0x69, 0x67, 0x6e, 0x46, 0x69, 0x6c, 0x74, 0x65, 0x72,
        0x65, 0x64,
    ];
    proof {
        assert(r@ =~= tag_sign_filtered());
    }
    r
}

/// The JSON text a notary message is written as.
pub open spec fn notary_msg_text(m: NotaryMessage) -> Seq<u8> {
    match m {
        NotaryMessage::Context { data } => context_msg_text(data@),
        NotaryMessage::Signed { data, format, signature, public_key, algorithm } => signed_msg_text(
            data@,
            format@,
            signature@,
            public_key@,
            algorithm@,
        ),
    }
}

impl NotaryMessage {
    /// Writes this message as one length-prefixed frame.
    pub fn to_frame(&self) -> (r: Vec<u8>)
        ensures
            r@ == frame_of(notary_msg_text(*self)),
    {
        match self {
            NotaryMessage::Context { data } => context_message_frame(data),
            NotaryMessage::Signed { data, format, signature, public_key, algorithm } => {
                signed_message_frame(data, format, signature, public_key, algorithm)
            },
        }
    }
}

/// Reads a prover message out of a parsed JSON value: the `type` member
/// decides the variant, and `SignFiltered` carries its `data` string.
pub fn classify_prover_message(v: &JsonValue) -> (r: Option<ProverMessage>)
    ensures
        match r {
            Some(ProverMessage::SignRequest) => is_sign_request(*v),
            Some(ProverMessage::SignFiltered { data }) => sign_filtered_data(*v) == Some(data@),
            None => !is_sign_request(*v) && sign_filtered_data(*v) is None,
        },
{
    let type_key = key_type_vec();
    let t = match crate::attest::jv_lookup(v, &type_key) {
        Some(JsonValue::Str(t)) => t,
        _ => {
            return None;
        },
    };
    let req_tag = tag_sign_request_vec();
    if bytes_eq(t, &req_tag) {
        return Some(ProverMessage::SignRequest);
    }
    let filt_tag = tag_sign_filtered_vec();
    if bytes_eq(t, &filt_tag) {
        let data_key = key_data_vec();
        match crate::attest::jv_lookup(v, &data_key) {
            Some(JsonValue::Str(d)) => {
                let mut data: Vec<u8> = Vec::new();
                append_bytes(&mut data, d);
                return Some(ProverMessage::SignFiltered { data });
            },
            _ => {
                return None;
            },
        }
    }
    None
}

/// Frames a payload: 4-byte big-endian length, then the payload.
pub fn frame_message(payload: &Vec<u8>) -> (r: Vec<u8>)
    ensures
        r@ == frame_of(payload@),
{
    let mut out: Vec<u8> = Vec::new();
    push_be_bytes(payload.len() as u128, 4, &mut out);
    append_bytes(&mut out, payload);
    proof {
        assert(out@ =~= frame_of(payload@));
    }
    out
}

/// The value of a 4-byte big-endian length prefix.
pub open spec fn frame_len_spec(h: Seq<u8>) -> nat {
    (h[0] as nat) * 0x1000000 + (h[1] as nat) * 0x10000 + (h[2] as nat) * 0x100 + (h[3] as nat)
}

/// Reads a 4-byte big-endian length prefix.
pub fn parse_frame_len(h: &Vec<u8>) -> (r: Option<u32>)
    ensures
        h@.len() == 4 ==> r == Some((frame_len_spec(h@) as u32)),
        r is Some <==> h@.len() == 4,
{
    if h.len() != 4 {
        return None;
    }
    Some(
        (h[0] as u32) * 0x1000000 + (h[1] as u32) * 0x10000 + (h[2] as u32) * 0x100 + (
        h[3] as u32),
    )
}

/// Whether a frame length is within the reader's limit.
pub fn frame_len_within_limit(len: u32) -> (r: bool)
    ensures
        r == (len <= MAX_MESSAGE_SIZE),
{
    len <= MAX_MESSAGE_SIZE
}

/// The framed bytes of a `Context` message holding `data`.
pub fn context_message_frame(data: &Vec<u8>) -> (r: Vec<u8>)
    ensures
        r@ == frame_of(context_msg_text(data@)),
{
    let mut m: Vec<u8> = Vec::new();
    m.push(0x7b);
    let k_type = key_type_vec();
    push_string_text(&k_type, &mut m);
    m.push(0x3a);
    let t_ctx = tag_context_vec();
    push_string_text(&t_ctx, &mut m);
    m.push(0x2c);
    let k_data = key_data_vec();
    push_string_text(&k_data, &mut m);
    m.push(0x3a);
    push_string_text(data, &mut m);
    m.push(0x7d);
    proof {
        assert(m@ =~= context_msg_text(data@));
    }
    frame_message(&m)
}

/// The framed bytes of a `Signed` message with the given fields.
pub fn signed_message_frame(
    data: &Vec<u8>,
    format: &Vec<u8>,
    signature: &Vec<u8>,
    public_key: &Vec<u8>,
    algorithm: &Vec<u8>,
) -> (r: Vec<u8>)
    ensures
        r@ == frame_of(
            signed_msg_text(data@, format@, signature@, public_key@, algorithm@),
        ),
{
    let mut m: Vec<u8> = Vec::new();
    m.push(0x7b);
    let k_type = key_type_vec();
    push_string_text(&k_type, &mut m);
    m.push(0x3a);
    let t_signed = tag_signed_vec();
    push_string_text(&t_signed, &mut m);
    m.push(0x2c);
    let k_data = key_data_vec();
    push_string_text(&k_data, &mut m);
    m.push(0x3a);
    push_string_text(data, &mut m);
    m.push(0x2c);
    let k_format = key_format_vec();
    push_string_text(&k_format, &mut m);
    m.push(0x3a);
    push_string_text(format, &mut m);
    m.push(0x2c);
    let k_sig = key_signature_vec();
    push_string_text(&k_sig, &mut m);
    m.push(0x3a);
    push_string_text(signature, &mut m);
    m.push(0x2c);
    let k_pk = key_public_key_vec();
    push_string_text(&k_pk, &mut m);
    m.push(0x3a);
    push_string_text(public_key, &mut m);
    m.push(0x2c);
    let k_alg = key_algorithm_vec();
    push_string_text(&k_alg, &mut m);
    m.push(0x3a);
    push_string_text(algorithm, &mut m);
    m.push(0x7d);
    proof {
        assert(m@ =~= signed_msg_text(data@, format@, signature@, public_key@, algorithm@));
    }
    frame_message(&m)
}

} // verus!
