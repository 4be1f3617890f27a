use vstd::prelude::*;

use crate::abi::{
    att_view, header_view, headers_view, request_view, response_view, spec_kv_enc, AbiHeader,
    AbiRequest, AbiResponse, Attestation, GAttestation, GHeader, GRequest, GResponse,
};
use crate::abi::{enc_kv, BODY_JSON_KV, BODY_NONE, BODY_RAW};
use crate::text::{json_text_of, to_json_bytes};
use crate::value::{obj_get, obj_lookup, JsonValue};

verus! {

/// The member of object `v` named `key`, if `v` is an object holding one.
pub open spec fn jv_get(v: JsonValue, key: Seq<u8>) -> Option<JsonValue> {
    match v {
        JsonValue::Object(m) => obj_get(m@, key),
        _ => None,
    }
}

/// The value behind an optional reference.
pub open spec fn opt_deref(o: Option<&JsonValue>) -> Option<JsonValue> {
    match o {
        Some(x) => Some(*x),
        None => None,
    }
}

/// The bytes of a string value; anything else reads as empty.
pub open spec fn str_of(v: JsonValue) -> Seq<u8> {
    match v {
        JsonValue::Str(s) => s@,
        _ => Seq::empty(),
    }
}

/// `str_of` through an optional value.
pub open spec fn opt_str_of(v: Option<JsonValue>) -> Seq<u8> {
    match v {
        Some(w) => str_of(w),
        None => Seq::empty(),
    }
}

pub open spec fn key_requests() -> Seq<u8> {
    seq![0x72u8, 0x65u8, 0x71u8, 0x75u8, 0x65u8, 0x73u8, 0x74u8, 0x73u8]
}

pub open spec fn key_responses() -> Seq<u8> {
    seq![0x72u8, 0x65u8, 0x73u8, 0x70u8, 0x6fu8, 0x6eu8, 0x73u8, 0x65u8, 0x73u8]
}

pub open spec fn key_method() -> Seq<u8> {
    seq![0x6du8, 0x65u8, 0x74u8, 0x68u8, 0x6fu8, 0x64u8]
}

pub open spec fn key_target() -> Seq<u8> {
    seq![0x74u8, 0x61u8, 0x72u8, 0x67u8, 0x65u8, 0x74u8]
}

pub open spec fn key_headers() -> Seq<u8> {
    seq![0x68u8, 0x65u8, 0x61u8, 0x64u8, 0x65u8, 0x72u8, 0x73u8]
}

pub open spec fn key_body() -> Seq<u8> {
    seq![0x62u8, 0x6fu8, 0x64u8, 0x79u8]
}

pub open spec fn key_status() -> Seq<u8> {
    seq![0x73u8, 0x74u8, 0x61u8, 0x74u8, 0x75u8, 0x73u8]
}

pub open spec fn key_json() -> Seq<u8> {
    seq![0x4au8, 0x73u8, 0x6fu8, 0x6eu8]
}

pub open spec fn key_unknown() -> Seq<u8> {
    seq![0x55u8, 0x6eu8, 0x6bu8, 0x6eu8, 0x6fu8, 0x77u8, 0x6eu8]
}

/// One header position: a `[name, value]` pair reads as its two strings; a
/// nulled or malformed position reads as the empty pair.
pub open spec fn g_header_of(v: JsonValue) -> GHeader {
    match v {
        JsonValue::Array(p) => GHeader {
            name: if p@.len() >= 1 {
                str_of(p@[0])
            } else {
                Seq::empty()
            },
            value: if p@.len() >= 2 {
                str_of(p@[1])
            } else {
                Seq::empty()
            },
        },
        _ => GHeader { name: Seq::empty(), value: Seq::empty() },
    }
}

/// The headers member read as an array of header pairs; anything else reads
/// as no headers.
pub open spec fn g_headers_of(v: Option<JsonValue>) -> Seq<GHeader> {
    match v {
        Some(JsonValue::Array(a)) => Seq::new(a@.len(), |i: int| g_header_of(a@[i])),
        _ => Seq::empty(),
    }
}

/// The bytes of the first `i` entries of an `Unknown` body array: integer
/// entries are taken modulo 256, anything else is skipped.
pub open spec fn unknown_bytes(a: Seq<JsonValue>, i: int) -> Seq<u8>
    decreases i,
{
    if i <= 0 {
        Seq::empty()
    } else {
        unknown_bytes(a, i - 1) + match a[i - 1] {
            JsonValue::UInt(n) => seq![(n % 256) as u8],
            _ => Seq::empty(),
        }
    }
}

/// A `{"Json": ...}` body: a top-level object becomes the key-value pair
/// encoding; any other value falls back to its raw JSON text.
pub open spec fn g_json_body_of(j: JsonValue) -> (Seq<u8>, u8) {
    match j {
        JsonValue::Object(m) => (
            spec_kv_enc(
                Seq::new(m@.len(), |i: int| m@[i].0@),
                Seq::new(m@.len(), |i: int| json_text_of(m@[i].1)),
            ),
            BODY_JSON_KV,
        ),
        _ => (json_text_of(j), BODY_RAW),
    }
}

/// The body member read as `(bytes, encoding discriminator)`.
pub open spec fn g_body_of(vopt: Option<JsonValue>) -> (Seq<u8>, u8) {
    match vopt {
        None => (Seq::empty(), BODY_NONE),
        Some(bv) => if bv is Null {
            (Seq::empty(), BODY_NONE)
        } else {
            match jv_get(bv, key_json()) {
                Some(j) => g_json_body_of(j),
                None => match jv_get(bv, key_unknown()) {
                    Some(JsonValue::Array(u)) => (unknown_bytes(u@, u@.len() as int), BODY_RAW),
                    _ => (Seq::empty(), BODY_NONE),
                },
            }
        },
    }
}

/// One request position: `null` reads as an absent request with zero-valued
/// members; anything else reads member-wise with lenient defaults.
pub open spec fn g_request_of(v: JsonValue) -> GRequest {
    if v is Null {
        GRequest {
            present: false,
            method: Seq::empty(),
            target: Seq::empty(),
            headers: Seq::empty(),
            body: Seq::empty(),
            body_encoding: BODY_NONE,
        }
    } else {
        let body = g_body_of(jv_get(v, key_body()));
        GRequest {
            present: true,
            method: opt_str_of(jv_get(v, key_method())),
            target: opt_str_of(jv_get(v, key_target())),
            headers: g_headers_of(jv_get(v, key_headers())),
            body: body.0,
            body_encoding: body.1,
        }
    }
}

/// One response position; the status is an integer taken modulo 2^16, with
/// 0 for anything else.
pub open spec fn g_response_of(v: JsonValue) -> GResponse {
    if v is Null {
        GResponse {
            present: false,
            status: 0,
            headers: Seq::empty(),
            body: Seq::empty(),
            body_encoding: BODY_NONE,
        }
    } else {
        let body = g_body_of(jv_get(v, key_body()));
        GResponse {
            present: true,
            status: match jv_get(v, key_status()) {
                Some(JsonValue::UInt(n)) => (n % 0x10000) as u16,
                _ => 0,
            },
            headers: g_headers_of(jv_get(v, key_headers())),
            body: body.0,
            body_encoding: body.1,
        }
    }
}

/// The attestation a JSON context stands for: its `requests` and
/// `responses` arrays read position-preservingly, with anything missing or
/// malformed reading as empty.
pub open spec fn g_att_of(v: JsonValue) -> GAttestation {
    let rq: Seq<JsonValue> = match jv_get(v, key_requests()) {
        Some(JsonValue::Array(a)) => a@,
        _ => Seq::empty(),
    };
    let rp: Seq<JsonValue> = match jv_get(v, key_responses()) {
        Some(JsonValue::Array(a)) => a@,
        _ => Seq::empty(),
    };
    GAttestation {
        requests: Seq::new(rq.len(), |i: int| g_request_of(rq[i])),
        responses: Seq::new(rp.len(), |i: int| g_response_of(rp[i])),
    }
}

/// Looks up the member of `v` named `key`, for an object `v` holding one.
pub fn jv_lookup<'a>(v: &'a JsonValue, key: &Vec<u8>) -> (r: Option<&'a JsonValue>)
    ensures
        opt_deref(r) == jv_get(*v, key@),
{
    match v {
        JsonValue::Object(m) => obj_lookup(m, key),
        _ => None,
    }
}

/// Reads a string member's bytes, with the empty string for anything else.
fn str_or_empty(v: Option<&JsonValue>) -> (r: Vec<u8>)
    ensures
        r@ == opt_str_of(opt_deref(v)),
{
    match v {
        Some(JsonValue::Str(s)) => {
            let mut out: Vec<u8> = Vec::new();
            crate::abi::append_bytes(&mut out, s);
            out
        },
        _ => Vec::new(),
    }
}

/// Builds the header list of one request or response.
fn build_headers(v: Option<&JsonValue>) -> (r: Vec<AbiHeader>)
    ensures
        headers_view(r@) == g_headers_of(opt_deref(v)),
{
    let mut out: Vec<AbiHeader> = Vec::new();
    match v {
        Some(JsonValue::Array(arr)) => {
            let mut i: usize = 0;
            while i < arr.len()
                invariant
                    i <= arr.len(),
                    out@.len() == i,
                    forall|j: int| 0 <= j < i ==> header_view(out@[j]) == g_header_of(arr@[j]),
                decreases arr.len() - i,
            {
                let h = match &arr[i] {
                    JsonValue::Array(p) => {
                        let name: Vec<u8> = if p.len() >= 1 {
                            match &p[0] {
                                JsonValue::Str(s) => {
                                    let mut b: Vec<u8> = Vec::new();
                                    crate::abi::append_bytes(&mut b, s);
                                    b
                                },
                                _ => Vec::new(),
                            }
                        } else {
                            Vec::new()
                        };
                        let value: Vec<u8> = if p.len() >= 2 {
                            match &p[1] {
                                JsonValue::Str(s) => {
                                    let mut b: Vec<u8> = Vec::new();
                                    crate::abi::append_bytes(&mut b, s);
                                    b
                                },
                                _ => Vec::new(),
                            }
                        } else {
                            Vec::new()
                        };
                        AbiHeader { name, value }
                    },
                    _ => AbiHeader { name: Vec::new(), value: Vec::new() },
                };
                out.push(h);
                i += 1;
            }
            proof {
                assert(headers_view(out@) =~= g_headers_of(opt_deref(v)));
            }
        },
        _ => {
            proof {
                assert(headers_view(out@) =~= g_headers_of(opt_deref(v)));
            }
        },
    }
    out
}

/// Builds the `(bytes, encoding)` pair of one body member.
fn build_body(v: Option<&JsonValue>) -> (r: (Vec<u8>, u8))
    ensures
        (r.0@, r.1) == g_body_of(opt_deref(v)),
{
    let bv = match v {
        None => {
            return (Vec::new(), BODY_NONE);
        },
        Some(b) => b,
    };
    if let JsonValue::Null = bv {
        return (Vec::new(), BODY_NONE);
    }
    let json_key: Vec<u8> = vec![0x4a, 0x73, 0x6f, 0x6e];
    proof {
        assert(json_key@ =~= key_json());
    }
    match jv_lookup(bv, &json_key) {
        Some(j) => {
            match j {
                JsonValue::Object(m) => {
                    let mut keys: Vec<Vec<u8>> = Vec::new();
                    let mut vals: Vec<Vec<u8>> = Vec::new();
                    let mut i: usize = 0;
                    while i < m.len()
                        invariant
                            i <= m.len(),
                            keys@.len() == i,
                            vals@.len() == i,
                            forall|k: int| 0 <= k < i ==> keys@[k]@ == m@[k].0@,
                            forall|k: int| 0 <= k < i ==> vals@[k]@ == json_text_of(m@[k].1),
                        decreases m.len() - i,
                    {
                        let mut kb: Vec<u8> = Vec::new();
                        crate::abi::append_bytes(&mut kb, &m[i].0);
                        keys.push(kb);
                        vals.push(to_json_bytes(&m[i].1));
                        i += 1;
                    }
                    let enc = enc_kv(&keys, &vals);
                    proof {
                        assert(crate::abi::seq_views(keys@) =~= Seq::new(
                            m@.len(),
                            |i: int| m@[i].0@,
                        ));
                        assert(crate::abi::seq_views(vals@) =~= Seq::new(
                            m@.len(),
                            |i: int| json_text_of(m@[i].1),
                        ));
                    }
                    (enc, BODY_JSON_KV)
                },
                _ => (to_json_bytes(j), BODY_RAW),
            }
        },
        None => {
            let unknown_key: Vec<u8> = vec![0x55, 0x6e, 0x6b, 0x6e, 0x6f, 0x77, 0x6e];
            proof {
                assert(unknown_key@ =~= key_unknown());
            }
            match jv_lookup(bv, &unknown_key) {
                Some(JsonValue::Array(u)) => {
                    let mut bytes: Vec<u8> = Vec::new();
                    let mut i: usize = 0;
                    while i < u.len()
                        invariant
                            i <= u.len(),
                            bytes@ == unknown_bytes(u@, i as int),
                        decreases u.len() - i,
                    {
                        if let JsonValue::UInt(n) = &u[i] {
                            bytes.push((*n % 256) as u8);
                        }
                        proof {
                            assert(bytes@ =~= unknown_bytes(u@, i + 1));
                        }
                        i += 1;
                    }
                    (bytes, BODY_RAW)
                },
                _ => (Vec::new(), BODY_NONE),
            }
        },
    }
}

/// Builds one request position.
fn build_request(v: &JsonValue) -> (r: AbiRequest)
    ensures
        request_view(r) == g_request_of(*v),
{
    if let JsonValue::Null = v {
        let r = AbiRequest {
            present: false,
            method: Vec::new(),
            target: Vec::new(),
            headers: Vec::new(),
            body: Vec::new(),
            body_encoding: BODY_NONE,
        };
        proof {
            assert(request_view(r) =~~= g_request_of(*v));
        }
        return r;
    }
    let method_key: Vec<u8> = vec![0x6d, 0x65, 0x74, 0x68, 0x6f, 0x64];
    let target_key: Vec<u8> = vec![0x74, 0x61, 0x72, 0x67, 0x65, 0x74];
    let headers_key: Vec<u8> = vec![0x68, 0x65, 0x61, 0x64, 0x65, 0x72, 0x73];
    let body_key: Vec<u8> = vec![0x62, 0x6f, 0x64, 0x79];
    proof {
        assert(method_key@ =~= key_method());
        assert(target_key@ =~= key_target());
        assert(headers_key@ =~= key_headers());
        assert(body_key@ =~= key_body());
    }
    let method = str_or_empty(jv_lookup(v, &method_key));
    let target = str_or_empty(jv_lookup(v, &target_key));
    let headers = build_headers(jv_lookup(v, &headers_key));
    let body = build_body(jv_lookup(v, &body_key));
    let r = AbiRequest {
        present: true,
        method,
        target,
        headers,
        body: body.0,
        body_encoding: body.1,
    };
    proof {
        assert(request_view(r) =~~= g_request_of(*v));
    }
    r
}

/// Builds one response position.
fn build_response(v: &JsonValue) -> (r: AbiResponse)
    ensures
        response_view(r) == g_response_of(*v),
{
    if let JsonValue::Null = v {
        let r = AbiResponse {
            present: false,
            status: 0,
            headers: Vec::new(),
            body: Vec::new(),
            body_encoding: BODY_NONE,
        };
        proof {
            assert(response_view(r) =~~= g_response_of(*v));
        }
        return r;
    }
    let status_key: Vec<u8> = vec![0x73, 0x74, 0x61, 0x74, 0x75, 0x73];
    let headers_key: Vec<u8> = vec![0x68, 0x65, 0x61, 0x64, 0x65, 0x72, 0x73];
    let body_key: Vec<u8> = vec![0x62, 0x6f, 0x64, 0x79];
    proof {
        assert(status_key@ =~= key_status());
        assert(headers_key@ =~= key_headers());
        assert(body_key@ =~= key_body());
    }
    let status: u16 = match jv_lookup(v, &status_key) {
        Some(JsonValue::UInt(n)) => (*n % 0x10000) as u16,
        _ => 0,
    };
    let headers = build_headers(jv_lookup(v, &headers_key));
    let body = build_body(jv_lookup(v, &body_key));
    let r = AbiResponse { present: true, status, headers, body: body.0, body_encoding: body.1 };
    proof {
        assert(response_view(r) =~~= g_response_of(*v));
    }
    r
}

/// Builds the attestation that `v` stands for.
pub fn build_attestation(v: &JsonValue) -> (r: Attestation)
    ensures
        att_view(r) == g_att_of(*v),
{
    let requests_key: Vec<u8> = vec![0x72, 0x65, 0x71, 0x75, 0x65, 0x73, 0x74, 0x73];
    let responses_key: Vec<u8> = vec![0x72, 0x65, 0x73, 0x70, 0x6f, 0x6e, 0x73, 0x65, 0x73];
    proof {
        assert(requests_key@ =~= key_requests());
        assert(responses_key@ =~= key_responses());
    }
    let mut requests: Vec<AbiRequest> = Vec::new();
    match jv_lookup(v, &requests_key) {
        Some(JsonValue::Array(a)) => {
            let mut i: usize = 0;
            while i < a.len()
                invariant
                    i <= a.len(),
                    requests@.len() == i,
                    forall|j: int| 0 <= j < i ==> request_view(requests@[j]) == g_request_of(
                        a@[j],
                    ),
                decreases a.len() - i,
            {
                requests.push(build_request(&a[i]));
                i += 1;
            }
        },
        _ => {},
    }
    let mut responses: Vec<AbiResponse> = Vec::new();
    match jv_lookup(v, &responses_key) {
        Some(JsonValue::Array(a)) => {
            let mut i: usize = 0;
            while i < a.len()
                invariant
                    i <= a.len(),
                    responses@.len() == i,
                    forall|j: int| 0 <= j < i ==> response_view(responses@[j]) == g_response_of(
                        a@[j],
                    ),
                decreases a.len() - i,
            {
                responses.push(build_response(&a[i]));
                i += 1;
            }
        },
        _ => {},
    }
    let r = Attestation { requests, responses };
    proof {
        assert(att_view(r) =~~= g_att_of(*v));
    }
    r
}

} // verus!
