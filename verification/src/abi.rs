use vstd::prelude::*;

verus! {

// The fixed struct layout that is signed on-chain, with strings held as
// UTF-8 bytes:
//
//   Header      = { name: string, value: string }
//   Request     = { present: bool, method: string, target: string,
//                   headers: Header[], body: bytes, bodyEncoding: uint8 }
//   Response    = { present: bool, status: uint16,
//                   headers: Header[], body: bytes, bodyEncoding: uint8 }
//   Attestation = { requests: Request[], responses: Response[] }
//
// `spec_attestation_enc` below pins the Solidity v2 ABI encoding of an
// `Attestation` value down to the byte.

/// One `[name, value]` header pair.
pub struct AbiHeader {
    pub name: Vec<u8>,
    pub value: Vec<u8>,
}

/// One request of the attested exchange.
pub struct AbiRequest {
    pub present: bool,
    pub method: Vec<u8>,
    pub target: Vec<u8>,
    pub headers: Vec<AbiHeader>,
    pub body: Vec<u8>,
    pub body_encoding: u8,
}

/// One response of the attested exchange.
pub struct AbiResponse {
    pub present: bool,
    pub status: u16,
    pub headers: Vec<AbiHeader>,
    pub body: Vec<u8>,
    pub body_encoding: u8,
}

/// The whole attested exchange, position-preserving.
pub struct Attestation {
    pub requests: Vec<AbiRequest>,
    pub responses: Vec<AbiResponse>,
}

/// The mathematical image of an `AbiHeader`.
#[verifier::ext_equal]
pub ghost struct GHeader {
    pub name: Seq<u8>,
    pub value: Seq<u8>,
}

/// The mathematical image of an `AbiRequest`.
#[verifier::ext_equal]
pub ghost struct GRequest {
    pub present: bool,
    pub method: Seq<u8>,
    pub target: Seq<u8>,
    pub headers: Seq<GHeader>,
    pub body: Seq<u8>,
    pub body_encoding: u8,
}

/// The mathematical image of an `AbiResponse`.
#[verifier::ext_equal]
pub ghost struct GResponse {
    pub present: bool,
    pub status: u16,
    pub headers: Seq<GHeader>,
    pub body: Seq<u8>,
    pub body_encoding: u8,
}

/// The mathematical image of an `Attestation`.
#[verifier::ext_equal]
pub ghost struct GAttestation {
    pub requests: Seq<GRequest>,
    pub responses: Seq<GResponse>,
}

pub open spec fn header_view(h: AbiHeader) -> GHeader {
    GHeader { name: h.name@, value: h.value@ }
}

pub open spec fn headers_view(hs: Seq<AbiHeader>) -> Seq<GHeader> {
    Seq::new(hs.len(), |i: int| header_view(hs[i]))
}

pub open spec fn request_view(r: AbiRequest) -> GRequest {
    GRequest {
        present: r.present,
        method: r.method@,
        target: r.target@,
        headers: headers_view(r.headers@),
        body: r.body@,
        body_encoding: r.body_encoding,
    }
}

pub open spec fn response_view(r: AbiResponse) -> GResponse {
    GResponse {
        present: r.present,
        status: r.status,
        headers: headers_view(r.headers@),
        body: r.body@,
        body_encoding: r.body_encoding,
    }
}

/// What an `Attestation` value stands for.
pub open spec fn att_view(a: Attestation) -> GAttestation {
    GAttestation {
        requests: Seq::new(a.requests@.len(), |i: int| request_view(a.requests@[i])),
        responses: Seq::new(a.responses@.len(), |i: int| response_view(a.responses@[i])),
    }
}

/// `body` is absent, `null`, or of unrecognized shape.
pub const BODY_NONE: u8 = 0;

/// `body` is carried as raw bytes.
pub const BODY_RAW: u8 = 1;

/// `body` is carried as ABI-encoded `(string[] keys, string[] values)`.
pub const BODY_JSON_KV: u8 = 2;

/// The `k` big-endian bytes of `n` (mod 256^k).
pub open spec fn be_bytes(n: nat, k: nat) -> Seq<u8>
    decreases k,
{
    if k == 0 {
        Seq::empty()
    } else {
        be_bytes(n / 256, (k - 1) as nat) + seq![(n % 256) as u8]
    }
}

/// A 32-byte ABI word holding `n`.
pub open spec fn word_of(n: nat) -> Seq<u8> {
    be_bytes(n, 32)
}

/// `k` zero bytes.
pub open spec fn zeros(k: nat) -> Seq<u8> {
    Seq::new(k, |i: int| 0u8)
}

/// How many zero bytes pad `n` content bytes to a word boundary.
pub open spec fn pad_len(n: nat) -> nat {
    ((32 - n % 32) % 32) as nat
}

/// ABI encoding of `bytes` / `string` content: a length word, the bytes,
/// zero padding to a word boundary.
pub open spec fn enc_bytes_spec(s: Seq<u8>) -> Seq<u8> {
    word_of(s.len()) + s + zeros(pad_len(s.len()))
}

/// The concatenation of the first `i` element encodings.
pub open spec fn concat_upto(es: Seq<Seq<u8>>, i: int) -> Seq<u8>
    decreases i,
{
    if i <= 0 {
        Seq::empty()
    } else {
        concat_upto(es, i - 1) + es[i - 1]
    }
}

/// The first `i` offset words of a dynamic-element array: element `j` sits
/// at `32 * n` (past the offset words) plus the lengths before it.
pub open spec fn dyn_heads(es: Seq<Seq<u8>>, i: int) -> Seq<u8>
    decreases i,
{
    if i <= 0 {
        Seq::empty()
    } else {
        dyn_heads(es, i - 1) + word_of(32 * es.len() + concat_upto(es, i - 1).len())
    }
}

/// ABI encoding of an array of dynamic elements from the elements'
/// encodings: a length word, one offset word per element, the encodings.
pub open spec fn dyn_array_enc(es: Seq<Seq<u8>>) -> Seq<u8> {
    word_of(es.len()) + dyn_heads(es, es.len() as int) + concat_upto(es, es.len() as int)
}

/// The views of a vector of byte vectors.
pub open spec fn seq_views(es: Seq<Vec<u8>>) -> Seq<Seq<u8>> {
    Seq::new(es.len(), |i: int| es[i]@)
}

/// ABI encoding of one header: a tuple of two strings.
pub open spec fn spec_enc_header(h: GHeader) -> Seq<u8> {
    let n = enc_bytes_spec(h.name);
    let v = enc_bytes_spec(h.value);
    word_of(64) + word_of(64 + n.len()) + n + v
}

/// ABI encoding of a header array.
pub open spec fn spec_enc_headers(hs: Seq<GHeader>) -> Seq<u8> {
    dyn_array_enc(Seq::new(hs.len(), |i: int| spec_enc_header(hs[i])))
}

/// ABI encoding of one request: a word per member — `present`, then four
/// offsets interleaved with the static `bodyEncoding` word — then the
/// dynamic members' encodings in member order.
pub open spec fn spec_enc_request(r: GRequest) -> Seq<u8> {
    let m = enc_bytes_spec(r.method);
    let t = enc_bytes_spec(r.target);
    let h = spec_enc_headers(r.headers);
    let b = enc_bytes_spec(r.body);
    word_of(if r.present {
        1
    } else {
        0
    }) + word_of(192) + word_of(192 + m.len()) + word_of(192 + m.len() + t.len()) + word_of(
        192 + m.len() + t.len() + h.len(),
    ) + word_of(r.body_encoding as nat) + m + t + h + b
}

/// ABI encoding of one response.
pub open spec fn spec_enc_response(r: GResponse) -> Seq<u8> {
    let h = spec_enc_headers(r.headers);
    let b = enc_bytes_spec(r.body);
    word_of(if r.present {
        1
    } else {
        0
    }) + word_of(r.status as nat) + word_of(160) + word_of(160 + h.len()) + word_of(
        r.body_encoding as nat,
    ) + h + b
}

/// ABI encoding of the request array.
pub open spec fn spec_enc_requests(rs: Seq<GRequest>) -> Seq<u8> {
    dyn_array_enc(Seq::new(rs.len(), |i: int| spec_enc_request(rs[i])))
}

/// ABI encoding of the response array.
pub open spec fn spec_enc_responses(rs: Seq<GResponse>) -> Seq<u8> {
    dyn_array_enc(Seq::new(rs.len(), |i: int| spec_enc_response(rs[i])))
}

/// `abi.encode` of a whole `Attestation`: the offset word of the top-level
/// value, then the two-member tuple — two offset words and the arrays.
pub open spec fn spec_attestation_enc(a: GAttestation) -> Seq<u8> {
    let rq = spec_enc_requests(a.requests);
    let rp = spec_enc_responses(a.responses);
    word_of(32) + word_of(64) + word_of(64 + rq.len()) + rq + rp
}

/// `abi.encode` of `(string[] keys, string[] values)`.
pub open spec fn spec_kv_enc(keys: Seq<Seq<u8>>, vals: Seq<Seq<u8>>) -> Seq<u8> {
    let k = dyn_array_enc(Seq::new(keys.len(), |i: int| enc_bytes_spec(keys[i])));
    let v = dyn_array_enc(Seq::new(vals.len(), |i: int| enc_bytes_spec(vals[i])));
    word_of(32) + word_of(64) + word_of(64 + k.len()) + k + v
}

/// Appends the bytes of `src`.
pub fn append_bytes(out: &mut Vec<u8>, src: &Vec<u8>)
    ensures
        final(out)@ == old(out)@ + src@,
{
    let mut i: usize = 0;
    while i < src.len()
        invariant
            i <= src.len(),
            out@ == old(out)@ + src@.take(i as int),
        decreases src.len() - i,
    {
        out.push(src[i]);
        proof {
            assert(out@ =~= old(out)@ + src@.take(i + 1));
        }
        i += 1;
    }
    proof {
        assert(src@.take(src@.len() as int) =~= src@);
    }
}

/// Appends the `k` big-endian bytes of `n`.
pub fn push_be_bytes(n: u128, k: usize, out: &mut Vec<u8>)
    ensures
        final(out)@ == old(out)@ + be_bytes(n as nat, k as nat),
    decreases k,
{
    if k > 0 {
        push_be_bytes(n / 256, k - 1, out);
        out.push((n % 256) as u8);
        proof {
            assert(out@ =~= old(out)@ + be_bytes(n as nat, k as nat));
        }
    }
}

/// Appends a 32-byte word holding `n`.
pub fn push_word(n: u128, out: &mut Vec<u8>)
    ensures
        final(out)@ == old(out)@ + word_of(n as nat),
{
    push_be_bytes(n, 32, out);
}

/// ABI-encodes `bytes` content: length word, bytes, zero padding.
pub fn enc_bytes(s: &Vec<u8>) -> (out: Vec<u8>)
    ensures
        out@ == enc_bytes_spec(s@),
{
    let mut out: Vec<u8> = Vec::new();
    push_word(s.len() as u128, &mut out);
    append_bytes(&mut out, s);
    let pad = (32 - s.len() % 32) % 32;
    let mut j: usize = 0;
    while j < pad
        invariant
            j <= pad,
            out@ == word_of(s@.len()) + s@ + zeros(j as nat),
        decreases pad - j,
    {
        out.push(0);
        proof {
            assert(out@ =~= word_of(s@.len()) + s@ + zeros((j + 1) as nat));
        }
        j += 1;
    }
    proof {
        assert(pad == pad_len(s@.len()));
        assert(out@ =~= enc_bytes_spec(s@));
    }
    out
}

/// Lays out an array of dynamic elements from the elements' encodings.
pub fn assemble_dyn_array(encs: &Vec<Vec<u8>>) -> (out: Vec<u8>)
    ensures
        out@ == dyn_array_enc(seq_views(encs@)),
{
    let ghost es = seq_views(encs@);
    let n = encs.len();
    let mut tail: Vec<u8> = Vec::new();
    let mut offs: Vec<usize> = Vec::new();
    let mut j: usize = 0;
    while j < n
        invariant
            j <= n,
            n == encs@.len(),
            es == seq_views(encs@),
            tail@ == concat_upto(es, j as int),
            offs@.len() == j,
            forall|k: int| 0 <= k < j ==> offs@[k] as nat == concat_upto(es, k).len(),
        decreases n - j,
    {
        offs.push(tail.len());
        append_bytes(&mut tail, &encs[j]);
        proof {
            assert(tail@ =~= concat_upto(es, j + 1));
        }
        j += 1;
    }
    let mut out: Vec<u8> = Vec::new();
    push_word(n as u128, &mut out);
    let mut j: usize = 0;
    while j < n
        invariant
            j <= n,
            n == encs@.len(),
            es == seq_views(encs@),
            offs@.len() == n,
            forall|k: int| 0 <= k < n ==> offs@[k] as nat == concat_upto(es, k).len(),
            out@ == word_of(n as nat) + dyn_heads(es, j as int),
        decreases n - j,
    {
        push_word(32 * (n as u128) + (offs[j] as u128), &mut out);
        proof {
            assert(out@ =~= word_of(n as nat) + dyn_heads(es, j + 1));
        }
        j += 1;
    }
    append_bytes(&mut out, &tail);
    proof {
        assert(out@ =~= dyn_array_enc(es));
    }
    out
}

/// ABI-encodes one header.
pub fn enc_header(h: &AbiHeader) -> (out: Vec<u8>)
    ensures
        out@ == spec_enc_header(header_view(*h)),
{
    let n = enc_bytes(&h.name);
    let v = enc_bytes(&h.value);
    let mut out: Vec<u8> = Vec::new();
    push_word(64, &mut out);
    push_word(64 + n.len() as u128, &mut out);
    append_bytes(&mut out, &n);
    append_bytes(&mut out, &v);
    proof {
        assert(out@ =~= spec_enc_header(header_view(*h)));
    }
    out
}

/// ABI-encodes a header array.
pub fn enc_headers(hs: &Vec<AbiHeader>) -> (out: Vec<u8>)
    ensures
        out@ == spec_enc_headers(headers_view(hs@)),
{
    let mut encs: Vec<Vec<u8>> = Vec::new();
    let mut j: usize = 0;
    while j < hs.len()
        invariant
            j <= hs.len(),
            encs@.len() == j,
            forall|k: int| 0 <= k < j ==> encs@[k]@ == spec_enc_header(header_view(hs@[k])),
        decreases hs.len() - j,
    {
        encs.push(enc_header(&hs[j]));
        j += 1;
    }
    let out = assemble_dyn_array(&encs);
    proof {
        assert(seq_views(encs@) =~= Seq::new(
            headers_view(hs@).len(),
            |i: int| spec_enc_header(headers_view(hs@)[i]),
        ));
    }
    out
}

/// ABI-encodes one request.
pub fn enc_request(r: &AbiRequest) -> (out: Vec<u8>)
    ensures
        out@ == spec_enc_request(request_view(*r)),
{
    let m = enc_bytes(&r.method);
    let t = enc_bytes(&r.target);
    let h = enc_headers(&r.headers);
    let b = enc_bytes(&r.body);
    let mut out: Vec<u8> = Vec::new();
    push_word(if r.present { 1 } else { 0 }, &mut out);
    push_word(192, &mut out);
    push_word(192 + m.len() as u128, &mut out);
    push_word(192 + m.len() as u128 + t.len() as u128, &mut out);
    push_word(192 + m.len() as u128 + t.len() as u128 + h.len() as u128, &mut out);
    push_word(r.body_encoding as u128, &mut out);
    append_bytes(&mut out, &m);
    append_bytes(&mut out, &t);
    append_bytes(&mut out, &h);
    append_bytes(&mut out, &b);
    proof {
        assert(out@ =~= spec_enc_request(request_view(*r)));
    }
    out
}

/// ABI-encodes one response.
pub fn enc_response(r: &AbiResponse) -> (out: Vec<u8>)
    ensures
        out@ == spec_enc_response(response_view(*r)),
{
    let h = enc_headers(&r.headers);
    let b = enc_bytes(&r.body);
    let mut out: Vec<u8> = Vec::new();
    push_word(if r.present { 1 } else { 0 }, &mut out);
    push_word(r.status as u128, &mut out);
    push_word(160, &mut out);
    push_word(160 + h.len() as u128, &mut out);
    push_word(r.body_encoding as u128, &mut out);
    append_bytes(&mut out, &h);
    append_bytes(&mut out, &b);
    proof {
        assert(out@ =~= spec_enc_response(response_view(*r)));
    }
    out
}

/// `abi.encode` of a whole `Attestation`, byte-compatible with decoding the
/// struct in Solidity.
pub fn enc_attestation(a: &Attestation) -> (out: Vec<u8>)
    ensures
        out@ == spec_attestation_enc(att_view(*a)),
{
    let mut req_encs: Vec<Vec<u8>> = Vec::new();
    let mut j: usize = 0;
    while j < a.requests.len()
        invariant
            j <= a.requests.len(),
            req_encs@.len() == j,
            forall|k: int| 0 <= k < j ==> req_encs@[k]@ == spec_enc_request(request_view(a.requests@[k])),
        decreases a.requests.len() - j,
    {
        req_encs.push(enc_request(&a.requests[j]));
        j += 1;
    }
    let rq = assemble_dyn_array(&req_encs);
    proof {
        assert(seq_views(req_encs@) =~= Seq::new(
            att_view(*a).requests.len(),
            |i: int| spec_enc_request(att_view(*a).requests[i]),
        ));
    }
    let mut resp_encs: Vec<Vec<u8>> = Vec::new();
    let mut j: usize = 0;
    while j < a.responses.len()
        invariant
            j <= a.responses.len(),
            resp_encs@.len() == j,
            forall|k: int| 0 <= k < j ==> resp_encs@[k]@ == spec_enc_response(response_view(a.responses@[k])),
        decreases a.responses.len() - j,
    {
        resp_encs.push(enc_response(&a.responses[j]));
        j += 1;
    }
    let rp = assemble_dyn_array(&resp_encs);
    proof {
        assert(seq_views(resp_encs@) =~= Seq::new(
            att_view(*a).responses.len(),
            |i: int| spec_enc_response(att_view(*a).responses[i]),
        ));
    }
    let mut out: Vec<u8> = Vec::new();
    push_word(32, &mut out);
    push_word(64, &mut out);
    push_word(64 + rq.len() as u128, &mut out);
    append_bytes(&mut out, &rq);
    append_bytes(&mut out, &rp);
    proof {
        assert(out@ =~= spec_attestation_enc(att_view(*a)));
    }
    out
}

/// `abi.encode` of `(string[] keys, string[] values)`, the JSON-KV body
/// form.
pub fn enc_kv(keys: &Vec<Vec<u8>>, vals: &Vec<Vec<u8>>) -> (out: Vec<u8>)
    ensures
        out@ == spec_kv_enc(seq_views(keys@), seq_views(vals@)),
{
    let mut key_encs: Vec<Vec<u8>> = Vec::new();
    let mut j: usize = 0;
    while j < keys.len()
        invariant
            j <= keys.len(),
            key_encs@.len() == j,
            forall|k: int| 0 <= k < j ==> key_encs@[k]@ == enc_bytes_spec(keys@[k]@),
        decreases keys.len() - j,
    {
        key_encs.push(enc_bytes(&keys[j]));
        j += 1;
    }
    let ek = assemble_dyn_array(&key_encs);
    proof {
        assert(seq_views(key_encs@) =~= Seq::new(
            seq_views(keys@).len(),
            |i: int| enc_bytes_spec(seq_views(keys@)[i]),
        ));
    }
    let mut val_encs: Vec<Vec<u8>> = Vec::new();
    let mut j: usize = 0;
    while j < vals.len()
        invariant
            j <= vals.len(),
            val_encs@.len() == j,
            forall|k: int| 0 <= k < j ==> val_encs@[k]@ == enc_bytes_spec(vals@[k]@),
        decreases vals.len() - j,
    {
        val_encs.push(enc_bytes(&vals[j]));
        j += 1;
    }
    let ev = assemble_dyn_array(&val_encs);
    proof {
        assert(seq_views(val_encs@) =~= Seq::new(
            seq_views(vals@).len(),
            |i: int| enc_bytes_spec(seq_views(vals@)[i]),
        ));
    }
    let mut out: Vec<u8> = Vec::new();
    push_word(32, &mut out);
    push_word(64, &mut out);
    push_word(64 + ek.len() as u128, &mut out);
    append_bytes(&mut out, &ek);
    append_bytes(&mut out, &ev);
    proof {
        assert(out@ =~= spec_kv_enc(seq_views(keys@), seq_views(vals@)));
    }
    out
}

} // verus!
