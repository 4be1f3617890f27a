use vstd::prelude::*;

use crate::abi::{
    att_view, header_view, request_view, response_view, word_of, zeros, AbiHeader, AbiRequest,
    AbiResponse, Attestation, GAttestation, GHeader, GRequest, GResponse,
};
use crate::abi::{append_bytes, push_word};
use crate::hash::{keccak256, keccak256_of};

verus! {

// EIP-712 hashing of an `Attestation` under a configured domain.  The type
// strings below follow the typed-data rules: a struct's string is its own
// member list followed by every struct type it references, collected once
// and sorted by name.

/// `EIP712Domain(string name,string version,uint256 chainId,address verifyingContract)`
pub open spec fn ts_domain() -> Seq<u8> {
    seq![
        0x45u8, 0x49u8, 0x50u8, 0x37u8, 0x31u8, 0x32u8, 0x44u8, 0x6fu8,
        0x6du8, 0x61u8, 0x69u8, 0x6eu8, 0x28u8, 0x73u8, 0x74u8, 0x72u8,
        0x69u8, 0x6eu8, 0x67u8, 0x20u8, 0x6eu8, 0x61u8, 0x6du8, 0x65u8,
        0x2cu8, 0x73u8, 0x74u8, 0x72u8, 0x69u8, 0x6eu8, 0x67u8, 0x20u8,
        0x76u8, 0x65u8, 0x72u8, 0x73u8, 0x69u8, 0x6fu8, 0x6eu8, 0x2cu8,
        0x75u8, 0x69u8, 0x6eu8, 0x74u8, 0x32u8, 0x35u8, 0x36u8, 0x20u8,
        0x63u8, 0x68u8, 0x61u8, 0x69u8, 0x6eu8, 0x49u8, 0x64u8, 0x2cu8,
        0x61u8, 0x64u8, 0x64u8, 0x72u8, 0x65u8, 0x73u8, 0x73u8, 0x20u8,
        0x76u8, 0x65u8, 0x72u8, 0x69u8, 0x66u8, 0x79u8, 0x69u8, 0x6eu8,
        0x67u8, 0x43u8, 0x6fu8, 0x6eu8, 0x74u8, 0x72u8, 0x61u8, 0x63u8,
        0x74u8, 0x29u8,
    ]
}

/// `Header(string name,string value)`
pub open spec fn ts_header() -> Seq<u8> {
    seq![
        0x48u8, 0x65u8, 0x61u8, 0x64u8, 0x65u8, 0x72u8, 0x28u8, 0x73u8,
        0x74u8, 0x72u8, 0x69u8, 0x6eu8, 0x67u8, 0x20u8, 0x6eu8, 0x61u8,
        0x6du8, 0x65u8, 0x2cu8, 0x73u8, 0x74u8, 0x72u8, 0x69u8, 0x6eu8,
        0x67u8, 0x20u8, 0x76u8, 0x61u8, 0x6cu8, 0x75u8, 0x65u8, 0x29u8,
    ]
}

/// `Request(...)` followed by the `Header` type it references.
pub open spec fn ts_request() -> Seq<u8> {
    seq![
        0x52u8, 0x65u8, 0x71u8, 0x75u8, 0x65u8, 0x73u8, 0x74u8, 0x28u8,
        0x62u8, 0x6fu8, 0x6fu8, 0x6cu8, 0x20u8, 0x70u8, 0x72u8, 0x65u8,
        0x73u8, 0x65u8, 0x6eu8, 0x74u8, 0x2cu8, 0x73u8, 0x74u8, 0x72u8,
        0x69u8, 0x6eu8, 0x67u8, 0x20u8, 0x6du8, 0x65u8, 0x74u8, 0x68u8,
        0x6fu8, 0x64u8, 0x2cu8, 0x73u8, 0x74u8, 0x72u8, 0x69u8, 0x6eu8,
        0x67u8, 0x20u8, 0x74u8, 0x61u8, 0x72u8, 0x67u8, 0x65u8, 0x74u8,
        0x2cu8, 0x48u8, 0x65u8, 0x61u8, 0x64u8, 0x65u8, 0x72u8, 0x5bu8,
        0x5du8, 0x20u8, 0x68u8, 0x65u8, 0x61u8, 0x64u8, 0x65u8, 0x72u8,
        0x73u8, 0x2cu8, 0x62u8, 0x79u8, 0x74u8, 0x65u8, 0x73u8, 0x20u8,
        0x62u8, 0x6fu8, 0x64u8, 0x79u8, 0x2cu8, 0x75u8, 0x69u8, 0x6eu8,
        0x74u8, 0x38u8, 0x20u8, 0x62u8, 0x6fu8, 0x64u8, 0x79u8, 0x45u8,
        0x6eu8, 0x63u8, 0x6fu8, 0x64u8, 0x69u8, 0x6eu8, 0x67u8, 0x29u8,
        0x48u8, 0x65u8, 0x61u8, 0x64u8, 0x65u8, 0x72u8, 0x28u8, 0x73u8,
        0x74u8, 0x72u8, 0x69u8, 0x6eu8, 0x67u8, 0x20u8, 0x6eu8, 0x61u8,
        0x6du8, 0x65u8, 0x2cu8, 0x73u8, 0x74u8, 0x72u8, 0x69u8, 0x6eu8,
        0x67u8, 0x20u8, 0x76u8, 0x61u8, 0x6cu8, 0x75u8, 0x65u8, 0x29u8,
    ]
}

/// `Response(...)` followed by the `Header` type it references.
pub open spec fn ts_response() -> Seq<u8> {
    seq![
        0x52u8, 0x65u8, 0x73u8, 0x70u8, 0x6fu8, 0x6eu8, 0x73u8, 0x65u8,
        0x28u8, 0x62u8, 0x6fu8, 0x6fu8, 0x6cu8, 0x20u8, 0x70u8, 0x72u8,
        0x65u8, 0x73u8, 0x65u8, 0x6eu8, 0x74u8, 0x2cu8, 0x75u8, 0x69u8,
        0x6eu8, 0x74u8, 0x31u8, 0x36u8, 0x20u8, 0x73u8, 0x74u8, 0x61u8,
        0x74u8, 0x75u8, 0x73u8, 0x2cu8, 0x48u8, 0x65u8, 0x61u8, 0x64u8,
        0x65u8, 0x72u8, 0x5bu8, 0x5du8, 0x20u8, 0x68u8, 0x65u8, 0x61u8,
        0x64u8, 0x65u8, 0x72u8, 0x73u8, 0x2cu8, 0x62u8, 0x79u8, 0x74u8,
        0x65u8, 0x73u8, 0x20u8, 0x62u8, 0x6fu8, 0x64u8, 0x79u8, 0x2cu8,
        0x75u8, 0x69u8, 0x6eu8, 0x74u8, 0x38u8, 0x20u8, 0x62u8, 0x6fu8,
        0x64u8, 0x79u8, 0x45u8, 0x6eu8, 0x63u8, 0x6fu8, 0x64u8, 0x69u8,
        0x6eu8, 0x67u8, 0x29u8, 0x48u8, 0x65u8, 0x61u8, 0x64u8, 0x65u8,
        0x72u8, 0x28u8, 0x73u8, 0x74u8, 0x72u8, 0x69u8, 0x6eu8, 0x67u8,
        0x20u8, 0x6eu8, 0x61u8, 0x6du8, 0x65u8, 0x2cu8, 0x73u8, 0x74u8,
        0x72u8, 0x69u8, 0x6eu8, 0x67u8, 0x20u8, 0x76u8, 0x61u8, 0x6cu8,
        0x75u8, 0x65u8, 0x29u8,
    ]
}

/// `Attestation(...)` followed by `Header`, `Request` and `Response`.
pub open spec fn ts_attestation() -> Seq<u8> {
    seq![
        0x41u8, 0x74u8, 0x74u8, 0x65u8, 0x73u8, 0x74u8, 0x61u8, 0x74u8,
        0x69u8, 0x6fu8, 0x6eu8, 0x28u8, 0x52u8, 0x65u8, 0x71u8, 0x75u8,
        0x65u8, 0x73u8, 0x74u8, 0x5bu8, 0x5du8, 0x20u8, 0x72u8, 0x65u8,
        0x71u8, 0x75u8, 0x65u8, 0x73u8, 0x74u8, 0x73u8, 0x2cu8, 0x52u8,
        0x65u8, 0x73u8, 0x70u8, 0x6fu8, 0x6eu8, 0x73u8, 0x65u8, 0x5bu8,
        0x5du8, 0x20u8, 0x72u8, 0x65u8, 0x73u8, 0x70u8, 0x6fu8, 0x6eu8,
        0x73u8, 0x65u8, 0x73u8, 0x29u8, 0x48u8, 0x65u8, 0x61u8, 0x64u8,
        0x65u8, 0x72u8, 0x28u8, 0x73u8, 0x74u8, 0x72u8, 0x69u8, 0x6eu8,
        0x67u8, 0x20u8, 0x6eu8, 0x61u8, 0x6du8, 0x65u8, 0x2cu8, 0x73u8,
        0x74u8, 0x72u8, 0x69u8, 0x6eu8, 0x67u8, 0x20u8, 0x76u8, 0x61u8,
        0x6cu8, 0x75u8, 0x65u8, 0x29u8, 0x52u8, 0x65u8, 0x71u8, 0x75u8,
        0x65u8, 0x73u8, 0x74u8, 0x28u8, 0x62u8, 0x6fu8, 0x6fu8, 0x6cu8,
        0x20u8, 0x70u8, 0x72u8, 0x65u8, 0x73u8, 0x65u8, 0x6eu8, 0x74u8,
        0x2cu8, 0x73u8, 0x74u8, 0x72u8, 0x69u8, 0x6eu8, 0x67u8, 0x20u8,
        0x6du8, 0x65u8, 0x74u8, 0x68u8, 0x6fu8, 0x64u8, 0x2cu8, 0x73u8,
        0x74u8, 0x72u8, 0x69u8, 0x6eu8, 0x67u8, 0x20u8, 0x74u8, 0x61u8,
        0x72u8, 0x67u8, 0x65u8, 0x74u8, 0x2cu8, 0x48u8, 0x65u8, 0x61u8,
        0x64u8, 0x65u8, 0x72u8, 0x5bu8, 0x5du8, 0x20u8, 0x68u8, 0x65u8,
        0x61u8, 0x64u8, 0x65u8, 0x72u8, 0x73u8, 0x2cu8, 0x62u8, 0x79u8,
        0x74u8, 0x65u8, 0x73u8, 0x20u8, 0x62u8, 0x6fu8, 0x64u8, 0x79u8,
        0x2cu8, 0x75u8, 0x69u8, 0x6eu8, 0x74u8, 0x38u8, 0x20u8, 0x62u8,
        0x6fu8, 0x64u8, 0x79u8, 0x45u8, 0x6eu8, 0x63u8, 0x6fu8, 0x64u8,
        0x69u8, 0x6eu8, 0x67u8, 0x29u8, 0x52u8, 0x65u8, 0x73u8, 0x70u8,
        0x6fu8, 0x6eu8, 0x73u8, 0x65u8, 0x28u8, 0x62u8, 0x6fu8, 0x6fu8,
        0x6cu8, 0x20u8, 0x70u8, 0x72u8, 0x65u8, 0x73u8, 0x65u8, 0x6eu8,
        0x74u8, 0x2cu8, 0x75u8, 0x69u8, 0x6eu8, 0x74u8, 0x31u8, 0x36u8,
        0x20u8, 0x73u8, 0x74u8, 0x61u8, 0x74u8, 0x75u8, 0x73u8, 0x2cu8,
        0x48u8, 0x65u8, 0x61u8, 0x64u8, 0x65u8, 0x72u8, 0x5bu8, 0x5du8,
        0x20u8, 0x68u8, 0x65u8, 0x61u8, 0x64u8, 0x65u8, 0x72u8, 0x73u8,
        0x2cu8, 0x62u8, 0x79u8, 0x74u8, 0x65u8, 0x73u8, 0x20u8, 0x62u8,
        0x6fu8, 0x64u8, 0x79u8, 0x2cu8, 0x75u8, 0x69u8, 0x6eu8, 0x74u8,
        0x38u8, 0x20u8, 0x62u8, 0x6fu8, 0x64u8, 0x79u8, 0x45u8, 0x6eu8,
        0x63u8, 0x6fu8, 0x64u8, 0x69u8, 0x6eu8, 0x67u8, 0x29u8,
    ]
}

/// The domain an `Eip712Encoder` signs under.
#[verifier::ext_equal]
pub ghost struct GDomain {
    pub name: Seq<u8>,
    pub version: Seq<u8>,
    pub chain_id: u64,
    pub verifying_contract: Seq<u8>,
}

/// `encodeData` of one header, hashed.
pub open spec fn hash_header(h: GHeader) -> Seq<u8> {
    keccak256_of(keccak256_of(ts_header()) + keccak256_of(h.name) + keccak256_of(h.value))
}

/// The concatenated struct hashes of the first `i` headers.
pub open spec fn headers_concat(hs: Seq<GHeader>, i: int) -> Seq<u8>
    decreases i,
{
    if i <= 0 {
        Seq::empty()
    } else {
        headers_concat(hs, i - 1) + hash_header(hs[i - 1])
    }
}

/// `encodeData` of one request, hashed: a word per member, with dynamic
/// members and the header array folded to their hashes.
pub open spec fn hash_request(r: GRequest) -> Seq<u8> {
    keccak256_of(
        keccak256_of(ts_request()) + word_of(
            if r.present {
                1
            } else {
                0
            },
        ) + keccak256_of(r.method) + keccak256_of(r.target) + keccak256_of(
            headers_concat(r.headers, r.headers.len() as int),
        ) + keccak256_of(r.body) + word_of(r.body_encoding as nat),
    )
}

/// `encodeData` of one response, hashed.
pub open spec fn hash_response(r: GResponse) -> Seq<u8> {
    keccak256_of(
        keccak256_of(ts_response()) + word_of(
            if r.present {
                1
            } else {
                0
            },
        ) + word_of(r.status as nat) + keccak256_of(
            headers_concat(r.headers, r.headers.len() as int),
        ) + keccak256_of(r.body) + word_of(r.body_encoding as nat),
    )
}

/// The concatenated struct hashes of the first `i` requests.
pub open spec fn requests_concat(rs: Seq<GRequest>, i: int) -> Seq<u8>
    decreases i,
{
    if i <= 0 {
        Seq::empty()
    } else {
        requests_concat(rs, i - 1) + hash_request(rs[i - 1])
    }
}

/// The concatenated struct hashes of the first `i` responses.
pub open spec fn responses_concat(rs: Seq<GResponse>, i: int) -> Seq<u8>
    decreases i,
{
    if i <= 0 {
        Seq::empty()
    } else {
        responses_concat(rs, i - 1) + hash_response(rs[i - 1])
    }
}

/// The struct hash of a whole attestation.
pub open spec fn hash_attestation(a: GAttestation) -> Seq<u8> {
    keccak256_of(
        keccak256_of(ts_attestation()) + keccak256_of(
            requests_concat(a.requests, a.requests.len() as int),
        ) + keccak256_of(responses_concat(a.responses, a.responses.len() as int)),
    )
}

/// The domain separator: the domain struct hashed under its own type, the
/// address left-padded to a word.
pub open spec fn domain_separator(d: GDomain) -> Seq<u8> {
    keccak256_of(
        keccak256_of(ts_domain()) + keccak256_of(d.name) + keccak256_of(d.version) + word_of(
            d.chain_id as nat,
        ) + zeros(12) + d.verifying_contract,
    )
}

/// The EIP-712 signing hash: `keccak256("\x19\x01" || domainSeparator ||
/// structHash(attestation))`.
pub open spec fn eip712_digest_of(d: GDomain, a: GAttestation) -> Seq<u8> {
    keccak256_of(seq![0x19u8, 0x01u8] + domain_separator(d) + hash_attestation(a))
}

fn ts_header_vec() -> (r: Vec<u8>)
    ensures
        r@ == ts_header(),
{
    let r: Vec<u8> = vec![
        0x48, 0x65, 0x61, 0x64, 0x65, 0x72, 0x28, 0x73, 0x74, 0x72,
        0x69, 0x6e, 0x67, 0x20, 0x6e, 0x61, 0x6d, 0x65, 0x2c, 0x73,
        0x74, 0x72, 0x69, 0x6e, 0x67, 0x20, 0x76, 0x61, 0x6c, 0x75,
        0x65, 0x29,
    ];
    proof {
        assert(r@ =~= ts_header());
    }
    r
}

fn ts_request_vec() -> (r: Vec<u8>)
    ensures
        r@ == ts_request(),
{
    let r: Vec<u8> = vec![
        0x52, 0x65, 0x71, 0x75, 0x65, 0x73, 0x74, 0x28, 0x62, 0x6f,
        0x6f, 0x6c, 0x20, 0x70, 0x72, 0x65, 0x73, 0x65, 0x6e, 0x74,
        0x2c, 0x73, 0x74, 0x72, 0x69, 0x6e, 0x67, 0x20, 0x6d, 0x65,
        0x74, 0x68, 0x6f, 0x64, 0x2c, 0x73, 0x74, 0x72, 0x69, 0x6e,
        0x67, 0x20, 0x74, 0x61, 0x72, 0x67, 0x65, 0x74, 0x2c, 0x48,
        0x65, 0x61, 0x64, 0x65, 0x72, 0x5b, 0x5d, 0x20, 0x68, 0x65,
        0x61, 0x64, 0x65, 0x72, 0x73, 0x2c, 0x62, 0x79, 0x74, 0x65,
        0x73, 0x20, 0x62, 0x6f, 0x64, 0x79, 0x2c, 0x75, 0x69, 0x6e,
        0x74, 0x38, 0x20, 0x62, 0x6f, 0x64, 0x79, 0x45, 0x6e, 0x63,
        0x6f, 0x64, 0x69, 0x6e, 0x67, 0x29, 0x48, 0x65, 0x61, 0x64,
        0x65, 0x72, 0x28, 0x73, 0x74, 0x72, 0x69, 0x6e, 0x67, 0x20,
        0x6e, 0x61, 0x6d, 0x65, 0x2c, 0x73, 0x74, 0x72, 0x69, 0x6e,
        0x67, 0x20, 0x76, 0x61, 0x6c, 0x75, 0x65, 0x29,
    ];
    proof {
        assert(r@ =~= ts_request());
    }
    r
}

fn ts_response_vec() -> (r: Vec<u8>)
    ensures
        r@ == ts_response(),
{
    let r: Vec<u8> = vec![
        0x52, 0x65, 0x73, 0x70, 0x6f, 0x6e, 0x73, 0x65, 0x28, 0x62,
        0x6f, 0x6f, 0x6c, 0x20, 0x70, 0x72, 0x65, 0x73, 0x65, 0x6e,
        0x74, 0x2c, 0x75, 0x69, 0x6e, 0x74, 0x31, 0x36, 0x20, 0x73,
        0x74, 0x61, 0x74, 0x75, 0x73, 0x2c, 0x48, 0x65, 0x61, 0x64,
        0x65, 0x72, 0x5b, 0x5d, 0x20, 0x68, 0x65, 0x61, 0x64, 0x65,
        0x72, 0x73, 0x2c, 0x62, 0x79, 0x74, 0x65, 0x73, 0x20, 0x62,
        0x6f, 0x64, 0x79, 0x2c, 0x75, 0x69, 0x6e, 0x74, 0x38, 0x20,
        0x62, 0x6f, 0x64, 0x79, 0x45, 0x6e, 0x63, 0x6f, 0x64, 0x69,
        0x6e, 0x67, 0x29, 0x48, 0x65, 0x61, 0x64, 0x65, 0x72, 0x28,
        0x73, 0x74, 0x72, 0x69, 0x6e, 0x67, 0x20, 0x6e, 0x61, 0x6d,
        0x65, 0x2c, 0x73, 0x74, 0x72, 0x69, 0x6e, 0x67, 0x20, 0x76,
        0x61, 0x6c, 0x75, 0x65, 0x29,
    ];
    proof {
        assert(r@ =~= ts_response());
    }
    r
}

fn ts_attestation_vec() -> (r: Vec<u8>)
    ensures
        r@ == ts_attestation(),
{
    let r: Vec<u8> = vec![
        0x41, 0x74, 0x74, 0x65, 0x73, 0x74, 0x61, 0x74, 0x69, 0x6f,
        0x6e, 0x28, 0x52, 0x65, 0x71, 0x75, 0x65, 0x73, 0x74, 0x5b,
        0x5d, 0x20, 0x72, 0x65, 0x71, 0x75, 0x65, 0x73, 0x74, 0x73,
        0x2c, 0x52, 0x65, 0x73, 0x70, 0x6f, 0x6e, 0x73, 0x65, 0x5b,
        0x5d, 0x20, 0x72, 0x65, 0x73, 0x70, 0x6f, 0x6e, 0x73, 0x65,
        0x73, 0x29, 0x48, 0x65, 0x61, 0x64, 0x65, 0x72, 0x28, 0x73,
        0x74, 0x72, 0x69, 0x6e, 0x67, 0x20, 0x6e, 0x61, 0x6d, 0x65,
        0x2c, 0x73, 0x74, 0x72, 0x69, 0x6e, 0x67, 0x20, 0x76, 0x61,
        0x6c, 0x75, 0x65, 0x29, 0x52, 0x65, 0x71, 0x75, 0x65, 0x73,
        0x74, 0x28, 0x62, 0x6f, 0x6f, 0x6c, 0x20, 0x70, 0x72, 0x65,
        0x73, 0x65, 0x6e, 0x74, 0x2c, 0x73, 0x74, 0x72, 0x69, 0x6e,
        0x67, 0x20, 0x6d, 0x65, 0x74, 0x68, 0x6f, 0x64, 0x2c, 0x73,
        0x74, 0x72, 0x69, 0x6e, 0x67, 0x20, 0x74, 0x61, 0x72, 0x67,
        0x65, 0x74, 0x2c, 0x48, 0x65, 0x61, 0x64, 0x65, 0x72, 0x5b,
        0x5d, 0x20, 0x68, 0x65, 0x61, 0x64, 0x65, 0x72, 0x73, 0x2c,
        0x62, 0x79, 0x74, 0x65, 0x73, 0x20, 0x62, 0x6f, 0x64, 0x79,
        0x2c, 0x75, 0x69, 0x6e, 0x74, 0x38, 0x20, 0x62, 0x6f, 0x64,
        0x79, 0x45, 0x6e, 0x63, 0x6f, 0x64, 0x69, 0x6e, 0x67, 0x29,
        0x52, 0x65, 0x73, 0x70, 0x6f, 0x6e, 0x73, 0x65, 0x28, 0x62,
        0x6f, 0x6f, 0x6c, 0x20, 0x70, 0x72, 0x65, 0x73, 0x65, 0x6e,
        0x74, 0x2c, 0x75, 0x69, 0x6e, 0x74, 0x31, 0x36, 0x20, 0x73,
        0x74, 0x61, 0x74, 0x75, 0x73, 0x2c, 0x48, 0x65, 0x61, 0x64,
        0x65, 0x72, 0x5b, 0x5d, 0x20, 0x68, 0x65, 0x61, 0x64, 0x65,
        0x72, 0x73, 0x2c, 0x62, 0x79, 0x74, 0x65, 0x73, 0x20, 0x62,
        0x6f, 0x64, 0x79, 0x2c, 0x75, 0x69, 0x6e, 0x74, 0x38, 0x20,
        0x62, 0x6f, 0x64, 0x79, 0x45, 0x6e, 0x63, 0x6f, 0x64, 0x69,
        0x6e, 0x67, 0x29,
    ];
    proof {
        assert(r@ =~= ts_attestation());
    }
    r
}

fn ts_domain_vec() -> (r: Vec<u8>)
    ensures
        r@ == ts_domain(),
{
    let r: Vec<u8> = vec![
        0x45, 0x49, 0x50, 0x37, 0x31, 0x32, 0x44, 0x6f, 0x6d, 0x61,
        0x69, 0x6e, 0x28, 0x73, 0x74, 0x72, 0x69, 0x6e, 0x67, 0x20,
        0x6e, 0x61, 0x6d, 0x65, 0x2c, 0x73, 0x74, 0x72, 0x69, 0x6e,
        0x67, 0x20, 0x76, 0x65, 0x72, 0x73, 0x69, 0x6f, 0x6e, 0x2c,
        0x75, 0x69, 0x6e, 0x74, 0x32, 0x35, 0x36, 0x20, 0x63, 0x68,
        0x61, 0x69, 0x6e, 0x49, 0x64, 0x2c, 0x61, 0x64, 0x64, 0x72,
        0x65, 0x73, 0x73, 0x20, 0x76, 0x65, 0x72, 0x69, 0x66, 0x79,
        0x69, 0x6e, 0x67, 0x43, 0x6f, 0x6e, 0x74, 0x72, 0x61, 0x63,
        0x74, 0x29,
    ];
    proof {
        assert(r@ =~= ts_domain());
    }
    r
}

/// Hashes one header's `encodeData`.
fn hash_header_e(h: &AbiHeader) -> (r: Vec<u8>)
    ensures
        r@ == hash_header(header_view(*h)),
        r@.len() == 32,
{
    let th = keccak256(&ts_header_vec());
    let hn = keccak256(&h.name);
    let hv = keccak256(&h.value);
    let mut buf: Vec<u8> = Vec::new();
    append_bytes(&mut buf, &th);
    append_bytes(&mut buf, &hn);
    append_bytes(&mut buf, &hv);
    proof {
        assert(buf@ =~= keccak256_of(ts_header()) + keccak256_of(h.name@) + keccak256_of(
            h.value@,
        ));
    }
    keccak256(&buf)
}

/// Hashes the concatenated header struct hashes.
fn headers_hash(hs: &Vec<AbiHeader>) -> (r: Vec<u8>)
    ensures
        r@ == keccak256_of(
            headers_concat(
                crate::abi::headers_view(hs@),
                crate::abi::headers_view(hs@).len() as int,
            ),
        ),
        r@.len() == 32,
{
    let ghost ghs = crate::abi::headers_view(hs@);
    let mut buf: Vec<u8> = Vec::new();
    let mut i: usize = 0;
    while i < hs.len()
        invariant
            i <= hs.len(),
            ghs == crate::abi::headers_view(hs@),
            ghs.len() == hs@.len(),
            buf@ == headers_concat(ghs, i as int),
        decreases hs.len() - i,
    {
        let hh = hash_header_e(&hs[i]);
        append_bytes(&mut buf, &hh);
        proof {
            assert(buf@ =~= headers_concat(ghs, i + 1));
        }
        i += 1;
    }
    keccak256(&buf)
}

/// Hashes one request's `encodeData`.
fn hash_request_e(r: &AbiRequest) -> (out: Vec<u8>)
    ensures
        out@ == hash_request(request_view(*r)),
        out@.len() == 32,
{
    let th = keccak256(&ts_request_vec());
    let hm = keccak256(&r.method);
    let ht = keccak256(&r.target);
    let hh = headers_hash(&r.headers);
    let hb = keccak256(&r.body);
    let mut buf: Vec<u8> = Vec::new();
    append_bytes(&mut buf, &th);
    push_word(if r.present { 1 } else { 0 }, &mut buf);
    append_bytes(&mut buf, &hm);
    append_bytes(&mut buf, &ht);
    append_bytes(&mut buf, &hh);
    append_bytes(&mut buf, &hb);
    push_word(r.body_encoding as u128, &mut buf);
    proof {
        assert(buf@ =~= keccak256_of(ts_request()) + word_of(
            if r.present {
                1
            } else {
                0
            },
        ) + keccak256_of(r.method@) + keccak256_of(r.target@) + keccak256_of(
            headers_concat(
                request_view(*r).headers,
                request_view(*r).headers.len() as int,
            ),
        ) + keccak256_of(r.body@) + word_of(r.body_encoding as nat));
    }
    keccak256(&buf)
}

/// Hashes one response's `encodeData`.
fn hash_response_e(r: &AbiResponse) -> (out: Vec<u8>)
    ensures
        out@ == hash_response(response_view(*r)),
        out@.len() == 32,
{
    let th = keccak256(&ts_response_vec());
    let hh = headers_hash(&r.headers);
    let hb = keccak256(&r.body);
    let mut buf: Vec<u8> = Vec::new();
    append_bytes(&mut buf, &th);
    push_word(if r.present { 1 } else { 0 }, &mut buf);
    push_word(r.status as u128, &mut buf);
    append_bytes(&mut buf, &hh);
    append_bytes(&mut buf, &hb);
    push_word(r.body_encoding as u128, &mut buf);
    proof {
        assert(buf@ =~= keccak256_of(ts_response()) + word_of(
            if r.present {
                1
            } else {
                0
            },
        ) + word_of(r.status as nat) + keccak256_of(
            headers_concat(
                response_view(*r).headers,
                response_view(*r).headers.len() as int,
            ),
        ) + keccak256_of(r.body@) + word_of(r.body_encoding as nat));
    }
    keccak256(&buf)
}

/// The struct hash of a whole attestation.
pub fn hash_attestation_e(a: &Attestation) -> (out: Vec<u8>)
    ensures
        out@ == hash_attestation(att_view(*a)),
        out@.len() == 32,
{
    let ghost ga = att_view(*a);
    let mut rq_buf: Vec<u8> = Vec::new();
    let mut i: usize = 0;
    while i < a.requests.len()
        invariant
            i <= a.requests.len(),
            ga == att_view(*a),
            ga.requests.len() == a.requests@.len(),
            rq_buf@ == requests_concat(ga.requests, i as int),
        decreases a.requests.len() - i,
    {
        let h = hash_request_e(&a.requests[i]);
        append_bytes(&mut rq_buf, &h);
        proof {
            assert(rq_buf@ =~= requests_concat(ga.requests, i + 1));
        }
        i += 1;
    }
    let rq_hash = keccak256(&rq_buf);
    let mut rp_buf: Vec<u8> = Vec::new();
    let mut i: usize = 0;
    while i < a.responses.len()
        invariant
            i <= a.responses.len(),
            ga == att_view(*a),
            ga.responses.len() == a.responses@.len(),
            rp_buf@ == responses_concat(ga.responses, i as int),
        decreases a.responses.len() - i,
    {
        let h = hash_response_e(&a.responses[i]);
        append_bytes(&mut rp_buf, &h);
        proof {
            assert(rp_buf@ =~= responses_concat(ga.responses, i + 1));
        }
        i += 1;
    }
    let rp_hash = keccak256(&rp_buf);
    let th = keccak256(&ts_attestation_vec());
    let mut buf: Vec<u8> = Vec::new();
    append_bytes(&mut buf, &th);
    append_bytes(&mut buf, &rq_hash);
    append_bytes(&mut buf, &rp_hash);
    proof {
        assert(buf@ =~= keccak256_of(ts_attestation()) + keccak256_of(
            requests_concat(ga.requests, ga.requests.len() as int),
        ) + keccak256_of(responses_concat(ga.responses, ga.responses.len() as int)));
    }
    keccak256(&buf)
}

/// Computes the domain separator of a configured domain.
pub fn domain_separator_e(
    name: &Vec<u8>,
    version: &Vec<u8>,
    chain_id: u64,
    verifying_contract: &[u8; 20],
) -> (out: Vec<u8>)
    ensures
        out@ == domain_separator(
            GDomain {
                name: name@,
                version: version@,
                chain_id: chain_id,
                verifying_contract: verifying_contract@,
            },
        ),
        out@.len() == 32,
{
    let th = keccak256(&ts_domain_vec());
    let hn = keccak256(name);
    let hv = keccak256(version);
    let mut buf: Vec<u8> = Vec::new();
    append_bytes(&mut buf, &th);
    append_bytes(&mut buf, &hn);
    append_bytes(&mut buf, &hv);
    push_word(chain_id as u128, &mut buf);
    let mut j: usize = 0;
    while j < 12
        invariant
            j <= 12,
            buf@ == keccak256_of(ts_domain()) + keccak256_of(name@) + keccak256_of(version@)
                + word_of(chain_id as nat) + zeros(j as nat),
        decreases 12 - j,
    {
        buf.push(0);
        proof {
            assert(buf@ =~= keccak256_of(ts_domain()) + keccak256_of(name@) + keccak256_of(
                version@,
            ) + word_of(chain_id as nat) + zeros((j + 1) as nat));
        }
        j += 1;
    }
    let mut j: usize = 0;
    while j < 20
        invariant
            j <= 20,
            buf@ == keccak256_of(ts_domain()) + keccak256_of(name@) + keccak256_of(version@)
                + word_of(chain_id as nat) + zeros(12) + verifying_contract@.take(j as int),
        decreases 20 - j,
    {
        buf.push(verifying_contract[j]);
        proof {
            assert(buf@ =~= keccak256_of(ts_domain()) + keccak256_of(name@) + keccak256_of(
                version@,
            ) + word_of(chain_id as nat) + zeros(12) + verifying_contract@.take(j + 1));
        }
        j += 1;
    }
    proof {
        assert(verifying_contract@.take(20) =~= verifying_contract@);
    }
    keccak256(&buf)
}

/// The EIP-712 signing hash of `a` under the given domain.
pub fn eip712_digest_e(
    name: &Vec<u8>,
    version: &Vec<u8>,
    chain_id: u64,
    verifying_contract: &[u8; 20],
    a: &Attestation,
) -> (out: Vec<u8>)
    ensures
        out@ == eip712_digest_of(
            GDomain {
                name: name@,
                version: version@,
                chain_id: chain_id,
                verifying_contract: verifying_contract@,
            },
            att_view(*a),
        ),
        out@.len() == 32,
{
    let ds = domain_separator_e(name, version, chain_id, verifying_contract);
    let sh = hash_attestation_e(a);
    let mut buf: Vec<u8> = Vec::new();
    buf.push(0x19);
    buf.push(0x01);
    append_bytes(&mut buf, &ds);
    append_bytes(&mut buf, &sh);
    proof {
        assert(buf@ =~= seq![0x19u8, 0x01u8] + domain_separator(
            GDomain {
                name: name@,
                version: version@,
                chain_id: chain_id,
                verifying_contract: verifying_contract@,
            },
        ) + hash_attestation(att_view(*a)));
    }
    keccak256(&buf)
}

} // verus!
