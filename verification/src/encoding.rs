use vstd::prelude::*;

use crate::abi::spec_attestation_enc;
use crate::attest::{build_attestation, g_att_of};
use crate::eip712::{eip712_digest_e, eip712_digest_of, GDomain};
use crate::hash::{keccak256, keccak256_of, sha256, sha256_of};
use crate::text::{json_text_of, to_json_bytes};
use crate::value::JsonValue;

verus! {

/// The result of encoding a context for signing: the representation that is
/// shipped to the prover, and the digest that the signer signs.
pub struct EncodedContext {
    pub data: Vec<u8>,
    pub digest: Vec<u8>,
}

/// Quantization format for embedding vectors.
#[derive(Clone, Copy, PartialEq, Eq, Structural)]
pub enum Quantization {
    Float32,
    Int8,
}

/// Options a prover may pass to an encoder.  The encoders here ignore them;
/// an embedding encoder would use them to pick its model and quantization.
pub struct EncodeOptions {
    pub embedding_model: Option<Vec<u8>>,
    pub quantization: Option<Quantization>,
}

impl Default for EncodeOptions {
    /// No model choice and no quantization choice.
    fn default() -> (r: Self)
        ensures
            r.embedding_model is None,
            r.quantization is None,
    {
        EncodeOptions { embedding_model: None, quantization: None }
    }
}

/// The ABI `data` bytes a context encodes to.
pub open spec fn abi_data_of(v: JsonValue) -> Seq<u8> {
    spec_attestation_enc(g_att_of(v))
}

/// Encodes a context as its canonical JSON text with a SHA-256 digest.
pub struct JsonEncoder;

impl JsonEncoder {
    /// `data` is the canonical JSON text; `digest` is SHA-256 of `data`.
    pub fn encode(&self, context: &JsonValue) -> (r: EncodedContext)
        ensures
            r.data@ == json_text_of(*context),
            r.digest@ == sha256_of(r.data@),
            r.digest@.len() == 32,
    {
        let data = to_json_bytes(context);
        let digest = sha256(&data);
        EncodedContext { data, digest }
    }

    /// The wire tag of this format.
    pub fn name(&self) -> (r: &'static str)
        ensures
            r@ == "json"@,
    {
        "json"
    }
}

/// Encodes a context as the ABI bytes of its attestation with a keccak-256
/// digest, directly decodable on-chain.
pub struct AbiEncoder;

impl AbiEncoder {
    /// `data` is the ABI encoding of the context's attestation; `digest` is
    /// keccak-256 of `data`.
    pub fn encode(&self, context: &JsonValue) -> (r: EncodedContext)
        ensures
            r.data@ == abi_data_of(*context),
            r.digest@ == keccak256_of(r.data@),
            r.digest@.len() == 32,
    {
        let att = build_attestation(context);
        let data = crate::abi::enc_attestation(&att);
        let digest = keccak256(&data);
        EncodedContext { data, digest }
    }

    /// The wire tag of this format.
    pub fn name(&self) -> (r: &'static str)
        ensures
            r@ == "abi"@,
    {
        "abi"
    }
}

/// Encodes a context as the same ABI bytes as `AbiEncoder`, but with the
/// EIP-712 signing hash under a configured domain as the digest.
pub struct Eip712Encoder {
    pub domain_name: Vec<u8>,
    pub domain_version: Vec<u8>,
    pub chain_id: u64,
    pub verifying_contract: [u8; 20],
}

impl Eip712Encoder {
    /// The domain this encoder signs under.
    pub open spec fn domain(&self) -> GDomain {
        GDomain {
            name: self.domain_name@,
            version: self.domain_version@,
            chain_id: self.chain_id,
            verifying_contract: self.verifying_contract@,
        }
    }

    /// Configures the EIP-712 domain.
    pub fn new(
        name: Vec<u8>,
        version: Vec<u8>,
        chain_id: u64,
        verifying_contract: [u8; 20],
    ) -> (r: Self)
        ensures
            r.domain() == (GDomain {
                name: name@,
                version: version@,
                chain_id: chain_id,
                verifying_contract: verifying_contract@,
            }),
    {
        Eip712Encoder { domain_name: name, domain_version: version, chain_id, verifying_contract }
    }

    /// `data` is the same ABI encoding as the ABI encoder's; `digest` is the
    /// EIP-712 signing hash of the attestation under this encoder's domain.
    pub fn encode(&self, context: &JsonValue) -> (r: EncodedContext)
        ensures
            r.data@ == abi_data_of(*context),
            r.digest@ == eip712_digest_of(self.domain(), g_att_of(*context)),
            r.digest@.len() == 32,
    {
        let att = build_attestation(context);
        let data = crate::abi::enc_attestation(&att);
        let digest = eip712_digest_e(
            &self.domain_name,
            &self.domain_version,
            self.chain_id,
            &self.verifying_contract,
            &att,
        );
        EncodedContext { data, digest }
    }

    /// The wire tag of this format.
    pub fn name(&self) -> (r: &'static str)
        ensures
            r@ == "eip712"@,
    {
        "eip712"
    }
}

/// The bytes of `"json"`.
pub open spec fn json_format_tag() -> Seq<u8> {
    seq![0x6au8, 0x73u8, 0x6fu8, 0x6eu8]
}

/// The bytes of `"abi"`.
pub open spec fn abi_format_tag() -> Seq<u8> {
    seq![0x61u8, 0x62u8, 0x69u8]
}

/// The bytes of `"eip712"`.
pub open spec fn eip712_format_tag() -> Seq<u8> {
    seq![0x65u8, 0x69u8, 0x70u8, 0x37u8, 0x31u8, 0x32u8]
}

/// Law: encoding is deterministic — any two calls of an encoder on one
/// value return byte-identical data and digest.
pub proof fn lemma_encode_deterministic(
    e: &EncoderChoice,
    v: &JsonValue,
    r1: EncodedContext,
    r2: EncodedContext,
)
    requires
        call_ensures(EncoderChoice::encode, (e, v), r1),
        call_ensures(EncoderChoice::encode, (e, v), r2),
    ensures
        r1.data@ == r2.data@,
        r1.digest@ == r2.digest@,
{
}

/// Law: an EIP-712 encoder ships the very bytes the ABI encoder ships for
/// the same context; the two differ only in the digest.
pub proof fn lemma_eip712_data_matches_abi(e: Eip712Encoder, v: JsonValue)
    ensures
        EncoderChoice::Eip712(e).data_spec(v) == EncoderChoice::Abi(AbiEncoder).data_spec(v),
{
}

/// The encoder a server was configured with.
pub enum EncoderChoice {
    Json(JsonEncoder),
    Abi(AbiEncoder),
    Eip712(Eip712Encoder),
}

impl EncoderChoice {
    /// The `data` bytes this encoder produces for `v`.
    pub open spec fn data_spec(&self, v: JsonValue) -> Seq<u8> {
        match self {
            EncoderChoice::Json(_) => json_text_of(v),
            _ => abi_data_of(v),
        }
    }

    /// The digest this encoder produces for `v`.
    pub open spec fn digest_spec(&self, v: JsonValue) -> Seq<u8> {
        match self {
            EncoderChoice::Json(_) => sha256_of(json_text_of(v)),
            EncoderChoice::Abi(_) => keccak256_of(abi_data_of(v)),
            EncoderChoice::Eip712(e) => eip712_digest_of(e.domain(), g_att_of(v)),
        }
    }

    /// Whether the encoded data is JSON text rather than raw bytes.
    pub open spec fn is_json_format(&self) -> bool {
        self is Json
    }

    /// The wire tag of this format.
    pub open spec fn name_bytes(&self) -> Seq<u8> {
        match self {
            EncoderChoice::Json(_) => json_format_tag(),
            EncoderChoice::Abi(_) => abi_format_tag(),
            EncoderChoice::Eip712(_) => eip712_format_tag(),
        }
    }

    /// Encodes `v` with the chosen encoder.
    pub fn encode(&self, v: &JsonValue) -> (r: EncodedContext)
        ensures
            r.data@ == self.data_spec(*v),
            r.digest@ == self.digest_spec(*v),
            r.digest@.len() == 32,
    {
        match self {
            EncoderChoice::Json(e) => e.encode(v),
            EncoderChoice::Abi(e) => e.encode(v),
            EncoderChoice::Eip712(e) => e.encode(v),
        }
    }

    /// The wire tag of this format, as bytes.
    pub fn name_tag(&self) -> (r: Vec<u8>)
        ensures
            r@ == self.name_bytes(),
    {
        match self {
            EncoderChoice::Json(_) => {
                let r: Vec<u8> = vec![0x6a, 0x73, 0x6f, 0x6e];
                proof {
                    assert(r@ =~= json_format_tag());
                }
                r
            },
            EncoderChoice::Abi(_) => {
                let r: Vec<u8> = vec![0x61, 0x62, 0x69];
                proof {
                    assert(r@ =~= abi_format_tag());
                }
                r
            },
            EncoderChoice::Eip712(_) => {
                let r: Vec<u8> = vec![0x65, 0x69, 0x70, 0x37, 0x31, 0x32];
                proof {
                    assert(r@ =~= eip712_format_tag());
                }
                r
            },
        }
    }
}

} // verus!
