use vstd::prelude::*;

use crate::abi::{append_bytes, enc_bytes, enc_bytes_spec, push_word, word_of};
use crate::value::bytes_eq;

verus! {

// The computable side of the embedding format.  Model inference and the
// floating-point quantization itself cannot stand here; what can is the
// allow-list rule and the byte-exact ABI layout of an embedding
// attestation, taking the vector already quantized to bytes and the scale
// already fixed as a 32-byte word:
//
//   EmbeddingAttestation = { string model, uint16 dimensions,
//                            uint8 quantization, bytes embedding,
//                            uint256 scaleWad }

/// Whether `model` stands in the allow list.
pub open spec fn model_allowed_spec(model: Seq<u8>, allowed: Seq<Vec<u8>>) -> bool {
    exists|i: int| 0 <= i < allowed.len() && allowed[i]@ == model
}

/// Decides whether a requested model is in the server's allow list.
pub fn embedding_model_allowed(model: &Vec<u8>, allowed: &Vec<Vec<u8>>) -> (r: bool)
    ensures
        r == model_allowed_spec(model@, allowed@),
{
    let mut i: usize = 0;
    while i < allowed.len()
        invariant
            i <= allowed@.len(),
            forall|k: int| 0 <= k < i ==> allowed@[k]@ != model@,
        decreases allowed.len() - i,
    {
        if bytes_eq(&allowed[i], model) {
            return true;
        }
        i += 1;
    }
    false
}

/// `abi.encode` of an embedding attestation: the top-level offset word,
/// five member words — the model's offset, the two scalars, the vector's
/// offset, the scale word — then the two dynamic members' encodings.
pub open spec fn spec_embedding_att_enc(
    model: Seq<u8>,
    dimensions: u16,
    quantization: u8,
    embedding: Seq<u8>,
    scale_wad: Seq<u8>,
) -> Seq<u8> {
    let m = enc_bytes_spec(model);
    let e = enc_bytes_spec(embedding);
    word_of(32) + word_of(160) + word_of(dimensions as nat) + word_of(quantization as nat)
        + word_of(160 + m.len()) + scale_wad + m + e
}

/// ABI-encodes an embedding attestation, byte-compatible with decoding the
/// struct in Solidity.
pub fn enc_embedding_attestation(
    model: &Vec<u8>,
    dimensions: u16,
    quantization: u8,
    embedding: &Vec<u8>,
    scale_wad: &Vec<u8>,
) -> (out: Vec<u8>)
    requires
        scale_wad@.len() == 32,
    ensures
        out@ == spec_embedding_att_enc(model@, dimensions, quantization, embedding@, scale_wad@),
{
    let m = enc_bytes(model);
    let e = enc_bytes(embedding);
    let mut out: Vec<u8> = Vec::new();
    push_word(32, &mut out);
    push_word(160, &mut out);
    push_word(dimensions as u128, &mut out);
    push_word(quantization as u128, &mut out);
    push_word(160 + m.len() as u128, &mut out);
    append_bytes(&mut out, scale_wad);
    append_bytes(&mut out, &m);
    append_bytes(&mut out, &e);
    proof {
        assert(out@ =~= spec_embedding_att_enc(
            model@,
            dimensions,
            quantization,
            embedding@,
            scale_wad@,
        ));
    }
    out
}

} // verus!
