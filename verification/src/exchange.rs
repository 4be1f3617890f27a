use vstd::prelude::*;

use crate::encoding::EncoderChoice;
use crate::parse::parse_json;
use crate::protocol::{
    classify_prover_message, context_msg_text, frame_of, signed_msg_text, NotaryMessage,
    ProverMessage,
};
use crate::signing::{rsa_pkcs1v15_sha256_tag, ContextSigner};
use crate::subset::{is_json_subset, is_subset_of, json_wf};
use crate::text::{hex_of, hex_encode, json_text_of, to_json_bytes};
use crate::value::{bytes_eq, JsonValue};

verus! {

/// Why a signing exchange failed.
#[derive(Debug)]
pub enum ExchangeError {
    /// The prover's message could not be read, or a filtered view could not
    /// be parsed.
    BadProverMessage,
    /// The filtered view is not a valid subset of the original context.
    NotSubset,
    /// The signer refused the digest.
    SigningFailed,
}

/// The values the notary may legally sign for a context: the context
/// itself, or a well-formed valid subset of it.
pub open spec fn reply_source_ok(ctx: JsonValue, v: JsonValue) -> bool {
    v == ctx || (json_wf(v) && is_subset_of(v, ctx))
}

/// The exact framed `Signed` message for signing `v` with the given signer
/// and encoder: JSON data is sent as text, other data as lowercase hex, the
/// signature and public key always as lowercase hex.
pub open spec fn signed_reply_frame<S: ContextSigner>(
    signer: S,
    encoder: EncoderChoice,
    v: JsonValue,
) -> Seq<u8> {
    let data = encoder.data_spec(v);
    let digest = encoder.digest_spec(v);
    let data_str = if encoder.is_json_format() {
        data
    } else {
        hex_of(data)
    };
    frame_of(
        signed_msg_text(
            data_str,
            encoder.name_bytes(),
            hex_of(signer.sig_spec(digest)),
            hex_of(signer.pk_spec()),
            signer.alg_tag(),
        ),
    )
}

/// The framed `Context` message that opens the exchange: always the
/// canonical JSON text of the context, whatever encoder is configured, so
/// the prover reviews a human-readable view.
pub fn context_message_bytes(ctx: &JsonValue) -> (r: Vec<u8>)
    ensures
        r@ == frame_of(context_msg_text(json_text_of(*ctx))),
{
    let m = NotaryMessage::Context { data: to_json_bytes(ctx) };
    m.to_frame()
}

/// Signs the full context: the reply owed to a `SignRequest`.
pub fn reply_for_request<S: ContextSigner>(
    ctx: &JsonValue,
    signer: &S,
    encoder: &EncoderChoice,
) -> (r: Result<Vec<u8>, ExchangeError>)
    ensures
        r matches Ok(out) ==> out@ == signed_reply_frame(*signer, *encoder, *ctx),
        !(r matches Err(ExchangeError::NotSubset)),
        !(r matches Err(ExchangeError::BadProverMessage)),
        signer.sign_ok(encoder.digest_spec(*ctx)) ==> r is Ok,
        (forall|d: Seq<u8>| d.len() == 32 ==> #[trigger] signer.sign_ok(d)) ==> r is Ok,
{
    let enc = encoder.encode(ctx);
    let sig = match signer.sign_digest(&enc.digest) {
        Ok(s) => s,
        Err(_) => {
            return Err(ExchangeError::SigningFailed);
        },
    };
    let data_str: Vec<u8> = if let EncoderChoice::Json(_) = encoder {
        enc.data
    } else {
        hex_encode(&enc.data)
    };
    let m = NotaryMessage::Signed {
        data: data_str,
        format: encoder.name_tag(),
        signature: hex_encode(&sig),
        public_key: hex_encode(&signer.public_key_bytes()),
        algorithm: signer.algorithm_tag(),
    };
    Ok(m.to_frame())
}

/// Signs a filtered view: the reply owed to a `SignFiltered` whose view is
/// a valid subset of the context, and the subset-violation error owed to
/// any other view.
pub fn reply_for_filtered<S: ContextSigner>(
    ctx: &JsonValue,
    filtered: &JsonValue,
    signer: &S,
    encoder: &EncoderChoice,
) -> (r: Result<Vec<u8>, ExchangeError>)
    ensures
        r matches Ok(out) ==> is_subset_of(*filtered, *ctx) && out@ == signed_reply_frame(
            *signer,
            *encoder,
            *filtered,
        ),
        r matches Err(ExchangeError::NotSubset) <==> !is_subset_of(*filtered, *ctx),
        !(r matches Err(ExchangeError::BadProverMessage)),
        is_subset_of(*filtered, *ctx) && signer.sign_ok(encoder.digest_spec(*filtered)) ==> r
            is Ok,
        is_subset_of(*filtered, *ctx) && (forall|d: Seq<u8>|
            d.len() == 32 ==> #[trigger] signer.sign_ok(d)) ==> r is Ok,
{
    if !is_json_subset(filtered, ctx) {
        return Err(ExchangeError::NotSubset);
    }
    let enc = encoder.encode(filtered);
    let sig = match signer.sign_digest(&enc.digest) {
        Ok(s) => s,
        Err(_) => {
            return Err(ExchangeError::SigningFailed);
        },
    };
    let data_str: Vec<u8> = if let EncoderChoice::Json(_) = encoder {
        enc.data
    } else {
        hex_encode(&enc.data)
    };
    let m = NotaryMessage::Signed {
        data: data_str,
        format: encoder.name_tag(),
        signature: hex_encode(&sig),
        public_key: hex_encode(&signer.public_key_bytes()),
        algorithm: signer.algorithm_tag(),
    };
    Ok(m.to_frame())
}

/// Answers one prover message: `SignRequest` signs the full context;
/// `SignFiltered` parses the supplied view, checks it is a valid subset of
/// the context, and signs it; anything else fails the session.  An `Ok`
/// reply is exactly the framed `Signed` message for some legally signable
/// value — the per-message guarantees, including owed success, live on
/// `reply_for_request` and `reply_for_filtered`, which take the message
/// already parsed.
pub fn signing_reply<S: ContextSigner>(
    ctx: &JsonValue,
    payload: &Vec<u8>,
    signer: &S,
    encoder: &EncoderChoice,
) -> (r: Result<Vec<u8>, ExchangeError>)
    ensures
        r matches Ok(out) ==> exists|v: JsonValue|
            #[trigger] reply_source_ok(*ctx, v) && out@ == signed_reply_frame(
                *signer,
                *encoder,
                v,
            ),
        r matches Err(ExchangeError::NotSubset) ==> exists|f: JsonValue|
            json_wf(f) && !#[trigger] is_subset_of(f, *ctx),
        (forall|d: Seq<u8>| d.len() == 32 ==> #[trigger] signer.sign_ok(d)) ==> !(r matches Err(
            ExchangeError::SigningFailed,
        )),
{
    let v = match parse_json(payload) {
        Some(v) => v,
        None => {
            return Err(ExchangeError::BadProverMessage);
        },
    };
    let msg = match classify_prover_message(&v) {
        Some(m) => m,
        None => {
            return Err(ExchangeError::BadProverMessage);
        },
    };
    match msg {
        ProverMessage::SignRequest => {
            let r = reply_for_request(ctx, signer, encoder);
            proof {
                assert(reply_source_ok(*ctx, *ctx));
            }
            r
        },
        ProverMessage::SignFiltered { data } => {
            let f = match parse_json(&data) {
                Some(f) => f,
                None => {
                    return Err(ExchangeError::BadProverMessage);
                },
            };
            let r = reply_for_filtered(ctx, &f, signer, encoder);
            proof {
                if r is Ok {
                    assert(reply_source_ok(*ctx, f));
                }
                if r matches Err(ExchangeError::NotSubset) {
                    assert(json_wf(f) && !is_subset_of(f, *ctx));
                }
            }
            r
        },
    }
}

/// Whether a signer and an encoder may be paired.  The RSA signer's
/// PKCS#1 v1.5 chain hashes with SHA-256, so it only signs the JSON
/// encoder's SHA-256 digests; ABI and EIP-712 digests are keccak-256 and
/// are rejected.
pub fn signer_encoder_compatible(algorithm: &Vec<u8>, encoder: &EncoderChoice) -> (r: bool)
    ensures
        r == (algorithm@ == rsa_pkcs1v15_sha256_tag() ==> encoder.is_json_format()),
{
    let rsa_tag: Vec<u8> = vec![
        0x72, 0x73, 0x61, 0x2d, 0x70, 0x6b, 0x63, 0x73, 0x31, 0x76, 0x31, 0x35, 0x2d, 0x73, 0x68,
        0x61, 0x32, 0x35, 0x36,
    ];
    proof {
        assert(rsa_tag@ =~= rsa_pkcs1v15_sha256_tag());
    }
    if !bytes_eq(algorithm, &rsa_tag) {
        return true;
    }
    match encoder {
        EncoderChoice::Json(_) => true,
        _ => false,
    }
}

} // verus!
