//! A notary signing library: a redaction-aware JSON subset predicate, a
//! canonical JSON codec, encoders that turn an HTTP context into signable
//! bytes plus a digest, seeded signers, and the two-phase signing exchange.

pub mod abi;
pub mod attest;
pub mod eip712;
pub mod embedding;
pub mod encoding;
pub mod error;
pub mod exchange;
pub mod hash;
pub mod parse;
pub mod protocol;
pub mod server_config;
pub mod signing;
pub mod subset;
pub mod text;
pub mod value;
pub mod yoinker;

pub use encoding::{
    AbiEncoder, Eip712Encoder, EncodeOptions, EncodedContext, EncoderChoice, JsonEncoder,
    Quantization,
};
pub use error::NotaryServerError;
pub use exchange::{
    context_message_bytes, reply_for_filtered, reply_for_request, signer_encoder_compatible,
    signing_reply, ExchangeError,
};
pub use protocol::{NotaryMessage, ProverMessage};
pub use server_config::{NotarizationContextFormat, NotarizationRequestQuery};
pub use signing::{ContextSigner, EthereumSecp256k1Signer, RsaSigner, Secp256k1Signer};
pub use subset::is_json_subset;
pub use value::JsonValue;
pub use yoinker::{IoBoinker, IoYoinker};
