use vstd::prelude::*;

use crate::abi::append_bytes;
use crate::hash::{sha256, sha256_of};

verus! {

/// Why a signer could not be built or could not sign.
#[derive(Debug)]
pub enum SignError {
    /// The seed does not derive a usable key.
    InvalidSeed,
    /// The signing operation itself failed.
    SigningFailed,
}

/// The big-endian value of a byte string.
pub open spec fn be_val(s: Seq<u8>) -> nat
    decreases s.len(),
{
    if s.len() == 0 {
        0
    } else {
        be_val(s.drop_last()) * 256 + s.last() as nat
    }
}

/// The order of the secp256k1 group.
pub open spec fn secp256k1_order() -> nat {
    0xfffffffffffffffffffffffffffffffebaaedce6af48a03bbfd25e8cd0364141nat
}

/// Whether 32 bytes encode a usable secp256k1 secret scalar: a non-zero
/// big-endian value below the group order.
pub open spec fn secp_scalar_valid(key: Seq<u8>) -> bool {
    0 < be_val(key) && be_val(key) < secp256k1_order()
}

/// The low-s normalized RFC 6979 ECDSA signature (r ‖ s, 64 bytes) of
/// `digest` under the secp256k1 key `key`.
pub uninterp spec fn secp_sig_of(key: Seq<u8>, digest: Seq<u8>) -> Seq<u8>;

/// The recovery id that goes with `secp_sig_of(key, digest)`.
pub uninterp spec fn secp_recid_of(key: Seq<u8>, digest: Seq<u8>) -> u8;

/// The SEC1 encoding of the public key of `key`: 33 bytes compressed, 65
/// bytes (leading 0x04) uncompressed.
pub uninterp spec fn secp_pubkey_of(key: Seq<u8>, compressed: bool) -> Seq<u8>;

/// The PKCS#8 DER encoding of the 2048-bit RSA private key generated from a
/// ChaCha20 stream seeded with `seed_hash`.
pub uninterp spec fn rsa_privkey_der_of(seed_hash: Seq<u8>) -> Seq<u8>;

/// The SPKI DER encoding of the public key belonging to that private key.
pub uninterp spec fn rsa_pubkey_der_of(seed_hash: Seq<u8>) -> Seq<u8>;

/// The PKCS#1 v1.5 SHA-256 signature of a 32-byte prehash under the RSA
/// private key carried as `priv_der`.
pub uninterp spec fn rsa_sig_of(priv_der: Seq<u8>, digest: Seq<u8>) -> Seq<u8>;

/// Whether `priv_der` is a key that `rsa_keygen_from_seed` can generate.
pub open spec fn rsa_der_generated(priv_der: Seq<u8>) -> bool {
    exists|h: Seq<u8>| priv_der == rsa_privkey_der_of(h)
}

/// Relies on k256's `SigningKey::from_slice`: on a 32-byte slice it
/// accepts exactly the encodings of non-zero scalars below the group
/// order.  (Shorter slices are also accepted and zero-padded, so the iff
/// is stated for 32 bytes only.)
#[verifier::external_body]
fn secp_key_ok(key: &Vec<u8>) -> (r: bool)
    requires
        key@.len() == 32,
    ensures
        r == secp_scalar_valid(key@),
{
    k256::ecdsa::SigningKey::from_slice(key.as_slice()).is_ok()
}

/// Relies on k256's `sign_prehash_recoverable`: deterministic RFC 6979
/// signing with low-s normalization, total in the prehash, returning a
/// 64-byte signature and a recovery id whose byte is at most 3.  The same
/// bytes are what `sign_prehash` alone returns.
#[verifier::external_body]
fn secp_sign_prehash(key: &Vec<u8>, digest: &Vec<u8>) -> (r: Option<(Vec<u8>, u8)>)
    ensures
        r matches Some(p) ==> p.0@ == secp_sig_of(key@, digest@) && p.0@.len() == 64 && p.1
            == secp_recid_of(key@, digest@) && p.1 <= 3,
        key@.len() == 32 && secp_scalar_valid(key@) ==> r is Some,
{
    let sk = k256::ecdsa::SigningKey::from_slice(key.as_slice()).ok()?;
    let (sig, recid) = sk.sign_prehash_recoverable(digest.as_slice());
    Some((sig.to_bytes().to_vec(), recid.to_byte()))
}

/// Relies on k256's `VerifyingKey::to_sec1_point`: the SEC1 point
/// encoding — 33 bytes starting 0x02 or 0x03 compressed, 65 bytes
/// starting 0x04 uncompressed (a non-zero scalar never yields the
/// identity point).
#[verifier::external_body]
fn secp_pubkey_bytes(key: &Vec<u8>, compressed: bool) -> (r: Option<Vec<u8>>)
    ensures
        r matches Some(p) ==> p@ == secp_pubkey_of(key@, compressed) && p@.len() == (
        if compressed {
            33int
        } else {
            65int
        }) && (!compressed ==> p@[0] == 4) && (compressed ==> (p@[0] == 2 || p@[0] == 3)),
        key@.len() == 32 && secp_scalar_valid(key@) ==> r is Some,
{
    let sk = k256::ecdsa::SigningKey::from_slice(key.as_slice()).ok()?;
    let point = sk.verifying_key().to_sec1_point(compressed);
    Some(point.as_bytes().to_vec())
}

/// Relies on rsa's `RsaPrivateKey::new` with a ChaCha20 generator seeded
/// from `seed_hash`: key generation is a deterministic function of the
/// stream, so of the seed; the DER encodings are those of `pkcs8` /
/// `spki`.  Generating a 2048-bit key with a functioning generator does
/// not fail, and DER-encoding a generated key cannot, so a pair always
/// comes back.
#[verifier::external_body]
fn rsa_keygen_from_seed(seed_hash: &Vec<u8>) -> (r: Option<(Vec<u8>, Vec<u8>)>)
    requires
        seed_hash@.len() == 32,
    ensures
        r matches Some(p) ==> p.0@ == rsa_privkey_der_of(seed_hash@) && p.1@ == rsa_pubkey_der_of(
            seed_hash@,
        ),
        r is Some,
{
    let mut seed = [0u8; 32];
    seed.copy_from_slice(seed_hash.as_slice());
    let mut rng = <rand_chacha::ChaCha20Rng as rand_chacha::rand_core::SeedableRng>::from_seed(
        seed,
    );
    let key = rsa::RsaPrivateKey::new(&mut rng, 2048).ok()?;
    let priv_der = <rsa::RsaPrivateKey as rsa::pkcs8::EncodePrivateKey>::to_pkcs8_der(&key).ok()?;
    let pub_der = <rsa::RsaPublicKey as rsa::pkcs8::EncodePublicKey>::to_public_key_der(
        &key.to_public_key(),
    ).ok()?;
    Some((priv_der.as_bytes().to_vec(), pub_der.as_bytes().to_vec()))
}

/// Relies on rsa's PKCS#1 v1.5 `sign_prehash` with SHA-256: deterministic
/// padding, a signature as long as the key — 256 bytes for the 2048-bit
/// keys that `rsa_keygen_from_seed` makes — accepting exactly 32-byte
/// prehashes.
#[verifier::external_body]
fn rsa_sign_pkcs1v15_sha256(priv_der: &Vec<u8>, digest: &Vec<u8>) -> (r: Option<Vec<u8>>)
    ensures
        r matches Some(s) ==> s@ == rsa_sig_of(priv_der@, digest@) && (rsa_der_generated(
            priv_der@,
        ) ==> s@.len() == 256),
        rsa_der_generated(priv_der@) && digest@.len() == 32 ==> r is Some,
{
    let key = <rsa::RsaPrivateKey as rsa::pkcs8::DecodePrivateKey>::from_pkcs8_der(
        priv_der.as_slice(),
    ).ok()?;
    let sk = rsa::pkcs1v15::SigningKey::<rsa::sha2::Sha256>::new(key);
    let sig = <rsa::pkcs1v15::SigningKey<rsa::sha2::Sha256> as rsa::signature::hazmat::PrehashSigner<
        rsa::pkcs1v15::Signature,
    >>::sign_prehash(&sk, digest.as_slice()).ok()?;
    Some(<rsa::pkcs1v15::Signature as rsa::signature::SignatureEncoding>::to_vec(&sig))
}

/// A signer of pre-computed digests.  The encoder owns hashing; a signer
/// receives the digest, and also reports its public key and its wire
/// algorithm tag.
pub trait ContextSigner: Sized {
    /// The signature this signer produces for `digest`.
    spec fn sig_spec(&self, digest: Seq<u8>) -> Seq<u8>;

    /// The length every signature of this signer has.
    spec fn sig_len_spec(&self) -> nat;

    /// This signer's public key bytes.
    spec fn pk_spec(&self) -> Seq<u8>;

    /// This signer's algorithm tag.
    spec fn alg_spec(&self) -> Seq<char>;

    /// The UTF-8 bytes of the algorithm tag, as written on the wire.
    spec fn alg_tag(&self) -> Seq<u8>;

    /// The digests this signer is bound to sign.
    spec fn sign_ok(&self, digest: Seq<u8>) -> bool;

    /// What every signature this signer hands out satisfies, beyond its
    /// exact value — the recovery-byte range, for the recoverable form.
    spec fn sig_valid(&self, digest: Seq<u8>, sig: Seq<u8>) -> bool;

    /// Signs a pre-computed digest, returning raw signature bytes.
    fn sign_digest(&self, digest: &Vec<u8>) -> (r: Result<Vec<u8>, SignError>)
        ensures
            r matches Ok(s) ==> s@ == self.sig_spec(digest@) && s@.len() == self.sig_len_spec()
                && self.sig_valid(digest@, s@),
            self.sign_ok(digest@) ==> r is Ok,
    ;

    /// This signer's public key bytes.
    fn public_key_bytes(&self) -> (r: Vec<u8>)
        ensures
            r@ == self.pk_spec(),
    ;

    /// This signer's algorithm tag.
    fn algorithm(&self) -> (r: &'static str)
        ensures
            r@ == self.alg_spec(),
    ;

    /// The UTF-8 bytes of the algorithm tag.
    fn algorithm_tag(&self) -> (r: Vec<u8>)
        ensures
            r@ == self.alg_tag(),
    ;
}

/// The bytes of `"secp256k1"`.
pub open spec fn secp256k1_tag() -> Seq<u8> {
    seq![0x73u8, 0x65u8, 0x63u8, 0x70u8, 0x32u8, 0x35u8, 0x36u8, 0x6bu8, 0x31u8]
}

/// The bytes of `"ethereum-secp256k1"`.
pub open spec fn ethereum_secp256k1_tag() -> Seq<u8> {
    seq![
        0x65u8, 0x74u8, 0x68u8, 0x65u8, 0x72u8, 0x65u8, 0x75u8, 0x6du8, 0x2du8, 0x73u8, 0x65u8,
        0x63u8, 0x70u8, 0x32u8, 0x35u8, 0x36u8, 0x6bu8, 0x31u8,
    ]
}

/// The bytes of `"rsa-pkcs1v15-sha256"`.
pub open spec fn rsa_pkcs1v15_sha256_tag() -> Seq<u8> {
    seq![
        0x72u8, 0x73u8, 0x61u8, 0x2du8, 0x70u8, 0x6bu8, 0x63u8, 0x73u8, 0x31u8, 0x76u8, 0x31u8,
        0x35u8, 0x2du8, 0x73u8, 0x68u8, 0x61u8, 0x32u8, 0x35u8, 0x36u8,
    ]
}

/// Law: signing is deterministic and of fixed width — any two successful
/// signatures of one digest by one signer are the same bytes, of the
/// algorithm's fixed length.
pub proof fn lemma_sign_deterministic<S: ContextSigner>(
    signer: &S,
    digest: &Vec<u8>,
    r1: Result<Vec<u8>, SignError>,
    r2: Result<Vec<u8>, SignError>,
)
    requires
        call_ensures(S::sign_digest, (signer, digest), r1),
        call_ensures(S::sign_digest, (signer, digest), r2),
    ensures
        r1 matches Ok(s1) ==> s1@.len() == signer.sig_len_spec(),
        r1 matches Ok(s1) ==> r2 matches Ok(s2) ==> s1@ == s2@,
{
}

/// ECDSA over secp256k1: 64-byte signatures, 33-byte compressed public key.
/// The key is the SHA-256 hash of a seed.
pub struct Secp256k1Signer {
    key: Vec<u8>,
    pubkey: Vec<u8>,
}

impl Secp256k1Signer {
    /// A correctly derived signer: a valid 32-byte key with its compressed
    /// public key.
    pub closed spec fn wf(&self) -> bool {
        &&& self.key@.len() == 32
        &&& secp_scalar_valid(self.key@)
        &&& self.pubkey@ == secp_pubkey_of(self.key@, true)
        &&& self.pubkey@.len() == 33
        &&& (self.pubkey@[0] == 2 || self.pubkey@[0] == 3)
    }

    /// The key this signer signs with.
    pub closed spec fn key_spec(&self) -> Seq<u8> {
        self.key@
    }

    /// Derives the signer whose key is the SHA-256 hash of `seed`; rejects
    /// the seed exactly when that hash is not a valid scalar.
    pub fn from_seed(seed: &Vec<u8>) -> (r: Result<Self, SignError>)
        ensures
            r matches Ok(s) ==> s.wf() && s.key_spec() == sha256_of(seed@),
            r is Ok <==> secp_scalar_valid(sha256_of(seed@)),
    {
        let key = sha256(seed);
        if !secp_key_ok(&key) {
            return Err(SignError::InvalidSeed);
        }
        match secp_pubkey_bytes(&key, true) {
            Some(pubkey) => Ok(Secp256k1Signer { key, pubkey }),
            None => Err(SignError::InvalidSeed),
        }
    }
}

impl Secp256k1Signer {
    /// Law: what this signer signs and reports is a function of its key
    /// alone, so two signers derived from one seed behave identically;
    /// the public key is the 33-byte compressed SEC1 encoding.
    pub proof fn lemma_determined_by_key(&self, digest: Seq<u8>)
        requires
            self.wf(),
        ensures
            self.sig_spec(digest) == secp_sig_of(self.key_spec(), digest),
            self.pk_spec() == secp_pubkey_of(self.key_spec(), true),
            self.pk_spec().len() == 33,
            self.pk_spec()[0] == 2 || self.pk_spec()[0] == 3,
    {
    }
}

impl ContextSigner for Secp256k1Signer {
    closed spec fn sig_spec(&self, digest: Seq<u8>) -> Seq<u8> {
        secp_sig_of(self.key@, digest)
    }

    open spec fn sig_len_spec(&self) -> nat {
        64
    }

    closed spec fn pk_spec(&self) -> Seq<u8> {
        self.pubkey@
    }

    open spec fn alg_spec(&self) -> Seq<char> {
        "secp256k1"@
    }

    open spec fn alg_tag(&self) -> Seq<u8> {
        secp256k1_tag()
    }

    fn algorithm_tag(&self) -> (r: Vec<u8>) {
        let r: Vec<u8> = vec![0x73, 0x65, 0x63, 0x70, 0x32, 0x35, 0x36, 0x6b, 0x31];
        proof {
            assert(r@ =~= secp256k1_tag());
        }
        r
    }

    open spec fn sign_ok(&self, digest: Seq<u8>) -> bool {
        self.wf()
    }

    open spec fn sig_valid(&self, digest: Seq<u8>, sig: Seq<u8>) -> bool {
        true
    }

    fn sign_digest(&self, digest: &Vec<u8>) -> (r: Result<Vec<u8>, SignError>) {
        match secp_sign_prehash(&self.key, digest) {
            Some(p) => Ok(p.0),
            None => Err(SignError::SigningFailed),
        }
    }

    fn public_key_bytes(&self) -> (r: Vec<u8>) {
        let mut out: Vec<u8> = Vec::new();
        append_bytes(&mut out, &self.pubkey);
        out
    }

    fn algorithm(&self) -> (r: &'static str) {
        "secp256k1"
    }
}

/// ECDSA over secp256k1 with Ethereum-style recoverable signatures: 65
/// bytes (r ‖ s ‖ v), 65-byte uncompressed public key, so `ecrecover` can
/// recover the signer without the key.
pub struct EthereumSecp256k1Signer {
    key: Vec<u8>,
    pubkey: Vec<u8>,
}

impl EthereumSecp256k1Signer {
    /// A correctly derived signer: a valid 32-byte key with its
    /// uncompressed public key.
    pub closed spec fn wf(&self) -> bool {
        &&& self.key@.len() == 32
        &&& secp_scalar_valid(self.key@)
        &&& self.pubkey@ == secp_pubkey_of(self.key@, false)
        &&& self.pubkey@.len() == 65
        &&& self.pubkey@[0] == 4
    }

    /// The key this signer signs with.
    pub closed spec fn key_spec(&self) -> Seq<u8> {
        self.key@
    }

    /// Derives the signer whose key is the SHA-256 hash of `seed`; rejects
    /// the seed exactly when that hash is not a valid scalar.
    pub fn from_seed(seed: &Vec<u8>) -> (r: Result<Self, SignError>)
        ensures
            r matches Ok(s) ==> s.wf() && s.key_spec() == sha256_of(seed@),
            r is Ok <==> secp_scalar_valid(sha256_of(seed@)),
    {
        let key = sha256(seed);
        if !secp_key_ok(&key) {
            return Err(SignError::InvalidSeed);
        }
        match secp_pubkey_bytes(&key, false) {
            Some(pubkey) => Ok(EthereumSecp256k1Signer { key, pubkey }),
            None => Err(SignError::InvalidSeed),
        }
    }
}

impl EthereumSecp256k1Signer {
    /// Law: what this signer signs and reports is a function of its key
    /// alone, so two signers derived from one seed behave identically;
    /// the public key is the 65-byte uncompressed SEC1 encoding, 0x04
    /// first.
    pub proof fn lemma_determined_by_key(&self, digest: Seq<u8>)
        requires
            self.wf(),
        ensures
            self.sig_spec(digest) == secp_sig_of(self.key_spec(), digest) + seq![
                secp_recid_of(self.key_spec(), digest),
            ],
            self.pk_spec() == secp_pubkey_of(self.key_spec(), false),
            self.pk_spec().len() == 65,
            self.pk_spec()[0] == 4,
    {
    }
}

impl ContextSigner for EthereumSecp256k1Signer {
    closed spec fn sig_spec(&self, digest: Seq<u8>) -> Seq<u8> {
        secp_sig_of(self.key@, digest) + seq![secp_recid_of(self.key@, digest)]
    }

    open spec fn sig_len_spec(&self) -> nat {
        65
    }

    closed spec fn pk_spec(&self) -> Seq<u8> {
        self.pubkey@
    }

    open spec fn alg_spec(&self) -> Seq<char> {
        "ethereum-secp256k1"@
    }

    open spec fn alg_tag(&self) -> Seq<u8> {
        ethereum_secp256k1_tag()
    }

    fn algorithm_tag(&self) -> (r: Vec<u8>) {
        let r: Vec<u8> = vec![
            0x65, 0x74, 0x68, 0x65, 0x72, 0x65, 0x75, 0x6d, 0x2d, 0x73, 0x65, 0x63, 0x70, 0x32,
            0x35, 0x36, 0x6b, 0x31,
        ];
        proof {
            assert(r@ =~= ethereum_secp256k1_tag());
        }
        r
    }

    closed spec fn sign_ok(&self, digest: Seq<u8>) -> bool {
        self.wf() && secp_recid_of(self.key@, digest) <= 1
    }

    open spec fn sig_valid(&self, digest: Seq<u8>, sig: Seq<u8>) -> bool {
        sig.len() == 65 && (sig[64] == 0 || sig[64] == 1)
    }

    fn sign_digest(&self, digest: &Vec<u8>) -> (r: Result<Vec<u8>, SignError>) {
        match secp_sign_prehash(&self.key, digest) {
            Some(p) => {
                // A recovery byte above 1 means r wrapped the group order;
                // the wire format demands v in {0, 1}, so refuse it.
                if p.1 > 1 {
                    return Err(SignError::SigningFailed);
                }
                let mut sig = p.0;
                sig.push(p.1);
                Ok(sig)
            },
            None => Err(SignError::SigningFailed),
        }
    }

    fn public_key_bytes(&self) -> (r: Vec<u8>) {
        let mut out: Vec<u8> = Vec::new();
        append_bytes(&mut out, &self.pubkey);
        out
    }

    fn algorithm(&self) -> (r: &'static str) {
        "ethereum-secp256k1"
    }
}

/// RSA PKCS#1 v1.5 with SHA-256: 256-byte signatures from a 2048-bit key
/// generated deterministically from the SHA-256 hash of a seed.  The digest
/// handed to it must itself be a SHA-256 digest, 32 bytes.
pub struct RsaSigner {
    seed_hash: Vec<u8>,
    priv_der: Vec<u8>,
    pub_der: Vec<u8>,
}

impl RsaSigner {
    /// A correctly derived signer: the stored DER encodings are the ones
    /// the seed generates.
    pub closed spec fn wf(&self) -> bool {
        &&& self.seed_hash@.len() == 32
        &&& self.priv_der@ == rsa_privkey_der_of(self.seed_hash@)
        &&& self.pub_der@ == rsa_pubkey_der_of(self.seed_hash@)
    }

    /// The seed hash this signer's key was generated from.
    pub closed spec fn seed_hash_spec(&self) -> Seq<u8> {
        self.seed_hash@
    }

    /// Generates the key pair from the SHA-256 hash of `seed`; 2048-bit
    /// generation does not fail.
    pub fn from_seed(seed: &Vec<u8>) -> (r: Result<Self, SignError>)
        ensures
            r matches Ok(s) ==> s.wf() && s.seed_hash_spec() == sha256_of(seed@),
            r is Ok,
    {
        let seed_hash = sha256(seed);
        match rsa_keygen_from_seed(&seed_hash) {
            Some(p) => Ok(RsaSigner { seed_hash, priv_der: p.0, pub_der: p.1 }),
            None => Err(SignError::InvalidSeed),
        }
    }
}

impl RsaSigner {
    /// Law: what this signer signs and reports is a function of its seed
    /// hash alone, so two signers derived from one seed behave identically.
    pub proof fn lemma_determined_by_seed(&self, digest: Seq<u8>)
        requires
            self.wf(),
        ensures
            self.sig_spec(digest) == rsa_sig_of(rsa_privkey_der_of(self.seed_hash_spec()), digest),
            self.pk_spec() == rsa_pubkey_der_of(self.seed_hash_spec()),
    {
    }
}

impl ContextSigner for RsaSigner {
    closed spec fn sig_spec(&self, digest: Seq<u8>) -> Seq<u8> {
        rsa_sig_of(self.priv_der@, digest)
    }

    open spec fn sig_len_spec(&self) -> nat {
        256
    }

    closed spec fn pk_spec(&self) -> Seq<u8> {
        self.pub_der@
    }

    open spec fn alg_spec(&self) -> Seq<char> {
        "rsa-pkcs1v15-sha256"@
    }

    open spec fn alg_tag(&self) -> Seq<u8> {
        rsa_pkcs1v15_sha256_tag()
    }

    fn algorithm_tag(&self) -> (r: Vec<u8>) {
        let r: Vec<u8> = vec![
            0x72, 0x73, 0x61, 0x2d, 0x70, 0x6b, 0x63, 0x73, 0x31, 0x76, 0x31, 0x35, 0x2d, 0x73,
            0x68, 0x61, 0x32, 0x35, 0x36,
        ];
        proof {
            assert(r@ =~= rsa_pkcs1v15_sha256_tag());
        }
        r
    }

    open spec fn sign_ok(&self, digest: Seq<u8>) -> bool {
        self.wf() && digest.len() == 32
    }

    open spec fn sig_valid(&self, digest: Seq<u8>, sig: Seq<u8>) -> bool {
        true
    }

    fn sign_digest(&self, digest: &Vec<u8>) -> (r: Result<Vec<u8>, SignError>) {
        match rsa_sign_pkcs1v15_sha256(&self.priv_der, digest) {
            Some(s) => {
                if s.len() == 256 {
                    Ok(s)
                } else {
                    Err(SignError::SigningFailed)
                }
            },
            None => Err(SignError::SigningFailed),
        }
    }

    fn public_key_bytes(&self) -> (r: Vec<u8>) {
        let mut out: Vec<u8> = Vec::new();
        append_bytes(&mut out, &self.pub_der);
        out
    }

    fn algorithm(&self) -> (r: &'static str) {
        "rsa-pkcs1v15-sha256"
    }
}

} // verus!
