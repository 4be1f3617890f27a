use k256::ecdsa::signature::hazmat::PrehashVerifier;
use rsa::pkcs8::DecodePublicKey;
use rsa::signature::Verifier;
use sha2::Digest;
use simple_notary::{ContextSigner, EthereumSecp256k1Signer, RsaSigner, Secp256k1Signer};

fn digest_of(data: &[u8]) -> Vec<u8> {
    sha2::Sha256::digest(data).to_vec()
}

/// Derives two RSA signers concurrently: 2048-bit key generation is
/// CPU-heavy and the two derivations are independent.
fn rsa_signer_pair(seed_a: &'static [u8], seed_b: &'static [u8]) -> (RsaSigner, RsaSigner) {
    let rt = tokio::runtime::Builder::new_multi_thread()
        .worker_threads(2)
        .build()
        .unwrap();
    rt.block_on(async {
        let a = tokio::task::spawn_blocking(move || RsaSigner::from_seed(&seed_a.to_vec()).unwrap());
        let b = tokio::task::spawn_blocking(move || RsaSigner::from_seed(&seed_b.to_vec()).unwrap());
        (a.await.unwrap(), b.await.unwrap())
    })
}

// ── secp256k1 ────────────────────────────────────────────────────────

#[test]
fn secp256k1_deterministic_signing() {
    let signer = Secp256k1Signer::from_seed(&b"test-seed".to_vec()).unwrap();
    let digest = digest_of(b"hello");
    let sig1 = signer.sign_digest(&digest).unwrap();
    let sig2 = signer.sign_digest(&digest).unwrap();
    assert_eq!(sig1, sig2);
}

#[test]
fn secp256k1_different_seeds_produce_different_keys() {
    let signer_a = Secp256k1Signer::from_seed(&b"seed-a".to_vec()).unwrap();
    let signer_b = Secp256k1Signer::from_seed(&b"seed-b".to_vec()).unwrap();
    assert_ne!(signer_a.public_key_bytes(), signer_b.public_key_bytes());
}

#[test]
fn signature_is_64_bytes() {
    let signer = Secp256k1Signer::from_seed(&b"test-seed".to_vec()).unwrap();
    let sig = signer.sign_digest(&digest_of(b"data")).unwrap();
    assert_eq!(sig.len(), 64);
}

#[test]
fn public_key_is_33_bytes_compressed() {
    let signer = Secp256k1Signer::from_seed(&b"test-seed".to_vec()).unwrap();
    assert_eq!(signer.public_key_bytes().len(), 33);
}

#[test]
fn algorithm_is_secp256k1() {
    let signer = Secp256k1Signer::from_seed(&b"test-seed".to_vec()).unwrap();
    assert_eq!(signer.algorithm(), "secp256k1");
    assert_eq!(signer.algorithm_tag(), b"secp256k1".to_vec());
}

#[test]
fn secp256k1_signature_verifies() {
    let signer = Secp256k1Signer::from_seed(&b"verify-seed".to_vec()).unwrap();
    let digest = digest_of(b"verify me");
    let sig_bytes = signer.sign_digest(&digest).unwrap();

    let vk = k256::ecdsa::VerifyingKey::from_sec1_bytes(&signer.public_key_bytes()).unwrap();
    let sig = k256::ecdsa::Signature::from_slice(&sig_bytes).unwrap();
    vk.verify_prehash(&digest, &sig).unwrap();
}

// ── ethereum-secp256k1 ───────────────────────────────────────────────

#[test]
fn signature_is_65_bytes() {
    let signer = EthereumSecp256k1Signer::from_seed(&b"test-seed".to_vec()).unwrap();
    let sig = signer.sign_digest(&digest_of(b"data")).unwrap();
    assert_eq!(sig.len(), 65, "ethereum signature should be 65 bytes (r+s+v)");
}

#[test]
fn recovery_id_valid() {
    let signer = EthereumSecp256k1Signer::from_seed(&b"test-seed".to_vec()).unwrap();
    let sig = signer.sign_digest(&digest_of(b"data")).unwrap();
    let v = sig[64];
    assert!(v <= 1, "recovery ID should be 0 or 1, got {v}");
}

#[test]
fn ethereum_secp256k1_deterministic_signing() {
    let signer = EthereumSecp256k1Signer::from_seed(&b"test-seed".to_vec()).unwrap();
    let digest = digest_of(b"hello");
    let sig1 = signer.sign_digest(&digest).unwrap();
    let sig2 = signer.sign_digest(&digest).unwrap();
    assert_eq!(sig1, sig2);
}

#[test]
fn public_key_is_65_bytes_uncompressed() {
    let signer = EthereumSecp256k1Signer::from_seed(&b"test-seed".to_vec()).unwrap();
    let pk = signer.public_key_bytes();
    assert_eq!(pk.len(), 65, "uncompressed public key should be 65 bytes");
    assert_eq!(pk[0], 0x04, "uncompressed key should start with 0x04");
}

#[test]
fn signature_recovers_correct_public_key() {
    let signer = EthereumSecp256k1Signer::from_seed(&b"recovery-test".to_vec()).unwrap();
    let digest = digest_of(b"recover me");
    let sig_bytes = signer.sign_digest(&digest).unwrap();

    let signature = k256::ecdsa::Signature::from_slice(&sig_bytes[..64]).unwrap();
    let recovery_id = k256::ecdsa::RecoveryId::from_byte(sig_bytes[64]).unwrap();

    let recovered_key =
        k256::ecdsa::VerifyingKey::recover_from_prehash(&digest, &signature, recovery_id).unwrap();

    let expected = k256::ecdsa::VerifyingKey::from_sec1_bytes(&signer.public_key_bytes()).unwrap();
    assert_eq!(
        recovered_key, expected,
        "recovered public key should match signer's public key"
    );
}

#[test]
fn algorithm_is_ethereum_secp256k1() {
    let signer = EthereumSecp256k1Signer::from_seed(&b"test".to_vec()).unwrap();
    assert_eq!(signer.algorithm(), "ethereum-secp256k1");
}

// ── rsa-pkcs1v15-sha256 ──────────────────────────────────────────────

#[test]
fn deterministic_key_generation() {
    let (signer_a, signer_b) = rsa_signer_pair(b"test-seed", b"test-seed");
    assert_eq!(signer_a.public_key_bytes(), signer_b.public_key_bytes());
}

#[test]
fn rsa_deterministic_signing() {
    let signer = RsaSigner::from_seed(&b"test-seed".to_vec()).unwrap();
    let digest = digest_of(b"hello");
    let sig1 = signer.sign_digest(&digest).unwrap();
    let sig2 = signer.sign_digest(&digest).unwrap();
    assert_eq!(sig1, sig2);
}

#[test]
fn rsa_different_seeds_produce_different_keys() {
    let (signer_a, signer_b) = rsa_signer_pair(b"seed-a", b"seed-b");
    assert_ne!(signer_a.public_key_bytes(), signer_b.public_key_bytes());
}

#[test]
fn signature_is_256_bytes() {
    let signer = RsaSigner::from_seed(&b"test-seed".to_vec()).unwrap();
    let sig = signer.sign_digest(&digest_of(b"data")).unwrap();
    assert_eq!(sig.len(), 256);
}

#[test]
fn algorithm_is_rsa_pkcs1v15_sha256() {
    let signer = RsaSigner::from_seed(&b"test-seed".to_vec()).unwrap();
    assert_eq!(signer.algorithm(), "rsa-pkcs1v15-sha256");
}

#[test]
fn signature_verifies() {
    let signer = RsaSigner::from_seed(&b"test-seed".to_vec()).unwrap();
    let data = b"verify me";
    let sig_bytes = signer.sign_digest(&digest_of(data)).unwrap();

    let pubkey = rsa::RsaPublicKey::from_public_key_der(&signer.public_key_bytes()).unwrap();
    let verifying_key = rsa::pkcs1v15::VerifyingKey::<sha2::Sha256>::new(pubkey);
    let signature = rsa::pkcs1v15::Signature::try_from(sig_bytes.as_slice()).unwrap();
    verifying_key.verify(data, &signature).unwrap();
}
