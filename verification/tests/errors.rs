use simple_notary::NotaryServerError;

#[test]
fn bad_prover_request_returns_400() {
    let error = NotaryServerError::BadProverRequest("bad".into());
    assert_eq!(error.status_code(), 400);
}

#[test]
fn unauthorized_prover_request_returns_401() {
    let error = NotaryServerError::UnauthorizedProverRequest("unauth".into());
    assert_eq!(error.status_code(), 401);
}

#[test]
fn connection_error_returns_500() {
    let error = NotaryServerError::Connection("conn failed".into());
    assert_eq!(error.status_code(), 500);
}

#[test]
fn credential_signing_key_error_returns_500() {
    let error = NotaryServerError::CredentialSigningKeyError("key error".into());
    assert_eq!(error.status_code(), 500);
}

#[test]
fn notarization_error_returns_500() {
    let error = NotaryServerError::Notarization("protocol failed".into());
    assert_eq!(error.status_code(), 500);
}

#[test]
fn unexpected_error_returns_500() {
    let error = NotaryServerError::Unexpected("boom".into());
    assert_eq!(error.status_code(), 500);
}
