use vstd::prelude::*;

verus! {

/// The server's error taxonomy, as surfaced at the HTTP front door.
pub enum NotaryServerError {
    /// An unclassified internal failure.
    Unexpected(String),
    /// The connection to the prover failed.
    Connection(String),
    /// The notarization protocol itself failed.
    Notarization(String),
    /// The prover sent a malformed or illegal request.
    BadProverRequest(String),
    /// The prover's request was rejected by policy.
    UnauthorizedProverRequest(String),
    /// The signing key could not be read or derived.
    CredentialSigningKeyError(String),
}

/// The HTTP status each error maps to: 400 for a bad prover request, 401
/// for an unauthorized one, 500 for everything internal.
pub open spec fn status_spec(e: NotaryServerError) -> u16 {
    match e {
        NotaryServerError::BadProverRequest(_) => 400,
        NotaryServerError::UnauthorizedProverRequest(_) => 401,
        _ => 500,
    }
}

impl NotaryServerError {
    /// The HTTP status this error is reported with.
    pub fn status_code(&self) -> (r: u16)
        ensures
            r == status_spec(*self),
    {
        match self {
            NotaryServerError::BadProverRequest(_) => 400,
            NotaryServerError::UnauthorizedProverRequest(_) => 401,
            _ => 500,
        }
    }
}

} // verus!
