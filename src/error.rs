use vstd::prelude::*;

verus! {

/// The claim whose check failed.
#[derive(PartialEq, Eq, Structural, Clone, Copy, Debug)]
pub enum ClaimKind {
    Issuer,
    Audience,
    Expiry,
}

/// Why a request was not authenticated.
#[derive(PartialEq, Eq, Structural, Clone, Copy, Debug)]
pub enum AuthError {
    /// No `Authorization` header, or one not of the `Bearer <token>` shape.
    MissingCredential,
    /// The token is not three base64url segments with a usable header and
    /// claim set.
    MalformedToken,
    /// No key of the current key set carries the token's key identifier.
    KeyNotFound,
    /// The key set could not be fetched or parsed.
    KeySetFetchFailed,
    /// The signature does not verify, or the header's algorithm disagrees
    /// with the key's.
    SignatureInvalid,
    /// The signature verifies but a claim is not acceptable.
    ClaimInvalid(ClaimKind),
    /// No authentication configuration is reachable: a server fault.
    ConfigurationMissing,
}

impl AuthError {
    /// Whether the failure lies with the server rather than the caller.
    pub fn is_server_fault(&self) -> (r: bool)
        ensures
            r == (*self == AuthError::ConfigurationMissing),
    {
        match self {
            AuthError::ConfigurationMissing => true,
            _ => false,
        }
    }

    /// The text logged for this failure.
    pub open spec fn reason_text(self) -> Seq<char> {
        match self {
            AuthError::MissingCredential => "missing or invalid Authorization header"@,
            AuthError::MalformedToken => "malformed token"@,
            AuthError::KeyNotFound => "signing key not found in key set"@,
            AuthError::KeySetFetchFailed => "key set could not be fetched"@,
            AuthError::SignatureInvalid => "signature mismatch"@,
            AuthError::ClaimInvalid(ClaimKind::Issuer) => "wrong issuer"@,
            AuthError::ClaimInvalid(ClaimKind::Audience) => "wrong audience"@,
            AuthError::ClaimInvalid(ClaimKind::Expiry) => "token expired"@,
            AuthError::ConfigurationMissing => "authentication not configured"@,
        }
    }

    /// A human-readable reason, for the log only: callers outside the
    /// library see every client-side failure as the same rejection.
    pub fn reason(&self) -> (r: String)
        ensures
            r@ == self.reason_text(),
    {
        let s = match self {
            AuthError::MissingCredential => "missing or invalid Authorization header",
            AuthError::MalformedToken => "malformed token",
            AuthError::KeyNotFound => "signing key not found in key set",
            AuthError::KeySetFetchFailed => "key set could not be fetched",
            AuthError::SignatureInvalid => "signature mismatch",
            AuthError::ClaimInvalid(ClaimKind::Issuer) => "wrong issuer",
            AuthError::ClaimInvalid(ClaimKind::Audience) => "wrong audience",
            AuthError::ClaimInvalid(ClaimKind::Expiry) => "token expired",
            AuthError::ConfigurationMissing => "authentication not configured",
        };
        s.to_owned()
    }
}

} // verus!
