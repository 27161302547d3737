use vstd::prelude::*;

verus! {

/// A field of a request or record that holds encoded key material.
#[derive(Clone, Copy, Debug, PartialEq, Eq, Structural)]
pub enum Field {
    IdentityKey,
    SignedPreKey,
    Signature,
    Vrf,
}

/// Why client input was rejected.
#[derive(Clone, Copy, Debug, PartialEq, Eq, Structural)]
pub enum BadInput {
    /// The phone identity was absent or empty.
    MissingPhone,
    /// The field is not valid standard base64.
    Undecodable(Field),
    /// The field decodes, but not to the fixed length it must have.
    WrongLength(Field),
    /// The field holds a public key that is not a usable curve point.
    UnusableKey(Field),
}

/// Why a proof of key ownership was rejected.
#[derive(Clone, Copy, Debug, PartialEq, Eq, Structural)]
pub enum AuthFailure {
    /// The signature does not verify against the public key.
    InvalidSignature,
    /// The signature verifies, but its verifier output differs from the claimed one.
    VrfMismatch,
}

/// Which record could not be found.
#[derive(Clone, Copy, Debug, PartialEq, Eq, Structural)]
pub enum Missing {
    PendingRegistration,
    Requester,
    Target,
}

/// A failure of one of the service's operations.
#[derive(Clone, Copy, Debug, PartialEq, Eq, Structural)]
pub enum ServiceError {
    BadRequest(BadInput),
    Unauthorized(AuthFailure),
    /// The submitted passcode does not match the pending one.
    Forbidden,
    NotFound(Missing),
}

pub open spec fn status_of(e: ServiceError) -> u16 {
    match e {
        ServiceError::BadRequest(_) => 400,
        ServiceError::Unauthorized(_) => 401,
        ServiceError::Forbidden => 403,
        ServiceError::NotFound(_) => 404,
    }
}

impl ServiceError {
    /// The HTTP status code that reports this failure.
    pub fn status(&self) -> (r: u16)
        ensures
            r == status_of(*self),
    {
        match self {
            ServiceError::BadRequest(_) => 400,
            ServiceError::Unauthorized(_) => 401,
            ServiceError::Forbidden => 403,
            ServiceError::NotFound(_) => 404,
        }
    }
}

} // verus!
