//! The error kinds shared by the token codec, the header parsing and
//! the credential lookup; every failure is returned as one of them.

use vstd::prelude::*;

verus! {

/// The failure kinds of the authorization layer. The surrounding router
/// maps each kind to a protocol-level response; this library never
/// constructs response bodies.
#[derive(Clone, Copy, Debug, PartialEq, Eq, Structural)]
pub enum Error {
    /// A login's email/password pair matched no directory entry.
    WrongCredentialError,
    /// A token failed verification: bad signature, malformed structure,
    /// wrong algorithm, or elapsed expiry.
    JWTTokenError,
    /// An internal serialization/signing fault while minting a token.
    JWTTokenCreationError,
    /// No Authorization header was present on the request.
    NoAuthHeaderError,
    /// An Authorization header was present but did not carry the Bearer
    /// scheme, or was not valid UTF-8 after it.
    InvalidAuthHeaderError,
    /// The token verified, but its role does not satisfy the route's
    /// required role.
    NoPermissionError,
}

/// The fixed description of each error kind.
pub open spec fn spec_message(e: Error) -> Seq<char> {
    match e {
        Error::WrongCredentialError => "Wrong Credentials"@,
        Error::JWTTokenError => "JWT Token Not Valid"@,
        Error::JWTTokenCreationError => "JWT Token Creation Error"@,
        Error::NoAuthHeaderError => "No Auth Header"@,
        Error::InvalidAuthHeaderError => "Invalid Auth Header"@,
        Error::NoPermissionError => "No Permission"@,
    }
}

impl Error {
    /// A short human-readable description of the error kind.
    pub fn message(&self) -> (m: &'static str)
        ensures
            m@ == spec_message(*self),
    {
        match self {
            Error::WrongCredentialError => "Wrong Credentials",
            Error::JWTTokenError => "JWT Token Not Valid",
            Error::JWTTokenCreationError => "JWT Token Creation Error",
            Error::NoAuthHeaderError => "No Auth Header",
            Error::InvalidAuthHeaderError => "Invalid Auth Header",
            Error::NoPermissionError => "No Permission",
        }
    }
}

} // verus!
