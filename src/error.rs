use vstd::prelude::*;

verus! {

/// The errors of request admission.
///
/// Only the first four reach a caller as themselves; the others are
/// internal failures whose detail is for the logs.
#[derive(Debug)]
pub enum Error {
    /// The bearer token is missing, malformed or does not verify.
    Unauthorized,
    /// The identity is known but lacks the required permission.
    Forbidden,
    /// The requested resource does not exist.
    NotFound,
    /// The client's token bucket is exhausted.
    TooManyRequests,
    /// The identity provider could not be used.
    Auth0,
    /// An entry of the signing-key document has no key identifier.
    MissingKeyId,
    /// The identity store failed.
    Store,
    /// The signing-key document is not a key set.
    MalformedKeySet,
}

/// The HTTP status that answers each error.
pub open spec fn status_of(e: Error) -> u16 {
    match e {
        Error::Unauthorized => 401,
        Error::Forbidden => 403,
        Error::NotFound => 404,
        Error::TooManyRequests => 429,
        _ => 500,
    }
}

impl Error {
    /// The HTTP status that answers this error: 401, 403, 404 and 429 for
    /// the caller-facing errors, 500 for every internal failure.
    pub fn status_code(&self) -> (r: u16)
        ensures
            r == status_of(*self),
    {
        match self {
            Error::Unauthorized => 401,
            Error::Forbidden => 403,
            Error::NotFound => 404,
            Error::TooManyRequests => 429,
            _ => 500,
        }
    }

    /// Whether the error's detail must stay in the logs.
    pub fn is_internal(&self) -> (r: bool)
        ensures
            r == (status_of(*self) == 500),
    {
        self.status_code() == 500
    }
}

} // verus!
