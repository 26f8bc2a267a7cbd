use vstd::prelude::*;

verus! {

/// The error kinds surfaced by every fallible operation of this crate:
/// transport failure, a non-success HTTP status, a malformed response,
/// a cryptographic failure, or a failure to persist credentials.
#[derive(Debug, Clone, Copy, PartialEq, Eq, Structural)]
pub enum ApiError {
    Transport,
    HttpStatus(u16),
    Decode,
    Crypto,
    Persistence,
}

} // verus!
