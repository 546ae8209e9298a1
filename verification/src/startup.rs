//! What the handlers share for the lifetime of the process.

use vstd::prelude::*;

verus! {

/// For how many seconds a token is valid from the moment of issue.
#[derive(Debug, PartialEq, Eq)]
pub struct TokenExpireInterval(pub usize);

/// The secret that tokens are signed with and verified under. It is loaded
/// once when the process starts and is never written to a log.
#[derive(Debug, PartialEq, Eq)]
pub struct TokenSecret(pub Vec<u8>);

} // verus!
