use vstd::prelude::*;
use crate::error::Error;

verus! {

/// The version a session settles on: the smaller of the two advertised
/// versions.
pub open spec fn min_version(local: u32, other: u32) -> u32 {
    if local <= other {
        local
    } else {
        other
    }
}

/// Derives the single protocol version both peers will use. The current
/// policy always succeeds with `min(local, other)`; rejecting mutually
/// incompatible pairs is a reserved failure mode
/// (`Error::NegotiationFailure`) that is deliberately not enforced.
pub fn negotiate_version(local: u32, other: u32) -> (r: Result<u32, Error>)
    ensures
        r == Ok::<u32, Error>(min_version(local, other)),
{
    if local <= other {
        Ok(local)
    } else {
        Ok(other)
    }
}

} // verus!
