//! The checks that open every call: the kind of origin, and whether a byte
//! string fits within its bound.
use vstd::prelude::*;

use crate::types::{AccountId, DispatchError, Origin};

verus! {

/// The account that signed the call; any other origin is refused with `BadOrigin`.
pub fn ensure_signed(origin: Origin) -> (r: Result<AccountId, DispatchError>)
    ensures
        match origin {
            Origin::Signed(a) => r == Ok::<AccountId, DispatchError>(a),
            _ => r == Err::<AccountId, DispatchError>(DispatchError::BadOrigin),
        },
{
    match origin {
        Origin::Signed(a) => Ok(a),
        _ => Err(DispatchError::BadOrigin),
    }
}

/// Succeeds for the root origin only; any other origin is refused with `BadOrigin`.
pub fn ensure_root(origin: Origin) -> (r: Result<(), DispatchError>)
    ensures
        match origin {
            Origin::Root => r == Ok::<(), DispatchError>(()),
            _ => r == Err::<(), DispatchError>(DispatchError::BadOrigin),
        },
{
    match origin {
        Origin::Root => Ok(()),
        _ => Err(DispatchError::BadOrigin),
    }
}

/// Whether `bytes` can be held by a vector bounded to `bound` elements: exactly when its
/// length is at most `bound`.
pub fn fits_bound(bytes: &Vec<u8>, bound: u32) -> (r: bool)
    ensures
        r == (bytes@.len() <= bound as nat),
{
    bytes.len() as u64 <= bound as u64
}

} // verus!
