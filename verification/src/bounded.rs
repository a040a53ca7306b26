//! Length-bounded byte strings.
//!
//! Ballots, result locators and job error messages are stored as
//! `bounded_collections::BoundedVec<u8, _>`, whose bound is part of the type.
//! The verifier cannot look inside such a value, so this module names the
//! bytes it holds and states what the checked conversion from `Vec<u8>` does.
//! Everything in this file is believed, not proved.

use bounded_collections::BoundedVec;
use bounded_collections::ConstU32;
use vstd::prelude::*;

verus! {

/// Largest ciphertext, in bytes, that a ballot may carry (64 KiB).
pub const MAX_CIPHERTEXT_LEN: usize = 65536;

/// Largest result locator or job error message, in bytes.
pub const MAX_SHORT_LEN: usize = 256;

/// `bounded_collections::BoundedVec`: declared so that it can appear in
/// fields and signatures. Its contents are opaque to the verifier.
#[verifier::external_type_specification]
#[verifier::external_body]
#[verifier::reject_recursive_types(T)]
#[verifier::reject_recursive_types(S)]
pub struct ExBoundedVec<T, S>(BoundedVec<T, S>);

/// `bounded_collections::ConstU32`: the type-level `u32` that names a bound.
#[verifier::external_type_specification]
#[verifier::external_body]
pub struct ExConstU32<const N: u32>(ConstU32<N>);

/// An onion-encrypted ballot of at most 64 KiB.
pub type Ciphertext = BoundedVec<u8, ConstU32<65536>>;

/// A byte string of at most 256 bytes: a result locator or an error message.
pub type ShortBytes = BoundedVec<u8, ConstU32<256>>;

/// The bytes that a ciphertext holds, in order.
pub uninterp spec fn ciphertext_bytes(c: BoundedVec<u8, ConstU32<65536>>) -> Seq<u8>;

/// The bytes that a short byte string holds, in order.
pub uninterp spec fn short_bytes(b: BoundedVec<u8, ConstU32<256>>) -> Seq<u8>;

/// Calls `BoundedVec::<u8, ConstU32<65536>>::try_from(Vec<u8>)`.
///
/// Believed of it: the conversion succeeds exactly when the vector holds at
/// most 65536 bytes, and then the result holds the same bytes; otherwise the
/// vector comes back untouched as the error.
#[verifier::external_body]
pub(crate) fn ciphertext_try_from(bytes: Vec<u8>) -> (r: Result<Ciphertext, Vec<u8>>)
    ensures
        r is Ok <==> bytes@.len() <= MAX_CIPHERTEXT_LEN,
        r matches Ok(c) ==> ciphertext_bytes(c) == bytes@,
        r matches Err(v) ==> v@ == bytes@,
{
    BoundedVec::try_from(bytes)
}

/// Calls `BoundedVec::<u8, ConstU32<256>>::try_from(Vec<u8>)`.
///
/// Believed of it: the conversion succeeds exactly when the vector holds at
/// most 256 bytes, and then the result holds the same bytes; otherwise the
/// vector comes back untouched as the error.
#[verifier::external_body]
pub(crate) fn short_bytes_try_from(bytes: Vec<u8>) -> (r: Result<ShortBytes, Vec<u8>>)
    ensures
        r is Ok <==> bytes@.len() <= MAX_SHORT_LEN,
        r matches Ok(b) ==> short_bytes(b) == bytes@,
        r matches Err(v) ==> v@ == bytes@,
{
    BoundedVec::try_from(bytes)
}

} // verus!
