//! The recorded outcome of an election.

use crate::bounded::short_bytes;
use crate::bounded::short_bytes_try_from;
use crate::bounded::ShortBytes;
use crate::bounded::MAX_SHORT_LEN;
use crate::daomix_voting::event::Error;
use crate::primitives::RootHash;
use vstd::prelude::*;

verus! {

/// A tally as stored on the ledger: where the full result lies, and its hash.
#[derive(Debug, PartialEq, Eq)]
pub struct TallyResult {
    /// Locator of the full result, at most 256 bytes.
    pub result_uri: ShortBytes,
    /// Hash of the full result.
    pub result_hash: RootHash,
}

/// The mathematical value of a tally: the locator as a plain byte sequence.
pub struct Tally {
    pub result_uri: Seq<u8>,
    pub result_hash: RootHash,
}

impl View for TallyResult {
    type V = Tally;

    open spec fn view(&self) -> Tally {
        Tally { result_uri: short_bytes(self.result_uri), result_hash: self.result_hash }
    }
}

impl TallyResult {
    /// Builds a tally from a locator and a hash. A locator of more than 256
    /// bytes is rejected with `TooLarge`.
    pub fn new(result_uri: Vec<u8>, result_hash: RootHash) -> (r: Result<TallyResult, Error>)
        ensures
            result_uri@.len() > MAX_SHORT_LEN ==> r == Err::<TallyResult, Error>(Error::TooLarge),
            result_uri@.len() <= MAX_SHORT_LEN ==> r is Ok && r->Ok_0@ == (Tally {
                result_uri: result_uri@,
                result_hash,
            }),
    {
        match short_bytes_try_from(result_uri) {
            Ok(bounded_uri) => Ok(TallyResult { result_uri: bounded_uri, result_hash }),
            Err(_) => Err(Error::TooLarge),
        }
    }
}

} // verus!
