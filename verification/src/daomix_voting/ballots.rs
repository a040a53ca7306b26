//! The ballot store: a size-bounded, append-only log of ciphertexts for each
//! election, with a counter that assigns the indices.
//!
//! The store checks the size of a ballot and that an index is left for it,
//! nothing else. Whether a ballot may be cast at all is decided before the
//! store is asked.
//!
//! An index is handed out once. A counter that has reached its largest value
//! hands out no more: the log of that election is full, and a further ballot
//! is rejected rather than written over an earlier one.

use crate::bounded::ciphertext_bytes;
use crate::bounded::ciphertext_try_from;
use crate::bounded::Ciphertext;
use crate::bounded::MAX_CIPHERTEXT_LEN;
use crate::daomix_voting::event::Error;
use crate::primitives::BallotIndex;
use crate::primitives::ElectionId;
use std::collections::HashMap;
use vstd::prelude::*;

verus! {

broadcast use vstd::std_specs::hash::group_hash_axioms;

/// The ballots of all elections, and each election's counter.
pub struct BallotStore {
    ballots: HashMap<u64, Ciphertext>,
    counts: HashMap<ElectionId, BallotIndex>,
}

/// The storage key of a ballot: the election in the high 32 bits, the index
/// in the low 32. Distinct pairs get distinct keys.
pub closed spec fn ballot_key(election_id: ElectionId, index: BallotIndex) -> u64 {
    (election_id * 0x1_0000_0000 + index) as u64
}

/// The value of a counter map at `election_id`, zero where it has no entry.
pub open spec fn count_in(
    counts: Map<ElectionId, BallotIndex>,
    election_id: ElectionId,
) -> BallotIndex {
    if counts.contains_key(election_id) {
        counts[election_id]
    } else {
        0
    }
}

/// What the store does with a ballot, given the election's counter.
///
/// A ciphertext of more than 64 KiB is rejected with `TooLarge`; then, with
/// the counter at its largest value, the ballot is rejected with `Overflow`.
/// Otherwise the ballot is stored at `count`, and the result is the
/// counter's next value, `count + 1`.
pub open spec fn placement(count: BallotIndex, ciphertext: Seq<u8>) -> Result<BallotIndex, Error> {
    if ciphertext.len() > MAX_CIPHERTEXT_LEN {
        Err(Error::TooLarge)
    } else if count == u32::MAX {
        Err(Error::Overflow)
    } else {
        Ok((count + 1) as BallotIndex)
    }
}

/// Checks a ballot against the size bound: a ciphertext of more than 64 KiB
/// is rejected with `TooLarge`, any other comes back bounded, byte for byte.
pub fn bound_ciphertext(ciphertext: Vec<u8>) -> (r: Result<Ciphertext, Error>)
    ensures
        ciphertext@.len() > MAX_CIPHERTEXT_LEN ==> r == Err::<Ciphertext, Error>(Error::TooLarge),
        ciphertext@.len() <= MAX_CIPHERTEXT_LEN ==> r is Ok && ciphertext_bytes(r->Ok_0)
            == ciphertext@,
{
    match ciphertext_try_from(ciphertext) {
        Ok(bounded) => Ok(bounded),
        Err(_) => Err(Error::TooLarge),
    }
}

/// Decides an append, given the election's counter: see [`placement`]. An
/// accepted ballot comes back bounded, byte for byte, with the counter's
/// next value; its index is `count`.
pub fn decide_append(count: BallotIndex, ciphertext: Vec<u8>) -> (r: Result<
    (Ciphertext, BallotIndex),
    Error,
>)
    ensures
        match placement(count, ciphertext@) {
            Err(e) => r == Err::<(Ciphertext, BallotIndex), Error>(e),
            Ok(next) => r is Ok && ciphertext_bytes(r->Ok_0.0) == ciphertext@ && r->Ok_0.1 == next,
        },
{
    let bounded = match bound_ciphertext(ciphertext) {
        Ok(bounded) => bounded,
        Err(e) => {
            return Err(e);
        },
    };
    match count.checked_add(1) {
        Some(next) => Ok((bounded, next)),
        None => Err(Error::Overflow),
    }
}

impl BallotStore {
    /// The stored ballots, by election and index, as byte sequences.
    pub closed spec fn entries(&self) -> Map<(ElectionId, BallotIndex), Seq<u8>> {
        Map::new(
            |p: (ElectionId, BallotIndex)| self.ballots@.contains_key(ballot_key(p.0, p.1)),
            |p: (ElectionId, BallotIndex)| ciphertext_bytes(self.ballots@[ballot_key(p.0, p.1)]),
        )
    }

    /// The counters, by election.
    pub closed spec fn counts(&self) -> Map<ElectionId, BallotIndex> {
        self.counts@
    }

    /// A store with no ballots and no counters.
    pub fn new() -> (store: BallotStore)
        ensures
            store.entries() == Map::<(ElectionId, BallotIndex), Seq<u8>>::empty(),
            store.counts() == Map::<ElectionId, BallotIndex>::empty(),
    {
        let store = BallotStore { ballots: HashMap::new(), counts: HashMap::new() };
        assert(store.entries() =~= Map::<(ElectionId, BallotIndex), Seq<u8>>::empty());
        store
    }

    /// Starts the log of `election_id`: its counter is set to zero.
    pub fn open(&mut self, election_id: ElectionId)
        ensures
            final(self).counts() == old(self).counts().insert(election_id, 0),
            final(self).entries() == old(self).entries(),
    {
        self.counts.insert(election_id, 0);
        assert(self.entries() =~= old(self).entries());
    }

    /// The number of ballots counted for `election_id`; zero for an election
    /// the store has not heard of.
    pub fn count(&self, election_id: ElectionId) -> (n: BallotIndex)
        ensures
            n == count_in(self.counts(), election_id),
    {
        match self.counts.get(&election_id) {
            Some(n) => *n,
            None => 0,
        }
    }

    /// The ballot stored for `election_id` at `index`, if there is one.
    pub fn get(&self, election_id: ElectionId, index: BallotIndex) -> (ballot: Option<&Ciphertext>)
        ensures
            ballot is Some <==> self.entries().contains_key((election_id, index)),
            ballot matches Some(c) ==> ciphertext_bytes(*c) == self.entries()[(election_id, index)],
    {
        let key = Self::key(election_id, index);
        self.ballots.get(&key)
    }

    /// Appends a ballot to the log of `election_id` and returns its index.
    ///
    /// The call is decided by [`placement`] on the election's counter. A
    /// rejected ballot, too large or with no index left for it, changes
    /// nothing. An accepted one is stored at the counter's current value,
    /// which is returned, and the counter moves on by one.
    pub fn append(&mut self, election_id: ElectionId, ciphertext: Vec<u8>) -> (r: Result<
        BallotIndex,
        Error,
    >)
        ensures
            match placement(count_in(old(self).counts(), election_id), ciphertext@) {
                Err(e) => {
                    &&& r == Err::<BallotIndex, Error>(e)
                    &&& final(self).entries() == old(self).entries()
                    &&& final(self).counts() == old(self).counts()
                },
                Ok(next) => {
                    let index = count_in(old(self).counts(), election_id);
                    &&& r == Ok::<BallotIndex, Error>(index)
                    &&& final(self).entries() == old(self).entries().insert(
                        (election_id, index),
                        ciphertext@,
                    )
                    &&& final(self).counts() == old(self).counts().insert(election_id, next)
                },
            },
    {
        let index = self.count(election_id);
        let (bounded, next) = match decide_append(index, ciphertext) {
            Ok(decided) => decided,
            Err(e) => {
                return Err(e);
            },
        };
        let key = Self::key(election_id, index);
        self.ballots.insert(key, bounded);
        self.counts.insert(election_id, next);
        assert(self.entries() =~= old(self).entries().insert((election_id, index), ciphertext@));
        Ok(index)
    }

    /// Computes the storage key of a ballot.
    fn key(election_id: ElectionId, index: BallotIndex) -> (k: u64)
        ensures
            k == ballot_key(election_id, index),
    {
        (election_id as u64) * 0x1_0000_0000 + (index as u64)
    }
}

} // verus!
