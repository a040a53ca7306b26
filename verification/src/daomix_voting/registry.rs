//! The voter registry: which identities may vote in which election.
//!
//! A registration is a presence flag under the pair of election and voter.
//! Flags are only ever added.

use crate::daomix_voting::event::Error;
use crate::primitives::AccountId;
use crate::primitives::ElectionId;
use std::collections::HashSet;
use vstd::prelude::*;

verus! {

broadcast use vstd::std_specs::hash::group_hash_axioms;

/// The set of registrations, over all elections.
pub struct VoterRegistry {
    flags: HashSet<u128>,
}

/// The storage key of a registration: the election in the high bits, the
/// voter in the low 64. Distinct pairs get distinct keys.
pub closed spec fn flag_key(election_id: ElectionId, voter: AccountId) -> u128 {
    (election_id * 0x1_0000_0000_0000_0000 + voter) as u128
}

impl View for VoterRegistry {
    type V = Set<(ElectionId, AccountId)>;

    closed spec fn view(&self) -> Set<(ElectionId, AccountId)> {
        Set::new(|p: (ElectionId, AccountId)| self.flags@.contains(flag_key(p.0, p.1)))
    }
}

impl VoterRegistry {
    /// A registry with no registrations.
    pub fn new() -> (registry: VoterRegistry)
        ensures
            registry@ == Set::<(ElectionId, AccountId)>::empty(),
    {
        let registry = VoterRegistry { flags: HashSet::new() };
        assert(registry@ =~= Set::<(ElectionId, AccountId)>::empty());
        registry
    }

    /// Whether `voter` is registered for `election_id`.
    pub fn contains(&self, election_id: ElectionId, voter: AccountId) -> (registered: bool)
        ensures
            registered == self@.contains((election_id, voter)),
    {
        let key = Self::key(election_id, voter);
        self.flags.contains(&key)
    }

    /// Registers `voter` for `election_id`, unless the flag is set already:
    /// then the call is rejected with `AlreadyRegistered` and nothing
    /// changes.
    pub fn insert(&mut self, election_id: ElectionId, voter: AccountId) -> (r: Result<(), Error>)
        ensures
            old(self)@.contains((election_id, voter)) ==> r == Err::<(), Error>(
                Error::AlreadyRegistered,
            ) && final(self)@ == old(self)@,
            !old(self)@.contains((election_id, voter)) ==> r == Ok::<(), Error>(())
                && final(self)@ == old(self)@.insert((election_id, voter)),
    {
        let key = Self::key(election_id, voter);
        if self.flags.contains(&key) {
            return Err(Error::AlreadyRegistered);
        }
        self.flags.insert(key);
        assert(self@ =~= old(self)@.insert((election_id, voter)));
        Ok(())
    }

    /// Computes the storage key of a registration.
    fn key(election_id: ElectionId, voter: AccountId) -> (k: u128)
        ensures
            k == flag_key(election_id, voter),
    {
        (election_id as u128) * 0x1_0000_0000_0000_0000 + (voter as u128)
    }
}

} // verus!
