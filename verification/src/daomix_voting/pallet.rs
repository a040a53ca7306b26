//! The election pallet with its storage.

use crate::bounded::ciphertext_bytes;
use crate::bounded::Ciphertext;
use crate::daomix_voting::ballots::BallotStore;
use crate::daomix_voting::election::Election;
use crate::daomix_voting::event::Error;
use crate::daomix_voting::event::Event;
use crate::daomix_voting::model::State;
use crate::daomix_voting::registry::VoterRegistry;
use crate::daomix_voting::rules::decide_commitment;
use crate::daomix_voting::rules::decide_creation;
use crate::daomix_voting::rules::decide_registration;
use crate::daomix_voting::rules::decide_tally;
use crate::daomix_voting::rules::decide_vote;
use crate::daomix_voting::tally::Tally;
use crate::daomix_voting::tally::TallyResult;
use crate::primitives::AccountId;
use crate::primitives::BallotIndex;
use crate::primitives::BlockNumber;
use crate::primitives::ElectionId;
use crate::primitives::RootHash;
use std::collections::HashMap;
use vstd::prelude::*;

verus! {

broadcast use vstd::std_specs::hash::group_hash_axioms;

/// The election lifecycle manager: the election records and tallies it owns,
/// and the voter registry and ballot store it reads and fills.
pub struct Pallet {
    elections: HashMap<ElectionId, Election>,
    voters: VoterRegistry,
    ballots: BallotStore,
    tally_results: HashMap<ElectionId, TallyResult>,
}

impl View for Pallet {
    type V = State;

    closed spec fn view(&self) -> State {
        State {
            elections: self.elections@,
            voters: self.voters@,
            ballots: self.ballots.entries(),
            ballot_count: self.ballots.counts(),
            tally_results: self.tally_results@.map_values(|t: TallyResult| t@),
        }
    }
}

impl Pallet {
    /// The pallet's state is one that the calls can reach.
    pub open spec fn wf(&self) -> bool {
        self@.valid()
    }

    /// A pallet with no elections.
    pub fn new() -> (pallet: Pallet)
        ensures
            pallet@ == State::empty(),
            pallet.wf(),
    {
        let pallet = Pallet {
            elections: HashMap::new(),
            voters: VoterRegistry::new(),
            ballots: BallotStore::new(),
            tally_results: HashMap::new(),
        };
        assert(pallet@.tally_results =~= Map::<ElectionId, Tally>::empty());
        pallet
    }

    /// Creates election `election_id` at time `now`, with `caller` as its
    /// admin, and returns the event to emit.
    ///
    /// The outcome and the new state are exactly those of
    /// [`State::create_election`]; a rejected call changes nothing.
    pub fn create_election(
        &mut self,
        caller: AccountId,
        now: BlockNumber,
        election_id: ElectionId,
        tally_authority: AccountId,
        registration_deadline: BlockNumber,
        voting_deadline: BlockNumber,
    ) -> (r: Result<Event, Error>)
        requires
            old(self).wf(),
        ensures
            final(self).wf(),
            (final(self)@, r) == old(self)@.create_election(
                caller,
                now,
                election_id,
                tally_authority,
                registration_deadline,
                voting_deadline,
            ),
    {
        let taken = self.elections.contains_key(&election_id);
        let election = match decide_creation(
            taken,
            caller,
            now,
            tally_authority,
            registration_deadline,
            voting_deadline,
        ) {
            Ok(election) => election,
            Err(e) => {
                return Err(e);
            },
        };
        self.elections.insert(election_id, election);
        self.ballots.open(election_id);
        proof {
            let expected = old(self)@.create_election(
                caller,
                now,
                election_id,
                tally_authority,
                registration_deadline,
                voting_deadline,
            ).0;
            assert(self@.tally_results =~= expected.tally_results);
        }
        Ok(Event::ElectionCreated { election_id })
    }

    /// Registers `voter` for election `election_id` on the admin's request
    /// at time `now`, and returns the event to emit.
    ///
    /// The outcome and the new state are exactly those of
    /// [`State::register_voter`]; a rejected call changes nothing.
    pub fn register_voter(
        &mut self,
        caller: AccountId,
        now: BlockNumber,
        election_id: ElectionId,
        voter: AccountId,
    ) -> (r: Result<Event, Error>)
        requires
            old(self).wf(),
        ensures
            final(self).wf(),
            (final(self)@, r) == old(self)@.register_voter(caller, now, election_id, voter),
    {
        let election = self.elections(election_id);
        let registered = self.voters.contains(election_id, voter);
        match decide_registration(election, registered, caller, now) {
            Ok(()) => {},
            Err(e) => {
                return Err(e);
            },
        }
        match self.voters.insert(election_id, voter) {
            Ok(()) => {},
            Err(e) => {
                return Err(e);
            },
        }
        proof {
            let expected = old(self)@.register_voter(caller, now, election_id, voter).0;
            assert(self@.tally_results =~= expected.tally_results);
        }
        Ok(Event::VoterRegistered { election_id, voter })
    }

    /// Stores a ballot of `caller` for election `election_id` at time `now`,
    /// and returns the event to emit, which carries the ballot's index.
    ///
    /// The outcome and the new state are exactly those of
    /// [`State::cast_vote`]; a rejected call changes nothing.
    pub fn cast_vote(
        &mut self,
        caller: AccountId,
        now: BlockNumber,
        election_id: ElectionId,
        ciphertext: Vec<u8>,
    ) -> (r: Result<Event, Error>)
        requires
            old(self).wf(),
        ensures
            final(self).wf(),
            (final(self)@, r) == old(self)@.cast_vote(caller, now, election_id, ciphertext@),
    {
        let election = self.elections(election_id);
        let registered = self.voters.contains(election_id, caller);
        match decide_vote(election, registered, now) {
            Ok(()) => {},
            Err(e) => {
                return Err(e);
            },
        }
        let ghost bytes = ciphertext@;
        let index = match self.ballots.append(election_id, ciphertext) {
            Ok(index) => index,
            Err(e) => {
                return Err(e);
            },
        };
        proof {
            let expected = old(self)@.cast_vote(caller, now, election_id, bytes).0;
            assert(self@.tally_results =~= expected.tally_results);
        }
        Ok(Event::BallotCast { election_id, voter: caller, index })
    }

    /// Writes both mix commitment roots of election `election_id` on the
    /// tally authority's request, and returns the event to emit.
    ///
    /// The outcome and the new state are exactly those of
    /// [`State::set_mix_commitments`]; a rejected call changes nothing.
    pub fn set_mix_commitments(
        &mut self,
        caller: AccountId,
        election_id: ElectionId,
        commitment_input_root: RootHash,
        commitment_output_root: RootHash,
    ) -> (r: Result<Event, Error>)
        requires
            old(self).wf(),
        ensures
            final(self).wf(),
            (final(self)@, r) == old(self)@.set_mix_commitments(
                caller,
                election_id,
                commitment_input_root,
                commitment_output_root,
            ),
    {
        let election = match decide_commitment(
            self.elections(election_id),
            caller,
            commitment_input_root,
            commitment_output_root,
        ) {
            Ok(election) => election,
            Err(e) => {
                return Err(e);
            },
        };
        self.elections.insert(election_id, election);
        proof {
            let expected = old(self)@.set_mix_commitments(
                caller,
                election_id,
                commitment_input_root,
                commitment_output_root,
            ).0;
            assert(self@.tally_results =~= expected.tally_results);
        }
        Ok(Event::MixCommitmentsSet { election_id })
    }

    /// Records the tally of election `election_id` on the tally authority's
    /// request and finalizes the election; returns the event to emit.
    ///
    /// The outcome and the new state are exactly those of
    /// [`State::submit_tally`]; a rejected call changes nothing.
    pub fn submit_tally(
        &mut self,
        caller: AccountId,
        election_id: ElectionId,
        result_uri: Vec<u8>,
        result_hash: RootHash,
    ) -> (r: Result<Event, Error>)
        requires
            old(self).wf(),
        ensures
            final(self).wf(),
            (final(self)@, r) == old(self)@.submit_tally(
                caller,
                election_id,
                result_uri@,
                result_hash,
            ),
    {
        let ghost uri = result_uri@;
        let (election, tally_result) = match decide_tally(
            self.elections(election_id),
            caller,
            result_uri,
            result_hash,
        ) {
            Ok(decided) => decided,
            Err(e) => {
                return Err(e);
            },
        };
        self.tally_results.insert(election_id, tally_result);
        self.elections.insert(election_id, election);
        proof {
            let expected = old(self)@.submit_tally(caller, election_id, uri, result_hash).0;
            assert(self@.tally_results =~= expected.tally_results);
        }
        Ok(Event::TallySubmitted { election_id })
    }

    /// The record of election `election_id`, if there is one.
    pub fn elections(&self, election_id: ElectionId) -> (election: Option<Election>)
        ensures
            election == self@.election(election_id),
    {
        match self.elections.get(&election_id) {
            Some(election) => Some(*election),
            None => None,
        }
    }

    /// Whether `voter` is registered for election `election_id`.
    pub fn voters(&self, election_id: ElectionId, voter: AccountId) -> (registered: bool)
        ensures
            registered == self@.voters.contains((election_id, voter)),
    {
        self.voters.contains(election_id, voter)
    }

    /// The ballot stored for election `election_id` at `index`, if there is
    /// one.
    pub fn ballots(&self, election_id: ElectionId, index: BallotIndex) -> (ballot: Option<
        &Ciphertext,
    >)
        ensures
            ballot is Some <==> self@.ballots.contains_key((election_id, index)),
            ballot matches Some(c) ==> ciphertext_bytes(*c) == self@.ballots[(election_id, index)],
    {
        self.ballots.get(election_id, index)
    }

    /// The number of ballots counted for election `election_id`; zero for an
    /// election that does not exist.
    pub fn ballot_count(&self, election_id: ElectionId) -> (n: BallotIndex)
        ensures
            n == self@.count_of(election_id),
    {
        self.ballots.count(election_id)
    }

    /// The tally of election `election_id`, if it was submitted.
    pub fn tally_results(&self, election_id: ElectionId) -> (tally: Option<&TallyResult>)
        ensures
            tally is Some <==> self@.tally_results.contains_key(election_id),
            tally matches Some(t) ==> t@ == self@.tally_results[election_id],
    {
        self.tally_results.get(&election_id)
    }
}

} // verus!
