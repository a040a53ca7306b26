//! The election pallet as a mathematical state machine.
//!
//! A [`State`] is what the ledger persists for elections. Each call is a
//! function from a state to the next state and the call's outcome. All
//! checks come before any write: a rejected call hands the state back
//! unchanged.

use crate::bounded::MAX_CIPHERTEXT_LEN;
use crate::bounded::MAX_SHORT_LEN;
use crate::daomix_voting::ballots::count_in;
use crate::daomix_voting::ballots::placement;
use crate::daomix_voting::election::Election;
use crate::daomix_voting::event::Error;
use crate::daomix_voting::event::Event;
use crate::daomix_voting::rules::commitment;
use crate::daomix_voting::rules::creation;
use crate::daomix_voting::rules::finalization;
use crate::daomix_voting::rules::registration;
use crate::daomix_voting::rules::vote_admission;
use crate::daomix_voting::tally::Tally;
use crate::primitives::AccountId;
use crate::primitives::BallotIndex;
use crate::primitives::BlockNumber;
use crate::primitives::ElectionId;
use crate::primitives::RootHash;
use vstd::prelude::*;

verus! {

/// Everything the election pallet persists.
pub struct State {
    /// The elections, by id.
    pub elections: Map<ElectionId, Election>,
    /// The registrations: a pair is present when the voter is registered for
    /// the election.
    pub voters: Set<(ElectionId, AccountId)>,
    /// The ballots, by election and index.
    pub ballots: Map<(ElectionId, BallotIndex), Seq<u8>>,
    /// The ballot counter of each election; a missing entry counts as zero.
    pub ballot_count: Map<ElectionId, BallotIndex>,
    /// The tallies, by election.
    pub tally_results: Map<ElectionId, Tally>,
}

/// One call into the pallet, with the caller and, where the call looks at
/// the clock, the time the ledger supplied alongside it.
pub enum Call {
    CreateElection {
        caller: AccountId,
        now: BlockNumber,
        election_id: ElectionId,
        tally_authority: AccountId,
        registration_deadline: BlockNumber,
        voting_deadline: BlockNumber,
    },
    RegisterVoter { caller: AccountId, now: BlockNumber, election_id: ElectionId, voter: AccountId },
    CastVote { caller: AccountId, now: BlockNumber, election_id: ElectionId, ciphertext: Seq<u8> },
    SetMixCommitments {
        caller: AccountId,
        election_id: ElectionId,
        input_root: RootHash,
        output_root: RootHash,
    },
    SubmitTally {
        caller: AccountId,
        election_id: ElectionId,
        result_uri: Seq<u8>,
        result_hash: RootHash,
    },
}

impl State {
    /// The state of a pallet that has seen no call.
    pub open spec fn empty() -> State {
        State {
            elections: Map::empty(),
            voters: Set::empty(),
            ballots: Map::empty(),
            ballot_count: Map::empty(),
            tally_results: Map::empty(),
        }
    }

    /// The record of `election_id`, if there is one.
    pub open spec fn election(self, election_id: ElectionId) -> Option<Election> {
        if self.elections.contains_key(election_id) {
            Some(self.elections[election_id])
        } else {
            None
        }
    }

    /// The number of ballots counted for `election_id`.
    pub open spec fn count_of(self, election_id: ElectionId) -> BallotIndex {
        count_in(self.ballot_count, election_id)
    }

    /// What holds of every state the pallet can reach.
    ///
    /// Of each election: registration closes before voting does; the two
    /// commitment roots are present or absent together; a finalized election
    /// has both roots and a tally, and only a finalized election has a tally.
    /// Of the registry and the store: registrations, counters, ballots and
    /// tallies exist only for elections that exist; the ballots of an
    /// election lie at exactly the indices below its counter; ballots and
    /// result locators respect their size bounds.
    pub open spec fn valid(self) -> bool {
        &&& forall|e: ElectionId| #[trigger]
            self.elections.contains_key(e) ==> {
                let election = self.elections[e];
                &&& election.registration_deadline < election.voting_deadline
                &&& election.commitment_input_root is Some
                    <==> election.commitment_output_root is Some
                &&& election.finalized ==> election.has_commitments()
                &&& election.finalized <==> self.tally_results.contains_key(e)
                &&& self.ballot_count.contains_key(e)
            }
        &&& forall|e: ElectionId| #[trigger]
            self.ballot_count.contains_key(e) ==> self.elections.contains_key(e)
        &&& forall|e: ElectionId| #[trigger]
            self.tally_results.contains_key(e) ==> self.elections.contains_key(e)
                && self.tally_results[e].result_uri.len() <= MAX_SHORT_LEN
        &&& forall|e: ElectionId, v: AccountId| #[trigger]
            self.voters.contains((e, v)) ==> self.elections.contains_key(e)
        &&& forall|e: ElectionId, i: BallotIndex| #[trigger]
            self.ballots.contains_key((e, i)) ==> {
                &&& self.elections.contains_key(e)
                &&& i < self.count_of(e)
                &&& self.ballots[(e, i)].len() <= MAX_CIPHERTEXT_LEN
            }
        &&& forall|e: ElectionId, i: BallotIndex|
            self.elections.contains_key(e) && i < self.count_of(e)
                ==> #[trigger] self.ballots.contains_key((e, i))
    }

    /// `create_election`: decided by [`creation`]. When accepted, the
    /// election is stored and its ballot counter is set to zero.
    pub open spec fn create_election(
        self,
        caller: AccountId,
        now: BlockNumber,
        election_id: ElectionId,
        tally_authority: AccountId,
        registration_deadline: BlockNumber,
        voting_deadline: BlockNumber,
    ) -> (State, Result<Event, Error>) {
        match creation(
            self.elections.contains_key(election_id),
            caller,
            now,
            tally_authority,
            registration_deadline,
            voting_deadline,
        ) {
            Err(e) => (self, Err(e)),
            Ok(election) => (
                State {
                    elections: self.elections.insert(election_id, election),
                    ballot_count: self.ballot_count.insert(election_id, 0),
                    ..self
                },
                Ok(Event::ElectionCreated { election_id }),
            ),
        }
    }

    /// `register_voter`: decided by [`registration`]. When accepted, the
    /// voter's flag is set.
    pub open spec fn register_voter(
        self,
        caller: AccountId,
        now: BlockNumber,
        election_id: ElectionId,
        voter: AccountId,
    ) -> (State, Result<Event, Error>) {
        match registration(
            self.election(election_id),
            self.voters.contains((election_id, voter)),
            caller,
            now,
        ) {
            Err(e) => (self, Err(e)),
            Ok(()) => (
                State { voters: self.voters.insert((election_id, voter)), ..self },
                Ok(Event::VoterRegistered { election_id, voter }),
            ),
        }
    }

    /// `cast_vote`: decided by [`vote_admission`], and then by the ballot
    /// store as [`placement`] says: rejected with `TooLarge` when the
    /// ciphertext exceeds 64 KiB, then with `Overflow` when the election's
    /// counter is exhausted. When accepted, the ballot is stored at the
    /// election's counter, whose value is reported as the index, and the
    /// counter moves on by one. A voter may cast any number of ballots.
    pub open spec fn cast_vote(
        self,
        caller: AccountId,
        now: BlockNumber,
        election_id: ElectionId,
        ciphertext: Seq<u8>,
    ) -> (State, Result<Event, Error>) {
        match vote_admission(
            self.election(election_id),
            self.voters.contains((election_id, caller)),
            now,
        ) {
            Err(e) => (self, Err(e)),
            Ok(()) => match placement(self.count_of(election_id), ciphertext) {
                Err(e) => (self, Err(e)),
                Ok(next) => {
                    let index = self.count_of(election_id);
                    (
                        State {
                            ballots: self.ballots.insert((election_id, index), ciphertext),
                            ballot_count: self.ballot_count.insert(election_id, next),
                            ..self
                        },
                        Ok(Event::BallotCast { election_id, voter: caller, index }),
                    )
                },
            },
        }
    }

    /// `set_mix_commitments`: decided by [`commitment`]. When accepted,
    /// the record with both roots replaced is stored, whether or not roots
    /// were set before.
    pub open spec fn set_mix_commitments(
        self,
        caller: AccountId,
        election_id: ElectionId,
        input_root: RootHash,
        output_root: RootHash,
    ) -> (State, Result<Event, Error>) {
        match commitment(self.election(election_id), caller, input_root, output_root) {
            Err(e) => (self, Err(e)),
            Ok(election) => (
                State { elections: self.elections.insert(election_id, election), ..self },
                Ok(Event::MixCommitmentsSet { election_id }),
            ),
        }
    }

    /// `submit_tally`: decided by [`finalization`]. When accepted, the
    /// tally and the finalized record are stored.
    pub open spec fn submit_tally(
        self,
        caller: AccountId,
        election_id: ElectionId,
        result_uri: Seq<u8>,
        result_hash: RootHash,
    ) -> (State, Result<Event, Error>) {
        match finalization(self.election(election_id), caller, result_uri, result_hash) {
            Err(e) => (self, Err(e)),
            Ok((election, tally)) => (
                State {
                    elections: self.elections.insert(election_id, election),
                    tally_results: self.tally_results.insert(election_id, tally),
                    ..self
                },
                Ok(Event::TallySubmitted { election_id }),
            ),
        }
    }

    /// The effect of one call.
    pub open spec fn step(self, call: Call) -> (State, Result<Event, Error>) {
        match call {
            Call::CreateElection {
                caller,
                now,
                election_id,
                tally_authority,
                registration_deadline,
                voting_deadline,
            } => self.create_election(
                caller,
                now,
                election_id,
                tally_authority,
                registration_deadline,
                voting_deadline,
            ),
            Call::RegisterVoter { caller, now, election_id, voter } => self.register_voter(
                caller,
                now,
                election_id,
                voter,
            ),
            Call::CastVote { caller, now, election_id, ciphertext } => self.cast_vote(
                caller,
                now,
                election_id,
                ciphertext,
            ),
            Call::SetMixCommitments {
                caller,
                election_id,
                input_root,
                output_root,
            } => self.set_mix_commitments(caller, election_id, input_root, output_root),
            Call::SubmitTally { caller, election_id, result_uri, result_hash } => self.submit_tally(
                caller,
                election_id,
                result_uri,
                result_hash,
            ),
        }
    }

    /// The state after a sequence of calls, applied first to last.
    pub open spec fn run(self, calls: Seq<Call>) -> State
        decreases calls.len(),
    {
        if calls.len() == 0 {
            self
        } else {
            self.run(calls.drop_last()).step(calls.last()).0
        }
    }

    /// The indices handed out for `election_id` along a sequence of calls
    /// made on this state, in the order in which they were handed out.
    pub open spec fn indices_assigned(self, calls: Seq<Call>, election_id: ElectionId) -> Seq<
        BallotIndex,
    >
        decreases calls.len(),
    {
        if calls.len() == 0 {
            Seq::empty()
        } else {
            let earlier = self.indices_assigned(calls.drop_last(), election_id);
            match self.run(calls.drop_last()).step(calls.last()).1 {
                Ok(Event::BallotCast { election_id: e, voter, index }) => if e == election_id {
                    earlier.push(index)
                } else {
                    earlier
                },
                _ => earlier,
            }
        }
    }
}

} // verus!
