//! Laws of the election pallet, proved of the state machine in
//! [`crate::daomix_voting::model`].

use crate::bounded::MAX_CIPHERTEXT_LEN;
use crate::daomix_voting::event::Error;
use crate::daomix_voting::event::Event;
use crate::daomix_voting::model::Call;
use crate::daomix_voting::model::State;
use crate::primitives::AccountId;
use crate::primitives::BallotIndex;
use crate::primitives::BlockNumber;
use crate::primitives::ElectionId;
use crate::primitives::RootHash;
use vstd::prelude::*;

verus! {

/// The empty pallet is valid.
pub proof fn law_empty_is_valid()
    ensures
        State::empty().valid(),
{
}

/// A call made on a valid state leaves a valid state.
pub proof fn law_step_keeps_valid(s: State, call: Call)
    requires
        s.valid(),
    ensures
        s.step(call).0.valid(),
{
}

/// Every state reached from a valid one by any sequence of calls is valid.
pub proof fn law_run_keeps_valid(s: State, calls: Seq<Call>)
    requires
        s.valid(),
    ensures
        s.run(calls).valid(),
    decreases calls.len(),
{
    if calls.len() > 0 {
        law_run_keeps_valid(s, calls.drop_last());
        law_step_keeps_valid(s.run(calls.drop_last()), calls.last());
    }
}

/// A rejected call leaves every persisted value as it was; in particular a
/// rejected ballot leaves the ballot counters where they were.
pub proof fn law_rejection_changes_nothing(s: State, call: Call)
    requires
        s.step(call).1 is Err,
    ensures
        s.step(call).0 == s,
{
}

/// Elections are never deleted, and nothing but the commitments and the
/// finalized flag of a record is ever rewritten: whatever calls follow, an
/// election that exists keeps existing, with the admin, the tally authority
/// and the deadlines it was created with.
pub proof fn law_elections_are_kept(s: State, calls: Seq<Call>, election_id: ElectionId)
    requires
        s.elections.contains_key(election_id),
    ensures
        s.run(calls).elections.contains_key(election_id),
        s.run(calls).elections[election_id].admin == s.elections[election_id].admin,
        s.run(calls).elections[election_id].tally_authority
            == s.elections[election_id].tally_authority,
        s.run(calls).elections[election_id].registration_deadline
            == s.elections[election_id].registration_deadline,
        s.run(calls).elections[election_id].voting_deadline
            == s.elections[election_id].voting_deadline,
    decreases calls.len(),
{
    if calls.len() > 0 {
        law_elections_are_kept(s, calls.drop_last(), election_id);
    }
}

/// An election id can be used once. While an election with the id exists,
/// and so after any sequence of calls that follows its creation,
/// `create_election` with that id is rejected with `AlreadyExists`, whatever
/// its other arguments.
pub proof fn law_create_election_at_most_once(
    s: State,
    calls: Seq<Call>,
    election_id: ElectionId,
    caller: AccountId,
    now: BlockNumber,
    tally_authority: AccountId,
    registration_deadline: BlockNumber,
    voting_deadline: BlockNumber,
)
    requires
        s.elections.contains_key(election_id),
    ensures
        s.run(calls).create_election(
            caller,
            now,
            election_id,
            tally_authority,
            registration_deadline,
            voting_deadline,
        ) == (s.run(calls), Err::<Event, Error>(Error::AlreadyExists)),
{
    law_elections_are_kept(s, calls, election_id);
}

/// `create_election` succeeds at most once for an id: after an accepted
/// call, and whatever calls follow it, a second call with the same id is
/// rejected with `AlreadyExists`, whoever makes it and whatever its other
/// arguments.
pub proof fn law_second_creation_is_rejected(
    s: State,
    first: Call,
    calls: Seq<Call>,
    caller: AccountId,
    now: BlockNumber,
    tally_authority: AccountId,
    registration_deadline: BlockNumber,
    voting_deadline: BlockNumber,
)
    requires
        first is CreateElection,
        s.step(first).1 is Ok,
    ensures
        s.step(first).0.run(calls).create_election(
            caller,
            now,
            first->CreateElection_election_id,
            tally_authority,
            registration_deadline,
            voting_deadline,
        ).1 == Err::<Event, Error>(Error::AlreadyExists),
{
    law_create_election_at_most_once(
        s.step(first).0,
        calls,
        first->CreateElection_election_id,
        caller,
        now,
        tally_authority,
        registration_deadline,
        voting_deadline,
    );
}

/// What an accepted `create_election` leaves behind: an election with the
/// given id, so that [`law_create_election_at_most_once`] applies from then
/// on. It is accepted exactly when the id is free and the deadlines are in
/// order and ahead of `now`.
pub proof fn law_create_election_acceptance(
    s: State,
    caller: AccountId,
    now: BlockNumber,
    election_id: ElectionId,
    tally_authority: AccountId,
    registration_deadline: BlockNumber,
    voting_deadline: BlockNumber,
)
    ensures
        ({
            let (after, outcome) = s.create_election(
                caller,
                now,
                election_id,
                tally_authority,
                registration_deadline,
                voting_deadline,
            );
            &&& outcome is Ok <==> !s.elections.contains_key(election_id) && now
                < registration_deadline && registration_deadline < voting_deadline
            &&& outcome is Ok ==> {
                &&& after.elections.contains_key(election_id)
                &&& after.elections[election_id].admin == caller
                &&& after.elections[election_id].tally_authority == tally_authority
                &&& !after.elections[election_id].finalized
                &&& !after.elections[election_id].has_commitments()
                &&& after.count_of(election_id) == 0
            }
        }),
{
}

/// An accepted `register_voter` means that the election existed and was not
/// finalized, that the caller was its admin, that `now` was not past the
/// registration deadline, and that the voter had no flag yet; the flag is
/// set afterwards.
pub proof fn law_register_voter_acceptance(
    s: State,
    caller: AccountId,
    now: BlockNumber,
    election_id: ElectionId,
    voter: AccountId,
)
    requires
        s.register_voter(caller, now, election_id, voter).1 is Ok,
    ensures
        s.elections.contains_key(election_id),
        caller == s.elections[election_id].admin,
        now <= s.elections[election_id].registration_deadline,
        !s.elections[election_id].finalized,
        !s.voters.contains((election_id, voter)),
        s.register_voter(caller, now, election_id, voter).0.voters.contains((election_id, voter)),
{
}

/// Registrations are never removed.
pub proof fn law_registrations_are_kept(
    s: State,
    calls: Seq<Call>,
    election_id: ElectionId,
    voter: AccountId,
)
    requires
        s.voters.contains((election_id, voter)),
    ensures
        s.run(calls).voters.contains((election_id, voter)),
    decreases calls.len(),
{
    if calls.len() > 0 {
        law_registrations_are_kept(s, calls.drop_last(), election_id, voter);
    }
}

/// A voter is registered at most once per election. Once the flag is set,
/// and whatever calls follow, `register_voter` for the same election and
/// voter is never accepted again; where the caller is the admin, the
/// election is not finalized and the deadline has not passed, the rejection
/// is `AlreadyRegistered`. (A caller who is not the admin is turned away
/// with `Unauthorized`, and a late or post-tally request with `Closed`,
/// before the flag is looked at.)
pub proof fn law_second_registration_is_rejected(
    s: State,
    calls: Seq<Call>,
    caller: AccountId,
    now: BlockNumber,
    election_id: ElectionId,
    voter: AccountId,
)
    requires
        s.valid(),
        s.voters.contains((election_id, voter)),
    ensures
        ({
            let later = s.run(calls);
            let (after, outcome) = later.register_voter(caller, now, election_id, voter);
            &&& outcome is Err
            &&& after == later
            &&& later.elections.contains_key(election_id)
            &&& later.elections[election_id].registration_verdict(caller, now) is Ok ==> outcome
                == Err::<Event, Error>(Error::AlreadyRegistered)
        }),
{
    law_registrations_are_kept(s, calls, election_id, voter);
    law_run_keeps_valid(s, calls);
}

/// A voter registers at most once: after an accepted `register_voter`, and
/// whatever calls follow it, a second registration of the same voter for
/// the same election is never accepted, and is rejected with
/// `AlreadyRegistered` wherever the checks that come before the flag pass.
pub proof fn law_voter_registers_at_most_once(
    s: State,
    first: Call,
    calls: Seq<Call>,
    caller: AccountId,
    now: BlockNumber,
)
    requires
        s.valid(),
        first is RegisterVoter,
        s.step(first).1 is Ok,
    ensures
        ({
            let election_id = first->RegisterVoter_election_id;
            let voter = first->RegisterVoter_voter;
            let later = s.step(first).0.run(calls);
            let outcome = later.register_voter(caller, now, election_id, voter).1;
            &&& outcome is Err
            &&& later.elections.contains_key(election_id)
            &&& later.elections[election_id].registration_verdict(caller, now) is Ok ==> outcome
                == Err::<Event, Error>(Error::AlreadyRegistered)
        }),
{
    law_step_keeps_valid(s, first);
    law_second_registration_is_rejected(
        s.step(first).0,
        calls,
        caller,
        now,
        first->RegisterVoter_election_id,
        first->RegisterVoter_voter,
    );
}

/// An accepted `cast_vote` means that the election existed and was not
/// finalized, that the caller was registered for it, that `now` was not
/// past the voting deadline, that the ciphertext was within bounds and that
/// the counter was not exhausted. The ballot is stored under the index that
/// the event reports, which is the counter's value before the call, and the
/// counter is one more afterwards.
pub proof fn law_cast_vote_acceptance(
    s: State,
    caller: AccountId,
    now: BlockNumber,
    election_id: ElectionId,
    ciphertext: Seq<u8>,
)
    requires
        s.cast_vote(caller, now, election_id, ciphertext).1 is Ok,
    ensures
        s.elections.contains_key(election_id),
        !s.elections[election_id].finalized,
        now <= s.elections[election_id].voting_deadline,
        s.voters.contains((election_id, caller)),
        ciphertext.len() <= MAX_CIPHERTEXT_LEN,
        s.count_of(election_id) < u32::MAX,
        ({
            let (after, outcome) = s.cast_vote(caller, now, election_id, ciphertext);
            &&& outcome == Ok::<Event, Error>(
                Event::BallotCast { election_id, voter: caller, index: s.count_of(election_id) },
            )
            &&& after.ballots[(election_id, s.count_of(election_id))] == ciphertext
            &&& after.count_of(election_id) == s.count_of(election_id) + 1
        }),
{
}

/// A ballot for which no index is left is rejected. With the election's
/// counter at its largest value, a ballot that passes every other check is
/// rejected with `Overflow`, and nothing changes: no index is handed out a
/// second time and no stored ballot is written over.
pub proof fn law_exhausted_counter_rejects_ballots(
    s: State,
    caller: AccountId,
    now: BlockNumber,
    election_id: ElectionId,
    ciphertext: Seq<u8>,
)
    requires
        s.elections.contains_key(election_id),
        !s.elections[election_id].finalized,
        now <= s.elections[election_id].voting_deadline,
        s.voters.contains((election_id, caller)),
        ciphertext.len() <= MAX_CIPHERTEXT_LEN,
        s.count_of(election_id) == u32::MAX,
    ensures
        s.cast_vote(caller, now, election_id, ciphertext) == (
            s,
            Err::<Event, Error>(Error::Overflow),
        ),
{
}

/// An accepted ballot touches nothing but its own slot and its own counter.
/// On a valid state, every ballot that was stored is still stored, byte for
/// byte; the counters of the other elections stand where they stood; and
/// elections, registrations and tallies are as they were.
pub proof fn law_accepted_ballot_keeps_the_rest(
    s: State,
    caller: AccountId,
    now: BlockNumber,
    election_id: ElectionId,
    ciphertext: Seq<u8>,
)
    requires
        s.valid(),
        s.cast_vote(caller, now, election_id, ciphertext).1 is Ok,
    ensures
        ({
            let after = s.cast_vote(caller, now, election_id, ciphertext).0;
            &&& !s.ballots.contains_key((election_id, s.count_of(election_id)))
            &&& forall|e: ElectionId, i: BallotIndex| #[trigger]
                s.ballots.contains_key((e, i)) ==> after.ballots.contains_key((e, i))
                    && after.ballots[(e, i)] == s.ballots[(e, i)]
            &&& forall|e: ElectionId|
                e != election_id ==> #[trigger] after.count_of(e) == s.count_of(e)
            &&& after.elections == s.elections
            &&& after.voters == s.voters
            &&& after.tally_results == s.tally_results
        }),
{
}

/// A rejected `cast_vote` moves no ballot counter and stores no ballot.
pub proof fn law_rejected_vote_keeps_counts(
    s: State,
    caller: AccountId,
    now: BlockNumber,
    election_id: ElectionId,
    ciphertext: Seq<u8>,
    other: ElectionId,
)
    requires
        s.cast_vote(caller, now, election_id, ciphertext).1 is Err,
    ensures
        s.cast_vote(caller, now, election_id, ciphertext).0.count_of(other) == s.count_of(other),
        s.cast_vote(caller, now, election_id, ciphertext).0.ballots == s.ballots,
{
}

/// Only an accepted ballot moves a counter, and only that of its own
/// election: any other call, and any ballot for another election, leaves
/// the counter of `election_id` where it was.
pub proof fn law_only_ballots_move_the_count(s: State, call: Call, election_id: ElectionId)
    requires
        s.valid(),
        !(s.step(call).1 matches Ok(Event::BallotCast { election_id: e, .. }) && e == election_id),
    ensures
        s.step(call).0.count_of(election_id) == s.count_of(election_id),
{
}

/// Ballot indices are handed out in order, without gaps or repeats.
///
/// Take any sequence of calls on a valid state, in whatever order they
/// arrive. The indices handed out for one election along it are the
/// counter's starting value, then the next number, and so on; and the
/// counter ends at the starting value plus the number of ballots accepted.
/// For an election created along the way the starting value is zero.
pub proof fn law_ballot_indices_are_consecutive(
    s: State,
    calls: Seq<Call>,
    election_id: ElectionId,
)
    requires
        s.valid(),
    ensures
        s.run(calls).count_of(election_id) == s.count_of(election_id) + s.indices_assigned(
            calls,
            election_id,
        ).len(),
        forall|k: int|
            0 <= k < s.indices_assigned(calls, election_id).len() ==> #[trigger] s.indices_assigned(
                calls,
                election_id,
            )[k] == s.count_of(election_id) + k,
    decreases calls.len(),
{
    if calls.len() > 0 {
        law_ballot_indices_are_consecutive(s, calls.drop_last(), election_id);
        law_run_keeps_valid(s, calls.drop_last());
    }
}

/// A stored ballot is never rewritten. Whatever calls follow on a valid
/// state, every ballot that is stored is still there, byte for byte.
pub proof fn law_ballots_are_kept(
    s: State,
    calls: Seq<Call>,
    election_id: ElectionId,
    index: BallotIndex,
)
    requires
        s.valid(),
        s.ballots.contains_key((election_id, index)),
    ensures
        s.run(calls).ballots.contains_key((election_id, index)),
        s.run(calls).ballots[(election_id, index)] == s.ballots[(election_id, index)],
    decreases calls.len(),
{
    if calls.len() > 0 {
        law_ballots_are_kept(s, calls.drop_last(), election_id, index);
        law_run_keeps_valid(s, calls.drop_last());
    }
}

/// An accepted `set_mix_commitments` means that the caller was the tally
/// authority of an election that was not finalized; afterwards both roots
/// are the ones given, whatever stood there before.
pub proof fn law_set_mix_commitments_acceptance(
    s: State,
    caller: AccountId,
    election_id: ElectionId,
    input_root: RootHash,
    output_root: RootHash,
)
    requires
        s.set_mix_commitments(caller, election_id, input_root, output_root).1 is Ok,
    ensures
        s.elections.contains_key(election_id),
        caller == s.elections[election_id].tally_authority,
        !s.elections[election_id].finalized,
        ({
            let after = s.set_mix_commitments(caller, election_id, input_root, output_root).0;
            &&& after.elections[election_id].commitment_input_root == Some(input_root)
            &&& after.elections[election_id].commitment_output_root == Some(output_root)
            &&& after.elections[election_id] == s.elections[election_id].committed(
                input_root,
                output_root,
            )
        }),
{
}

/// An accepted `submit_tally` means that both commitment roots had been set,
/// that the caller was the tally authority and that the election was not
/// finalized. Afterwards the election is finalized and holds the tally.
pub proof fn law_submit_tally_acceptance(
    s: State,
    caller: AccountId,
    election_id: ElectionId,
    result_uri: Seq<u8>,
    result_hash: RootHash,
)
    requires
        s.submit_tally(caller, election_id, result_uri, result_hash).1 is Ok,
    ensures
        s.elections.contains_key(election_id),
        s.elections[election_id].commitment_input_root is Some,
        s.elections[election_id].commitment_output_root is Some,
        caller == s.elections[election_id].tally_authority,
        !s.elections[election_id].finalized,
        ({
            let after = s.submit_tally(caller, election_id, result_uri, result_hash).0;
            &&& after.elections[election_id].finalized
            &&& after.tally_results.contains_key(election_id)
            &&& after.tally_results[election_id].result_uri == result_uri
            &&& after.tally_results[election_id].result_hash == result_hash
        }),
{
}

/// Finalization is terminal. Once an election is finalized, whatever calls
/// follow, its record, its tally, its registrations and its ballot counter
/// stay exactly as they are.
pub proof fn law_finalized_election_is_frozen(
    s: State,
    calls: Seq<Call>,
    election_id: ElectionId,
)
    requires
        s.valid(),
        s.elections.contains_key(election_id),
        s.elections[election_id].finalized,
    ensures
        s.run(calls).elections.contains_key(election_id),
        s.run(calls).elections[election_id] == s.elections[election_id],
        s.run(calls).tally_results.contains_key(election_id),
        s.run(calls).tally_results[election_id] == s.tally_results[election_id],
        s.run(calls).count_of(election_id) == s.count_of(election_id),
        forall|voter: AccountId|
            s.run(calls).voters.contains((election_id, voter)) == s.voters.contains(
                (election_id, voter),
            ),
    decreases calls.len(),
{
    if calls.len() > 0 {
        law_finalized_election_is_frozen(s, calls.drop_last(), election_id);
        law_run_keeps_valid(s, calls.drop_last());
    }
}

/// After the tally, every further call on the election is rejected,
/// whatever calls came in between. `cast_vote` is rejected with `Closed`.
/// `register_voter`, `set_mix_commitments` and `submit_tally` are rejected
/// with `Closed` where the caller holds the role the call needs, and with
/// `Unauthorized` where not, since the role is checked first.
pub proof fn law_finalized_election_rejects_calls(
    s: State,
    calls: Seq<Call>,
    election_id: ElectionId,
    caller: AccountId,
    now: BlockNumber,
    voter: AccountId,
    ciphertext: Seq<u8>,
    input_root: RootHash,
    output_root: RootHash,
    result_uri: Seq<u8>,
    result_hash: RootHash,
)
    requires
        s.valid(),
        s.elections.contains_key(election_id),
        s.elections[election_id].finalized,
    ensures
        ({
            let later = s.run(calls);
            let admin = s.elections[election_id].admin;
            let authority = s.elections[election_id].tally_authority;
            let closed = Err::<Event, Error>(Error::Closed);
            let unauthorized = Err::<Event, Error>(Error::Unauthorized);
            &&& later.cast_vote(caller, now, election_id, ciphertext).1 == closed
            &&& later.register_voter(caller, now, election_id, voter).1 == if caller == admin {
                closed
            } else {
                unauthorized
            }
            &&& later.set_mix_commitments(caller, election_id, input_root, output_root).1
                == if caller == authority {
                closed
            } else {
                unauthorized
            }
            &&& later.submit_tally(caller, election_id, result_uri, result_hash).1 == if caller
                == authority {
                closed
            } else {
                unauthorized
            }
        }),
{
    law_finalized_election_is_frozen(s, calls, election_id);
}

/// The tally closes the election: after an accepted `submit_tally`, and
/// whatever calls follow it, every further `register_voter`, `cast_vote`,
/// `set_mix_commitments` and `submit_tally` on the same election is
/// rejected, as [`law_finalized_election_rejects_calls`] spells out.
pub proof fn law_tally_closes_the_election(
    s: State,
    tally: Call,
    calls: Seq<Call>,
    caller: AccountId,
    now: BlockNumber,
    voter: AccountId,
    ciphertext: Seq<u8>,
    input_root: RootHash,
    output_root: RootHash,
    result_uri: Seq<u8>,
    result_hash: RootHash,
)
    requires
        s.valid(),
        tally is SubmitTally,
        s.step(tally).1 is Ok,
    ensures
        ({
            let election_id = tally->SubmitTally_election_id;
            let later = s.step(tally).0.run(calls);
            let admin = s.elections[election_id].admin;
            let authority = s.elections[election_id].tally_authority;
            let closed = Err::<Event, Error>(Error::Closed);
            let unauthorized = Err::<Event, Error>(Error::Unauthorized);
            &&& later.elections[election_id].finalized
            &&& later.cast_vote(caller, now, election_id, ciphertext).1 == closed
            &&& later.register_voter(caller, now, election_id, voter).1 == if caller == admin {
                closed
            } else {
                unauthorized
            }
            &&& later.set_mix_commitments(caller, election_id, input_root, output_root).1
                == if caller == authority {
                closed
            } else {
                unauthorized
            }
            &&& later.submit_tally(caller, election_id, result_uri, result_hash).1 == if caller
                == authority {
                closed
            } else {
                unauthorized
            }
        }),
{
    law_step_keeps_valid(s, tally);
    law_finalized_election_is_frozen(s.step(tally).0, calls, tally->SubmitTally_election_id);
    law_finalized_election_rejects_calls(
        s.step(tally).0,
        calls,
        tally->SubmitTally_election_id,
        caller,
        now,
        voter,
        ciphertext,
        input_root,
        output_root,
        result_uri,
        result_hash,
    );
}

} // verus!
