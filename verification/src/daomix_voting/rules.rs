//! The decision behind each call, on plain values.
//!
//! A call reads a few values from storage, decides, and writes. The
//! functions here are the middle step: given what was read, they say
//! whether the call is accepted and what is to be written. All checks of a
//! call are made here, in their fixed order, before anything is written.

use crate::daomix_voting::election::Election;
use crate::daomix_voting::event::Error;
use crate::daomix_voting::tally::Tally;
use crate::daomix_voting::tally::TallyResult;
use crate::primitives::AccountId;
use crate::primitives::BlockNumber;
use crate::primitives::RootHash;
use crate::bounded::MAX_SHORT_LEN;
use vstd::prelude::*;

verus! {

/// `create_election`, given whether the id is taken: rejected with
/// `AlreadyExists` when it is, then with `InvalidWindow` unless `now <
/// registration_deadline < voting_deadline`. Otherwise the record to store,
/// with `caller` as admin.
pub open spec fn creation(
    taken: bool,
    caller: AccountId,
    now: BlockNumber,
    tally_authority: AccountId,
    registration_deadline: BlockNumber,
    voting_deadline: BlockNumber,
) -> Result<Election, Error> {
    if taken {
        Err(Error::AlreadyExists)
    } else if !Election::window_is_valid(now, registration_deadline, voting_deadline) {
        Err(Error::InvalidWindow)
    } else {
        Ok(Election::created(caller, tally_authority, registration_deadline, voting_deadline))
    }
}

/// `register_voter`, given the election's record, if there is one, and
/// whether the voter's flag is set: rejected with `NotFound` without a
/// record, then as [`Election::registration_verdict`] says, then with
/// `AlreadyRegistered` when the flag is set.
pub open spec fn registration(
    election: Option<Election>,
    registered: bool,
    caller: AccountId,
    now: BlockNumber,
) -> Result<(), Error> {
    match election {
        None => Err(Error::NotFound),
        Some(election) => match election.registration_verdict(caller, now) {
            Err(e) => Err(e),
            Ok(()) => if registered {
                Err(Error::AlreadyRegistered)
            } else {
                Ok(())
            },
        },
    }
}

/// `cast_vote` up to the ballot store, given the election's record, if
/// there is one, and whether the caller's flag is set: rejected with
/// `NotFound` without a record, then as [`Election::voting_verdict`] says,
/// then with `NotRegistered` when the flag is not set.
pub open spec fn vote_admission(election: Option<Election>, registered: bool, now: BlockNumber)
    -> Result<(), Error> {
    match election {
        None => Err(Error::NotFound),
        Some(election) => match election.voting_verdict(now) {
            Err(e) => Err(e),
            Ok(()) => if registered {
                Ok(())
            } else {
                Err(Error::NotRegistered)
            },
        },
    }
}

/// `set_mix_commitments`, given the election's record, if there is one:
/// rejected with `NotFound` without a record, then as
/// [`Election::commitments_verdict`] says. Otherwise the record to store,
/// with both roots replaced.
pub open spec fn commitment(
    election: Option<Election>,
    caller: AccountId,
    input_root: RootHash,
    output_root: RootHash,
) -> Result<Election, Error> {
    match election {
        None => Err(Error::NotFound),
        Some(election) => match election.commitments_verdict(caller) {
            Err(e) => Err(e),
            Ok(()) => Ok(election.committed(input_root, output_root)),
        },
    }
}

/// `submit_tally`, given the election's record, if there is one: rejected
/// with `NotFound` without a record, then as [`Election::tally_verdict`]
/// says, then with `TooLarge` when the result locator exceeds 256 bytes.
/// Otherwise the finalized record and the tally to store.
pub open spec fn finalization(
    election: Option<Election>,
    caller: AccountId,
    result_uri: Seq<u8>,
    result_hash: RootHash,
) -> Result<(Election, Tally), Error> {
    match election {
        None => Err(Error::NotFound),
        Some(election) => match election.tally_verdict(caller) {
            Err(e) => Err(e),
            Ok(()) => if result_uri.len() > MAX_SHORT_LEN {
                Err(Error::TooLarge)
            } else {
                Ok((election.closed(), Tally { result_uri, result_hash }))
            },
        },
    }
}

/// Decides `create_election`: see [`creation`].
pub fn decide_creation(
    taken: bool,
    caller: AccountId,
    now: BlockNumber,
    tally_authority: AccountId,
    registration_deadline: BlockNumber,
    voting_deadline: BlockNumber,
) -> (r: Result<Election, Error>)
    ensures
        r == creation(
            taken,
            caller,
            now,
            tally_authority,
            registration_deadline,
            voting_deadline,
        ),
{
    if taken {
        return Err(Error::AlreadyExists);
    }
    match Election::check_window(now, registration_deadline, voting_deadline) {
        Ok(()) => Ok(
            Election::new(caller, tally_authority, registration_deadline, voting_deadline),
        ),
        Err(e) => Err(e),
    }
}

/// Decides `register_voter`: see [`registration`].
pub fn decide_registration(
    election: Option<Election>,
    registered: bool,
    caller: AccountId,
    now: BlockNumber,
) -> (r: Result<(), Error>)
    ensures
        r == registration(election, registered, caller, now),
{
    let election = match election {
        Some(election) => election,
        None => {
            return Err(Error::NotFound);
        },
    };
    match election.check_registration(caller, now) {
        Ok(()) => {},
        Err(e) => {
            return Err(e);
        },
    }
    if registered {
        return Err(Error::AlreadyRegistered);
    }
    Ok(())
}

/// Decides `cast_vote` up to the ballot store: see [`vote_admission`].
pub fn decide_vote(election: Option<Election>, registered: bool, now: BlockNumber) -> (r: Result<
    (),
    Error,
>)
    ensures
        r == vote_admission(election, registered, now),
{
    let election = match election {
        Some(election) => election,
        None => {
            return Err(Error::NotFound);
        },
    };
    match election.check_voting(now) {
        Ok(()) => {},
        Err(e) => {
            return Err(e);
        },
    }
    if !registered {
        return Err(Error::NotRegistered);
    }
    Ok(())
}

/// Decides `set_mix_commitments`: see [`commitment`].
pub fn decide_commitment(
    election: Option<Election>,
    caller: AccountId,
    input_root: RootHash,
    output_root: RootHash,
) -> (r: Result<Election, Error>)
    ensures
        r == commitment(election, caller, input_root, output_root),
{
    let election = match election {
        Some(election) => election,
        None => {
            return Err(Error::NotFound);
        },
    };
    match election.check_commitments(caller) {
        Ok(()) => Ok(election.with_commitments(input_root, output_root)),
        Err(e) => Err(e),
    }
}

/// Decides `submit_tally`: see [`finalization`]. The tally handed back
/// holds the locator byte for byte.
pub fn decide_tally(
    election: Option<Election>,
    caller: AccountId,
    result_uri: Vec<u8>,
    result_hash: RootHash,
) -> (r: Result<(Election, TallyResult), Error>)
    ensures
        match finalization(election, caller, result_uri@, result_hash) {
            Err(e) => r == Err::<(Election, TallyResult), Error>(e),
            Ok((closed, tally)) => r is Ok && r->Ok_0.0 == closed && r->Ok_0.1@ == tally,
        },
{
    let election = match election {
        Some(election) => election,
        None => {
            return Err(Error::NotFound);
        },
    };
    match election.check_tally(caller) {
        Ok(()) => {},
        Err(e) => {
            return Err(e);
        },
    }
    match TallyResult::new(result_uri, result_hash) {
        Ok(tally_result) => Ok((election.finalize(), tally_result)),
        Err(e) => Err(e),
    }
}

} // verus!
