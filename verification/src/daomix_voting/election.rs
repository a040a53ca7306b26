//! The election record and the rules that gate each phase of its life.
//!
//! Roles are plain identities stored on the record and compared with the
//! caller; phases are gated by comparing the stored deadlines with the time
//! the ledger supplies.

use crate::daomix_voting::event::Error;
use crate::primitives::AccountId;
use crate::primitives::BlockNumber;
use crate::primitives::RootHash;
use vstd::prelude::*;

verus! {

/// An election as stored on the ledger.
#[derive(Clone, Copy, Debug, PartialEq, Eq)]
pub struct Election {
    /// Who created the election; the only one who may register voters.
    pub admin: AccountId,
    /// Who may set the mix commitments and submit the tally.
    pub tally_authority: AccountId,
    /// The last block at which a voter may be registered.
    pub registration_deadline: BlockNumber,
    /// The last block at which a ballot may be cast.
    pub voting_deadline: BlockNumber,
    /// Root over the ballots that went into the mix, once committed.
    pub commitment_input_root: Option<RootHash>,
    /// Root over the ballots that came out of the mix, once committed.
    pub commitment_output_root: Option<RootHash>,
    /// Set by the tally; a finalized election accepts no further call.
    pub finalized: bool,
}

impl Election {
    /// Deadlines acceptable at creation time `now`: registration closes
    /// strictly in the future and strictly before voting does.
    pub open spec fn window_is_valid(
        now: BlockNumber,
        registration_deadline: BlockNumber,
        voting_deadline: BlockNumber,
    ) -> bool {
        now < registration_deadline && registration_deadline < voting_deadline
    }

    /// The record of a newly created election: no commitments, not finalized.
    pub open spec fn created(
        admin: AccountId,
        tally_authority: AccountId,
        registration_deadline: BlockNumber,
        voting_deadline: BlockNumber,
    ) -> Election {
        Election {
            admin,
            tally_authority,
            registration_deadline,
            voting_deadline,
            commitment_input_root: None,
            commitment_output_root: None,
            finalized: false,
        }
    }

    /// Both commitment roots are present.
    pub open spec fn has_commitments(self) -> bool {
        self.commitment_input_root is Some && self.commitment_output_root is Some
    }

    /// May `caller` register a voter at `now`? Only the admin may, and only
    /// while the election is not finalized and the registration deadline has
    /// not passed.
    pub open spec fn registration_verdict(self, caller: AccountId, now: BlockNumber) -> Result<
        (),
        Error,
    > {
        if caller != self.admin {
            Err(Error::Unauthorized)
        } else if self.finalized || now > self.registration_deadline {
            Err(Error::Closed)
        } else {
            Ok(())
        }
    }

    /// May a ballot be cast at `now`? Only while the election is not
    /// finalized and the voting deadline has not passed.
    pub open spec fn voting_verdict(self, now: BlockNumber) -> Result<(), Error> {
        if self.finalized || now > self.voting_deadline {
            Err(Error::Closed)
        } else {
            Ok(())
        }
    }

    /// May `caller` set the mix commitments? Only the tally authority may,
    /// and only while the election is not finalized.
    pub open spec fn commitments_verdict(self, caller: AccountId) -> Result<(), Error> {
        if caller != self.tally_authority {
            Err(Error::Unauthorized)
        } else if self.finalized {
            Err(Error::Closed)
        } else {
            Ok(())
        }
    }

    /// May `caller` submit the tally? Only the tally authority may, once,
    /// and only after both commitments were set.
    pub open spec fn tally_verdict(self, caller: AccountId) -> Result<(), Error> {
        if caller != self.tally_authority {
            Err(Error::Unauthorized)
        } else if self.finalized {
            Err(Error::Closed)
        } else if !self.has_commitments() {
            Err(Error::CommitmentsMissing)
        } else {
            Ok(())
        }
    }

    /// This election with both commitment roots replaced.
    pub open spec fn committed(self, input_root: RootHash, output_root: RootHash) -> Election {
        Election {
            commitment_input_root: Some(input_root),
            commitment_output_root: Some(output_root),
            ..self
        }
    }

    /// This election, finalized.
    pub open spec fn closed(self) -> Election {
        Election { finalized: true, ..self }
    }

    /// Checks the deadlines proposed for a new election at time `now`.
    pub fn check_window(
        now: BlockNumber,
        registration_deadline: BlockNumber,
        voting_deadline: BlockNumber,
    ) -> (r: Result<(), Error>)
        ensures
            r == (if Election::window_is_valid(now, registration_deadline, voting_deadline) {
                Ok::<(), Error>(())
            } else {
                Err::<(), Error>(Error::InvalidWindow)
            }),
    {
        if !(registration_deadline < voting_deadline) {
            return Err(Error::InvalidWindow);
        }
        if !(registration_deadline > now) {
            return Err(Error::InvalidWindow);
        }
        Ok(())
    }

    /// Builds the record of a new election, with `admin` as its creator.
    pub fn new(
        admin: AccountId,
        tally_authority: AccountId,
        registration_deadline: BlockNumber,
        voting_deadline: BlockNumber,
    ) -> (election: Election)
        ensures
            election == Election::created(
                admin,
                tally_authority,
                registration_deadline,
                voting_deadline,
            ),
    {
        Election {
            admin,
            tally_authority,
            registration_deadline,
            voting_deadline,
            commitment_input_root: None,
            commitment_output_root: None,
            finalized: false,
        }
    }

    /// Decides whether `caller` may register a voter at `now`.
    pub fn check_registration(&self, caller: AccountId, now: BlockNumber) -> (r: Result<(), Error>)
        ensures
            r == self.registration_verdict(caller, now),
    {
        if caller != self.admin {
            return Err(Error::Unauthorized);
        }
        if self.finalized {
            return Err(Error::Closed);
        }
        if !(now <= self.registration_deadline) {
            return Err(Error::Closed);
        }
        Ok(())
    }

    /// Decides whether a ballot may be cast at `now`.
    pub fn check_voting(&self, now: BlockNumber) -> (r: Result<(), Error>)
        ensures
            r == self.voting_verdict(now),
    {
        if self.finalized {
            return Err(Error::Closed);
        }
        if !(now <= self.voting_deadline) {
            return Err(Error::Closed);
        }
        Ok(())
    }

    /// Decides whether `caller` may set the mix commitments.
    pub fn check_commitments(&self, caller: AccountId) -> (r: Result<(), Error>)
        ensures
            r == self.commitments_verdict(caller),
    {
        if caller != self.tally_authority {
            return Err(Error::Unauthorized);
        }
        if self.finalized {
            return Err(Error::Closed);
        }
        Ok(())
    }

    /// Decides whether `caller` may submit the tally.
    pub fn check_tally(&self, caller: AccountId) -> (r: Result<(), Error>)
        ensures
            r == self.tally_verdict(caller),
    {
        if caller != self.tally_authority {
            return Err(Error::Unauthorized);
        }
        if self.finalized {
            return Err(Error::Closed);
        }
        if !(self.commitment_input_root.is_some() && self.commitment_output_root.is_some()) {
            return Err(Error::CommitmentsMissing);
        }
        Ok(())
    }

    /// Replaces both commitment roots.
    pub fn with_commitments(self, input_root: RootHash, output_root: RootHash) -> (election:
        Election)
        ensures
            election == self.committed(input_root, output_root),
    {
        Election {
            admin: self.admin,
            tally_authority: self.tally_authority,
            registration_deadline: self.registration_deadline,
            voting_deadline: self.voting_deadline,
            commitment_input_root: Some(input_root),
            commitment_output_root: Some(output_root),
            finalized: self.finalized,
        }
    }

    /// Marks the election finalized.
    pub fn finalize(self) -> (election: Election)
        ensures
            election == self.closed(),
    {
        Election {
            admin: self.admin,
            tally_authority: self.tally_authority,
            registration_deadline: self.registration_deadline,
            voting_deadline: self.voting_deadline,
            commitment_input_root: self.commitment_input_root,
            commitment_output_root: self.commitment_output_root,
            finalized: true,
        }
    }
}

} // verus!
