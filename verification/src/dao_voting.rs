//! DAO bookkeeping: id counters for DAOs and proposals, and the events that
//! announce them.
//!
//! The pallet stores nothing but the two counters. A vote is an event and
//! leaves no trace in the state.

use crate::primitives::advance;
use crate::primitives::advanced;
use crate::primitives::AccountId;
use vstd::prelude::*;

verus! {

/// Emitted by every call.
#[derive(Clone, Copy, Debug, PartialEq, Eq, Structural)]
pub enum Event {
    /// A DAO was created.
    DaoCreated { dao_id: u32, creator: AccountId },
    /// A proposal was created in a DAO.
    ProposalCreated { dao_id: u32, proposal_id: u32, creator: AccountId },
    /// A vote was cast on a proposal.
    Voted { dao_id: u32, proposal_id: u32, voter: AccountId, choice: u8 },
}

/// The errors the pallet declares. No call returns one: ids are not looked
/// up before they are used.
#[derive(Clone, Copy, Debug, PartialEq, Eq, Structural)]
pub enum Error {
    /// The DAO does not exist.
    DaoNotFound,
    /// The proposal does not exist.
    ProposalNotFound,
}

/// The two id counters.
pub struct Pallet {
    next_dao_id: u32,
    next_proposal_id: u32,
}

/// What the pallet persists.
pub struct State {
    /// The id the next DAO will get.
    pub next_dao_id: u32,
    /// The id the next proposal will get, in whichever DAO.
    pub next_proposal_id: u32,
}

impl View for Pallet {
    type V = State;

    closed spec fn view(&self) -> State {
        State { next_dao_id: self.next_dao_id, next_proposal_id: self.next_proposal_id }
    }
}

impl Pallet {
    /// A pallet whose counters both start at zero.
    pub fn new() -> (pallet: Pallet)
        ensures
            pallet@ == (State { next_dao_id: 0, next_proposal_id: 0 }),
    {
        Pallet { next_dao_id: 0, next_proposal_id: 0 }
    }

    /// The id the next DAO will get.
    pub fn next_dao_id(&self) -> (id: u32)
        ensures
            id == self@.next_dao_id,
    {
        self.next_dao_id
    }

    /// The id the next proposal will get.
    pub fn next_proposal_id(&self) -> (id: u32)
        ensures
            id == self@.next_proposal_id,
    {
        self.next_proposal_id
    }

    /// Creates a DAO for `caller`: hands out the DAO counter's value and
    /// moves the counter on.
    pub fn create_dao(&mut self, caller: AccountId) -> (r: Result<Event, Error>)
        ensures
            r == Ok::<Event, Error>(
                Event::DaoCreated { dao_id: old(self)@.next_dao_id, creator: caller },
            ),
            final(self)@ == (State { next_dao_id: advanced(old(self)@.next_dao_id), ..old(self)@ }),
    {
        let dao_id = self.next_dao_id;
        self.next_dao_id = advance(dao_id);
        Ok(Event::DaoCreated { dao_id, creator: caller })
    }

    /// Creates a proposal in DAO `dao_id` for `caller`: hands out the
    /// proposal counter's value and moves the counter on. The DAO id is
    /// reported as given.
    pub fn create_proposal(&mut self, caller: AccountId, dao_id: u32) -> (r: Result<Event, Error>)
        ensures
            r == Ok::<Event, Error>(
                Event::ProposalCreated {
                    dao_id,
                    proposal_id: old(self)@.next_proposal_id,
                    creator: caller,
                },
            ),
            final(self)@ == (State {
                next_proposal_id: advanced(old(self)@.next_proposal_id),
                ..old(self)@
            }),
    {
        let proposal_id = self.next_proposal_id;
        self.next_proposal_id = advance(proposal_id);
        Ok(Event::ProposalCreated { dao_id, proposal_id, creator: caller })
    }

    /// Announces the vote of `caller` on a proposal. Nothing is stored.
    pub fn vote(&self, caller: AccountId, dao_id: u32, proposal_id: u32, choice: u8) -> (r: Result<
        Event,
        Error,
    >)
        ensures
            r == Ok::<Event, Error>(Event::Voted { dao_id, proposal_id, voter: caller, choice }),
    {
        Ok(Event::Voted { dao_id, proposal_id, voter: caller, choice })
    }
}

} // verus!
