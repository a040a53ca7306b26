//! The mix node directory: nodes register with a role and a URL, and can be
//! flagged inactive.

use crate::bounded::short_bytes;
use crate::bounded::short_bytes_try_from;
use crate::bounded::ShortBytes;
use crate::bounded::MAX_SHORT_LEN;
use crate::primitives::advance;
use crate::primitives::advanced;
use crate::primitives::AccountId;
use std::collections::HashMap;
use vstd::prelude::*;

verus! {

broadcast use vstd::std_specs::hash::group_hash_axioms;

/// The position a node takes in a mix route.
#[derive(Clone, Copy, Debug, PartialEq, Eq, Structural)]
pub enum Role {
    /// Takes traffic into the mixnet.
    Ingress,
    /// Relays inside the mixnet.
    Middle,
    /// Hands traffic out of the mixnet.
    Egress,
}

/// A node as stored in the directory.
#[derive(Debug, PartialEq, Eq)]
pub struct MixNodeInfo {
    /// Who registered the node.
    pub owner: AccountId,
    /// The node's role.
    pub role: Role,
    /// Where the node is reached, at most 256 bytes.
    pub url: ShortBytes,
    /// Whether the node is in service.
    pub active: bool,
}

/// The mathematical value of a node record: the URL as a plain byte
/// sequence.
pub struct MixNode {
    pub owner: AccountId,
    pub role: Role,
    pub url: Seq<u8>,
    pub active: bool,
}

impl View for MixNodeInfo {
    type V = MixNode;

    open spec fn view(&self) -> MixNode {
        MixNode {
            owner: self.owner,
            role: self.role,
            url: short_bytes(self.url),
            active: self.active,
        }
    }
}

/// Emitted by every accepted call.
#[derive(Clone, Copy, Debug, PartialEq, Eq, Structural)]
pub enum Event {
    /// A node was registered.
    NodeRegistered { node_id: u32, owner: AccountId, role: Role },
    /// A node was flagged inactive.
    NodeDeactivated { node_id: u32 },
}

/// Why a call was rejected.
#[derive(Clone, Copy, Debug, PartialEq, Eq, Structural)]
pub enum Error {
    /// No node has the given id.
    NodeNotFound,
    /// The URL exceeds 256 bytes.
    UrlTooLong,
}

/// What the directory persists.
pub struct State {
    /// The id the next registered node will get.
    pub next_node_id: u32,
    /// The nodes, by id.
    pub mix_nodes: Map<u32, MixNode>,
}

impl State {
    /// The state of a directory that has seen no call.
    pub open spec fn empty() -> State {
        State { next_node_id: 0, mix_nodes: Map::empty() }
    }

    /// `register_node`: rejected with `UrlTooLong` when the URL exceeds 256
    /// bytes. Otherwise an active node owned by `caller` is stored under the
    /// counter's value and the counter moves on.
    pub open spec fn register_node(self, caller: AccountId, role: Role, url: Seq<u8>) -> (
        State,
        Result<Event, Error>,
    ) {
        if url.len() > MAX_SHORT_LEN {
            (self, Err(Error::UrlTooLong))
        } else {
            (
                State {
                    next_node_id: advanced(self.next_node_id),
                    mix_nodes: self.mix_nodes.insert(
                        self.next_node_id,
                        MixNode { owner: caller, role, url, active: true },
                    ),
                },
                Ok(Event::NodeRegistered { node_id: self.next_node_id, owner: caller, role }),
            )
        }
    }

    /// `deactivate_node`: rejected with `NodeNotFound` when no node has the
    /// id. Otherwise the node is flagged inactive, whoever the caller is and
    /// whether or not it was active.
    pub open spec fn deactivate_node(self, caller: AccountId, node_id: u32) -> (
        State,
        Result<Event, Error>,
    ) {
        if !self.mix_nodes.contains_key(node_id) {
            (self, Err(Error::NodeNotFound))
        } else {
            (
                State {
                    mix_nodes: self.mix_nodes.insert(
                        node_id,
                        MixNode { active: false, ..self.mix_nodes[node_id] },
                    ),
                    ..self
                },
                Ok(Event::NodeDeactivated { node_id }),
            )
        }
    }
}

/// Decides `register_node`: a URL of more than 256 bytes is rejected with
/// `UrlTooLong`; otherwise the record to store is an active node of `owner`
/// that holds the URL byte for byte.
pub fn decide_registration(owner: AccountId, role: Role, url: Vec<u8>) -> (r: Result<
    MixNodeInfo,
    Error,
>)
    ensures
        url@.len() > MAX_SHORT_LEN ==> r == Err::<MixNodeInfo, Error>(Error::UrlTooLong),
        url@.len() <= MAX_SHORT_LEN ==> r is Ok && r->Ok_0@ == (MixNode {
            owner,
            role,
            url: url@,
            active: true,
        }),
{
    match short_bytes_try_from(url) {
        Ok(bounded_url) => Ok(MixNodeInfo { owner, role, url: bounded_url, active: true }),
        Err(_) => Err(Error::UrlTooLong),
    }
}

/// Decides `deactivate_node`, given the node's record, if there is one:
/// without a record the call is rejected with `NodeNotFound`; otherwise the
/// record comes back flagged inactive.
pub fn decide_deactivation(node: Option<MixNodeInfo>) -> (r: Result<MixNodeInfo, Error>)
    ensures
        node is None ==> r == Err::<MixNodeInfo, Error>(Error::NodeNotFound),
        node matches Some(n) ==> r is Ok && r->Ok_0@ == (MixNode { active: false, ..n@ }),
{
    match node {
        None => Err(Error::NodeNotFound),
        Some(mut info) => {
            info.active = false;
            Ok(info)
        },
    }
}

/// The mix node directory with its storage.
pub struct Pallet {
    next_node_id: u32,
    mix_nodes: HashMap<u32, MixNodeInfo>,
}

impl View for Pallet {
    type V = State;

    closed spec fn view(&self) -> State {
        State {
            next_node_id: self.next_node_id,
            mix_nodes: self.mix_nodes@.map_values(|node: MixNodeInfo| node@),
        }
    }
}

impl Pallet {
    /// A directory with no nodes, whose counter starts at zero.
    pub fn new() -> (pallet: Pallet)
        ensures
            pallet@ == State::empty(),
    {
        let pallet = Pallet { next_node_id: 0, mix_nodes: HashMap::new() };
        assert(pallet@.mix_nodes =~= Map::<u32, MixNode>::empty());
        pallet
    }

    /// Registers a node for `caller` and returns the event to emit.
    ///
    /// The outcome and the new state are exactly those of
    /// [`State::register_node`]; a rejected call changes nothing.
    pub fn register_node(&mut self, caller: AccountId, role: Role, url: Vec<u8>) -> (r: Result<
        Event,
        Error,
    >)
        ensures
            (final(self)@, r) == old(self)@.register_node(caller, role, url@),
    {
        let node_info = match decide_registration(caller, role, url) {
            Ok(node_info) => node_info,
            Err(e) => {
                return Err(e);
            },
        };
        let node_id = self.next_node_id;
        self.next_node_id = advance(node_id);
        self.mix_nodes.insert(node_id, node_info);
        proof {
            let expected = old(self)@.register_node(caller, role, url@).0;
            assert(self@.mix_nodes =~= expected.mix_nodes);
        }
        Ok(Event::NodeRegistered { node_id, owner: caller, role })
    }

    /// Flags node `node_id` inactive and returns the event to emit. `caller`
    /// is accepted as given: any caller may deactivate any node.
    ///
    /// The outcome and the new state are exactly those of
    /// [`State::deactivate_node`]; a rejected call changes nothing.
    pub fn deactivate_node(&mut self, caller: AccountId, node_id: u32) -> (r: Result<Event, Error>)
        ensures
            (final(self)@, r) == old(self)@.deactivate_node(caller, node_id),
    {
        let info = match decide_deactivation(self.mix_nodes.remove(&node_id)) {
            Ok(info) => info,
            Err(e) => {
                assert(self@.mix_nodes =~= old(self)@.mix_nodes);
                return Err(e);
            },
        };
        self.mix_nodes.insert(node_id, info);
        proof {
            let expected = old(self)@.deactivate_node(caller, node_id).0;
            assert(self@.mix_nodes =~= expected.mix_nodes);
        }
        Ok(Event::NodeDeactivated { node_id })
    }

    /// The record of node `node_id`, if there is one.
    pub fn mix_nodes(&self, node_id: u32) -> (node: Option<&MixNodeInfo>)
        ensures
            node is Some <==> self@.mix_nodes.contains_key(node_id),
            node matches Some(n) ==> n@ == self@.mix_nodes[node_id],
    {
        self.mix_nodes.get(&node_id)
    }

    /// The id the next registered node will get.
    pub fn next_node_id(&self) -> (id: u32)
        ensures
            id == self@.next_node_id,
    {
        self.next_node_id
    }
}

/// A deactivated node stays inactive: no call sets the flag again. Calls on
/// other nodes leave it alone, and a second deactivation is accepted and
/// changes nothing about it.
pub proof fn law_deactivation_is_permanent(s: State, node_id: u32, caller: AccountId, other: u32)
    requires
        s.mix_nodes.contains_key(node_id),
        !s.mix_nodes[node_id].active,
    ensures
        s.deactivate_node(caller, other).0.mix_nodes.contains_key(node_id),
        s.deactivate_node(caller, other).0.mix_nodes[node_id] == s.mix_nodes[node_id],
{
}

} // verus!
