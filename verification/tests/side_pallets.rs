use polokol::dao_voting;
use polokol::mixnet_registry;
use polokol::mixnet_registry::Role;
use polokol::xcm_filter::AllowMixJobFromSiblings;
use polokol::xcm_filter::Location;

#[test]
fn dao_ids_and_proposal_ids_count_up_separately() {
    let mut dao = dao_voting::Pallet::new();
    assert_eq!(dao.next_dao_id(), 0);
    assert_eq!(dao.next_proposal_id(), 0);
    assert_eq!(dao.create_dao(1), Ok(dao_voting::Event::DaoCreated { dao_id: 0, creator: 1 }));
    assert_eq!(dao.create_dao(2), Ok(dao_voting::Event::DaoCreated { dao_id: 1, creator: 2 }));
    assert_eq!(
        dao.create_proposal(2, 1),
        Ok(dao_voting::Event::ProposalCreated { dao_id: 1, proposal_id: 0, creator: 2 })
    );
    // The DAO id is not looked up.
    assert_eq!(
        dao.create_proposal(3, 99),
        Ok(dao_voting::Event::ProposalCreated { dao_id: 99, proposal_id: 1, creator: 3 })
    );
    assert_eq!(dao.next_dao_id(), 2);
    assert_eq!(dao.next_proposal_id(), 2);
}

#[test]
fn dao_vote_is_an_event_only() {
    let mut dao = dao_voting::Pallet::new();
    dao.create_dao(1).unwrap();
    assert_eq!(
        dao.vote(5, 0, 7, 2),
        Ok(dao_voting::Event::Voted { dao_id: 0, proposal_id: 7, voter: 5, choice: 2 })
    );
    assert_eq!(dao.next_dao_id(), 1);
    assert_eq!(dao.next_proposal_id(), 0);
}

#[test]
fn node_registration_and_deactivation() {
    let mut registry = mixnet_registry::Pallet::new();
    assert_eq!(registry.next_node_id(), 0);
    assert_eq!(
        registry.register_node(1, Role::Ingress, b"wss://a.example".to_vec()),
        Ok(mixnet_registry::Event::NodeRegistered { node_id: 0, owner: 1, role: Role::Ingress })
    );
    assert_eq!(
        registry.register_node(2, Role::Egress, vec![b'u'; 256]),
        Ok(mixnet_registry::Event::NodeRegistered { node_id: 1, owner: 2, role: Role::Egress })
    );
    assert_eq!(
        registry.register_node(2, Role::Middle, vec![b'u'; 257]),
        Err(mixnet_registry::Error::UrlTooLong)
    );
    assert_eq!(registry.next_node_id(), 2);
    assert!(registry.mix_nodes(2).is_none());

    let node = registry.mix_nodes(0).unwrap();
    assert_eq!(node.owner, 1);
    assert_eq!(node.role, Role::Ingress);
    assert_eq!(node.url.to_vec(), b"wss://a.example".to_vec());
    assert!(node.active);

    // Any caller may deactivate any node.
    assert_eq!(
        registry.deactivate_node(9, 0),
        Ok(mixnet_registry::Event::NodeDeactivated { node_id: 0 })
    );
    let node = registry.mix_nodes(0).unwrap();
    assert!(!node.active);
    assert_eq!(node.owner, 1);
    assert_eq!(node.url.to_vec(), b"wss://a.example".to_vec());
    assert!(registry.mix_nodes(1).unwrap().active);

    // Deactivating again is accepted; an unknown node is not found.
    assert_eq!(
        registry.deactivate_node(1, 0),
        Ok(mixnet_registry::Event::NodeDeactivated { node_id: 0 })
    );
    assert!(!registry.mix_nodes(0).unwrap().active);
    assert_eq!(registry.deactivate_node(1, 5), Err(mixnet_registry::Error::NodeNotFound));
}

#[test]
fn only_sibling_chains_pass_the_filter() {
    assert!(AllowMixJobFromSiblings::contains(&Location { parents: 1, interior_len: 1 }));
    // The relay chain.
    assert!(!AllowMixJobFromSiblings::contains(&Location { parents: 1, interior_len: 0 }));
    // This chain and what lies inside it.
    assert!(!AllowMixJobFromSiblings::contains(&Location { parents: 0, interior_len: 0 }));
    assert!(!AllowMixJobFromSiblings::contains(&Location { parents: 0, interior_len: 1 }));
    // An account on a sibling chain, or a chain two levels up.
    assert!(!AllowMixJobFromSiblings::contains(&Location { parents: 1, interior_len: 2 }));
    assert!(!AllowMixJobFromSiblings::contains(&Location { parents: 2, interior_len: 1 }));
}
