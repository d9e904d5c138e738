use nexus_core::dao;
use nexus_core::governance::{Vote, VoteRecord, VoteRegistry};
use nexus_core::pubkey::Pubkey;
use nexus_core::registry::{Keyed, Registry};

fn key(byte: u8) -> Pubkey {
    Pubkey { bytes: [byte; 32] }
}

fn record(proposal: u8, voter: u8, weight: u64) -> VoteRecord {
    VoteRecord { proposal: key(proposal), voter: key(voter), vote: Vote::Yes, weight }
}

#[test]
fn keys_are_equal_when_all_their_bytes_are() {
    assert_eq!(key(1), key(1));
    assert_ne!(key(1), key(2));
    for i in 0..32 {
        let mut bytes = [7u8; 32];
        bytes[i] = 8;
        assert_ne!(Pubkey { bytes }, key(7));
        assert!(!(Pubkey { bytes } == key(7)));
        bytes[i] = 7;
        assert!(Pubkey { bytes } == key(7));
    }
}

#[test]
fn a_new_registry_is_empty() {
    let registry = VoteRegistry::new();
    assert_eq!(registry.len(), 0);
    assert!(registry.records().is_empty());
    assert!(!registry.contains(&(key(1), key(2))));
}

#[test]
fn create_stores_the_first_vote_of_a_voter_only() {
    let mut registry = VoteRegistry::new();
    assert!(registry.create(record(1, 2, 10)));
    assert!(registry.contains(&(key(1), key(2))));
    assert!(!registry.create(record(1, 2, 10)));
    assert!(!registry.create(record(1, 2, 99)));
    assert!(!registry.create(VoteRecord { vote: Vote::Veto, ..record(1, 2, 10) }));
    assert_eq!(registry.len(), 1);
    assert_eq!(registry.records(), &vec![record(1, 2, 10)]);
}

#[test]
fn create_tells_voters_and_proposals_apart() {
    let mut registry = VoteRegistry::new();
    assert!(registry.create(record(1, 2, 10)));
    assert!(registry.create(record(1, 3, 11)));
    assert!(registry.create(record(2, 2, 12)));
    assert!(registry.create(record(2, 1, 13)));
    assert!(!registry.create(record(2, 1, 14)));
    assert_eq!(registry.len(), 4);
    assert_eq!(
        registry.records(),
        &vec![record(1, 2, 10), record(1, 3, 11), record(2, 2, 12), record(2, 1, 13)]
    );
    assert!(registry.contains(&(key(2), key(1))));
    assert!(!registry.contains(&(key(3), key(1))));
}

#[test]
fn create_tells_keys_apart_by_a_single_byte() {
    let mut registry = VoteRegistry::new();
    let mut near = [5u8; 32];
    near[31] = 6;
    let near = Pubkey { bytes: near };
    assert!(registry.create(record(1, 5, 1)));
    assert!(registry.create(VoteRecord { voter: near, ..record(1, 5, 1) }));
    assert!(registry.create(VoteRecord { proposal: near, ..record(1, 5, 1) }));
    assert_eq!(registry.len(), 3);
}

#[test]
fn the_registry_of_the_dao_holds_its_own_records() {
    let mut registry = dao::VoteRegistry::new();
    let vote = dao::Vote { voter: key(2), proposal: key(1), support: true, voting_power: 4 };
    assert!(registry.create(vote));
    assert!(!registry.create(dao::Vote { support: false, ..vote }));
    assert_eq!(registry.records(), &vec![vote]);
}

#[test]
fn same_tells_keys_apart_byte_by_byte() {
    assert!(key(1).same(&key(1)));
    assert!(!key(1).same(&key(2)));
    for i in 0..32 {
        let mut bytes = [7u8; 32];
        bytes[i] = 8;
        assert!(!Pubkey { bytes }.same(&key(7)));
        assert!(!key(7).same(&Pubkey { bytes }));
    }
}

#[test]
fn a_vote_is_stored_under_its_proposal_and_its_voter() {
    let r = record(1, 2, 10);
    assert_eq!(r.to_key(), (key(1), key(2)));
    assert!(r.has_key(&(key(1), key(2))));
    assert!(!r.has_key(&(key(2), key(1))));
    assert!(!r.has_key(&(key(1), key(3))));
    assert!(!r.has_key(&(key(3), key(2))));
    let v = dao::Vote { voter: key(2), proposal: key(1), support: true, voting_power: 4 };
    assert_eq!(v.to_key(), (key(1), key(2)));
    assert!(v.has_key(&(key(1), key(2))));
    assert!(!v.has_key(&(key(2), key(1))));
}

#[test]
fn an_identity_is_stored_under_itself() {
    assert_eq!(key(3).to_key(), key(3));
    assert!(key(3).has_key(&key(3)));
    assert!(!key(3).has_key(&key(4)));
    let mut registry: Registry<Pubkey> = Registry::new();
    assert!(registry.create(key(3)));
    assert!(!registry.create(key(3)));
    assert!(registry.create(key(4)));
    assert!(registry.contains(&key(4)));
    assert!(!registry.contains(&key(5)));
    assert_eq!(registry.len(), 2);
}
