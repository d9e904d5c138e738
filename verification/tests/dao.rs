use nexus_core::dao::{
    cast_vote, create_proposal, execute_proposal, NexusError, Proposal, Vote, VoteRegistry, QUORUM,
};
use nexus_core::pubkey::Pubkey;

fn key(byte: u8) -> Pubkey {
    Pubkey { bytes: [byte; 32] }
}

/// A proposal made at second 1000 whose vote runs from 1100 to 1600.
fn proposal() -> Proposal {
    create_proposal(key(1), String::from("Title"), String::from("Text"), 100, 500, 1_000).unwrap()
}

fn counted(yes: u64, no: u64) -> Proposal {
    Proposal { yes_votes: yes, no_votes: no, ..proposal() }
}

#[test]
fn dao_create_proposal_fills_in_the_proposal() {
    assert_eq!(QUORUM, 1_000_000);
    assert_eq!(
        proposal(),
        Proposal {
            proposer: key(1),
            title: String::from("Title"),
            description: String::from("Text"),
            created_at: 1_000,
            voting_starts_at: 1_100,
            voting_ends_at: 1_600,
            executed: false,
            yes_votes: 0,
            no_votes: 0,
        }
    );
}

#[test]
fn dao_create_proposal_refuses_times_that_do_not_fit() {
    let r = create_proposal(key(1), String::new(), String::new(), 1, 0, i64::MAX);
    assert_eq!(r, Err(NexusError::TimeOverflow));
    let r = create_proposal(key(1), String::new(), String::new(), 0, 1, i64::MAX);
    assert_eq!(r, Err(NexusError::TimeOverflow));
    let r = create_proposal(key(1), String::new(), String::new(), -1, 0, i64::MIN);
    assert_eq!(r, Err(NexusError::TimeOverflow));
    let r = create_proposal(key(1), String::new(), String::new(), 10, -10, i64::MAX - 5);
    assert_eq!(r, Err(NexusError::TimeOverflow));
    let p = create_proposal(key(1), String::new(), String::new(), 2, 3, i64::MAX - 5).unwrap();
    assert_eq!((p.voting_starts_at, p.voting_ends_at), (i64::MAX - 3, i64::MAX));
}

#[test]
fn dao_cast_vote_counts_within_the_window_only() {
    for (now, expected) in [
        (1_099, Err(NexusError::VotingNotStarted)),
        (1_601, Err(NexusError::VotingEnded)),
    ] {
        let mut p = proposal();
        let mut registry = VoteRegistry::new();
        assert_eq!(cast_vote(&mut p, &mut registry, key(9), key(2), 5, true, now), expected);
        assert_eq!(p, proposal());
        assert_eq!(registry.len(), 0);
    }
    for now in [1_100, 1_600] {
        let mut p = proposal();
        let mut registry = VoteRegistry::new();
        assert_eq!(
            cast_vote(&mut p, &mut registry, key(9), key(2), 5, false, now),
            Ok(Vote { voter: key(2), proposal: key(9), support: false, voting_power: 5 })
        );
        assert_eq!((p.yes_votes, p.no_votes), (0, 5));
        assert_eq!(registry.len(), 1);
    }
}

#[test]
fn dao_cast_vote_refuses_a_second_vote_of_the_same_voter() {
    let mut p = proposal();
    let mut registry = VoteRegistry::new();
    assert!(cast_vote(&mut p, &mut registry, key(9), key(2), 5, true, 1_100).is_ok());
    assert!(cast_vote(&mut p, &mut registry, key(9), key(3), 7, false, 1_100).is_ok());
    let before = p.clone();
    assert_eq!(
        cast_vote(&mut p, &mut registry, key(9), key(2), 5, true, 1_200),
        Err(NexusError::AlreadyVoted)
    );
    assert_eq!(
        cast_vote(&mut p, &mut registry, key(9), key(3), 1, true, 1_200),
        Err(NexusError::AlreadyVoted)
    );
    assert_eq!(p, before);
    assert_eq!((p.yes_votes, p.no_votes), (5, 7));
    assert_eq!(registry.len(), 2);
    let yes: u64 = registry.records().iter().filter(|v| v.support).map(|v| v.voting_power).sum();
    let no: u64 = registry.records().iter().filter(|v| !v.support).map(|v| v.voting_power).sum();
    assert_eq!((yes, no), (5, 7));
}

#[test]
fn dao_cast_vote_refuses_a_count_that_does_not_fit() {
    let mut p = counted(u64::MAX, 3);
    let mut registry = VoteRegistry::new();
    assert_eq!(
        cast_vote(&mut p, &mut registry, key(9), key(2), 1, true, 1_100),
        Err(NexusError::VoteOverflow)
    );
    assert_eq!(p, counted(u64::MAX, 3));
    assert_eq!(registry.len(), 0);
    assert!(cast_vote(&mut p, &mut registry, key(9), key(2), 0, true, 1_100).is_ok());
    assert!(cast_vote(&mut p, &mut registry, key(9), key(3), u64::MAX - 3, false, 1_100).is_ok());
    assert_eq!(p.no_votes, u64::MAX);
}

#[test]
fn dao_execute_proposal_fails_until_the_vote_has_ended() {
    let mut p = counted(2_000_000, 0);
    assert_eq!(execute_proposal(&mut p, 1_600), Err(NexusError::VotingNotEnded));
    assert!(!p.executed);
    assert_eq!(execute_proposal(&mut p, 1_601), Ok(()));
    assert_eq!(p, Proposal { executed: true, ..counted(2_000_000, 0) });
    assert_eq!(execute_proposal(&mut p, 1_602), Err(NexusError::ProposalAlreadyExecuted));
    assert!(p.executed);
}

#[test]
fn dao_execute_proposal_needs_a_million_votes() {
    let mut p = counted(999_999, 0);
    assert_eq!(execute_proposal(&mut p, 2_000), Err(NexusError::QuorumNotReached));
    let mut p = counted(600_000, 399_999);
    assert_eq!(execute_proposal(&mut p, 2_000), Err(NexusError::QuorumNotReached));
    let mut p = counted(600_000, 400_000);
    assert_eq!(execute_proposal(&mut p, 2_000), Ok(()));
    let mut p = counted(u64::MAX, u64::MAX - 1);
    assert_eq!(execute_proposal(&mut p, 2_000), Ok(()));
}

#[test]
fn dao_execute_proposal_needs_more_votes_in_favour_than_against() {
    let mut p = counted(500_000, 500_000);
    assert_eq!(execute_proposal(&mut p, 2_000), Err(NexusError::ProposalNotPassed));
    let mut p = counted(500_000, 500_001);
    assert_eq!(execute_proposal(&mut p, 2_000), Err(NexusError::ProposalNotPassed));
    let mut p = counted(500_001, 500_000);
    assert_eq!(execute_proposal(&mut p, 2_000), Ok(()));
    assert!(p.executed);
}

#[test]
fn dao_errors_carry_their_text() {
    let texts = [
        (NexusError::VotingNotStarted, "Voting has not started yet"),
        (NexusError::VotingEnded, "Voting has ended"),
        (NexusError::VotingNotEnded, "Voting has not ended yet"),
        (NexusError::ProposalAlreadyExecuted, "Proposal has already been executed"),
        (NexusError::QuorumNotReached, "Quorum not reached"),
        (NexusError::ProposalNotPassed, "Proposal did not pass"),
        (NexusError::VoteOverflow, "Vote calculation overflow"),
        (NexusError::AlreadyVoted, "Voter has already voted on this proposal"),
        (NexusError::TimeOverflow, "Voting time overflow"),
    ];
    for (error, text) in texts {
        assert_eq!(error.message(), text);
    }
}
