//! The plain DAO: proposals that are settled by yes and no votes, with a
//! fixed quorum.

use crate::pubkey::Pubkey;
use crate::registry::{holds, keys_distinct, lemma_new_key_fits, Keyed, Registry};
use vstd::prelude::*;

verus! {

/// The voting power that must have been cast for a proposal to be executed.
pub const QUORUM: u64 = 1_000_000;

#[derive(Clone, Copy, Debug, PartialEq, Eq, Structural)]
pub enum NexusError {
    VotingNotStarted,
    VotingEnded,
    VotingNotEnded,
    ProposalAlreadyExecuted,
    QuorumNotReached,
    ProposalNotPassed,
    VoteOverflow,
    /// The voter has already voted on the proposal.
    AlreadyVoted,
    /// The start or the end of the vote does not fit in 64 bits.
    TimeOverflow,
}

impl NexusError {
    /// The text that goes with the error.
    pub open spec fn text(self) -> Seq<char> {
        match self {
            NexusError::VotingNotStarted => "Voting has not started yet"@,
            NexusError::VotingEnded => "Voting has ended"@,
            NexusError::VotingNotEnded => "Voting has not ended yet"@,
            NexusError::ProposalAlreadyExecuted => "Proposal has already been executed"@,
            NexusError::QuorumNotReached => "Quorum not reached"@,
            NexusError::ProposalNotPassed => "Proposal did not pass"@,
            NexusError::VoteOverflow => "Vote calculation overflow"@,
            NexusError::AlreadyVoted => "Voter has already voted on this proposal"@,
            NexusError::TimeOverflow => "Voting time overflow"@,
        }
    }

    /// The text that goes with the error.
    pub fn message(&self) -> (s: &'static str)
        ensures
            s@ == self.text(),
    {
        match self {
            NexusError::VotingNotStarted => "Voting has not started yet",
            NexusError::VotingEnded => "Voting has ended",
            NexusError::VotingNotEnded => "Voting has not ended yet",
            NexusError::ProposalAlreadyExecuted => "Proposal has already been executed",
            NexusError::QuorumNotReached => "Quorum not reached",
            NexusError::ProposalNotPassed => "Proposal did not pass",
            NexusError::VoteOverflow => "Vote calculation overflow",
            NexusError::AlreadyVoted => "Voter has already voted on this proposal",
            NexusError::TimeOverflow => "Voting time overflow",
        }
    }
}

#[derive(Clone, Debug, PartialEq, Eq)]
pub struct Proposal {
    pub proposer: Pubkey,
    pub title: String,
    pub description: String,
    pub created_at: i64,
    pub voting_starts_at: i64,
    pub voting_ends_at: i64,
    pub executed: bool,
    pub yes_votes: u64,
    pub no_votes: u64,
}

/// The record of one vote.
#[derive(Clone, Copy, Debug, PartialEq, Eq)]
pub struct Vote {
    pub voter: Pubkey,
    pub proposal: Pubkey,
    pub support: bool,
    pub voting_power: u64,
}

impl Keyed for Vote {
    type Key = (Pubkey, Pubkey);

    /// A vote is stored under its proposal and its voter.
    open spec fn key(&self) -> (Pubkey, Pubkey) {
        (self.proposal, self.voter)
    }

    fn to_key(&self) -> (key: (Pubkey, Pubkey)) {
        (self.proposal, self.voter)
    }

    fn has_key(&self, key: &(Pubkey, Pubkey)) -> (yes: bool) {
        self.proposal.same(&key.0) && self.voter.same(&key.1)
    }
}

/// Whether `records` holds a vote of `voter` on `proposal`.
pub open spec fn has_voted(records: Seq<Vote>, proposal: Pubkey, voter: Pubkey) -> bool {
    holds(records, (proposal, voter))
}

/// No voter has more than one vote on any one proposal.
pub open spec fn each_voter_once(records: Seq<Vote>) -> bool {
    keys_distinct(records)
}

/// The votes cast on the proposals of one DAO.
pub type VoteRegistry = Registry<Vote>;

/// The voting power that `records` holds on `proposal`, in favour or against.
pub open spec fn tally(records: Seq<Vote>, proposal: Pubkey, support: bool) -> int
    decreases records.len(),
{
    if records.len() == 0 {
        0
    } else {
        let last = records.last();
        tally(records.drop_last(), proposal, support) + if last.proposal == proposal
            && last.support == support {
            last.voting_power as int
        } else {
            0
        }
    }
}

/// Makes a proposal whose vote opens `voting_delay` seconds after `now` and
/// lasts `voting_period` seconds. It fails only where one of the two times
/// does not fit in 64 bits.
pub fn create_proposal(
    proposer: Pubkey,
    title: String,
    description: String,
    voting_delay: i64,
    voting_period: i64,
    now: i64,
) -> (r: Result<Proposal, NexusError>)
    ensures
        match r {
            Ok(proposal) => {
                &&& proposal.proposer == proposer
                &&& proposal.title == title
                &&& proposal.description == description
                &&& proposal.created_at == now
                &&& proposal.voting_starts_at == now + voting_delay
                &&& proposal.voting_ends_at == now + voting_delay + voting_period
                &&& !proposal.executed
                &&& proposal.yes_votes == 0
                &&& proposal.no_votes == 0
            },
            Err(e) => {
                &&& e == NexusError::TimeOverflow
                &&& !(i64::MIN <= now + voting_delay <= i64::MAX) || !(i64::MIN <= now
                    + voting_delay + voting_period <= i64::MAX)
            },
        },
{
    let voting_starts_at = match now.checked_add(voting_delay) {
        Some(t) => t,
        None => {
            return Err(NexusError::TimeOverflow);
        },
    };
    let voting_ends_at = match voting_starts_at.checked_add(voting_period) {
        Some(t) => t,
        None => {
            return Err(NexusError::TimeOverflow);
        },
    };
    Ok(
        Proposal {
            proposer,
            title,
            description,
            created_at: now,
            voting_starts_at,
            voting_ends_at,
            executed: false,
            yes_votes: 0,
            no_votes: 0,
        },
    )
}

impl Proposal {
    /// The voting power cast so far in favour, or against.
    pub open spec fn votes_for(self, support: bool) -> u64 {
        if support {
            self.yes_votes
        } else {
            self.no_votes
        }
    }

    /// The proposal with `voting_power` more in favour, or against.
    pub open spec fn with_vote(self, support: bool, voting_power: u64) -> Proposal {
        if support {
            Proposal { yes_votes: (self.yes_votes + voting_power) as u64, ..self }
        } else {
            Proposal { no_votes: (self.no_votes + voting_power) as u64, ..self }
        }
    }

    /// Why `voter` cannot cast `voting_power` at `now`, if the vote is
    /// refused. The proposal goes by the name `proposal_key` in `records`.
    pub open spec fn vote_error(
        self,
        records: Seq<Vote>,
        proposal_key: Pubkey,
        voter: Pubkey,
        voting_power: u64,
        support: bool,
        now: i64,
    ) -> Option<NexusError> {
        if now < self.voting_starts_at {
            Some(NexusError::VotingNotStarted)
        } else if now > self.voting_ends_at {
            Some(NexusError::VotingEnded)
        } else if has_voted(records, proposal_key, voter) {
            Some(NexusError::AlreadyVoted)
        } else if self.votes_for(support) + voting_power > u64::MAX {
            Some(NexusError::VoteOverflow)
        } else {
            None
        }
    }

    /// The two counts of the proposal are what `records` holds for it.
    pub open spec fn counts_match(self, records: Seq<Vote>, proposal_key: Pubkey) -> bool {
        &&& self.yes_votes == tally(records, proposal_key, true)
        &&& self.no_votes == tally(records, proposal_key, false)
    }

    /// Why the proposal cannot be executed at `now`, if it cannot.
    pub open spec fn execution_error(self, now: i64) -> Option<NexusError> {
        if now <= self.voting_ends_at {
            Some(NexusError::VotingNotEnded)
        } else if self.executed {
            Some(NexusError::ProposalAlreadyExecuted)
        } else if self.yes_votes + self.no_votes < QUORUM {
            Some(NexusError::QuorumNotReached)
        } else if self.yes_votes <= self.no_votes {
            Some(NexusError::ProposalNotPassed)
        } else {
            None
        }
    }

    /// The proposal once it has been executed.
    pub open spec fn as_executed(self) -> Proposal {
        Proposal { executed: true, ..self }
    }
}

/// Casts the vote of `voter`, in favour or against, with `voting_power`, on
/// the proposal that `registry` knows as `proposal_key`.
///
/// A vote counts from the start of the voting window to its end, both
/// included, and only the first one of each voter: a second one is refused
/// and changes nothing. On success the voting power is added to the count,
/// and the record of the vote is stored and returned.
pub fn cast_vote(
    proposal: &mut Proposal,
    registry: &mut VoteRegistry,
    proposal_key: Pubkey,
    voter: Pubkey,
    voting_power: u64,
    support: bool,
    now: i64,
) -> (r: Result<Vote, NexusError>)
    ensures
        each_voter_once(final(registry)@),
        match r {
            Ok(record) => {
                &&& old(proposal).vote_error(
                    old(registry)@,
                    proposal_key,
                    voter,
                    voting_power,
                    support,
                    now,
                ) is None
                &&& record == (Vote { voter, proposal: proposal_key, support, voting_power })
                &&& *final(proposal) == old(proposal).with_vote(support, voting_power)
                &&& final(registry)@ == old(registry)@.push(record)
            },
            Err(e) => {
                &&& old(proposal).vote_error(
                    old(registry)@,
                    proposal_key,
                    voter,
                    voting_power,
                    support,
                    now,
                ) == Some(e)
                &&& *final(proposal) == *old(proposal)
                &&& final(registry)@ == old(registry)@
            },
        },
{
    proof {
        use_type_invariant(&*registry);
    }
    if now < proposal.voting_starts_at {
        return Err(NexusError::VotingNotStarted);
    }
    if now > proposal.voting_ends_at {
        return Err(NexusError::VotingEnded);
    }
    if registry.contains(&(proposal_key, voter)) {
        return Err(NexusError::AlreadyVoted);
    }
    if support {
        match proposal.yes_votes.checked_add(voting_power) {
            Some(sum) => {
                proposal.yes_votes = sum;
            },
            None => {
                return Err(NexusError::VoteOverflow);
            },
        }
    } else {
        match proposal.no_votes.checked_add(voting_power) {
            Some(sum) => {
                proposal.no_votes = sum;
            },
            None => {
                return Err(NexusError::VoteOverflow);
            },
        }
    }
    let record = Vote { voter, proposal: proposal_key, support, voting_power };
    registry.insert(record);
    Ok(record)
}

/// Executes a proposal whose vote has ended, if the quorum was reached and
/// more voting power was cast in favour than against. A proposal is executed
/// at most once.
pub fn execute_proposal(proposal: &mut Proposal, now: i64) -> (r: Result<(), NexusError>)
    ensures
        match r {
            Ok(()) => {
                &&& old(proposal).execution_error(now) is None
                &&& *final(proposal) == old(proposal).as_executed()
            },
            Err(e) => {
                &&& old(proposal).execution_error(now) == Some(e)
                &&& *final(proposal) == *old(proposal)
            },
        },
{
    if now <= proposal.voting_ends_at {
        return Err(NexusError::VotingNotEnded);
    }
    if proposal.executed {
        return Err(NexusError::ProposalAlreadyExecuted);
    }
    let total_votes: u128 = proposal.yes_votes as u128 + proposal.no_votes as u128;
    if total_votes < QUORUM as u128 {
        return Err(NexusError::QuorumNotReached);
    }
    if proposal.yes_votes <= proposal.no_votes {
        return Err(NexusError::ProposalNotPassed);
    }
    proposal.executed = true;
    Ok(())
}

/// What one more record adds to a tally: its voting power where it is for
/// that proposal and that side, else nothing.
pub proof fn lemma_tally_push(records: Seq<Vote>, record: Vote, proposal: Pubkey, support: bool)
    ensures
        tally(records.push(record), proposal, support) == tally(records, proposal, support)
            + if record.proposal == proposal && record.support == support {
            record.voting_power as int
        } else {
            0
        },
{
    assert(records.push(record).drop_last() =~= records);
}

/// After a vote that was accepted, any further vote of the same voter on the
/// same proposal is refused, whatever its power, side and time.
pub proof fn lemma_second_vote_rejected(
    proposal: Proposal,
    records: Seq<Vote>,
    proposal_key: Pubkey,
    voter: Pubkey,
    voting_power: u64,
    support: bool,
    now: i64,
    second_power: u64,
    second_support: bool,
    later: i64,
)
    requires
        proposal.vote_error(records, proposal_key, voter, voting_power, support, now) is None,
    ensures
        ({
            let record = Vote { voter, proposal: proposal_key, support, voting_power };
            let error = proposal.with_vote(support, voting_power).vote_error(
                records.push(record),
                proposal_key,
                voter,
                second_power,
                second_support,
                later,
            );
            &&& error is Some
            &&& proposal.voting_starts_at <= later <= proposal.voting_ends_at ==> error == Some(
                NexusError::AlreadyVoted,
            )
        }),
{
    let record = Vote { voter, proposal: proposal_key, support, voting_power };
    assert(records.push(record)[records.len() as int] == record);
}

/// Where the counts of a proposal are what the records hold for it, and each
/// voter has one record at most, both still hold after a vote that was
/// accepted: the voter's power has entered the counts exactly once.
pub proof fn lemma_vote_counted_once(
    proposal: Proposal,
    records: Seq<Vote>,
    proposal_key: Pubkey,
    voter: Pubkey,
    voting_power: u64,
    support: bool,
    now: i64,
)
    requires
        proposal.counts_match(records, proposal_key),
        each_voter_once(records),
        proposal.vote_error(records, proposal_key, voter, voting_power, support, now) is None,
    ensures
        ({
            let record = Vote { voter, proposal: proposal_key, support, voting_power };
            &&& proposal.with_vote(support, voting_power).counts_match(
                records.push(record),
                proposal_key,
            )
            &&& each_voter_once(records.push(record))
        }),
{
    let record = Vote { voter, proposal: proposal_key, support, voting_power };
    lemma_tally_push(records, record, proposal_key, true);
    lemma_tally_push(records, record, proposal_key, false);
    lemma_new_key_fits(records, record);
}

/// A proposal that has been executed cannot be executed again.
pub proof fn lemma_executed_once(proposal: Proposal, now: i64, later: i64)
    requires
        proposal.execution_error(now) is None,
    ensures
        proposal.as_executed().execution_error(later) is Some,
        later > proposal.voting_ends_at ==> proposal.as_executed().execution_error(later) == Some(
            NexusError::ProposalAlreadyExecuted,
        ),
{
}

} // verus!
