//! Proposals, weighted votes and the rules by which a proposal is executed.

use crate::pubkey::Pubkey;
use crate::registry::{holds, keys_distinct, lemma_new_key_fits, Keyed, Registry};
use vstd::prelude::*;

verus! {

/// Shortest voting period, in seconds: three days.
pub const MIN_VOTING_PERIOD: i64 = 259_200;

/// Longest voting period, in seconds: seven days.
pub const MAX_VOTING_PERIOD: i64 = 604_800;

/// Shortest delay between a proposal and its vote, in seconds: one day.
pub const MIN_VOTING_DELAY: i64 = 86_400;

/// Longest delay between a proposal and its vote, in seconds: five days.
pub const MAX_VOTING_DELAY: i64 = 432_000;

/// Smallest quorum, in percent of the locked tokens.
pub const MIN_QUORUM: u8 = 4;

/// Largest quorum, in percent of the locked tokens.
pub const MAX_QUORUM: u8 = 75;

/// Tokens that the author of a core proposal must hold.
pub const CORE_PROPOSAL_TOKENS: u64 = 100_000;

/// Tokens that the author of a technical proposal must hold.
pub const TECHNICAL_PROPOSAL_TOKENS: u64 = 50_000;

/// Tokens that the author of an operational proposal must hold.
pub const OPERATIONAL_PROPOSAL_TOKENS: u64 = 10_000;

/// Share of all votes cast, in percent, that a core proposal needs in favour.
pub const CORE_APPROVAL_PERCENT: u8 = 75;

/// Share of all votes cast, in percent, that a technical proposal needs in
/// favour.
pub const TECHNICAL_APPROVAL_PERCENT: u8 = 66;

#[derive(Clone, Copy, Debug, PartialEq, Eq, Structural)]
pub enum GovernanceError {
    InvalidVotingPeriod,
    InvalidVotingDelay,
    InvalidQuorum,
    InsufficientTokens,
    VotingNotStarted,
    VotingEnded,
    VotingNotEnded,
    AlreadyExecuted,
    ProposalCancelled,
    QuorumNotReached,
    ProposalNotPassed,
    ProposalVetoed,
    InvalidEmergencyAction,
    /// The voter has already voted on the proposal.
    AlreadyVoted,
    /// A counter or a time does not fit in 64 bits.
    Overflow,
}

impl GovernanceError {
    /// The text that goes with the error.
    pub open spec fn text(self) -> Seq<char> {
        match self {
            GovernanceError::InvalidVotingPeriod => "Invalid voting period"@,
            GovernanceError::InvalidVotingDelay => "Invalid voting delay"@,
            GovernanceError::InvalidQuorum => "Invalid quorum percentage"@,
            GovernanceError::InsufficientTokens => "Insufficient tokens to create proposal"@,
            GovernanceError::VotingNotStarted => "Voting has not started yet"@,
            GovernanceError::VotingEnded => "Voting has already ended"@,
            GovernanceError::VotingNotEnded => "Voting period has not ended yet"@,
            GovernanceError::AlreadyExecuted => "Proposal has already been executed"@,
            GovernanceError::ProposalCancelled => "Proposal has been cancelled"@,
            GovernanceError::QuorumNotReached => "Quorum has not been reached"@,
            GovernanceError::ProposalNotPassed => "Proposal did not pass"@,
            GovernanceError::ProposalVetoed => "Proposal was vetoed"@,
            GovernanceError::InvalidEmergencyAction => "Invalid emergency action"@,
            GovernanceError::AlreadyVoted => "Voter has already voted on this proposal"@,
            GovernanceError::Overflow => "Math overflow"@,
        }
    }

    /// The text that goes with the error.
    pub fn message(&self) -> (s: &'static str)
        ensures
            s@ == self.text(),
    {
        match self {
            GovernanceError::InvalidVotingPeriod => "Invalid voting period",
            GovernanceError::InvalidVotingDelay => "Invalid voting delay",
            GovernanceError::InvalidQuorum => "Invalid quorum percentage",
            GovernanceError::InsufficientTokens => "Insufficient tokens to create proposal",
            GovernanceError::VotingNotStarted => "Voting has not started yet",
            GovernanceError::VotingEnded => "Voting has already ended",
            GovernanceError::VotingNotEnded => "Voting period has not ended yet",
            GovernanceError::AlreadyExecuted => "Proposal has already been executed",
            GovernanceError::ProposalCancelled => "Proposal has been cancelled",
            GovernanceError::QuorumNotReached => "Quorum has not been reached",
            GovernanceError::ProposalNotPassed => "Proposal did not pass",
            GovernanceError::ProposalVetoed => "Proposal was vetoed",
            GovernanceError::InvalidEmergencyAction => "Invalid emergency action",
            GovernanceError::AlreadyVoted => "Voter has already voted on this proposal",
            GovernanceError::Overflow => "Math overflow",
        }
    }
}

#[derive(Clone, Copy, Debug, PartialEq, Eq, Structural)]
pub enum ProposalType {
    /// Needs 75% of all votes cast.
    Core,
    /// Needs 66% of all votes cast.
    Technical,
    /// Needs more votes in favour than against.
    Operational,
}

#[derive(Clone, Copy, Debug, PartialEq, Eq, Structural)]
pub enum Vote {
    Yes,
    No,
    Veto,
    Abstain,
}

#[derive(Clone, Copy, Debug, PartialEq, Eq, Structural)]
pub struct GovernanceConfig {
    pub voting_delay: i64,
    pub voting_period: i64,
    pub quorum_percentage: u8,
    pub proposal_threshold: u64,
    pub emergency_threshold: u8,
}

#[derive(Clone, Debug, PartialEq, Eq)]
pub struct GovernanceState {
    pub config: GovernanceConfig,
    pub proposal_count: u64,
    pub total_locked_tokens: u64,
    pub emergency_council: Vec<Pubkey>,
}

#[derive(Clone, Debug, PartialEq, Eq)]
pub struct Proposal {
    pub proposal_id: u64,
    pub proposer: Pubkey,
    pub proposal_type: ProposalType,
    pub title: String,
    pub description: String,
    pub link: String,
    pub created_at: i64,
    pub voting_starts_at: i64,
    pub voting_ends_at: i64,
    pub executed: bool,
    pub cancelled: bool,
    pub yes_votes: u64,
    pub no_votes: u64,
    pub veto_votes: u64,
    pub abstain_votes: u64,
    /// The quorum percentage in force when the proposal was made.
    pub quorum: u8,
}

#[derive(Clone, Copy, Debug, PartialEq, Eq)]
pub struct VoteRecord {
    pub proposal: Pubkey,
    pub voter: Pubkey,
    pub vote: Vote,
    pub weight: u64,
}

impl GovernanceConfig {
    /// The first bound that the configuration breaks, if it breaks one: the
    /// voting period is looked at first, then the delay, then the quorum.
    pub open spec fn error(self) -> Option<GovernanceError> {
        if self.voting_period < MIN_VOTING_PERIOD || self.voting_period > MAX_VOTING_PERIOD {
            Some(GovernanceError::InvalidVotingPeriod)
        } else if self.voting_delay < MIN_VOTING_DELAY || self.voting_delay > MAX_VOTING_DELAY {
            Some(GovernanceError::InvalidVotingDelay)
        } else if self.quorum_percentage < MIN_QUORUM || self.quorum_percentage > MAX_QUORUM {
            Some(GovernanceError::InvalidQuorum)
        } else {
            None
        }
    }

    /// Period, delay and quorum all lie within their bounds.
    pub open spec fn in_bounds(self) -> bool {
        &&& MIN_VOTING_PERIOD <= self.voting_period <= MAX_VOTING_PERIOD
        &&& MIN_VOTING_DELAY <= self.voting_delay <= MAX_VOTING_DELAY
        &&& MIN_QUORUM <= self.quorum_percentage <= MAX_QUORUM
    }
}

/// Sets up governance under `config`, with no proposal made and no token
/// locked yet. A configuration is accepted if and only if its period, delay
/// and quorum lie within their bounds.
pub fn create_governance(config: GovernanceConfig) -> (r: Result<GovernanceState, GovernanceError>)
    ensures
        r is Ok <==> config.in_bounds(),
        match r {
            Ok(state) => {
                &&& config.error() is None
                &&& state.config == config
                &&& state.proposal_count == 0
                &&& state.total_locked_tokens == 0
                &&& state.emergency_council@ == Seq::<Pubkey>::empty()
            },
            Err(e) => config.error() == Some(e),
        },
{
    if config.voting_period < MIN_VOTING_PERIOD || config.voting_period > MAX_VOTING_PERIOD {
        return Err(GovernanceError::InvalidVotingPeriod);
    }
    if config.voting_delay < MIN_VOTING_DELAY || config.voting_delay > MAX_VOTING_DELAY {
        return Err(GovernanceError::InvalidVotingDelay);
    }
    if config.quorum_percentage < MIN_QUORUM || config.quorum_percentage > MAX_QUORUM {
        return Err(GovernanceError::InvalidQuorum);
    }
    Ok(
        GovernanceState {
            config,
            proposal_count: 0,
            total_locked_tokens: 0,
            emergency_council: Vec::new(),
        },
    )
}

impl ProposalType {
    /// Tokens that the author of a proposal of this class must hold.
    pub open spec fn required_tokens(self) -> u64 {
        match self {
            ProposalType::Core => CORE_PROPOSAL_TOKENS,
            ProposalType::Technical => TECHNICAL_PROPOSAL_TOKENS,
            ProposalType::Operational => OPERATIONAL_PROPOSAL_TOKENS,
        }
    }
}

impl GovernanceState {
    /// Why a proposal of class `proposal_type` cannot be made at `now` by an
    /// author who holds `proposer_tokens`, if it cannot.
    pub open spec fn proposal_error(
        self,
        proposal_type: ProposalType,
        proposer_tokens: u64,
        now: i64,
    ) -> Option<GovernanceError> {
        let starts = now + self.config.voting_delay;
        let ends = starts + self.config.voting_period;
        if proposer_tokens < proposal_type.required_tokens() {
            Some(GovernanceError::InsufficientTokens)
        } else if !(i64::MIN <= starts <= i64::MAX) || !(i64::MIN <= ends <= i64::MAX)
            || self.proposal_count == u64::MAX {
            Some(GovernanceError::Overflow)
        } else {
            None
        }
    }

    /// Whether `amount` more locked tokens can be counted.
    pub open spec fn has_room_for(self, amount: u64) -> bool {
        self.total_locked_tokens + amount <= u64::MAX
    }

    /// Counts `amount` newly locked tokens into the total that quorums are
    /// taken from. Nothing else maintains that total: whoever opens a lock
    /// reports it here.
    pub fn report_locked_tokens(&mut self, amount: u64) -> (r: Result<(), GovernanceError>)
        ensures
            final(self).config == old(self).config,
            final(self).proposal_count == old(self).proposal_count,
            final(self).emergency_council == old(self).emergency_council,
            match r {
                Ok(()) => {
                    &&& old(self).has_room_for(amount)
                    &&& final(self).total_locked_tokens == old(self).total_locked_tokens + amount
                },
                Err(e) => {
                    &&& e == GovernanceError::Overflow
                    &&& !old(self).has_room_for(amount)
                    &&& final(self).total_locked_tokens == old(self).total_locked_tokens
                },
            },
    {
        match self.total_locked_tokens.checked_add(amount) {
            Some(total) => {
                self.total_locked_tokens = total;
                Ok(())
            },
            None => Err(GovernanceError::Overflow),
        }
    }
}

/// Makes a proposal. It takes the next free id, its vote opens one voting
/// delay after `now` and lasts one voting period, and it keeps the quorum
/// percentage in force now, whatever the configuration says later.
pub fn create_proposal(
    governance: &mut GovernanceState,
    proposer: Pubkey,
    proposal_type: ProposalType,
    title: String,
    description: String,
    link: String,
    proposer_tokens: u64,
    now: i64,
) -> (r: Result<Proposal, GovernanceError>)
    ensures
        final(governance).config == old(governance).config,
        final(governance).total_locked_tokens == old(governance).total_locked_tokens,
        final(governance).emergency_council == old(governance).emergency_council,
        match r {
            Ok(proposal) => {
                &&& old(governance).proposal_error(proposal_type, proposer_tokens, now) is None
                &&& final(governance).proposal_count == old(governance).proposal_count + 1
                &&& proposal.proposal_id == old(governance).proposal_count
                &&& proposal.proposer == proposer
                &&& proposal.proposal_type == proposal_type
                &&& proposal.title == title
                &&& proposal.description == description
                &&& proposal.link == link
                &&& proposal.created_at == now
                &&& proposal.voting_starts_at == now + old(governance).config.voting_delay
                &&& proposal.voting_ends_at == now + old(governance).config.voting_delay + old(
                    governance,
                ).config.voting_period
                &&& !proposal.executed
                &&& !proposal.cancelled
                &&& proposal.yes_votes == 0
                &&& proposal.no_votes == 0
                &&& proposal.veto_votes == 0
                &&& proposal.abstain_votes == 0
                &&& proposal.quorum == old(governance).config.quorum_percentage
            },
            Err(e) => {
                &&& old(governance).proposal_error(proposal_type, proposer_tokens, now) == Some(e)
                &&& final(governance).proposal_count == old(governance).proposal_count
            },
        },
{
    let required_tokens = match proposal_type {
        ProposalType::Core => CORE_PROPOSAL_TOKENS,
        ProposalType::Technical => TECHNICAL_PROPOSAL_TOKENS,
        ProposalType::Operational => OPERATIONAL_PROPOSAL_TOKENS,
    };
    if proposer_tokens < required_tokens {
        return Err(GovernanceError::InsufficientTokens);
    }
    let voting_starts_at = match now.checked_add(governance.config.voting_delay) {
        Some(t) => t,
        None => {
            return Err(GovernanceError::Overflow);
        },
    };
    let voting_ends_at = match voting_starts_at.checked_add(governance.config.voting_period) {
        Some(t) => t,
        None => {
            return Err(GovernanceError::Overflow);
        },
    };
    let proposal_id = governance.proposal_count;
    let next_id = match proposal_id.checked_add(1) {
        Some(n) => n,
        None => {
            return Err(GovernanceError::Overflow);
        },
    };
    governance.proposal_count = next_id;
    Ok(
        Proposal {
            proposal_id,
            proposer,
            proposal_type,
            title,
            description,
            link,
            created_at: now,
            voting_starts_at,
            voting_ends_at,
            executed: false,
            cancelled: false,
            yes_votes: 0,
            no_votes: 0,
            veto_votes: 0,
            abstain_votes: 0,
            quorum: governance.config.quorum_percentage,
        },
    )
}

/// The weight that `records` holds on `proposal` for the choice `vote`.
pub open spec fn tally(records: Seq<VoteRecord>, proposal: Pubkey, vote: Vote) -> int
    decreases records.len(),
{
    if records.len() == 0 {
        0
    } else {
        let last = records.last();
        tally(records.drop_last(), proposal, vote) + if last.proposal == proposal && last.vote
            == vote {
            last.weight as int
        } else {
            0
        }
    }
}

impl Keyed for VoteRecord {
    type Key = (Pubkey, Pubkey);

    /// A vote is stored under its proposal and its voter.
    open spec fn key(&self) -> (Pubkey, Pubkey) {
        (self.proposal, self.voter)
    }

    fn to_key(&self) -> (key: (Pubkey, Pubkey)) {
        (self.proposal, self.voter)
    }

    fn has_key(&self, key: &(Pubkey, Pubkey)) -> (yes: bool) {
        self.proposal.same(&key.0) && self.voter.same(&key.1)
    }
}

/// Whether `records` holds a vote of `voter` on `proposal`.
pub open spec fn has_voted(records: Seq<VoteRecord>, proposal: Pubkey, voter: Pubkey) -> bool {
    holds(records, (proposal, voter))
}

/// No voter has more than one vote on any one proposal.
pub open spec fn each_voter_once(records: Seq<VoteRecord>) -> bool {
    keys_distinct(records)
}

/// The votes cast on the proposals of one governance.
pub type VoteRegistry = Registry<VoteRecord>;

impl Proposal {
    /// The weight cast so far for the choice `vote`.
    pub open spec fn votes_for(self, vote: Vote) -> u64 {
        match vote {
            Vote::Yes => self.yes_votes,
            Vote::No => self.no_votes,
            Vote::Veto => self.veto_votes,
            Vote::Abstain => self.abstain_votes,
        }
    }

    /// The proposal with `weight` more votes for the choice `vote`.
    pub open spec fn with_vote(self, vote: Vote, weight: u64) -> Proposal {
        match vote {
            Vote::Yes => Proposal { yes_votes: (self.yes_votes + weight) as u64, ..self },
            Vote::No => Proposal { no_votes: (self.no_votes + weight) as u64, ..self },
            Vote::Veto => Proposal { veto_votes: (self.veto_votes + weight) as u64, ..self },
            Vote::Abstain => Proposal {
                abstain_votes: (self.abstain_votes + weight) as u64,
                ..self
            },
        }
    }

    /// Why the vote of `voter`, of `weight` for `vote` at `now`, is refused, if
    /// it is. The proposal goes by the name `proposal_key` in `records`.
    pub open spec fn vote_error(
        self,
        records: Seq<VoteRecord>,
        proposal_key: Pubkey,
        voter: Pubkey,
        weight: u64,
        vote: Vote,
        now: i64,
    ) -> Option<GovernanceError> {
        if now < self.voting_starts_at {
            Some(GovernanceError::VotingNotStarted)
        } else if now > self.voting_ends_at {
            Some(GovernanceError::VotingEnded)
        } else if has_voted(records, proposal_key, voter) {
            Some(GovernanceError::AlreadyVoted)
        } else if self.votes_for(vote) + weight > u64::MAX {
            Some(GovernanceError::Overflow)
        } else {
            None
        }
    }

    /// The four counts of the proposal are what `records` holds for it.
    pub open spec fn counts_match(self, records: Seq<VoteRecord>, proposal_key: Pubkey) -> bool {
        &&& self.yes_votes == tally(records, proposal_key, Vote::Yes)
        &&& self.no_votes == tally(records, proposal_key, Vote::No)
        &&& self.veto_votes == tally(records, proposal_key, Vote::Veto)
        &&& self.abstain_votes == tally(records, proposal_key, Vote::Abstain)
    }
}

/// Casts the vote of `voter`, who holds `weight` tokens, on the proposal that
/// `registry` knows as `proposal_key`.
///
/// A vote counts from the start of the voting window to its end, both
/// included, and only the first one of each voter: a second one is refused
/// and changes nothing. On success the weight is added to the count of the
/// choice, and the record of the vote is stored and returned.
pub fn cast_vote(
    proposal: &mut Proposal,
    registry: &mut VoteRegistry,
    proposal_key: Pubkey,
    voter: Pubkey,
    weight: u64,
    vote: Vote,
    now: i64,
) -> (r: Result<VoteRecord, GovernanceError>)
    ensures
        each_voter_once(final(registry)@),
        match r {
            Ok(record) => {
                &&& old(proposal).vote_error(old(registry)@, proposal_key, voter, weight, vote, now)
                    is None
                &&& record == (VoteRecord { proposal: proposal_key, voter, vote, weight })
                &&& *final(proposal) == old(proposal).with_vote(vote, weight)
                &&& final(registry)@ == old(registry)@.push(record)
            },
            Err(e) => {
                &&& old(proposal).vote_error(old(registry)@, proposal_key, voter, weight, vote, now)
                    == Some(e)
                &&& *final(proposal) == *old(proposal)
                &&& final(registry)@ == old(registry)@
            },
        },
{
    proof {
        use_type_invariant(&*registry);
    }
    if now < proposal.voting_starts_at {
        return Err(GovernanceError::VotingNotStarted);
    }
    if now > proposal.voting_ends_at {
        return Err(GovernanceError::VotingEnded);
    }
    if registry.contains(&(proposal_key, voter)) {
        return Err(GovernanceError::AlreadyVoted);
    }
    let count = match vote {
        Vote::Yes => proposal.yes_votes,
        Vote::No => proposal.no_votes,
        Vote::Veto => proposal.veto_votes,
        Vote::Abstain => proposal.abstain_votes,
    };
    let count = match count.checked_add(weight) {
        Some(sum) => sum,
        None => {
            return Err(GovernanceError::Overflow);
        },
    };
    match vote {
        Vote::Yes => {
            proposal.yes_votes = count;
        },
        Vote::No => {
            proposal.no_votes = count;
        },
        Vote::Veto => {
            proposal.veto_votes = count;
        },
        Vote::Abstain => {
            proposal.abstain_votes = count;
        },
    }
    let record = VoteRecord { proposal: proposal_key, voter, vote, weight };
    registry.insert(record);
    Ok(record)
}

impl Proposal {
    /// All the weight cast on the proposal, whatever the choice.
    pub open spec fn total_votes(self) -> int {
        self.yes_votes + self.no_votes + self.veto_votes + self.abstain_votes
    }

    /// The weight that a vote must reach to be valid: the proposal's quorum
    /// percentage of the locked tokens, rounded down.
    pub open spec fn quorum_threshold(self, total_locked_tokens: u64) -> int {
        total_locked_tokens * self.quorum / 100
    }

    /// Whether the votes in favour meet what the proposal's class asks for: 75
    /// or 66 hundredths of all votes cast, of which there must be some, or
    /// more votes than those against.
    pub open spec fn approved(self) -> bool {
        match self.proposal_type {
            ProposalType::Core => self.total_votes() > 0 && 100 * self.yes_votes
                >= CORE_APPROVAL_PERCENT * self.total_votes(),
            ProposalType::Technical => self.total_votes() > 0 && 100 * self.yes_votes
                >= TECHNICAL_APPROVAL_PERCENT * self.total_votes(),
            ProposalType::Operational => self.yes_votes > self.no_votes,
        }
    }

    /// Why the proposal cannot be executed at `now`, if it cannot.
    pub open spec fn execution_error(self, total_locked_tokens: u64, now: i64) -> Option<
        GovernanceError,
    > {
        if now <= self.voting_ends_at {
            Some(GovernanceError::VotingNotEnded)
        } else if self.executed {
            Some(GovernanceError::AlreadyExecuted)
        } else if self.cancelled {
            Some(GovernanceError::ProposalCancelled)
        } else if self.total_votes() < self.quorum_threshold(total_locked_tokens) {
            Some(GovernanceError::QuorumNotReached)
        } else if !self.approved() {
            Some(GovernanceError::ProposalNotPassed)
        } else if self.veto_votes > 0 {
            Some(GovernanceError::ProposalVetoed)
        } else {
            None
        }
    }

    /// The proposal once it has been executed.
    pub open spec fn as_executed(self) -> Proposal {
        Proposal { executed: true, ..self }
    }
}

/// Whether `yes_votes` are at least `percent` hundredths of `total_votes`, of
/// which there must be some.
fn has_share(yes_votes: u64, total_votes: u128, percent: u8) -> (yes: bool)
    requires
        total_votes <= 4 * u64::MAX,
    ensures
        yes == (total_votes > 0 && 100 * yes_votes >= percent * total_votes),
{
    let share: u128 = percent as u128;
    assert(share * total_votes <= u128::MAX) by (nonlinear_arith)
        requires
            share <= u8::MAX,
            total_votes <= 4 * u64::MAX,
    ;
    total_votes > 0 && 100 * (yes_votes as u128) >= share * total_votes
}

/// Executes a proposal whose vote has ended, if the vote carried it: the
/// quorum was reached, the class's share of votes was in favour, and nobody
/// cast a veto. A proposal is executed at most once.
pub fn execute_proposal(proposal: &mut Proposal, governance: &GovernanceState, now: i64) -> (r:
    Result<(), GovernanceError>)
    ensures
        match r {
            Ok(()) => {
                &&& old(proposal).execution_error(governance.total_locked_tokens, now) is None
                &&& *final(proposal) == old(proposal).as_executed()
            },
            Err(e) => {
                &&& old(proposal).execution_error(governance.total_locked_tokens, now) == Some(e)
                &&& *final(proposal) == *old(proposal)
            },
        },
{
    if now <= proposal.voting_ends_at {
        return Err(GovernanceError::VotingNotEnded);
    }
    if proposal.executed {
        return Err(GovernanceError::AlreadyExecuted);
    }
    if proposal.cancelled {
        return Err(GovernanceError::ProposalCancelled);
    }
    let total_votes: u128 = proposal.yes_votes as u128 + proposal.no_votes as u128
        + proposal.veto_votes as u128 + proposal.abstain_votes as u128;
    let locked: u128 = governance.total_locked_tokens as u128;
    let quorum: u128 = proposal.quorum as u128;
    assert(locked * quorum <= u128::MAX) by (nonlinear_arith)
        requires
            locked <= u64::MAX,
            quorum <= u8::MAX,
    ;
    let quorum_threshold: u128 = locked * quorum / 100;
    if total_votes < quorum_threshold {
        return Err(GovernanceError::QuorumNotReached);
    }
    let passed = match proposal.proposal_type {
        ProposalType::Core => has_share(proposal.yes_votes, total_votes, CORE_APPROVAL_PERCENT),
        ProposalType::Technical => has_share(
            proposal.yes_votes,
            total_votes,
            TECHNICAL_APPROVAL_PERCENT,
        ),
        ProposalType::Operational => proposal.yes_votes > proposal.no_votes,
    };
    if !passed {
        return Err(GovernanceError::ProposalNotPassed);
    }
    if proposal.veto_votes != 0 {
        return Err(GovernanceError::ProposalVetoed);
    }
    proposal.executed = true;
    Ok(())
}


/// While the vote is open, and at the very second it ends, a proposal cannot
/// be executed.
pub proof fn lemma_no_execution_before_end(proposal: Proposal, total_locked_tokens: u64, now: i64)
    requires
        now <= proposal.voting_ends_at,
    ensures
        proposal.execution_error(total_locked_tokens, now) == Some(
            GovernanceError::VotingNotEnded,
        ),
{
}

/// A proposal that has been executed cannot be executed again, at whatever
/// time and with however many tokens locked.
pub proof fn lemma_executed_once(
    proposal: Proposal,
    total_locked_tokens: u64,
    now: i64,
    later_locked_tokens: u64,
    later: i64,
)
    requires
        proposal.execution_error(total_locked_tokens, now) is None,
    ensures
        proposal.as_executed().execution_error(later_locked_tokens, later) is Some,
        later > proposal.voting_ends_at ==> proposal.as_executed().execution_error(
            later_locked_tokens,
            later,
        ) == Some(GovernanceError::AlreadyExecuted),
{
}

/// An operational proposal with as many votes in favour as against is never
/// executed: where nothing else stands in the way, it has not passed.
pub proof fn lemma_operational_tie_fails(proposal: Proposal, total_locked_tokens: u64, now: i64)
    requires
        proposal.proposal_type == ProposalType::Operational,
        proposal.yes_votes == proposal.no_votes,
    ensures
        proposal.execution_error(total_locked_tokens, now) is Some,
        now > proposal.voting_ends_at && !proposal.executed && !proposal.cancelled
            && proposal.total_votes() >= proposal.quorum_threshold(total_locked_tokens)
            ==> proposal.execution_error(total_locked_tokens, now) == Some(
            GovernanceError::ProposalNotPassed,
        ),
{
}

/// A proposal with any veto cast on it is never executed: where the vote has
/// otherwise carried it, it fails as vetoed.
pub proof fn lemma_veto_blocks_execution(proposal: Proposal, total_locked_tokens: u64, now: i64)
    requires
        proposal.veto_votes > 0,
    ensures
        proposal.execution_error(total_locked_tokens, now) is Some,
        now > proposal.voting_ends_at && !proposal.executed && !proposal.cancelled
            && proposal.total_votes() >= proposal.quorum_threshold(total_locked_tokens)
            && proposal.approved() ==> proposal.execution_error(total_locked_tokens, now) == Some(
            GovernanceError::ProposalVetoed,
        ),
{
}

/// What one more record adds to a tally: its weight where it is for that
/// proposal and that choice, else nothing.
pub proof fn lemma_tally_push(
    records: Seq<VoteRecord>,
    record: VoteRecord,
    proposal: Pubkey,
    vote: Vote,
)
    ensures
        tally(records.push(record), proposal, vote) == tally(records, proposal, vote) + if record.proposal
            == proposal && record.vote == vote {
            record.weight as int
        } else {
            0
        },
{
    assert(records.push(record).drop_last() =~= records);
}

/// After a vote that was accepted, any further vote of the same voter on the
/// same proposal is refused, whatever its weight, choice and time.
pub proof fn lemma_second_vote_rejected(
    proposal: Proposal,
    records: Seq<VoteRecord>,
    proposal_key: Pubkey,
    voter: Pubkey,
    weight: u64,
    vote: Vote,
    now: i64,
    second_weight: u64,
    second_vote: Vote,
    later: i64,
)
    requires
        proposal.vote_error(records, proposal_key, voter, weight, vote, now) is None,
    ensures
        ({
            let record = VoteRecord { proposal: proposal_key, voter, vote, weight };
            let error = proposal.with_vote(vote, weight).vote_error(
                records.push(record),
                proposal_key,
                voter,
                second_weight,
                second_vote,
                later,
            );
            &&& error is Some
            &&& proposal.voting_starts_at <= later <= proposal.voting_ends_at ==> error == Some(
                GovernanceError::AlreadyVoted,
            )
        }),
{
    let record = VoteRecord { proposal: proposal_key, voter, vote, weight };
    assert(records.push(record)[records.len() as int] == record);
}

/// Where the counts of a proposal are what the records hold for it, and each
/// voter has one record at most, both still hold after a vote that was
/// accepted: the voter's weight has entered the counts exactly once. The
/// counts of every other proposal stay as they were.
pub proof fn lemma_vote_counted_once(
    proposal: Proposal,
    records: Seq<VoteRecord>,
    proposal_key: Pubkey,
    voter: Pubkey,
    weight: u64,
    vote: Vote,
    now: i64,
)
    requires
        proposal.counts_match(records, proposal_key),
        each_voter_once(records),
        proposal.vote_error(records, proposal_key, voter, weight, vote, now) is None,
    ensures
        ({
            let record = VoteRecord { proposal: proposal_key, voter, vote, weight };
            &&& proposal.with_vote(vote, weight).counts_match(records.push(record), proposal_key)
            &&& each_voter_once(records.push(record))
            &&& forall|other: Pubkey, choice: Vote|
                other != proposal_key ==> #[trigger] tally(records.push(record), other, choice)
                    == tally(records, other, choice)
        }),
{
    let record = VoteRecord { proposal: proposal_key, voter, vote, weight };
    let after = records.push(record);
    lemma_tally_push(records, record, proposal_key, Vote::Yes);
    lemma_tally_push(records, record, proposal_key, Vote::No);
    lemma_tally_push(records, record, proposal_key, Vote::Veto);
    lemma_tally_push(records, record, proposal_key, Vote::Abstain);
    lemma_new_key_fits(records, record);
    assert forall|other: Pubkey, choice: Vote| other != proposal_key implies #[trigger] tally(
        after,
        other,
        choice,
    ) == tally(records, other, choice) by {
        lemma_tally_push(records, record, other, choice);
    }
}

} // verus!
