//! The engine as a state machine over mathematical values.

use crate::account::AccountId;
use crate::error::DaoError;
use crate::proposal::{Balance, Proposal, ProposalId, ProposalVote, VoteType, SECONDS_PER_MINUTE};
use vstd::prelude::*;

verus! {

/// The state of the governance engine as a mathematical value: what the
/// contracts of the engine speak of.
pub struct GovernorState {
    /// The proposals made so far, by identifier.
    pub proposals: Map<ProposalId, Proposal>,
    /// The tally of each proposal that has received a vote.
    pub tallies: Map<ProposalId, ProposalVote>,
    /// Who has voted on which proposal.
    pub ballots: Set<(ProposalId, AccountId)>,
    /// The identifier given out last; 0 before the first proposal.
    pub next_proposal_id: ProposalId,
    /// The combined weight a proposal needs before it can be executed.
    pub quorum: u64,
    /// The token contract that is asked for the weight of a voter.
    pub governance_token: AccountId,
}

/// One call of the engine, with what the caller and the host hand in.
pub enum Operation {
    /// A proposal made at time `now` while the treasury holds `balance`.
    Propose { to: AccountId, amount: Balance, duration: u64, balance: Balance, now: u64 },
    /// A ballot of `voter` cast at time `now`.
    Vote { proposal_id: ProposalId, voter: AccountId, now: u64 },
    /// The weight of `voter` arriving for a ballot on the side of `vote`.
    Count { proposal_id: ProposalId, voter: AccountId, vote: VoteType, weight: u64 },
    /// A request to execute a proposal.
    Execute { proposal_id: ProposalId },
}

impl GovernorState {
    /// The state of a new engine.
    pub open spec fn initial(governance_token: AccountId, quorum: u64) -> GovernorState {
        GovernorState {
            proposals: Map::empty(),
            tallies: Map::empty(),
            ballots: Set::empty(),
            next_proposal_id: 0,
            quorum,
            governance_token,
        }
    }

    /// The state that lists of proposals and tallies stand for: the proposal
    /// with identifier `i` and its tally, if it has one, are at index `i - 1`.
    pub open spec fn of_lists(
        proposals: Seq<Proposal>,
        tallies: Seq<Option<ProposalVote>>,
        ballots: Set<(ProposalId, AccountId)>,
        next_proposal_id: ProposalId,
        quorum: u64,
        governance_token: AccountId,
    ) -> GovernorState {
        GovernorState {
            proposals: Map::new(
                |id: ProposalId| 1 <= id <= proposals.len(),
                |id: ProposalId| proposals[id - 1],
            ),
            tallies: Map::new(
                |id: ProposalId| 1 <= id <= tallies.len() && tallies[id - 1] is Some,
                |id: ProposalId| tallies[id - 1].unwrap(),
            ),
            ballots,
            next_proposal_id,
            quorum,
            governance_token,
        }
    }

    /// Whether somebody has a ballot on record for the proposal.
    pub open spec fn has_ballots(self, proposal_id: ProposalId) -> bool {
        exists|voter: AccountId| self.ballots.contains((proposal_id, voter))
    }

    /// The identifiers in use are exactly 1 up to the one given out last,
    /// every stored proposal is well formed, ballots belong to stored
    /// proposals, and a proposal has a tally only if somebody voted on it.
    pub open spec fn well_formed(self) -> bool {
        &&& forall|id: ProposalId| #[trigger]
            self.proposals.contains_key(id) <==> 1 <= id <= self.next_proposal_id
        &&& forall|id: ProposalId| #[trigger]
            self.proposals.contains_key(id) ==> self.proposals[id].well_formed()
        &&& forall|id: ProposalId| #[trigger]
            self.tallies.contains_key(id) ==> self.has_ballots(id)
        &&& forall|id: ProposalId, voter: AccountId| #[trigger]
            self.ballots.contains((id, voter)) ==> self.proposals.contains_key(id)
    }

    /// The tally of a proposal; empty while nobody has voted on it.
    pub open spec fn tally(self, proposal_id: ProposalId) -> ProposalVote {
        if self.tallies.contains_key(proposal_id) {
            self.tallies[proposal_id]
        } else {
            ProposalVote::empty()
        }
    }

    /// The answer to a proposal of `amount` for `duration` minutes while the
    /// treasury holds `balance`: the first rule that is broken decides.
    pub open spec fn propose_result(amount: Balance, duration: u64, balance: Balance) -> Result<
        (),
        DaoError,
    > {
        if amount == 0 {
            Err(DaoError::AmountShouldNotBeZero)
        } else if amount > balance {
            Err(DaoError::AmountShouldNotExceedTheBalance)
        } else if duration == 0 {
            Err(DaoError::DurationError)
        } else {
            Ok(())
        }
    }

    /// Whether one more identifier can be given out and the end of a window
    /// of `duration` minutes that opens at `now` can be stored.
    pub open spec fn can_store(self, duration: u64, now: u64) -> bool {
        &&& self.next_proposal_id < u64::MAX
        &&& now + duration * SECONDS_PER_MINUTE <= u64::MAX
    }

    /// The state after an accepted proposal made at time `now`.
    pub open spec fn proposed(self, to: AccountId, amount: Balance, duration: u64, now: u64) -> GovernorState
        recommends
            self.can_store(duration, now),
    {
        let id = (self.next_proposal_id + 1) as ProposalId;
        GovernorState {
            proposals: self.proposals.insert(id, Proposal::opened(to, amount, duration, now)),
            next_proposal_id: id,
            ..self
        }
    }

    /// The answer to a vote of `voter` on `proposal_id` at time `now`: the
    /// first rule that is broken decides.
    pub open spec fn vote_result(self, proposal_id: ProposalId, voter: AccountId, now: u64) -> Result<
        (),
        DaoError,
    > {
        if !self.proposals.contains_key(proposal_id) {
            Err(DaoError::ProposalNotFound)
        } else if self.proposals[proposal_id].executed {
            Err(DaoError::ProposalAlreadyExecuted)
        } else if !self.proposals[proposal_id].accepts_votes_at(now) {
            Err(DaoError::VotePeriodEnded)
        } else if self.ballots.contains((proposal_id, voter)) {
            Err(DaoError::AlreadyVoted)
        } else {
            Ok(())
        }
    }

    /// The state after the ballot of `voter` on `proposal_id` was recorded.
    pub open spec fn voted(self, proposal_id: ProposalId, voter: AccountId) -> GovernorState {
        GovernorState { ballots: self.ballots.insert((proposal_id, voter)), ..self }
    }

    /// The state after `weight` was added to the tally of `proposal_id` on
    /// the side of `vote`.
    pub open spec fn counted(self, proposal_id: ProposalId, vote: VoteType, weight: u64) -> GovernorState
        recommends
            self.proposals.contains_key(proposal_id),
            self.tally(proposal_id).has_room(vote, weight),
    {
        GovernorState {
            tallies: self.tallies.insert(
                proposal_id,
                self.tally(proposal_id).counted(vote, weight),
            ),
            ..self
        }
    }

    /// The answer to a request to execute `proposal_id`: the first rule
    /// that is broken decides. A proposal without a tally has not reached
    /// any quorum.
    pub open spec fn execute_result(self, proposal_id: ProposalId) -> Result<(), DaoError> {
        if !self.proposals.contains_key(proposal_id) {
            Err(DaoError::ProposalNotFound)
        } else if self.proposals[proposal_id].executed {
            Err(DaoError::ProposalAlreadyExecuted)
        } else if !self.tallies.contains_key(proposal_id) {
            Err(DaoError::QuorumNotReached)
        } else if !self.tallies[proposal_id].reaches(self.quorum) {
            Err(DaoError::QuorumNotReached)
        } else if !self.tallies[proposal_id].accepted() {
            Err(DaoError::ProposalNotAccepted)
        } else {
            Ok(())
        }
    }

    /// The state after `proposal_id` was marked as executed.
    pub open spec fn executed(self, proposal_id: ProposalId) -> GovernorState
        recommends
            self.proposals.contains_key(proposal_id),
    {
        GovernorState {
            proposals: self.proposals.insert(
                proposal_id,
                self.proposals[proposal_id].marked_executed(),
            ),
            ..self
        }
    }

    /// Whether the engine takes the call in this state: a proposal that
    /// breaks no rule must be storable, and a weight must belong to a
    /// ballot on record and fit the tally.
    pub open spec fn permits(self, op: Operation) -> bool {
        match op {
            Operation::Propose { to, amount, duration, balance, now } => {
                Self::propose_result(amount, duration, balance) is Ok ==> self.can_store(
                    duration,
                    now,
                )
            },
            Operation::Vote { proposal_id, voter, now } => true,
            Operation::Count { proposal_id, voter, vote, weight } => {
                &&& self.ballots.contains((proposal_id, voter))
                &&& self.tally(proposal_id).has_room(vote, weight)
            },
            Operation::Execute { proposal_id } => true,
        }
    }

    /// The state after one call. A call that is refused, or that the engine
    /// does not take, leaves the state as it is.
    pub open spec fn step(self, op: Operation) -> GovernorState {
        if !self.permits(op) {
            self
        } else {
            match op {
                Operation::Propose { to, amount, duration, balance, now } => {
                    if Self::propose_result(amount, duration, balance) is Ok {
                        self.proposed(to, amount, duration, now)
                    } else {
                        self
                    }
                },
                Operation::Vote { proposal_id, voter, now } => {
                    if self.vote_result(proposal_id, voter, now) is Ok {
                        self.voted(proposal_id, voter)
                    } else {
                        self
                    }
                },
                Operation::Count { proposal_id, voter, vote, weight } => {
                    self.counted(proposal_id, vote, weight)
                },
                Operation::Execute { proposal_id } => {
                    if self.execute_result(proposal_id) is Ok {
                        self.executed(proposal_id)
                    } else {
                        self
                    }
                },
            }
        }
    }

    /// The state after the calls `ops`, made in this order.
    pub open spec fn run(self, ops: Seq<Operation>) -> GovernorState
        decreases ops.len(),
    {
        if ops.len() == 0 {
            self
        } else {
            self.run(ops.drop_last()).step(ops.last())
        }
    }
}

} // verus!
