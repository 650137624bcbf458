//! The governance engine and what it hands to its host.

use crate::account::AccountId;
use crate::ballots::BallotRecord;
use crate::error::DaoError;
use crate::laws::step_keeps_well_formed;
use crate::model::{GovernorState, Operation};
use crate::proposal::{Balance, Proposal, ProposalId, ProposalVote, VoteType, SECONDS_PER_MINUTE};
use vstd::prelude::*;

verus! {

/// What a weight request asks: the weight that `token` gives to `voter`,
/// to be counted on the side of `vote` for `proposal_id`.
pub struct WeightQuery {
    pub token: AccountId,
    pub voter: AccountId,
    pub proposal_id: ProposalId,
    pub vote: VoteType,
}

/// A ballot that is on record and waits for its weight.
///
/// Only [`Governor::vote`] makes one, and [`Governor::count`] uses it up, so
/// that a ballot is counted at most once.
#[derive(Debug)]
pub struct WeightRequest {
    token: AccountId,
    voter: AccountId,
    proposal_id: ProposalId,
    vote: VoteType,
}

impl View for WeightRequest {
    type V = WeightQuery;

    closed spec fn view(&self) -> WeightQuery {
        WeightQuery {
            token: self.token,
            voter: self.voter,
            proposal_id: self.proposal_id,
            vote: self.vote,
        }
    }
}

impl WeightRequest {
    /// The token contract to ask.
    pub fn token(&self) -> (token: AccountId)
        ensures
            token == self@.token,
    {
        self.token
    }

    /// The account whose weight is asked for.
    pub fn voter(&self) -> (voter: AccountId)
        ensures
            voter == self@.voter,
    {
        self.voter
    }

    /// The proposal that the ballot is for.
    pub fn proposal_id(&self) -> (proposal_id: ProposalId)
        ensures
            proposal_id == self@.proposal_id,
    {
        self.proposal_id
    }

    /// The side that the ballot takes.
    pub fn vote(&self) -> (vote: VoteType)
        ensures
            vote == self@.vote,
    {
        self.vote
    }
}

/// The payment that an executed proposal asks of the treasury.
#[derive(Clone, Copy, Debug, PartialEq, Eq)]
pub struct Transfer {
    pub to: AccountId,
    pub amount: Balance,
}

impl Transfer {
    /// The answer to the caller of an execution once the treasury has
    /// reported whether it paid.
    pub fn settle(self, paid: bool) -> (result: Result<(), DaoError>)
        ensures
            result == (if paid {
                Ok::<(), DaoError>(())
            } else {
                Err::<(), DaoError>(DaoError::TransferFailed)
            }),
    {
        if paid {
            Ok(())
        } else {
            Err(DaoError::TransferFailed)
        }
    }
}

/// The state of an engine laid out as plain lists, as it is kept between
/// calls: the proposal with identifier `i` and its tally at index `i - 1`.
#[derive(Debug, PartialEq, Eq)]
pub struct GovernorSnapshot {
    pub proposals: Vec<Proposal>,
    pub proposal_votes: Vec<Option<ProposalVote>>,
    pub votes: Vec<(ProposalId, AccountId)>,
    pub next_proposal_id: ProposalId,
    pub quorum: u64,
    pub governance_token: AccountId,
}

impl GovernorSnapshot {
    /// The state that the lists stand for.
    pub open spec fn state(&self) -> GovernorState {
        GovernorState::of_lists(
            self.proposals@,
            self.proposal_votes@,
            self.votes@.to_set(),
            self.next_proposal_id,
            self.quorum,
            self.governance_token,
        )
    }

    /// Whether an engine can be made of the lists: there is one proposal
    /// and one place for a tally for each identifier given out, and the
    /// state they stand for is well formed.
    pub open spec fn restorable(&self) -> bool {
        &&& self.proposals@.len() == self.next_proposal_id
        &&& self.proposal_votes@.len() == self.next_proposal_id
        &&& self.state().well_formed()
    }
}

/// The governance engine: proposals, their tallies and the ballot record.
#[derive(Debug)]
pub struct Governor {
    /// The proposal with identifier `i` is at index `i - 1`.
    proposals: Vec<Proposal>,
    /// The tally of the proposal with identifier `i` is at index `i - 1`.
    proposal_votes: Vec<Option<ProposalVote>>,
    votes: BallotRecord,
    next_proposal_id: ProposalId,
    quorum: u64,
    governance_token: AccountId,
}

impl View for Governor {
    type V = GovernorState;

    closed spec fn view(&self) -> GovernorState {
        GovernorState::of_lists(
            self.proposals@,
            self.proposal_votes@,
            self.votes@,
            self.next_proposal_id,
            self.quorum,
            self.governance_token,
        )
    }
}

impl Governor {
    /// The stores have one slot for each identifier given out.
    pub closed spec fn aligned(&self) -> bool {
        &&& self.proposals.len() == self.next_proposal_id
        &&& self.proposal_votes.len() == self.next_proposal_id
        &&& self.votes.well_formed()
    }

    /// The engine is consistent within itself and so is the state it stands
    /// for.
    pub open spec fn well_formed(&self) -> bool {
        &&& self.aligned()
        &&& self@.well_formed()
    }

    /// The index at which the stores hold `proposal_id`, if it is in use.
    fn slot(&self, proposal_id: ProposalId) -> (slot: Option<usize>)
        requires
            self.well_formed(),
        ensures
            slot is Some <==> self@.proposals.contains_key(proposal_id),
            slot matches Some(index) ==> {
                &&& index == proposal_id - 1
                &&& index < self.proposals@.len()
                &&& index < self.proposal_votes@.len()
                &&& self.proposals@[index as int] == self@.proposals[proposal_id]
                &&& self.proposal_votes@[index as int] is Some <==> self@.tallies.contains_key(
                    proposal_id,
                )
                &&& self.proposal_votes@[index as int] matches Some(tally) ==> tally
                    == self@.tallies[proposal_id]
            },
    {
        if proposal_id == 0 || proposal_id > self.next_proposal_id {
            None
        } else {
            Some((proposal_id - 1) as usize)
        }
    }

    /// An engine without proposals that asks `governance_token` for weights
    /// and executes on a combined weight of `quorum`.
    pub fn new(governance_token: AccountId, quorum: u64) -> (governor: Governor)
        ensures
            governor.well_formed(),
            governor@ == GovernorState::initial(governance_token, quorum),
    {
        let governor = Governor {
            proposals: Vec::new(),
            proposal_votes: Vec::new(),
            votes: BallotRecord::new(),
            next_proposal_id: 0,
            quorum,
            governance_token,
        };
        proof {
            let initial = GovernorState::initial(governance_token, quorum);
            assert(governor@.proposals =~= initial.proposals);
            assert(governor@.tallies =~= initial.tallies);
        }
        governor
    }

    /// Tells whether [`Governor::propose`] takes these arguments: a proposal
    /// that breaks no rule needs a free identifier and a window whose end
    /// can be stored.
    pub fn takes_proposal(&self, amount: Balance, duration: u64, balance: Balance, now: u64) -> (taken:
        bool)
        ensures
            taken == (GovernorState::propose_result(amount, duration, balance) is Ok
                ==> self@.can_store(duration, now)),
    {
        if amount == 0 || amount > balance || duration == 0 {
            return true;
        }
        if self.next_proposal_id == u64::MAX {
            return false;
        }
        match duration.checked_mul(SECONDS_PER_MINUTE) {
            Some(seconds) => now.checked_add(seconds).is_some(),
            None => false,
        }
    }

    /// Proposes to pay `amount` to `to`, open for votes for `duration`
    /// minutes from `now`, while the treasury holds `balance`.
    ///
    /// A proposal that breaks no rule is stored under the next identifier.
    pub fn propose(
        &mut self,
        to: AccountId,
        amount: Balance,
        duration: u64,
        balance: Balance,
        now: u64,
    ) -> (result: Result<(), DaoError>)
        requires
            old(self).well_formed(),
            GovernorState::propose_result(amount, duration, balance) is Ok ==> old(self)@.can_store(
                duration,
                now,
            ),
        ensures
            final(self).well_formed(),
            result == GovernorState::propose_result(amount, duration, balance),
            result is Ok ==> final(self)@ == old(self)@.proposed(to, amount, duration, now),
            result is Err ==> final(self)@ == old(self)@,
            final(self)@ == old(self)@.step(
                Operation::Propose { to, amount, duration, balance, now },
            ),
    {
        if amount == 0 {
            return Err(DaoError::AmountShouldNotBeZero);
        }
        if amount > balance {
            return Err(DaoError::AmountShouldNotExceedTheBalance);
        }
        if duration == 0 {
            return Err(DaoError::DurationError);
        }
        let proposal = Proposal {
            to,
            amount,
            vote_start: now,
            vote_end: now + duration * SECONDS_PER_MINUTE,
            executed: false,
        };
        self.next_proposal_id += 1;
        self.proposals.push(proposal);
        self.proposal_votes.push(None);
        proof {
            let before = old(self)@;
            let after = before.proposed(to, amount, duration, now);
            assert(self@.proposals =~= after.proposals);
            assert(self@.tallies =~= after.tallies);
            step_keeps_well_formed(before, Operation::Propose { to, amount, duration, balance, now });
        }
        Ok(())
    }

    /// Records the ballot of `voter` on `proposal_id` at time `now`, and
    /// hands back the request for the weight of `voter`, which
    /// [`Governor::count`] then adds to the tally.
    ///
    /// The ballot is on record before the weight is asked for: while the
    /// request is open, a second vote of `voter` on the proposal is refused.
    pub fn vote(&mut self, proposal_id: ProposalId, vote: VoteType, voter: AccountId, now: u64) -> (result:
        Result<WeightRequest, DaoError>)
        requires
            old(self).well_formed(),
        ensures
            final(self).well_formed(),
            match result {
                Ok(request) => {
                    &&& old(self)@.vote_result(proposal_id, voter, now) == Ok::<(), DaoError>(())
                    &&& final(self)@ == old(self)@.voted(proposal_id, voter)
                    &&& request@ == (WeightQuery {
                        token: old(self)@.governance_token,
                        voter,
                        proposal_id,
                        vote,
                    })
                },
                Err(e) => {
                    &&& old(self)@.vote_result(proposal_id, voter, now) == Err::<(), DaoError>(e)
                    &&& final(self)@ == old(self)@
                },
            },
            final(self)@ == old(self)@.step(Operation::Vote { proposal_id, voter, now }),
    {
        let index = match self.slot(proposal_id) {
            Some(index) => index,
            None => {
                return Err(DaoError::ProposalNotFound);
            },
        };
        let proposal = &self.proposals[index];
        if proposal.executed {
            return Err(DaoError::ProposalAlreadyExecuted);
        }
        if now > proposal.vote_end {
            return Err(DaoError::VotePeriodEnded);
        }
        if !self.votes.insert(proposal_id, voter) {
            return Err(DaoError::AlreadyVoted);
        }
        proof {
            step_keeps_well_formed(old(self)@, Operation::Vote { proposal_id, voter, now });
        }
        Ok(WeightRequest { token: self.governance_token, voter, proposal_id, vote })
    }

    /// Tells whether [`Governor::count`] takes these arguments: the ballot of
    /// the request is on record and the tally has room for the weight.
    pub fn takes_weight(&self, request: &WeightRequest, weight: u64) -> (taken: bool)
        requires
            self.well_formed(),
        ensures
            taken == (self@.ballots.contains((request@.proposal_id, request@.voter))
                && self@.tally(request@.proposal_id).has_room(request@.vote, weight)),
    {
        if !self.votes.contains(request.proposal_id, &request.voter) {
            return false;
        }
        let tally = match self.proposal_vote(request.proposal_id) {
            Some(tally) => tally,
            None => ProposalVote::default(),
        };
        match request.vote {
            VoteType::For => tally.for_votes.checked_add(weight).is_some(),
            VoteType::Against => tally.against_votes.checked_add(weight).is_some(),
        }
    }

    /// Adds `weight`, the answer to `request`, to the tally of its proposal
    /// on the side of its ballot. The first vote on a proposal creates the
    /// tally.
    pub fn count(&mut self, request: WeightRequest, weight: u64)
        requires
            old(self).well_formed(),
            old(self)@.ballots.contains((request@.proposal_id, request@.voter)),
            old(self)@.tally(request@.proposal_id).has_room(request@.vote, weight),
        ensures
            final(self).well_formed(),
            final(self)@ == old(self)@.counted(request@.proposal_id, request@.vote, weight),
            final(self)@ == old(self)@.step(
                Operation::Count {
                    proposal_id: request@.proposal_id,
                    voter: request@.voter,
                    vote: request@.vote,
                    weight,
                },
            ),
    {
        let index = (request.proposal_id - 1) as usize;
        let tally = match self.proposal_votes[index] {
            Some(tally) => tally,
            None => ProposalVote::default(),
        };
        self.proposal_votes[index] = Some(tally.count(request.vote, weight));
        proof {
            let after = old(self)@.counted(request@.proposal_id, request@.vote, weight);
            assert(self@.proposals =~= after.proposals);
            assert(self@.tallies =~= after.tallies);
            step_keeps_well_formed(
                old(self)@,
                Operation::Count {
                    proposal_id: request@.proposal_id,
                    voter: request@.voter,
                    vote: request@.vote,
                    weight,
                },
            );
        }
    }

    /// Marks `proposal_id` as executed if it has reached the quorum and is
    /// accepted, and hands back the payment to make.
    ///
    /// The mark is set before the payment is made and stays whether or not
    /// the treasury then pays: a proposal is executed at most once.
    pub fn execute(&mut self, proposal_id: ProposalId) -> (result: Result<Transfer, DaoError>)
        requires
            old(self).well_formed(),
        ensures
            final(self).well_formed(),
            match result {
                Ok(transfer) => {
                    &&& old(self)@.execute_result(proposal_id) == Ok::<(), DaoError>(())
                    &&& final(self)@ == old(self)@.executed(proposal_id)
                    &&& transfer == (Transfer {
                        to: old(self)@.proposals[proposal_id].to,
                        amount: old(self)@.proposals[proposal_id].amount,
                    })
                },
                Err(e) => {
                    &&& old(self)@.execute_result(proposal_id) == Err::<(), DaoError>(e)
                    &&& final(self)@ == old(self)@
                },
            },
            final(self)@ == old(self)@.step(Operation::Execute { proposal_id }),
    {
        let index = match self.slot(proposal_id) {
            Some(index) => index,
            None => {
                return Err(DaoError::ProposalNotFound);
            },
        };
        let proposal = self.proposals[index];
        if proposal.executed {
            return Err(DaoError::ProposalAlreadyExecuted);
        }
        match self.proposal_votes[index] {
            Some(tally) => {
                if !tally.meets_quorum(self.quorum) {
                    return Err(DaoError::QuorumNotReached);
                }
                if !tally.is_accepted() {
                    return Err(DaoError::ProposalNotAccepted);
                }
            },
            None => {
                return Err(DaoError::QuorumNotReached);
            },
        }
        self.proposals[index] = Proposal {
            to: proposal.to,
            amount: proposal.amount,
            vote_start: proposal.vote_start,
            vote_end: proposal.vote_end,
            executed: true,
        };
        proof {
            let after = old(self)@.executed(proposal_id);
            assert(self@.proposals =~= after.proposals);
            assert(self@.tallies =~= after.tallies);
            step_keeps_well_formed(old(self)@, Operation::Execute { proposal_id });
        }
        Ok(Transfer { to: proposal.to, amount: proposal.amount })
    }

    /// Makes an engine of a snapshot, if the snapshot is one of an engine.
    pub fn restore(snapshot: GovernorSnapshot) -> (restored: Option<Governor>)
        ensures
            restored is Some <==> snapshot.restorable(),
            restored matches Some(governor) ==> governor.well_formed() && governor@
                == snapshot.state(),
    {
        let ghost state = snapshot.state();
        let GovernorSnapshot {
            proposals,
            proposal_votes,
            votes,
            next_proposal_id,
            quorum,
            governance_token,
        } = snapshot;
        if proposals.len() as u64 != next_proposal_id || proposal_votes.len() as u64
            != next_proposal_id {
            return None;
        }
        let mut i: usize = 0;
        while i < proposals.len()
            invariant
                i <= proposals.len(),
                proposals.len() == next_proposal_id,
                state.proposals == snapshot.state().proposals,
                snapshot.proposals == proposals,
                forall|j: int| 0 <= j < i ==> (#[trigger] proposals@[j]).well_formed(),
            decreases proposals.len() - i,
        {
            if proposals[i].amount == 0 || proposals[i].vote_end <= proposals[i].vote_start {
                assert(state.proposals.contains_key((i + 1) as ProposalId));
                assert(state.proposals[(i + 1) as ProposalId] == proposals@[i as int]);
                return None;
            }
            i += 1;
        }
        let mut k: usize = 0;
        while k < votes.len()
            invariant
                k <= votes.len(),
                proposals.len() == next_proposal_id,
                state == snapshot.state(),
                snapshot.votes == votes,
                snapshot.proposals == proposals,
                forall|j: int| 0 <= j < k ==> 1 <= (#[trigger] votes@[j]).0 <= next_proposal_id,
            decreases votes.len() - k,
        {
            if votes[k].0 == 0 || votes[k].0 > next_proposal_id {
                proof {
                    let (id, voter) = votes@[k as int];
                    assert(votes@.contains((id, voter)));
                    assert(state.ballots.contains((id, voter)));
                    assert(!state.proposals.contains_key(id));
                }
                return None;
            }
            k += 1;
        }
        let record = BallotRecord::from_entries(&votes);
        let mut t: usize = 0;
        while t < proposal_votes.len()
            invariant
                t <= proposal_votes.len(),
                proposal_votes.len() == next_proposal_id,
                state == snapshot.state(),
                snapshot.proposal_votes == proposal_votes,
                record@ == state.ballots,
                forall|j: int|
                    0 <= j < t && (#[trigger] proposal_votes@[j]) is Some ==> state.has_ballots(
                        (j + 1) as ProposalId,
                    ),
            decreases proposal_votes.len() - t,
        {
            if proposal_votes[t].is_some() && !record.any_for((t + 1) as ProposalId) {
                assert(state.tallies.contains_key((t + 1) as ProposalId));
                return None;
            }
            t += 1;
        }
        let governor = Governor {
            proposals,
            proposal_votes,
            votes: record,
            next_proposal_id,
            quorum,
            governance_token,
        };
        proof {
            assert(governor@.proposals =~= state.proposals);
            assert(governor@.tallies =~= state.tallies);
            assert forall|id: ProposalId| #[trigger]
                state.proposals.contains_key(id) implies state.proposals[id].well_formed() by {
                assert(proposals@[id - 1].well_formed());
            }
            assert forall|id: ProposalId, voter: AccountId| #[trigger]
                state.ballots.contains((id, voter)) implies state.proposals.contains_key(id) by {
                let j = choose|j: int| 0 <= j < votes@.len() && votes@[j] == (id, voter);
                assert(1 <= votes@[j].0 <= next_proposal_id);
            }
            assert forall|id: ProposalId| #[trigger]
                state.tallies.contains_key(id) implies state.has_ballots(id) by {
                assert(proposal_votes@[id - 1] is Some);
            }
        }
        Some(governor)
    }

    /// Lays the state of the engine out as plain lists.
    pub fn into_snapshot(self) -> (snapshot: GovernorSnapshot)
        requires
            self.well_formed(),
        ensures
            snapshot.restorable(),
            snapshot.state() == self@,
            snapshot.votes@.no_duplicates(),
    {
        let ghost state = self@;
        let snapshot = GovernorSnapshot {
            proposals: self.proposals,
            proposal_votes: self.proposal_votes,
            votes: self.votes.into_entries(),
            next_proposal_id: self.next_proposal_id,
            quorum: self.quorum,
            governance_token: self.governance_token,
        };
        proof {
            assert(snapshot.state().proposals =~= state.proposals);
            assert(snapshot.state().tallies =~= state.tallies);
        }
        snapshot
    }

    /// The proposal stored under `proposal_id`.
    pub fn proposal(&self, proposal_id: ProposalId) -> (proposal: Option<Proposal>)
        requires
            self.well_formed(),
        ensures
            proposal == (if self@.proposals.contains_key(proposal_id) {
                Some(self@.proposals[proposal_id])
            } else {
                None
            }),
    {
        match self.slot(proposal_id) {
            Some(index) => Some(self.proposals[index]),
            None => None,
        }
    }

    /// The tally of `proposal_id`, once a vote on it has been counted.
    pub fn proposal_vote(&self, proposal_id: ProposalId) -> (tally: Option<ProposalVote>)
        requires
            self.well_formed(),
        ensures
            tally == (if self@.tallies.contains_key(proposal_id) {
                Some(self@.tallies[proposal_id])
            } else {
                None
            }),
    {
        match self.slot(proposal_id) {
            Some(index) => self.proposal_votes[index],
            None => None,
        }
    }

    /// Tells whether `voter` has a ballot on record for `proposal_id`.
    pub fn has_voted(&self, proposal_id: ProposalId, voter: &AccountId) -> (voted: bool)
        ensures
            voted == self@.ballots.contains((proposal_id, *voter)),
    {
        self.votes.contains(proposal_id, voter)
    }

    /// The identifier given out last; 0 before the first proposal.
    pub fn next_proposal_id(&self) -> (id: ProposalId)
        ensures
            id == self@.next_proposal_id,
    {
        self.next_proposal_id
    }

    /// The combined weight a proposal needs before it can be executed.
    pub fn quorum(&self) -> (quorum: u64)
        ensures
            quorum == self@.quorum,
    {
        self.quorum
    }

    /// The token contract that is asked for the weight of a voter.
    pub fn governance_token(&self) -> (token: AccountId)
        ensures
            token == self@.governance_token,
    {
        self.governance_token
    }
}

} // verus!
