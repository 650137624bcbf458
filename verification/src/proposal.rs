//! Proposals, votes and tallies.

use crate::account::AccountId;
use vstd::prelude::*;

verus! {

/// Identifier of a proposal; the first proposal is number 1.
pub type ProposalId = u64;

/// An amount of the native currency.
pub type Balance = u128;

/// Seconds in one minute: proposal durations are given in minutes and
/// voting windows are kept in seconds.
pub const SECONDS_PER_MINUTE: u64 = 60;

/// The two choices on a ballot.
#[derive(Clone, Copy, Debug, PartialEq, Eq, Structural)]
pub enum VoteType {
    Against,
    For,
}

/// A request to pay `amount` out of the treasury to `to`, open for votes
/// from `vote_start` to `vote_end`.
#[derive(Clone, Copy, Debug, PartialEq, Eq)]
pub struct Proposal {
    pub to: AccountId,
    pub amount: Balance,
    pub vote_start: u64,
    pub vote_end: u64,
    pub executed: bool,
}

impl Proposal {
    /// A proposal pays a positive amount and its window has a positive length.
    pub open spec fn well_formed(self) -> bool {
        &&& self.amount > 0
        &&& self.vote_end > self.vote_start
    }

    /// The proposal that is stored when `amount` for `to` is proposed at
    /// time `now` for `duration` minutes.
    pub open spec fn opened(to: AccountId, amount: Balance, duration: u64, now: u64) -> Proposal
        recommends
            now + duration * SECONDS_PER_MINUTE <= u64::MAX,
    {
        Proposal {
            to,
            amount,
            vote_start: now,
            vote_end: (now + duration * SECONDS_PER_MINUTE) as u64,
            executed: false,
        }
    }

    /// The same proposal, marked as executed.
    pub open spec fn marked_executed(self) -> Proposal {
        Proposal { executed: true, ..self }
    }

    /// Whether a vote may still be cast at time `now`.
    pub open spec fn accepts_votes_at(self, now: u64) -> bool {
        now <= self.vote_end
    }
}

/// The tally of a proposal: the weight cast for it and against it.
#[derive(Clone, Copy, Debug, PartialEq, Eq, Structural)]
pub struct ProposalVote {
    pub for_votes: u64,
    pub against_votes: u64,
}

impl Default for ProposalVote {
    /// The tally before any vote.
    fn default() -> (tally: Self)
        ensures
            tally == ProposalVote::empty(),
    {
        ProposalVote { for_votes: 0, against_votes: 0 }
    }
}

impl ProposalVote {
    /// The tally before any vote.
    pub open spec fn empty() -> ProposalVote {
        ProposalVote { for_votes: 0, against_votes: 0 }
    }

    /// The combined weight of all votes.
    pub open spec fn total(self) -> int {
        self.for_votes + self.against_votes
    }

    /// The weight on the side of `vote`.
    pub open spec fn side(self, vote: VoteType) -> u64 {
        match vote {
            VoteType::For => self.for_votes,
            VoteType::Against => self.against_votes,
        }
    }

    /// Whether `weight` more on the side of `vote` still fits the counter.
    pub open spec fn has_room(self, vote: VoteType, weight: u64) -> bool {
        self.side(vote) + weight <= u64::MAX
    }

    /// The tally after `weight` was added on the side of `vote`.
    pub open spec fn counted(self, vote: VoteType, weight: u64) -> ProposalVote
        recommends
            self.has_room(vote, weight),
    {
        match vote {
            VoteType::For => ProposalVote {
                for_votes: (self.for_votes + weight) as u64,
                against_votes: self.against_votes,
            },
            VoteType::Against => ProposalVote {
                for_votes: self.for_votes,
                against_votes: (self.against_votes + weight) as u64,
            },
        }
    }

    /// Whether the combined weight is at least `quorum`.
    pub open spec fn reaches(self, quorum: u64) -> bool {
        self.total() >= quorum
    }

    /// Whether the proposal is accepted: a tie is enough.
    pub open spec fn accepted(self) -> bool {
        self.for_votes >= self.against_votes
    }

    /// Adds `weight` on the side of `vote`.
    pub fn count(self, vote: VoteType, weight: u64) -> (tally: ProposalVote)
        requires
            self.has_room(vote, weight),
        ensures
            tally == self.counted(vote, weight),
    {
        match vote {
            VoteType::For => ProposalVote {
                for_votes: self.for_votes + weight,
                against_votes: self.against_votes,
            },
            VoteType::Against => ProposalVote {
                for_votes: self.for_votes,
                against_votes: self.against_votes + weight,
            },
        }
    }

    /// Tells whether the combined weight is at least `quorum`.
    pub fn meets_quorum(&self, quorum: u64) -> (met: bool)
        ensures
            met == self.reaches(quorum),
    {
        let total: u128 = self.for_votes as u128 + self.against_votes as u128;
        total >= quorum as u128
    }

    /// Tells whether at least as much weight is for the proposal as against it.
    pub fn is_accepted(&self) -> (accepted: bool)
        ensures
            accepted == self.accepted(),
    {
        self.for_votes >= self.against_votes
    }
}

} // verus!
