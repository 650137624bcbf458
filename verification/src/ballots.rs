//! The record of the ballots cast.

use crate::account::AccountId;
use crate::proposal::ProposalId;
use vstd::prelude::*;

verus! {

/// The permanent record of who has voted on which proposal.
///
/// Entries are only ever added, and each pair of proposal and voter is held
/// at most once.
#[derive(Debug)]
pub struct BallotRecord {
    cast: Vec<(ProposalId, AccountId)>,
}

impl View for BallotRecord {
    type V = Set<(ProposalId, AccountId)>;

    /// The pairs of proposal and voter that have been recorded.
    closed spec fn view(&self) -> Set<(ProposalId, AccountId)> {
        self.cast@.to_set()
    }
}

impl BallotRecord {
    /// No pair of proposal and voter is held twice.
    pub closed spec fn well_formed(&self) -> bool {
        self.cast@.no_duplicates()
    }

    /// A record without ballots.
    pub fn new() -> (record: BallotRecord)
        ensures
            record.well_formed(),
            record@ == Set::<(ProposalId, AccountId)>::empty(),
    {
        let record = BallotRecord { cast: Vec::new() };
        assert(record.cast@.to_set() =~= Set::empty());
        record
    }

    /// Tells whether `voter` has a ballot on record for `proposal_id`.
    pub fn contains(&self, proposal_id: ProposalId, voter: &AccountId) -> (found: bool)
        ensures
            found == self@.contains((proposal_id, *voter)),
    {
        let mut i: usize = 0;
        while i < self.cast.len()
            invariant
                i <= self.cast.len(),
                forall|j: int| 0 <= j < i ==> self.cast@[j] != (proposal_id, *voter),
            decreases self.cast.len() - i,
        {
            if self.cast[i].0 == proposal_id && self.cast[i].1 == *voter {
                assert(self.cast@[i as int] == (proposal_id, *voter));
                return true;
            }
            i += 1;
        }
        false
    }

    /// Tells whether anybody has a ballot on record for `proposal_id`.
    pub fn any_for(&self, proposal_id: ProposalId) -> (found: bool)
        ensures
            found == exists|voter: AccountId| self@.contains((proposal_id, voter)),
    {
        let mut i: usize = 0;
        while i < self.cast.len()
            invariant
                i <= self.cast.len(),
                forall|j: int| 0 <= j < i ==> (#[trigger] self.cast@[j]).0 != proposal_id,
            decreases self.cast.len() - i,
        {
            if self.cast[i].0 == proposal_id {
                assert(self@.contains((proposal_id, self.cast@[i as int].1))) by {
                    assert(self.cast@[i as int] == (proposal_id, self.cast@[i as int].1));
                }
                return true;
            }
            i += 1;
        }
        assert forall|voter: AccountId| !self@.contains((proposal_id, voter)) by {
            if self.cast@.contains((proposal_id, voter)) {
                let j = choose|j: int|
                    0 <= j < self.cast@.len() && self.cast@[j] == (proposal_id, voter);
                assert(self.cast@[j].0 == proposal_id);
            }
        }
        false
    }

    /// Records the ballot of `voter` on `proposal_id` unless it is on record
    /// already, and tells whether it was new.
    pub fn insert(&mut self, proposal_id: ProposalId, voter: AccountId) -> (fresh: bool)
        requires
            old(self).well_formed(),
        ensures
            final(self).well_formed(),
            fresh == !old(self)@.contains((proposal_id, voter)),
            final(self)@ == old(self)@.insert((proposal_id, voter)),
            !fresh ==> final(self)@ == old(self)@,
    {
        if self.contains(proposal_id, &voter) {
            assert(self@.insert((proposal_id, voter)) =~= self@);
            return false;
        }
        self.cast.push((proposal_id, voter));
        proof {
            old(self).cast@.lemma_push_to_set_commute((proposal_id, voter));
        }
        true
    }

    /// The record of the ballots in `entries`; a pair that occurs more than
    /// once is taken once.
    pub fn from_entries(entries: &Vec<(ProposalId, AccountId)>) -> (record: BallotRecord)
        ensures
            record.well_formed(),
            record@ == entries@.to_set(),
    {
        let mut record = BallotRecord::new();
        let mut k: usize = 0;
        while k < entries.len()
            invariant
                k <= entries.len(),
                record.well_formed(),
                record@ == entries@.take(k as int).to_set(),
            decreases entries.len() - k,
        {
            let (proposal_id, voter) = entries[k];
            record.insert(proposal_id, voter);
            proof {
                let before = entries@.take(k as int);
                assert(entries@.take(k + 1) == before.push(entries@[k as int]));
                before.lemma_push_to_set_commute(entries@[k as int]);
            }
            k += 1;
        }
        assert(entries@.take(entries@.len() as int) == entries@);
        record
    }

    /// The ballots on record, in the order in which they were cast.
    pub fn entries(&self) -> (entries: &Vec<(ProposalId, AccountId)>)
        ensures
            entries@.to_set() == self@,
            self.well_formed() ==> entries@.no_duplicates(),
    {
        &self.cast
    }

    /// Gives the ballots on record away, in the order in which they were
    /// cast.
    pub fn into_entries(self) -> (entries: Vec<(ProposalId, AccountId)>)
        ensures
            entries@.to_set() == self@,
            self.well_formed() ==> entries@.no_duplicates(),
    {
        self.cast
    }
}

} // verus!
