//! What holds of the engine in every state and over every sequence of calls.

use crate::account::AccountId;
use crate::error::DaoError;
use crate::model::{GovernorState, Operation};
use crate::proposal::{Balance, ProposalId};
use vstd::prelude::*;

verus! {

/// A proposal of nothing is refused as such, and one of more than the
/// treasury holds as such, whatever the duration; a duration of zero is
/// refused as such when the amount is in order; anything else is accepted.
pub proof fn propose_names_first_broken_rule(amount: Balance, duration: u64, balance: Balance)
    ensures
        amount == 0 ==> GovernorState::propose_result(amount, duration, balance) == Err::<
            (),
            DaoError,
        >(DaoError::AmountShouldNotBeZero),
        amount > balance ==> GovernorState::propose_result(amount, duration, balance) == Err::<
            (),
            DaoError,
        >(DaoError::AmountShouldNotExceedTheBalance),
        0 < amount <= balance && duration == 0 ==> GovernorState::propose_result(
            amount,
            duration,
            balance,
        ) == Err::<(), DaoError>(DaoError::DurationError),
        0 < amount <= balance && duration > 0 ==> GovernorState::propose_result(
            amount,
            duration,
            balance,
        ) is Ok,
{
}

/// An accepted proposal made at time `now` for `duration` minutes is stored
/// under the next identifier, unexecuted, with a window that opens at `now`
/// and closes sixty seconds later for each minute.
pub proof fn accepted_proposal_is_stored(
    state: GovernorState,
    to: AccountId,
    amount: Balance,
    duration: u64,
    balance: Balance,
    now: u64,
)
    requires
        state.well_formed(),
        state.can_store(duration, now),
        GovernorState::propose_result(amount, duration, balance) is Ok,
    ensures
        ({
            let after = state.step(Operation::Propose { to, amount, duration, balance, now });
            let id = after.next_proposal_id;
            &&& id == state.next_proposal_id + 1
            &&& after.proposals.contains_key(id)
            &&& after.proposals[id].to == to
            &&& after.proposals[id].amount == amount
            &&& after.proposals[id].vote_start == now
            &&& after.proposals[id].vote_end == now + 60 * duration
            &&& !after.proposals[id].executed
        }),
{
}

/// The identifier that an accepted proposal gets is greater than every
/// identifier in use, so it was never given out before, and the proposals
/// stored before keep their identifiers.
pub proof fn new_identifier_is_fresh(
    state: GovernorState,
    to: AccountId,
    amount: Balance,
    duration: u64,
    balance: Balance,
    now: u64,
)
    requires
        state.well_formed(),
        state.can_store(duration, now),
        GovernorState::propose_result(amount, duration, balance) is Ok,
    ensures
        ({
            let after = state.step(Operation::Propose { to, amount, duration, balance, now });
            &&& !state.proposals.contains_key(after.next_proposal_id)
            &&& forall|id: ProposalId| #[trigger]
                state.proposals.contains_key(id) ==> id < after.next_proposal_id
                    && after.proposals.contains_key(id) && after.proposals[id]
                    == state.proposals[id]
        }),
{
}

/// Every call leaves a well-formed state well formed.
pub proof fn step_keeps_well_formed(state: GovernorState, op: Operation)
    requires
        state.well_formed(),
    ensures
        state.step(op).well_formed(),
{
    let after = state.step(op);
    assert forall|id: ProposalId| #[trigger] after.tallies.contains_key(id) implies after.has_ballots(
        id,
    ) by {
        if state.tallies.contains_key(id) {
            let voter = choose|voter: AccountId| state.ballots.contains((id, voter));
            assert(after.ballots.contains((id, voter)));
        } else if let Operation::Count { proposal_id, voter, vote, weight } = op {
            assert(after.ballots.contains((proposal_id, voter)));
        }
    }
}

/// Each call changes its own part of the state and nothing else: only a
/// proposal adds a proposal and moves the counter, only a vote adds a
/// ballot, only the arrival of a weight changes a tally, and that of one
/// proposal, and only an execution changes a stored proposal, and that one
/// by marking it.
pub proof fn each_call_changes_its_own_part(state: GovernorState, op: Operation)
    requires
        state.well_formed(),
    ensures
        ({
            let after = state.step(op);
            &&& !(op is Propose) ==> after.next_proposal_id == state.next_proposal_id
                && after.proposals.dom() == state.proposals.dom()
            &&& !(op is Vote) ==> after.ballots == state.ballots
            &&& !(op is Count) ==> after.tallies == state.tallies
            &&& !(op is Execute) ==> forall|id: ProposalId| #[trigger]
                state.proposals.contains_key(id) ==> after.proposals[id] == state.proposals[id]
            &&& op matches Operation::Count { proposal_id, .. } ==> forall|id: ProposalId|
                id != proposal_id ==> after.tally(id) == state.tally(id)
            &&& op matches Operation::Execute { proposal_id } ==> forall|id: ProposalId| #[trigger]
                state.proposals.contains_key(id) && id != proposal_id ==> after.proposals[id]
                    == state.proposals[id]
        }),
{
    let after = state.step(op);
    assert(after.proposals.dom() =~= state.proposals.dom() || op is Propose);
}

/// What one call can change of a well-formed state: the counter of
/// identifiers does not go down, a stored proposal stays under its
/// identifier and changes at most by being marked as executed, a mark once
/// set stays, ballots stay on record, and no side of a tally shrinks.
pub open spec fn carries_on(before: GovernorState, after: GovernorState) -> bool {
    &&& before.next_proposal_id <= after.next_proposal_id
    &&& before.quorum == after.quorum
    &&& before.governance_token == after.governance_token
    &&& forall|id: ProposalId| #[trigger]
        before.proposals.contains_key(id) ==> {
            &&& after.proposals.contains_key(id)
            &&& after.proposals[id].to == before.proposals[id].to
            &&& after.proposals[id].amount == before.proposals[id].amount
            &&& after.proposals[id].vote_start == before.proposals[id].vote_start
            &&& after.proposals[id].vote_end == before.proposals[id].vote_end
            &&& before.proposals[id].executed ==> after.proposals[id].executed
        }
    &&& forall|id: ProposalId| #[trigger]
        after.proposals.contains_key(id) && !before.proposals.contains_key(id) ==> id
            > before.next_proposal_id
    &&& forall|id: ProposalId, voter: AccountId| #[trigger]
        before.ballots.contains((id, voter)) ==> after.ballots.contains((id, voter))
    &&& forall|id: ProposalId| #[trigger]
        before.tallies.contains_key(id) ==> {
            &&& after.tallies.contains_key(id)
            &&& after.tallies[id].for_votes >= before.tallies[id].for_votes
            &&& after.tallies[id].against_votes >= before.tallies[id].against_votes
        }
}

/// One call carries a well-formed state on.
pub proof fn step_carries_on(state: GovernorState, op: Operation)
    requires
        state.well_formed(),
    ensures
        carries_on(state, state.step(op)),
{
}

/// Over the whole life of the engine the state stays well formed and is
/// carried on: identifiers only grow, so none is given out twice; proposals
/// are neither removed nor rewritten; an executed proposal stays executed;
/// a ballot stays on record; a tally never shrinks.
pub proof fn run_carries_on(state: GovernorState, ops: Seq<Operation>)
    requires
        state.well_formed(),
    ensures
        state.run(ops).well_formed(),
        carries_on(state, state.run(ops)),
    decreases ops.len(),
{
    if ops.len() > 0 {
        let middle = state.run(ops.drop_last());
        run_carries_on(state, ops.drop_last());
        step_keeps_well_formed(middle, ops.last());
        step_carries_on(middle, ops.last());
    }
}

/// Once an account has a ballot on record for a proposal, every later vote
/// of that account on that proposal is refused and changes nothing, whatever
/// calls were made in between. The refusal names the double vote unless the
/// proposal has been executed or its window is over, which are tested
/// first.
pub proof fn second_vote_is_refused(
    state: GovernorState,
    ops: Seq<Operation>,
    proposal_id: ProposalId,
    voter: AccountId,
    now: u64,
)
    requires
        state.well_formed(),
        state.ballots.contains((proposal_id, voter)),
    ensures
        ({
            let later = state.run(ops);
            let answer = later.vote_result(proposal_id, voter, now);
            &&& answer is Err
            &&& later.step(Operation::Vote { proposal_id, voter, now }) == later
            &&& later.proposals.contains_key(proposal_id)
            &&& !later.proposals[proposal_id].executed && now
                <= later.proposals[proposal_id].vote_end ==> answer == Err::<(), DaoError>(
                DaoError::AlreadyVoted,
            )
        }),
{
    run_carries_on(state, ops);
    assert(state.proposals.contains_key(proposal_id));
}

/// A vote on a stored, unexecuted proposal after the end of its window is
/// refused as late and changes nothing.
pub proof fn late_vote_is_refused(
    state: GovernorState,
    proposal_id: ProposalId,
    voter: AccountId,
    now: u64,
)
    requires
        state.well_formed(),
        state.proposals.contains_key(proposal_id),
        !state.proposals[proposal_id].executed,
        now > state.proposals[proposal_id].vote_end,
    ensures
        state.vote_result(proposal_id, voter, now) == Err::<(), DaoError>(
            DaoError::VotePeriodEnded,
        ),
        state.step(Operation::Vote { proposal_id, voter, now }) == state,
{
}

/// A request to execute is refused as unknown for an identifier that is not
/// in use, and as a repetition for a proposal that is marked as executed.
/// Both leave the state as it is.
pub proof fn execute_refuses_unknown_and_executed(state: GovernorState, proposal_id: ProposalId)
    requires
        state.well_formed(),
    ensures
        !state.proposals.contains_key(proposal_id) ==> state.execute_result(proposal_id) == Err::<
            (),
            DaoError,
        >(DaoError::ProposalNotFound),
        state.proposals.contains_key(proposal_id) && state.proposals[proposal_id].executed
            ==> state.execute_result(proposal_id) == Err::<(), DaoError>(
            DaoError::ProposalAlreadyExecuted,
        ),
        state.execute_result(proposal_id) is Err ==> state.step(
            Operation::Execute { proposal_id },
        ) == state,
{
}

/// A stored, unexecuted proposal whose combined weight is below the quorum
/// is not executed, and neither is one on which nobody has voted.
pub proof fn execute_needs_quorum(state: GovernorState, proposal_id: ProposalId)
    requires
        state.well_formed(),
        state.proposals.contains_key(proposal_id),
        !state.proposals[proposal_id].executed,
        !state.tallies.contains_key(proposal_id) || state.tallies[proposal_id].for_votes
            + state.tallies[proposal_id].against_votes < state.quorum,
    ensures
        state.execute_result(proposal_id) == Err::<(), DaoError>(DaoError::QuorumNotReached),
        state.step(Operation::Execute { proposal_id }) == state,
{
}

/// A stored, unexecuted proposal that has reached the quorum is refused if
/// less weight is for it than against it, and is otherwise marked as
/// executed: a tie is enough. The mark is set by the call itself, before
/// and whatever the treasury then answers.
pub proof fn execute_follows_majority(state: GovernorState, proposal_id: ProposalId)
    requires
        state.well_formed(),
        state.proposals.contains_key(proposal_id),
        !state.proposals[proposal_id].executed,
        state.tallies.contains_key(proposal_id),
        state.tallies[proposal_id].for_votes + state.tallies[proposal_id].against_votes
            >= state.quorum,
    ensures
        ({
            let tally = state.tallies[proposal_id];
            let after = state.step(Operation::Execute { proposal_id });
            &&& tally.for_votes < tally.against_votes ==> {
                &&& state.execute_result(proposal_id) == Err::<(), DaoError>(
                    DaoError::ProposalNotAccepted,
                )
                &&& after == state
            }
            &&& tally.for_votes >= tally.against_votes ==> {
                &&& state.execute_result(proposal_id) is Ok
                &&& after.proposals[proposal_id] == state.proposals[proposal_id].marked_executed()
                &&& after.proposals[proposal_id].executed
            }
        }),
{
}

/// A proposal is executed at most once: after it has been marked, every
/// later request to execute it is refused as a repetition and every later
/// vote on it as well, whatever calls were made in between.
pub proof fn executed_proposal_stays_closed(
    state: GovernorState,
    ops: Seq<Operation>,
    proposal_id: ProposalId,
    voter: AccountId,
    now: u64,
)
    requires
        state.well_formed(),
        state.proposals.contains_key(proposal_id),
        state.proposals[proposal_id].executed,
    ensures
        ({
            let later = state.run(ops);
            &&& later.execute_result(proposal_id) == Err::<(), DaoError>(
                DaoError::ProposalAlreadyExecuted,
            )
            &&& later.vote_result(proposal_id, voter, now) == Err::<(), DaoError>(
                DaoError::ProposalAlreadyExecuted,
            )
            &&& later.step(Operation::Execute { proposal_id }) == later
        }),
{
    run_carries_on(state, ops);
}

} // verus!
