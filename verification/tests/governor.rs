use dao::{
    AccountId, DaoError, Governor, GovernorSnapshot, Proposal, ProposalVote, Transfer, VoteType,
};

fn account(byte: u8) -> AccountId {
    AccountId::from([byte; 32])
}

fn alice() -> AccountId {
    account(0x01)
}

fn bob() -> AccountId {
    account(0x02)
}

fn charlie() -> AccountId {
    account(0x03)
}

fn django() -> AccountId {
    account(0x04)
}

fn eve() -> AccountId {
    account(0x05)
}

/// A treasury as the host keeps it: the engine only ever sees its balance.
struct Treasury {
    balance: u128,
}

impl Treasury {
    fn pay(&mut self, transfer: &Transfer) -> bool {
        if transfer.amount <= self.balance {
            self.balance -= transfer.amount;
            true
        } else {
            false
        }
    }
}

fn create_contract() -> Governor {
    Governor::new(account(0x01), 50)
}

/// Casts a ballot and counts it with the given weight.
fn cast(governor: &mut Governor, id: u64, vote: VoteType, voter: AccountId, now: u64, weight: u64) {
    let request = governor.vote(id, vote, voter, now).expect("the ballot is accepted");
    governor.count(request, weight);
}

#[test]
fn propose_works() {
    let treasury = Treasury { balance: 1000 };
    let mut governor = create_contract();
    let now = 0;

    assert_eq!(
        governor.propose(django(), 0, 1, treasury.balance, now),
        Err(DaoError::AmountShouldNotBeZero)
    );

    assert_eq!(
        governor.propose(django(), 1001, 1, treasury.balance, now),
        Err(DaoError::AmountShouldNotExceedTheBalance)
    );

    assert_eq!(
        governor.propose(django(), 100, 0, treasury.balance, now),
        Err(DaoError::DurationError)
    );

    let result = governor.propose(django(), 100, 1, treasury.balance, now);
    assert_eq!(result, Ok(()));

    let proposal = governor.proposal(1).unwrap();

    assert_eq!(
        proposal,
        Proposal {
            to: django(),
            amount: 100,
            vote_start: 0,
            vote_end: now + 1 * 60,
            executed: false,
        }
    );

    assert_eq!(governor.next_proposal_id(), 1);
}

#[test]
fn quorum_not_reached() {
    let treasury = Treasury { balance: 1000 };
    let mut governor = create_contract();
    let result = governor.propose(account(0x02), 100, 1, treasury.balance, 0);
    assert_eq!(result, Ok(()));

    let execute = governor.execute(1);
    assert_eq!(execute, Err(DaoError::QuorumNotReached));
}

#[test]
fn execute_works() {
    let mut treasury = Treasury { balance: 1000 };
    let mut governor = create_contract();

    let result = governor.propose(eve(), 100, 100, treasury.balance, 0);
    assert_eq!(result, Ok(()));

    cast(&mut governor, 1, VoteType::Against, alice(), 0, 29);
    cast(&mut governor, 1, VoteType::For, bob(), 0, 35);
    assert_eq!(
        governor.proposal_vote(1),
        Some(ProposalVote { for_votes: 35, against_votes: 29 })
    );

    let transfer = governor.execute(1).unwrap();
    assert_eq!(transfer, Transfer { to: eve(), amount: 100 });
    let paid = treasury.pay(&transfer);
    assert_eq!(transfer.settle(paid), Ok(()));

    let proposal = governor.proposal(1).unwrap();
    assert!(proposal.executed);

    assert_eq!(treasury.balance, 900);
}

#[test]
fn execute_twice_is_refused_and_pays_once() {
    let mut treasury = Treasury { balance: 1000 };
    let mut governor = create_contract();
    assert_eq!(governor.propose(eve(), 100, 100, treasury.balance, 0), Ok(()));
    cast(&mut governor, 1, VoteType::For, alice(), 0, 35);
    cast(&mut governor, 1, VoteType::Against, bob(), 0, 29);

    let transfer = governor.execute(1).unwrap();
    assert!(treasury.pay(&transfer));
    assert_eq!(treasury.balance, 900);

    assert_eq!(governor.execute(1), Err(DaoError::ProposalAlreadyExecuted));
    assert_eq!(treasury.balance, 900);
    assert!(governor.proposal(1).unwrap().executed);
}

#[test]
fn new_engine_is_empty() {
    let governor = Governor::new(account(0x09), 77);
    assert_eq!(governor.next_proposal_id(), 0);
    assert_eq!(governor.quorum(), 77);
    assert_eq!(governor.governance_token(), account(0x09));
    assert_eq!(governor.proposal(0), None);
    assert_eq!(governor.proposal(1), None);
    assert_eq!(governor.proposal_vote(1), None);
    assert!(!governor.has_voted(1, &alice()));
}

#[test]
fn first_broken_rule_decides_on_propose() {
    let mut governor = create_contract();
    // nothing asked for and no duration: the amount is tested first
    assert_eq!(governor.propose(bob(), 0, 0, 1000, 0), Err(DaoError::AmountShouldNotBeZero));
    // too much asked for and no duration: the balance is tested before the duration
    assert_eq!(
        governor.propose(bob(), 1001, 0, 1000, 0),
        Err(DaoError::AmountShouldNotExceedTheBalance)
    );
    // an empty treasury refuses every positive amount
    assert_eq!(
        governor.propose(bob(), 1, 1, 0, 0),
        Err(DaoError::AmountShouldNotExceedTheBalance)
    );
    // the whole balance may be asked for
    assert_eq!(governor.propose(bob(), 1000, 1, 1000, 0), Ok(()));
    // a refused proposal uses no identifier
    assert_eq!(governor.next_proposal_id(), 1);
}

#[test]
fn window_is_kept_in_seconds() {
    let mut governor = create_contract();
    assert_eq!(governor.propose(bob(), 5, 3, 10, 1_000), Ok(()));
    let proposal = governor.proposal(1).unwrap();
    assert_eq!(proposal.vote_start, 1_000);
    assert_eq!(proposal.vote_end, 1_180);
    assert!(!proposal.executed);
    assert_eq!(proposal.to, bob());
    assert_eq!(proposal.amount, 5);
}

#[test]
fn identifiers_count_up_from_one() {
    let mut governor = create_contract();
    for expected in 1..=5u64 {
        assert_eq!(governor.proposal(expected), None);
        assert_eq!(governor.propose(bob(), expected as u128, 1, 100, 7), Ok(()));
        assert_eq!(governor.next_proposal_id(), expected);
        // a refused proposal, a vote and an execution in between use no identifier
        assert_eq!(governor.propose(bob(), 0, 1, 100, 7), Err(DaoError::AmountShouldNotBeZero));
        cast(&mut governor, expected, VoteType::For, alice(), 7, 60);
        assert!(governor.execute(expected).is_ok());
        assert_eq!(governor.next_proposal_id(), expected);
    }
    for id in 1..=5u64 {
        assert_eq!(governor.proposal(id).unwrap().amount, id as u128);
    }
    assert_eq!(governor.proposal(6), None);
}

#[test]
fn vote_on_unknown_proposal() {
    let mut governor = create_contract();
    assert_eq!(
        governor.vote(1, VoteType::For, alice(), 0).err(),
        Some(DaoError::ProposalNotFound)
    );
    assert_eq!(governor.propose(bob(), 1, 1, 1, 0), Ok(()));
    assert_eq!(
        governor.vote(0, VoteType::For, alice(), 0).err(),
        Some(DaoError::ProposalNotFound)
    );
    assert_eq!(
        governor.vote(2, VoteType::For, alice(), 0).err(),
        Some(DaoError::ProposalNotFound)
    );
    assert!(!governor.has_voted(2, &alice()));
}

#[test]
fn vote_hands_out_the_weight_request() {
    let token = account(0x77);
    let mut governor = Governor::new(token, 50);
    assert_eq!(governor.propose(bob(), 1, 1, 1, 0), Ok(()));
    let request = governor.vote(1, VoteType::Against, charlie(), 5).unwrap();
    assert_eq!(request.token(), token);
    assert_eq!(request.voter(), charlie());
    assert_eq!(request.proposal_id(), 1);
    assert_eq!(request.vote(), VoteType::Against);
    // the ballot is on record before the weight has arrived
    assert!(governor.has_voted(1, &charlie()));
    assert_eq!(governor.proposal_vote(1), None);
    governor.count(request, 12);
    assert_eq!(
        governor.proposal_vote(1),
        Some(ProposalVote { for_votes: 0, against_votes: 12 })
    );
}

#[test]
fn second_vote_is_refused() {
    let mut governor = create_contract();
    assert_eq!(governor.propose(bob(), 1, 1, 1, 0), Ok(()));
    cast(&mut governor, 1, VoteType::For, alice(), 0, 40);
    let tally = governor.proposal_vote(1);

    assert_eq!(
        governor.vote(1, VoteType::For, alice(), 1).err(),
        Some(DaoError::AlreadyVoted)
    );
    assert_eq!(
        governor.vote(1, VoteType::Against, alice(), 2).err(),
        Some(DaoError::AlreadyVoted)
    );
    assert_eq!(governor.proposal_vote(1), tally);

    // another account may still vote, and the same account on another proposal
    cast(&mut governor, 1, VoteType::Against, bob(), 3, 10);
    assert_eq!(governor.propose(bob(), 1, 1, 1, 0), Ok(()));
    cast(&mut governor, 2, VoteType::For, alice(), 3, 40);
    assert_eq!(
        governor.proposal_vote(1),
        Some(ProposalVote { for_votes: 40, against_votes: 10 })
    );
}

#[test]
fn second_vote_is_refused_while_the_weight_is_awaited() {
    let mut governor = create_contract();
    assert_eq!(governor.propose(bob(), 1, 1, 1, 0), Ok(()));
    let request = governor.vote(1, VoteType::For, alice(), 0).unwrap();
    assert_eq!(
        governor.vote(1, VoteType::For, alice(), 0).err(),
        Some(DaoError::AlreadyVoted)
    );
    governor.count(request, 3);
    assert_eq!(
        governor.proposal_vote(1),
        Some(ProposalVote { for_votes: 3, against_votes: 0 })
    );
}

#[test]
fn vote_after_the_window() {
    let mut governor = create_contract();
    assert_eq!(governor.propose(bob(), 1, 2, 1, 100), Ok(()));
    // the last second of the window still counts
    cast(&mut governor, 1, VoteType::For, alice(), 220, 5);
    let tally = governor.proposal_vote(1);
    assert_eq!(
        governor.vote(1, VoteType::For, bob(), 221).err(),
        Some(DaoError::VotePeriodEnded)
    );
    assert!(!governor.has_voted(1, &bob()));
    assert_eq!(governor.proposal_vote(1), tally);
    // the window is tested before the ballot record
    assert_eq!(
        governor.vote(1, VoteType::For, alice(), 221).err(),
        Some(DaoError::VotePeriodEnded)
    );
}

#[test]
fn vote_on_executed_proposal() {
    let mut governor = create_contract();
    assert_eq!(governor.propose(bob(), 1, 1, 1, 0), Ok(()));
    cast(&mut governor, 1, VoteType::For, alice(), 0, 50);
    assert!(governor.execute(1).is_ok());
    // the mark is tested before the window and before the ballot record
    assert_eq!(
        governor.vote(1, VoteType::For, bob(), 0).err(),
        Some(DaoError::ProposalAlreadyExecuted)
    );
    assert_eq!(
        governor.vote(1, VoteType::For, alice(), 1_000).err(),
        Some(DaoError::ProposalAlreadyExecuted)
    );
}

#[test]
fn weights_add_up_without_a_cap() {
    let mut governor = create_contract();
    assert_eq!(governor.propose(bob(), 1, 1, 1, 0), Ok(()));
    cast(&mut governor, 1, VoteType::For, alice(), 0, 100);
    cast(&mut governor, 1, VoteType::For, bob(), 0, 250);
    cast(&mut governor, 1, VoteType::Against, charlie(), 0, 0);
    assert_eq!(
        governor.proposal_vote(1),
        Some(ProposalVote { for_votes: 350, against_votes: 0 })
    );
}

#[test]
fn execute_unknown_proposal() {
    let mut governor = create_contract();
    assert_eq!(governor.execute(0), Err(DaoError::ProposalNotFound));
    assert_eq!(governor.execute(1), Err(DaoError::ProposalNotFound));
    assert_eq!(governor.propose(bob(), 1, 1, 1, 0), Ok(()));
    assert_eq!(governor.execute(2), Err(DaoError::ProposalNotFound));
}

#[test]
fn execute_below_quorum() {
    let mut governor = create_contract();
    assert_eq!(governor.propose(bob(), 1, 1, 1, 0), Ok(()));
    cast(&mut governor, 1, VoteType::For, alice(), 0, 30);
    cast(&mut governor, 1, VoteType::Against, bob(), 0, 19);
    assert_eq!(governor.execute(1), Err(DaoError::QuorumNotReached));
    assert!(!governor.proposal(1).unwrap().executed);
    // one more unit of weight meets the quorum of 50
    cast(&mut governor, 1, VoteType::For, charlie(), 0, 1);
    assert_eq!(governor.execute(1), Ok(Transfer { to: bob(), amount: 1 }));
}

#[test]
fn execute_without_votes_and_without_quorum() {
    let mut governor = Governor::new(alice(), 0);
    assert_eq!(governor.propose(bob(), 1, 1, 1, 0), Ok(()));
    // nobody has voted: there is no tally, whatever the quorum
    assert_eq!(governor.execute(1), Err(DaoError::QuorumNotReached));
    cast(&mut governor, 1, VoteType::For, alice(), 0, 0);
    assert_eq!(governor.execute(1), Ok(Transfer { to: bob(), amount: 1 }));
}

#[test]
fn execute_rejected_proposal() {
    let mut governor = create_contract();
    assert_eq!(governor.propose(bob(), 1, 1, 1, 0), Ok(()));
    cast(&mut governor, 1, VoteType::For, alice(), 0, 29);
    cast(&mut governor, 1, VoteType::Against, bob(), 0, 35);
    assert_eq!(governor.execute(1), Err(DaoError::ProposalNotAccepted));
    assert!(!governor.proposal(1).unwrap().executed);
}

#[test]
fn execute_on_a_tie() {
    let mut governor = create_contract();
    assert_eq!(governor.propose(django(), 7, 1, 10, 0), Ok(()));
    cast(&mut governor, 1, VoteType::For, alice(), 0, 25);
    cast(&mut governor, 1, VoteType::Against, bob(), 0, 25);
    assert_eq!(governor.execute(1), Ok(Transfer { to: django(), amount: 7 }));
    assert!(governor.proposal(1).unwrap().executed);
}

#[test]
fn execute_counts_beyond_the_range_of_one_counter() {
    let mut governor = Governor::new(alice(), u64::MAX);
    assert_eq!(governor.propose(bob(), 1, 1, 1, 0), Ok(()));
    cast(&mut governor, 1, VoteType::For, alice(), 0, u64::MAX);
    cast(&mut governor, 1, VoteType::Against, bob(), 0, 1);
    assert_eq!(governor.execute(1), Ok(Transfer { to: bob(), amount: 1 }));
}

#[test]
fn failed_transfer_leaves_the_proposal_executed() {
    let mut treasury = Treasury { balance: 50 };
    let mut governor = create_contract();
    assert_eq!(governor.propose(eve(), 50, 1, treasury.balance, 0), Ok(()));
    cast(&mut governor, 1, VoteType::For, alice(), 0, 50);
    // the treasury is drained before the proposal is executed
    treasury.balance = 10;
    let transfer = governor.execute(1).unwrap();
    let paid = treasury.pay(&transfer);
    assert_eq!(transfer.settle(paid), Err(DaoError::TransferFailed));
    assert_eq!(treasury.balance, 10);
    assert!(governor.proposal(1).unwrap().executed);
    assert_eq!(governor.execute(1), Err(DaoError::ProposalAlreadyExecuted));
}

#[test]
fn default_tally_is_empty() {
    assert_eq!(ProposalVote::default(), ProposalVote { for_votes: 0, against_votes: 0 });
}

#[test]
fn tally_counts_each_side() {
    let tally = ProposalVote { for_votes: 1, against_votes: 2 };
    assert_eq!(
        tally.count(VoteType::For, 10),
        ProposalVote { for_votes: 11, against_votes: 2 }
    );
    assert_eq!(
        tally.count(VoteType::Against, 10),
        ProposalVote { for_votes: 1, against_votes: 12 }
    );
    assert!(tally.meets_quorum(3));
    assert!(!tally.meets_quorum(4));
    assert!(!tally.is_accepted());
    assert!(ProposalVote { for_votes: 2, against_votes: 2 }.is_accepted());
}

#[test]
fn accounts_compare_by_their_bytes() {
    let mut bytes = [7u8; 32];
    let one = AccountId::from(bytes);
    assert_eq!(one, account(7));
    bytes[31] = 8;
    assert_ne!(AccountId::from(bytes), one);
    bytes[31] = 7;
    bytes[0] = 0;
    assert_ne!(AccountId::from(bytes), one);
}

fn sample_snapshot() -> GovernorSnapshot {
    GovernorSnapshot {
        proposals: vec![
            Proposal { to: bob(), amount: 10, vote_start: 0, vote_end: 60, executed: true },
            Proposal { to: eve(), amount: 20, vote_start: 5, vote_end: 125, executed: false },
        ],
        proposal_votes: vec![Some(ProposalVote { for_votes: 60, against_votes: 1 }), None],
        votes: vec![(1, alice()), (1, bob()), (2, alice())],
        next_proposal_id: 2,
        quorum: 50,
        governance_token: account(0x0a),
    }
}

#[test]
fn snapshot_holds_the_whole_state() {
    let mut governor = Governor::new(account(0x0a), 50);
    assert_eq!(governor.propose(bob(), 10, 1, 100, 0), Ok(()));
    assert_eq!(governor.propose(eve(), 20, 2, 100, 5), Ok(()));
    cast(&mut governor, 1, VoteType::For, alice(), 0, 60);
    cast(&mut governor, 1, VoteType::Against, bob(), 0, 1);
    let pending = governor.vote(2, VoteType::For, alice(), 5).unwrap();
    assert!(governor.execute(1).is_ok());

    let snapshot = governor.into_snapshot();
    let expected = sample_snapshot();
    assert_eq!(snapshot.proposals, expected.proposals);
    assert_eq!(snapshot.proposal_votes, expected.proposal_votes);
    assert_eq!(snapshot.votes, expected.votes);
    assert_eq!(snapshot.next_proposal_id, 2);
    assert_eq!(snapshot.quorum, 50);
    assert_eq!(snapshot.governance_token, account(0x0a));

    let mut restored = Governor::restore(snapshot).expect("the snapshot is one of an engine");
    assert_eq!(restored.next_proposal_id(), 2);
    assert_eq!(restored.quorum(), 50);
    assert_eq!(restored.governance_token(), account(0x0a));
    assert_eq!(restored.proposal(1), Some(expected.proposals[0]));
    assert_eq!(restored.proposal(2), Some(expected.proposals[1]));
    assert_eq!(restored.proposal_vote(1), expected.proposal_votes[0]);
    assert_eq!(restored.proposal_vote(2), None);
    assert!(restored.has_voted(1, &alice()));
    assert!(restored.has_voted(1, &bob()));
    assert!(restored.has_voted(2, &alice()));
    assert!(!restored.has_voted(2, &bob()));

    // the restored engine goes on where the first one stopped
    assert_eq!(restored.execute(1), Err(DaoError::ProposalAlreadyExecuted));
    assert_eq!(
        restored.vote(2, VoteType::For, alice(), 6).err(),
        Some(DaoError::AlreadyVoted)
    );
    restored.count(pending, 70);
    assert_eq!(restored.execute(2), Ok(Transfer { to: eve(), amount: 20 }));
    assert_eq!(restored.propose(bob(), 1, 1, 1, 0), Ok(()));
    assert_eq!(restored.next_proposal_id(), 3);
}

#[test]
fn restore_takes_a_well_formed_snapshot() {
    assert!(Governor::restore(sample_snapshot()).is_some());
    let empty = GovernorSnapshot {
        proposals: vec![],
        proposal_votes: vec![],
        votes: vec![],
        next_proposal_id: 0,
        quorum: 0,
        governance_token: alice(),
    };
    assert!(Governor::restore(empty).is_some());
    // a ballot that is listed twice is one ballot
    let mut doubled = sample_snapshot();
    doubled.votes.push((1, alice()));
    let restored = Governor::restore(doubled).unwrap();
    assert_eq!(restored.into_snapshot().votes, sample_snapshot().votes);
}

#[test]
fn restore_refuses_a_counter_that_differs_from_the_lists() {
    let mut snapshot = sample_snapshot();
    snapshot.next_proposal_id = 3;
    assert!(Governor::restore(snapshot).is_none());
    let mut snapshot = sample_snapshot();
    snapshot.next_proposal_id = 1;
    assert!(Governor::restore(snapshot).is_none());
    let mut snapshot = sample_snapshot();
    snapshot.proposal_votes.pop();
    assert!(Governor::restore(snapshot).is_none());
    let mut snapshot = sample_snapshot();
    snapshot.proposal_votes.push(None);
    assert!(Governor::restore(snapshot).is_none());
}

#[test]
fn restore_refuses_a_malformed_proposal() {
    let mut snapshot = sample_snapshot();
    snapshot.proposals[1].amount = 0;
    assert!(Governor::restore(snapshot).is_none());
    let mut snapshot = sample_snapshot();
    snapshot.proposals[0].vote_end = snapshot.proposals[0].vote_start;
    assert!(Governor::restore(snapshot).is_none());
    let mut snapshot = sample_snapshot();
    snapshot.proposals[1].vote_end = 4;
    assert!(Governor::restore(snapshot).is_none());
}

#[test]
fn restore_refuses_a_ballot_without_proposal() {
    let mut snapshot = sample_snapshot();
    snapshot.votes.push((3, alice()));
    assert!(Governor::restore(snapshot).is_none());
    let mut snapshot = sample_snapshot();
    snapshot.votes.push((0, alice()));
    assert!(Governor::restore(snapshot).is_none());
}

#[test]
fn engine_tells_which_proposals_it_takes() {
    let mut governor = create_contract();
    assert!(governor.takes_proposal(100, 1, 1000, 0));
    // the end of the window is now + 60 * duration and must fit 64 bits
    assert!(governor.takes_proposal(100, 1, 1000, u64::MAX - 60));
    assert!(!governor.takes_proposal(100, 1, 1000, u64::MAX - 59));
    assert!(governor.takes_proposal(100, u64::MAX / 60, 1000, 15));
    assert!(!governor.takes_proposal(100, u64::MAX / 60, 1000, 16));
    assert!(!governor.takes_proposal(100, u64::MAX / 60 + 1, 1000, 0));
    // a proposal that is refused anyway stores nothing
    assert!(governor.takes_proposal(0, u64::MAX, 1000, u64::MAX));
    assert!(governor.takes_proposal(1001, u64::MAX, 1000, u64::MAX));
    assert!(governor.takes_proposal(100, 0, 1000, u64::MAX));

    assert_eq!(governor.propose(bob(), 100, 1, 1000, u64::MAX - 60), Ok(()));
    assert_eq!(governor.proposal(1).unwrap().vote_end, u64::MAX);
}

#[test]
fn engine_tells_which_weights_it_takes() {
    let mut governor = create_contract();
    assert_eq!(governor.propose(bob(), 1, 1, 1, 0), Ok(()));
    cast(&mut governor, 1, VoteType::For, alice(), 0, u64::MAX - 5);
    let request = governor.vote(1, VoteType::For, bob(), 0).unwrap();
    assert!(governor.takes_weight(&request, 5));
    assert!(!governor.takes_weight(&request, 6));
    let other = governor.vote(1, VoteType::Against, charlie(), 0).unwrap();
    assert!(governor.takes_weight(&other, u64::MAX));
    governor.count(other, u64::MAX);
    governor.count(request, 5);
    assert_eq!(
        governor.proposal_vote(1),
        Some(ProposalVote { for_votes: u64::MAX, against_votes: u64::MAX })
    );

    // a request of another engine has no ballot on record here
    let mut elsewhere = create_contract();
    assert_eq!(elsewhere.propose(bob(), 1, 1, 1, 0), Ok(()));
    assert_eq!(elsewhere.propose(bob(), 1, 1, 1, 0), Ok(()));
    let foreign = elsewhere.vote(2, VoteType::For, django(), 0).unwrap();
    assert!(!governor.takes_weight(&foreign, 1));
    assert!(elsewhere.takes_weight(&foreign, 1));
}

#[test]
fn ballot_record_holds_each_pair_once() {
    let mut record = dao::ballots::BallotRecord::new();
    assert!(!record.contains(1, &alice()));
    assert!(record.insert(1, alice()));
    assert!(record.contains(1, &alice()));
    assert!(!record.contains(2, &alice()));
    assert!(!record.contains(1, &bob()));
    assert!(!record.insert(1, alice()));
    assert!(record.insert(2, alice()));
    assert!(record.insert(1, bob()));
    assert!(record.any_for(1));
    assert!(record.any_for(2));
    assert!(!record.any_for(3));
    assert!(!record.any_for(0));
    assert_eq!(record.entries(), &vec![(1, alice()), (2, alice()), (1, bob())]);

    let listed = vec![(3, bob()), (1, alice()), (3, bob())];
    let record = dao::ballots::BallotRecord::from_entries(&listed);
    assert!(record.contains(3, &bob()));
    assert!(record.contains(1, &alice()));
    assert!(!record.contains(1, &bob()));
    assert_eq!(record.into_entries(), vec![(3, bob()), (1, alice())]);
}

#[test]
fn restore_refuses_a_tally_without_ballots() {
    let mut snapshot = sample_snapshot();
    snapshot.proposal_votes[1] = Some(ProposalVote { for_votes: 0, against_votes: 0 });
    assert!(Governor::restore(snapshot).is_some());
    let mut snapshot = sample_snapshot();
    snapshot.votes.pop();
    snapshot.proposal_votes[1] = Some(ProposalVote { for_votes: 0, against_votes: 0 });
    assert!(Governor::restore(snapshot).is_none());
    let mut snapshot = sample_snapshot();
    snapshot.votes.clear();
    assert!(Governor::restore(snapshot).is_none());
}
