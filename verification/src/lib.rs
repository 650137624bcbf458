//! A treasury governed by token-weighted votes: holders propose a payment,
//! vote on it within a fixed window, and the payment is executed once if
//! quorum and majority hold.
//!
//! The [`Governor`] decides and keeps the books; the host around it knows
//! the caller, the time and the treasury, asks the token contract and moves
//! the money. A vote therefore takes two calls: [`Governor::vote`] puts the
//! ballot on record and hands back a [`WeightRequest`], and
//! [`Governor::count`] adds the weight that the token contract answered. An
//! execution takes two as well: [`Governor::execute`] marks the proposal
//! and hands back the [`Transfer`] to make, and [`Transfer::settle`] turns
//! the treasury's answer into the caller's.
//!
//! The contracts speak of the [`GovernorState`] that an engine stands for;
//! the module [`laws`] proves what holds of it over every sequence of calls.

pub mod account;
pub mod ballots;
pub mod error;
pub mod governor;
pub mod laws;
pub mod model;
pub mod proposal;
pub mod token;

pub use account::AccountId;
pub use error::DaoError;
pub use governor::{Governor, GovernorSnapshot, Transfer, WeightQuery, WeightRequest};
pub use model::{GovernorState, Operation};
pub use proposal::{Balance, Proposal, ProposalId, ProposalVote, VoteType};
pub use token::{GovernanceToken, TokenSnapshot, TokenState};
