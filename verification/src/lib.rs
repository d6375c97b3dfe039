//! The decisions of a voter in GRANDPA: which votes it casts in a round, on which
//! blocks, in which order, which blocks it reports as finalized, when the round is over,
//! and how the next one starts.
//!
//! The library performs no input or output. Whatever a round needs from its
//! surroundings (timers, incoming votes, the chain, the tally of the votes, the
//! outgoing sink) is asked for by a [`Step`] and handed back as a plain value.

pub mod laws;
pub mod messages;
pub mod operations;
pub mod primitives;
pub mod round;
pub mod step;
pub mod voter;
pub mod voting_round;

pub use messages::{Equivocation, Message, Precommit, Prevote, PrimaryPropose, SignedMessage};
pub use primitives::{BlockNumberOps, Identity};
pub use round::{Round, RoundData, RoundState, VoterSet};
pub use step::{AncestryQuery, Ballot, BestChainQuery, Cast, GhostCheck, Step, TargetCheck};
pub use voter::Voter;
pub use voting_round::{Error, Input, PrevoteBase, State, Voting, VotingRound};
