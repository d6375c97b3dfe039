//! A voter in GRANDPA. This transitions between rounds and casts votes.
//!
//! The local voter id is used to check whether to cast votes for a given round. If no
//! local id is defined or if it's not part of the voter set then no votes are cast. The
//! state of the round still goes on as if the votes had been cast.

use crate::messages::SignedMessage;
use crate::primitives::{BlockNumberOps, Identity};
use crate::round::{Round, RoundData, RoundState, VoterSet};
use crate::step::Step;
use crate::voting_round::{State, Voting, VotingRound};
use vstd::prelude::*;

verus! {

/// A voter, in the round that follows the last one it knows of.
pub struct Voter<H, N, Id, T> {
    /// The voters of the round.
    pub voters: VoterSet<Id>,
    /// The round that the voter is in.
    pub best_round: VotingRound<H, N, Id, T>,
}

impl<H: Identity, N: BlockNumberOps, Id: Identity, T> Voter<H, N, Id, T> {
    /// A voter that starts the round after round `last_round_number`. The round starts
    /// from the last finalized block, and the last round counts as completed on
    /// `last_round_base`.
    ///
    /// `round_data` is what it takes to participate in the new round, `primary_voter`
    /// its primary voter and `tally` the state of its tally before any vote. The
    /// channels of `round_data` are handed back.
    pub fn new<S, In, Out>(
        voters: VoterSet<Id>,
        last_round_number: u64,
        _last_round_votes: Vec<SignedMessage<H, N, S, Id>>,
        last_round_base: (H, N),
        last_finalized: (H, N),
        round_data: RoundData<Id, T, In, Out>,
        primary_voter: Id,
        tally: RoundState<H, N>,
    ) -> (r: (Self, In, Out))
        requires
            last_round_number < u64::MAX,
        ensures
            r.0.voters == voters,
            r.0.best_round == (VotingRound {
                voting: Voting::spec_in_round(round_data.voter_id, voters, primary_voter),
                round: Round {
                    number: (last_round_number + 1) as u64,
                    base: last_finalized,
                    primary_voter,
                    state: tally,
                },
                state: Some(State::Start(round_data.prevote_timer, round_data.precommit_timer)),
                primary_block: None,
                best_finalized: None,
                last_round_state: Some(RoundState::spec_genesis(last_round_base)),
                timer_ready: false,
            }),
            r.1 == round_data.incoming,
            r.2 == round_data.outgoing,
    {
        let round = Round {
            number: last_round_number + 1,
            base: last_finalized,
            primary_voter,
            state: tally,
        };
        let last_round_state = Some(RoundState::genesis(last_round_base));
        let (best_round, incoming, outgoing) = VotingRound::new(
            round,
            &voters,
            last_round_state,
            round_data,
        );
        (Voter { voters, best_round }, incoming, outgoing)
    }

    /// The first step of the voter: that of its round. The voters are handed back for
    /// the next round.
    pub fn run<S>(self) -> (r: (VoterSet<Id>, Step<H, N, S, Id, T>))
        ensures
            r.0 == self.voters,
            r.1 == Step::<H, N, S, Id, T>::Wait(self.best_round),
    {
        (self.voters, self.best_round.run())
    }

    /// The voter in the round after `ended`, which starts from `base`. The state in
    /// which `ended` was left is that of the last round.
    ///
    /// `round_data` is what it takes to participate in the new round, `primary_voter`
    /// its primary voter and `tally` the state of its tally before any vote. The
    /// channels of `round_data` are handed back.
    pub fn next_round<In, Out>(
        voters: VoterSet<Id>,
        ended: VotingRound<H, N, Id, T>,
        base: (H, N),
        round_data: RoundData<Id, T, In, Out>,
        primary_voter: Id,
        tally: RoundState<H, N>,
    ) -> (r: (Self, In, Out))
        requires
            ended.round.number < u64::MAX,
        ensures
            r.0.voters == voters,
            r.0.best_round == (VotingRound {
                voting: Voting::spec_in_round(round_data.voter_id, voters, primary_voter),
                round: Round {
                    number: (ended.round.number + 1) as u64,
                    base,
                    primary_voter,
                    state: tally,
                },
                state: Some(State::Start(round_data.prevote_timer, round_data.precommit_timer)),
                primary_block: None,
                best_finalized: None,
                last_round_state: Some(ended.round.state),
                timer_ready: false,
            }),
            r.1 == round_data.incoming,
            r.2 == round_data.outgoing,
    {
        let round = Round { number: ended.round.number + 1, base, primary_voter, state: tally };
        let (best_round, incoming, outgoing) = VotingRound::new(
            round,
            &voters,
            Some(ended.round.state),
            round_data,
        );
        (Voter { voters, best_round }, incoming, outgoing)
    }
}

} // verus!
