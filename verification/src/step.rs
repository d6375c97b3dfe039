//! Logic for voting and handling messages within a single round.
//!
//! A round is a state machine. Each [`Step`] says what has to happen outside before the
//! round can go on, and holds what takes the answer.

use crate::messages::{Equivocation, Message, Precommit, Prevote, PrimaryPropose, SignedMessage};
use crate::primitives::{BlockNumberOps, Identity, same_number};
use crate::round::{Round, RoundData, RoundState, VoterSet, newly_finalized};
use crate::voting_round::{
    Error, Input, PrevoteBase, State, Voting, VotingRound, prevote_base_of, proposal_of,
};
use vstd::prelude::*;

verus! {

/// What has to happen before a round can go on. Where something can fail outside (the
/// stream of votes, the import of a vote, the note of a vote or of a finalized block, the
/// sink), the outcome is handed back, and a failure ends the run of the round.
#[derive(PartialEq, Eq)]
pub enum Step<H, N, S, Id, T> {
    /// Wait for a vote, for a new state of the last round, or for the timer of the
    /// current state, then call [`VotingRound::input`].
    Wait(VotingRound<H, N, Id, T>),
    /// Ask the chain whether the target of a vote builds on the base of the round.
    CheckTarget(TargetCheck<H, N, S, Id, T>),
    /// Import a prevote into the tally, then call [`VotingRound::prevote_imported`].
    ImportPrevote {
        round: VotingRound<H, N, Id, T>,
        prevote: Prevote<H, N>,
        signature: S,
        id: Id,
    },
    /// Import a precommit into the tally, then call [`VotingRound::precommit_imported`].
    ImportPrecommit {
        round: VotingRound<H, N, Id, T>,
        precommit: Precommit<H, N>,
        signature: S,
        id: Id,
    },
    /// Note that an equivocation in prevotes has occurred, then call
    /// [`VotingRound::equivocation_reported`] with the block that the import finalized,
    /// if any.
    ReportPrevotes(VotingRound<H, N, Id, T>, Equivocation<Id, Prevote<H, N>, S>, Option<(H, N)>),
    /// Note that an equivocation in precommits has occurred, then call
    /// [`VotingRound::equivocation_reported`] with the block that the import finalized,
    /// if any.
    ReportPrecommits(VotingRound<H, N, Id, T>, Equivocation<Id, Precommit<H, N>, S>, Option<(H, N)>),
    /// Note that `block` is finalized, then call [`VotingRound::block_finalized`].
    Finalize { round: VotingRound<H, N, Id, T>, block: (H, N) },
    /// The input is dealt with: call [`VotingRound::decide`].
    Decide(VotingRound<H, N, Id, T>),
    /// Ask the chain for the ancestry of the last prevote-GHOST.
    FindAncestry(AncestryQuery<H, N, Id, T>),
    /// Ask the chain for its best block that builds on a given one.
    FindBestChain(BestChainQuery<H, N, Id, T>),
    /// Ask the chain whether the prevote-GHOST builds on the estimate of the last round.
    CheckGhost(GhostCheck<H, N, Id, T>),
    /// Mark in the tally which votes were seen when the local voter voted.
    MarkVoted(Cast<H, N, Id, T>),
    /// Note that the local voter casts the ballot in the round.
    NoteVote(Cast<H, N, Id, T>),
    /// Push the message of the ballot to the sink.
    SendVote(Cast<H, N, Id, T>),
    /// The round is over. The voter goes on with the next one.
    Done(VotingRound<H, N, Id, T>),
}

/// Does the target of `vote` equal the base of the round, or descend from it?
#[derive(PartialEq, Eq)]
pub struct TargetCheck<H, N, S, Id, T> {
    pub round: VotingRound<H, N, Id, T>,
    pub vote: SignedMessage<H, N, S, Id>,
}

/// Which blocks lie between `prevote_ghost` and `estimate`? The answer starts with the
/// parent of `prevote_ghost` and ends above `estimate`.
#[derive(PartialEq, Eq)]
pub struct AncestryQuery<H, N, Id, T> {
    pub round: VotingRound<H, N, Id, T>,
    pub estimate: H,
    pub prevote_ghost: H,
    /// The block that the primary voter proposed.
    pub primary: H,
    /// Where in the ancestry the primary's block would stand.
    pub offset: usize,
    pub precommit_timer: T,
}

/// Which is the best block of a chain that contains `base`?
#[derive(PartialEq, Eq)]
pub struct BestChainQuery<H, N, Id, T> {
    pub round: VotingRound<H, N, Id, T>,
    pub base: H,
    pub precommit_timer: T,
}

/// Does the prevote-GHOST of the round equal the estimate of the last round, or descend
/// from it?
#[derive(PartialEq, Eq)]
pub struct GhostCheck<H, N, Id, T> {
    pub round: VotingRound<H, N, Id, T>,
    pub estimate: H,
    pub prevote_ghost: H,
    pub precommit_timer: T,
}

/// A vote of the local voter, with the timers that are still needed afterwards.
#[derive(PartialEq, Eq)]
pub enum Ballot<H, N, T> {
    /// A proposal, with the prevote timer and the precommit timer.
    Propose(PrimaryPropose<H, N>, T, T),
    /// A prevote, with the precommit timer.
    Prevote(Prevote<H, N>, T),
    /// A precommit.
    Precommit(Precommit<H, N>),
}

/// A ballot on its way out of a round.
#[derive(PartialEq, Eq)]
pub struct Cast<H, N, Id, T> {
    pub round: VotingRound<H, N, Id, T>,
    pub ballot: Ballot<H, N, T>,
}

impl<H, N: BlockNumberOps, Id, T> VotingRound<H, N, Id, T> {
    /// The same round in another state.
    pub open spec fn with_state(self, state: Option<State<T>>) -> Self {
        VotingRound { state, ..self }
    }

    /// The round after a turn of votes: over, or waiting for the next input.
    pub open spec fn concluded<S>(self) -> Step<H, N, S, Id, T> {
        if self.is_over() {
            Step::Done(self)
        } else {
            Step::Wait(self)
        }
    }

    /// The round after a wait that ended with `input`, or the failure of the stream of
    /// votes. `timer_ready` says whether the timer of the current state has fired by now.
    pub open spec fn after_input<S, E>(
        self,
        input: Input<H, N, S, Id, E>,
        timer_ready: bool,
    ) -> Result<Step<H, N, S, Id, T>, E> {
        let round = VotingRound { timer_ready, ..self };
        match input {
            Input::Vote(Ok(vote)) => Ok(Step::CheckTarget(TargetCheck { round, vote })),
            Input::Vote(Err(failure)) => Err(failure),
            Input::LastRoundState(state) => Ok(
                Step::Decide(VotingRound { last_round_state: Some(state), ..round }),
            ),
            Input::Timer(_) => Ok(Step::Decide(round)),
        }
    }

    /// The round once the import of a vote left the tally in `state`. A block that the
    /// import finalized is kept.
    pub open spec fn with_tally(self, state: RoundState<H, N>) -> Self {
        VotingRound {
            round: Round { state, ..self.round },
            best_finalized: match newly_finalized(self.round.state, state) {
                Some(block) => Some(block),
                None => self.best_finalized,
            },
            ..self
        }
    }

    /// The round after an import: a block that it finalized is reported first.
    pub open spec fn after_finalization<S>(self, finalized: Option<(H, N)>) -> Step<
        H,
        N,
        S,
        Id,
        T,
    > {
        match finalized {
            Some(block) => Step::Finalize { round: self, block },
            None => Step::Decide(self),
        }
    }

    /// The round after it imported a prevote.
    pub open spec fn after_prevote_import<S>(
        self,
        state: RoundState<H, N>,
        equivocation: Option<Equivocation<Id, Prevote<H, N>, S>>,
    ) -> Step<H, N, S, Id, T> {
        let finalized = newly_finalized(self.round.state, state);
        match equivocation {
            Some(equivocation) => Step::ReportPrevotes(
                self.with_tally(state),
                equivocation,
                finalized,
            ),
            None => self.with_tally(state).after_finalization(finalized),
        }
    }

    /// The round after it imported a precommit.
    pub open spec fn after_precommit_import<S>(
        self,
        state: RoundState<H, N>,
        equivocation: Option<Equivocation<Id, Precommit<H, N>, S>>,
    ) -> Step<H, N, S, Id, T> {
        let finalized = newly_finalized(self.round.state, state);
        match equivocation {
            Some(equivocation) => Step::ReportPrecommits(
                self.with_tally(state),
                equivocation,
                finalized,
            ),
            None => self.with_tally(state).after_finalization(finalized),
        }
    }

    /// The turn of a round that has not prevoted: nothing before it is time to. A voter
    /// that is not active goes on as if it had prevoted; an active one looks for the
    /// block to prevote for.
    pub open spec fn after_prevote_turn<S>(
        self,
        precommit_timer: T,
        last: RoundState<H, N>,
    ) -> Step<H, N, S, Id, T> {
        if !self.is_due() {
            self.concluded()
        } else if !self.is_active() {
            self.with_state(Some(State::Prevoted(precommit_timer))).concluded()
        } else {
            self.with_state(None).after_base_choice(precommit_timer, last)
        }
    }

    /// The round on its way to a prevote: it needs the best chain that contains the
    /// base of the prevote, and the ancestry of the last prevote-GHOST where that tells
    /// the base.
    pub open spec fn after_base_choice<S>(
        self,
        precommit_timer: T,
        last: RoundState<H, N>,
    ) -> Step<H, N, S, Id, T> {
        match prevote_base_of(self.primary_block, last.estimate->0, last.prevote_ghost) {
            PrevoteBase::Block(base) => Step::FindBestChain(
                BestChainQuery { round: self, base, precommit_timer },
            ),
            PrevoteBase::Ancestry { estimate, prevote_ghost, primary, offset } => {
                Step::FindAncestry(
                    AncestryQuery {
                        round: self,
                        estimate,
                        prevote_ghost,
                        primary,
                        offset,
                        precommit_timer,
                    },
                )
            },
        }
    }

    /// The turn of a round that has prevoted, where `on_estimate` says whether its
    /// prevote-GHOST builds on the estimate of the last round. If so and if it is time
    /// to, an active voter precommits, and any other goes on as if it had.
    pub open spec fn after_ghost_check<S>(
        self,
        precommit_timer: T,
        on_estimate: bool,
    ) -> Step<H, N, S, Id, T> {
        if !(on_estimate && self.is_due()) {
            self.with_state(Some(State::Prevoted(precommit_timer))).concluded()
        } else if self.is_active() {
            Step::MarkVoted(
                Cast {
                    round: self.with_state(None),
                    ballot: Ballot::Precommit(self.precommit_of()),
                },
            )
        } else {
            self.with_state(Some(State::Precommitted)).concluded()
        }
    }

    /// The turn of a round that has prevoted: it waits for a prevote-GHOST, and asks
    /// the chain about it unless it is the estimate of the last round itself.
    pub open spec fn after_precommit_turn<S>(
        self,
        precommit_timer: T,
        last: RoundState<H, N>,
    ) -> Step<H, N, S, Id, T> {
        match self.round.state.prevote_ghost {
            Some(p_g) => if p_g == last.estimate->0 {
                self.after_ghost_check(precommit_timer, true)
            } else {
                Step::CheckGhost(
                    GhostCheck {
                        round: self.with_state(None),
                        estimate: (last.estimate->0).0,
                        prevote_ghost: p_g.0,
                        precommit_timer,
                    },
                )
            },
            None => self.after_ghost_check(precommit_timer, false),
        }
    }

    /// The turn of a round once its input is dealt with. Nothing is cast without a last
    /// round state, after the precommit, or after a prevote that failed.
    pub open spec fn decided<S>(self) -> Step<H, N, S, Id, T> {
        match (self.state, self.last_round_state) {
            (Some(State::Start(prevote_timer, precommit_timer)), Some(last)) => {
                match proposal_of(self.voting, last) {
                    Some(proposal) => Step::NoteVote(
                        Cast {
                            round: self.with_state(None),
                            ballot: Ballot::Propose(proposal, prevote_timer, precommit_timer),
                        },
                    ),
                    None => self.after_prevote_turn(precommit_timer, last),
                }
            },
            (Some(State::Proposed(_, precommit_timer)), Some(last)) => self.after_prevote_turn(
                precommit_timer,
                last,
            ),
            (Some(State::Prevoted(precommit_timer)), Some(last)) => self.after_precommit_turn(
                precommit_timer,
                last,
            ),
            _ => self.concluded(),
        }
    }

    /// Whether the last round left what the turn needs of it: an estimate to vote on,
    /// and a prevote-GHOST to hold a primary's block against. Rounds only start once
    /// the last round is completable, so that it has both.
    pub open spec fn spec_can_decide(self) -> bool {
        match (self.state, self.last_round_state) {
            (Some(State::Start(..)), Some(last)) => proposal_of(self.voting, last) is None
                ==> self.can_prevote(last),
            (Some(State::Proposed(..)), Some(last)) => self.can_prevote(last),
            (Some(State::Prevoted(_)), Some(last)) => last.estimate is Some,
            _ => true,
        }
    }

    /// Whether the last round left what a prevote that is due needs of it.
    pub open spec fn can_prevote(self, last: RoundState<H, N>) -> bool {
        self.is_due() && self.is_active() ==> {
            &&& last.estimate is Some
            &&& self.primary_block is Some ==> last.prevote_ghost is Some
        }
    }
}

impl<H: Identity, N: BlockNumberOps, Id: Identity, T> VotingRound<H, N, Id, T> {
    /// A round at its start, in which the local voter takes part as its id says. The
    /// channels of `round_data` are handed back.
    pub fn new<In, Out>(
        round: Round<Id, H, N>,
        voters: &VoterSet<Id>,
        last_round_state: Option<RoundState<H, N>>,
        round_data: RoundData<Id, T, In, Out>,
    ) -> (r: (Self, In, Out))
        ensures
            r.0 == (VotingRound {
                voting: Voting::spec_in_round(round_data.voter_id, *voters, round.primary_voter),
                round,
                state: Some(State::Start(round_data.prevote_timer, round_data.precommit_timer)),
                primary_block: None,
                best_finalized: None,
                last_round_state,
                timer_ready: false,
            }),
            r.1 == round_data.incoming,
            r.2 == round_data.outgoing,
    {
        let voting = Voting::in_round(&round_data.voter_id, voters, &round.primary_voter);
        let state = Some(State::Start(round_data.prevote_timer, round_data.precommit_timer));
        let voting_round = VotingRound {
            voting,
            round,
            state,
            primary_block: None,
            best_finalized: None,
            last_round_state,
            timer_ready: false,
        };
        (voting_round, round_data.incoming, round_data.outgoing)
    }
}

impl<H: Identity, N: BlockNumberOps, Id, T> VotingRound<H, N, Id, T> {
    /// The first step of the round: it waits for input.
    pub fn run<S>(self) -> (r: Step<H, N, S, Id, T>)
        ensures
            r == Step::<H, N, S, Id, T>::Wait(self),
    {
        Step::Wait(self)
    }

    /// The timer to wait for: the prevote timer before the prevote, the precommit timer
    /// between the prevote and the precommit, and none otherwise.
    pub fn timer_mut(&mut self) -> (r: Option<&mut T>)
        ensures
            match old(self).state {
                Some(State::Start(prevote_timer, precommit_timer)) => {
                    &&& r matches Some(timer)
                    &&& *timer == prevote_timer
                    &&& *final(self) == old(self).with_state(
                        Some(State::Start(*final(timer), precommit_timer)),
                    )
                },
                Some(State::Proposed(prevote_timer, precommit_timer)) => {
                    &&& r matches Some(timer)
                    &&& *timer == prevote_timer
                    &&& *final(self) == old(self).with_state(
                        Some(State::Proposed(*final(timer), precommit_timer)),
                    )
                },
                Some(State::Prevoted(precommit_timer)) => {
                    &&& r matches Some(timer)
                    &&& *timer == precommit_timer
                    &&& *final(self) == old(self).with_state(
                        Some(State::Prevoted(*final(timer))),
                    )
                },
                _ => r is None && *final(self) == *old(self),
            },
    {
        match &mut self.state {
            Some(State::Start(prevote_timer, _)) => Some(prevote_timer),
            Some(State::Proposed(prevote_timer, _)) => Some(prevote_timer),
            Some(State::Prevoted(precommit_timer)) => Some(precommit_timer),
            _ => None,
        }
    }

    /// Takes what ended a wait. `timer_ready` says whether the timer of the current state
    /// has fired by now. A failure of the stream of votes ends the run of the round.
    pub fn input<S, E>(self, input: Input<H, N, S, Id, E>, timer_ready: bool) -> (r: Result<
        Step<H, N, S, Id, T>,
        E,
    >)
        ensures
            r == self.after_input(input, timer_ready),
    {
        let mut round = self;
        round.timer_ready = timer_ready;
        match input {
            Input::Vote(Ok(vote)) => Ok(round.handle_vote(vote)),
            Input::Vote(Err(failure)) => Err(failure),
            Input::LastRoundState(state) => {
                round.last_round_state = Some(state);
                Ok(Step::Decide(round))
            },
            Input::Timer(_) => Ok(Step::Decide(round)),
        }
    }

    /// Takes a vote that came in. What it counts for depends on whether its target
    /// builds on the base of the round.
    pub fn handle_vote<S>(self, vote: SignedMessage<H, N, S, Id>) -> (r: Step<H, N, S, Id, T>)
        ensures
            r == Step::CheckTarget(TargetCheck { round: self, vote }),
    {
        Step::CheckTarget(TargetCheck { round: self, vote })
    }

    /// Takes what the import of a prevote led to: the new state of the tally and the
    /// equivocation that came to light, if any, or how the import failed.
    pub fn prevote_imported<S, E>(
        self,
        outcome: Result<(RoundState<H, N>, Option<Equivocation<Id, Prevote<H, N>, S>>), E>,
    ) -> (r: Result<Step<H, N, S, Id, T>, E>)
        ensures
            r == match outcome {
                Ok((state, equivocation)) => Ok(self.after_prevote_import(state, equivocation)),
                Err(failure) => Err(failure),
            },
    {
        let mut round = self;
        match outcome {
            Ok((state, equivocation)) => {
                let finalized = round.update_tally(state);
                match equivocation {
                    Some(equivocation) => Ok(Step::ReportPrevotes(round, equivocation, finalized)),
                    None => Ok(round.report_finalized(finalized)),
                }
            },
            Err(failure) => Err(failure),
        }
    }

    /// Takes what the import of a precommit led to: the new state of the tally and the
    /// equivocation that came to light, if any, or how the import failed.
    pub fn precommit_imported<S, E>(
        self,
        outcome: Result<(RoundState<H, N>, Option<Equivocation<Id, Precommit<H, N>, S>>), E>,
    ) -> (r: Result<Step<H, N, S, Id, T>, E>)
        ensures
            r == match outcome {
                Ok((state, equivocation)) => Ok(self.after_precommit_import(state, equivocation)),
                Err(failure) => Err(failure),
            },
    {
        let mut round = self;
        match outcome {
            Ok((state, equivocation)) => {
                let finalized = round.update_tally(state);
                match equivocation {
                    Some(equivocation) => Ok(Step::ReportPrecommits(round, equivocation, finalized)),
                    None => Ok(round.report_finalized(finalized)),
                }
            },
            Err(failure) => Err(failure),
        }
    }

    /// Takes over a new state of the tally. Gives the block that is newly finalized.
    fn update_tally(&mut self, state: RoundState<H, N>) -> (r: Option<(H, N)>)
        ensures
            r == newly_finalized(old(self).round.state, state),
            *final(self) == old(self).with_tally(state),
    {
        let finalized = state.finalized_since(&self.round.state);
        match &finalized {
            Some(block) => {
                self.best_finalized = Some((block.0.duplicate(), block.1));
            },
            None => {},
        }
        self.round.state = state;
        finalized
    }

    /// Has a newly finalized block reported, if there is one.
    fn report_finalized<S>(self, finalized: Option<(H, N)>) -> (r: Step<H, N, S, Id, T>)
        ensures
            r == self.after_finalization::<S>(finalized),
    {
        match finalized {
            Some(block) => Step::Finalize { round: self, block },
            None => Step::Decide(self),
        }
    }

    /// Goes on after an equivocation was reported, with the block that the same import
    /// finalized, if any.
    pub fn equivocation_reported<S>(self, finalized: Option<(H, N)>) -> (r: Step<
        H,
        N,
        S,
        Id,
        T,
    >)
        ensures
            r == self.after_finalization::<S>(finalized),
    {
        self.report_finalized(finalized)
    }

    /// Goes on after a finalized block was noted, unless that failed.
    pub fn block_finalized<S, E>(self, outcome: Result<(), E>) -> (r: Result<
        Step<H, N, S, Id, T>,
        E,
    >)
        ensures
            r == match outcome {
                Ok(()) => Ok(Step::<H, N, S, Id, T>::Decide(self)),
                Err(failure) => Err(failure),
            },
    {
        match outcome {
            Ok(()) => Ok(Step::Decide(self)),
            Err(failure) => Err(failure),
        }
    }

    /// Ends a turn of votes.
    fn conclude<S>(self) -> (r: Step<H, N, S, Id, T>)
        ensures
            r == self.concluded::<S>(),
    {
        if self.completed() {
            Step::Done(self)
        } else {
            Step::Wait(self)
        }
    }

    /// Whether [`VotingRound::decide`] has what it needs of the last round.
    pub fn can_decide(&self) -> (r: bool)
        ensures
            r == self.spec_can_decide(),
    {
        match (&self.state, &self.last_round_state) {
            (Some(State::Start(..)), Some(last)) => self.primary_propose(last).is_some()
                || self.has_prevote_base(last),
            (Some(State::Proposed(..)), Some(last)) => self.has_prevote_base(last),
            (Some(State::Prevoted(_)), Some(last)) => last.estimate.is_some(),
            _ => true,
        }
    }

    /// Whether the last round left what a prevote that is due needs of it.
    fn has_prevote_base(&self, last: &RoundState<H, N>) -> (r: bool)
        ensures
            r == self.can_prevote(*last),
    {
        let due = self.timer_ready || self.round.state.completable;
        !(due && self.voting.is_active()) || (last.estimate.is_some() && (
        self.primary_block.is_none() || last.prevote_ghost.is_some()))
    }

    /// Takes the turn of the round once its input is dealt with: proposes, prevotes or
    /// precommits where it is time to, and finds out whether the round is over.
    pub fn decide<S>(self) -> (r: Step<H, N, S, Id, T>)
        requires
            self.spec_can_decide(),
        ensures
            r == self.decided::<S>(),
    {
        let mut round = self;
        match round.state.take() {
            Some(State::Start(prevote_timer, precommit_timer)) => {
                let proposal = match &round.last_round_state {
                    Some(last) => round.primary_propose(last),
                    None => None,
                };
                match proposal {
                    Some(proposal) => {
                        let ballot = Ballot::Propose(proposal, prevote_timer, precommit_timer);
                        Step::NoteVote(Cast { round, ballot })
                    },
                    None => round.prevote(prevote_timer, precommit_timer, false),
                }
            },
            Some(State::Proposed(prevote_timer, precommit_timer)) => round.prevote(
                prevote_timer,
                precommit_timer,
                true,
            ),
            Some(State::Prevoted(precommit_timer)) => round.precommit(precommit_timer),
            Some(State::Precommitted) => {
                round.state = Some(State::Precommitted);
                round.conclude()
            },
            None => round.conclude(),
        }
    }

    /// Takes the turn of a round that has not prevoted, and in which a block was
    /// proposed or not.
    fn prevote<S>(self, prevote_timer: T, precommit_timer: T, proposed: bool) -> (r: Step<
        H,
        N,
        S,
        Id,
        T,
    >)
        requires
            self.last_round_state matches Some(last) ==> self.can_prevote(last),
        ensures
            ({
                let round = self.with_state(
                    Some(
                        if proposed {
                            State::Proposed(prevote_timer, precommit_timer)
                        } else {
                            State::Start(prevote_timer, precommit_timer)
                        },
                    ),
                );
                r == match self.last_round_state {
                    Some(last) => round.after_prevote_turn::<S>(precommit_timer, last),
                    None => round.concluded::<S>(),
                }
            }),
    {
        let mut round = self;
        let should_prevote = round.timer_ready || round.round.state.completable;
        if round.last_round_state.is_none() || !should_prevote {
            let state = if proposed {
                State::Proposed(prevote_timer, precommit_timer)
            } else {
                State::Start(prevote_timer, precommit_timer)
            };
            round.state = Some(state);
            round.conclude()
        } else if round.voting.is_active() {
            round.state = None;
            round.construct_prevote(precommit_timer)
        } else {
            // Nothing is cast, and the round goes on as if it had been.
            round.state = Some(State::Prevoted(precommit_timer));
            round.conclude()
        }
    }

    /// Looks for the block to prevote for.
    fn construct_prevote<S>(self, precommit_timer: T) -> (r: Step<H, N, S, Id, T>)
        requires
            self.last_round_state matches Some(last) && last.estimate is Some && (
            self.primary_block is Some ==> last.prevote_ghost is Some),
        ensures
            r == self.after_base_choice::<S>(precommit_timer, self.last_round_state->0),
    {
        let base = self.prevote_base(self.last_round_state.as_ref().unwrap());
        match base {
            PrevoteBase::Block(base) => Step::FindBestChain(
                BestChainQuery { round: self, base, precommit_timer },
            ),
            PrevoteBase::Ancestry { estimate, prevote_ghost, primary, offset } => {
                Step::FindAncestry(
                    AncestryQuery {
                        round: self,
                        estimate,
                        prevote_ghost,
                        primary,
                        offset,
                        precommit_timer,
                    },
                )
            },
        }
    }

    /// Takes the turn of a round that has prevoted.
    fn precommit<S>(self, precommit_timer: T) -> (r: Step<H, N, S, Id, T>)
        requires
            self.last_round_state matches Some(last) ==> last.estimate is Some,
        ensures
            ({
                let round = self.with_state(Some(State::Prevoted(precommit_timer)));
                r == match self.last_round_state {
                    Some(last) => round.after_precommit_turn::<S>(precommit_timer, last),
                    None => round.concluded::<S>(),
                }
            }),
    {
        let mut round = self;
        if round.last_round_state.is_none() {
            round.state = Some(State::Prevoted(precommit_timer));
            return round.conclude();
        }
        let last = round.last_round_state.as_ref().unwrap();
        let estimate = last.estimate.as_ref().unwrap();
        match &round.round.state.prevote_ghost {
            Some(p_g) => if p_g.0.same(&estimate.0) && same_number(p_g.1, estimate.1) {
                round.precommit_on(precommit_timer, true)
            } else {
                let estimate = estimate.0.duplicate();
                let prevote_ghost = p_g.0.duplicate();
                round.state = None;
                Step::CheckGhost(GhostCheck { round, estimate, prevote_ghost, precommit_timer })
            },
            None => round.precommit_on(precommit_timer, false),
        }
    }

    /// Precommits, if it is time to and if the prevote-GHOST builds on the estimate of
    /// the last round.
    fn precommit_on<S>(self, precommit_timer: T, on_estimate: bool) -> (r: Step<H, N, S, Id, T>)
        ensures
            r == self.after_ghost_check::<S>(precommit_timer, on_estimate),
    {
        let mut round = self;
        let should_precommit = on_estimate && (round.timer_ready || round.round.state.completable);
        if !should_precommit {
            round.state = Some(State::Prevoted(precommit_timer));
            round.conclude()
        } else if round.voting.is_active() {
            let precommit = round.construct_precommit();
            round.state = None;
            Step::MarkVoted(Cast { round, ballot: Ballot::Precommit(precommit) })
        } else {
            // Nothing is cast, and the round goes on as if it had been.
            round.state = Some(State::Precommitted);
            round.conclude()
        }
    }
}

impl<H, N: BlockNumberOps, S, Id, T> TargetCheck<H, N, S, Id, T> {
    /// The round after the check. A vote that does not build on the base of the round
    /// is ignored. Otherwise a prevote or a precommit goes to the tally, and a proposal
    /// is kept if the primary voter cast it.
    pub open spec fn answered(self, builds_on_base: bool) -> Step<H, N, S, Id, T> {
        let SignedMessage { message, signature, id } = self.vote;
        if !builds_on_base {
            Step::Decide(self.round)
        } else {
            match message {
                Message::Prevote(prevote) => Step::ImportPrevote {
                    round: self.round,
                    prevote,
                    signature,
                    id,
                },
                Message::Precommit(precommit) => Step::ImportPrecommit {
                    round: self.round,
                    precommit,
                    signature,
                    id,
                },
                Message::PrimaryPropose(primary) => if id == self.round.round.primary_voter {
                    Step::Decide(
                        VotingRound {
                            primary_block: Some((primary.target_hash, primary.target_number)),
                            ..self.round
                        },
                    )
                } else {
                    Step::Decide(self.round)
                },
            }
        }
    }
}

impl<H: Identity, N: BlockNumberOps, S, Id: Identity, T> TargetCheck<H, N, S, Id, T> {
    /// What to ask the chain: whether the second hash equals the first one or descends
    /// from it.
    pub fn question(&self) -> (r: (H, H))
        ensures
            r.0 == self.round.round.base.0,
            r.1 == self.vote.message.spec_target().0,
    {
        (self.round.round.base.0.duplicate(), self.vote.message.target().0)
    }

    /// Takes the answer of the chain.
    pub fn answer(self, builds_on_base: bool) -> (r: Step<H, N, S, Id, T>)
        ensures
            r == self.answered(builds_on_base),
    {
        let mut round = self.round;
        let SignedMessage { message, signature, id } = self.vote;
        if !builds_on_base {
            return Step::Decide(round);
        }
        match message {
            Message::Prevote(prevote) => Step::ImportPrevote { round, prevote, signature, id },
            Message::Precommit(precommit) => Step::ImportPrecommit {
                round,
                precommit,
                signature,
                id,
            },
            Message::PrimaryPropose(primary) => {
                // The id is that of the party which has cast the vote, and not that of
                // the party which has received it.
                if id.same(&round.round.primary_voter) {
                    round.primary_block = Some((primary.target_hash, primary.target_number));
                }
                Step::Decide(round)
            },
        }
    }
}

impl<H, N, Id, T> AncestryQuery<H, N, Id, T> {
    /// The base of the prevote: the primary's block if the ancestry holds it where it
    /// would stand, and the estimate of the last round otherwise.
    pub open spec fn base_in(self, ancestry: Result<Seq<H>, Error>) -> H {
        match ancestry {
            Ok(blocks) if self.offset < blocks.len() && blocks[self.offset as int]
                == self.primary => self.primary,
            _ => self.estimate,
        }
    }

    /// The round once the ancestry is known.
    pub open spec fn answered<S>(self, ancestry: Result<Seq<H>, Error>) -> Step<H, N, S, Id, T> {
        Step::FindBestChain(
            BestChainQuery {
                round: self.round,
                base: self.base_in(ancestry),
                precommit_timer: self.precommit_timer,
            },
        )
    }
}

/// The ancestry as a sequence, if there is one.
pub open spec fn ancestry_view<H>(ancestry: Result<Vec<H>, Error>) -> Result<Seq<H>, Error> {
    match ancestry {
        Ok(blocks) => Ok(blocks@),
        Err(error) => Err(error),
    }
}

impl<H: Identity, N, Id, T> AncestryQuery<H, N, Id, T> {
    /// Takes the blocks between the last prevote-GHOST and the last estimate, or that
    /// the former does not descend from the latter, which takes massive equivocation.
    pub fn answer<S>(self, ancestry: Result<Vec<H>, Error>) -> (r: Step<H, N, S, Id, T>)
        ensures
            r == self.answered::<S>(ancestry_view(ancestry)),
    {
        let holds_primary = match &ancestry {
            Ok(blocks) => self.offset < blocks.len() && blocks[self.offset].same(&self.primary),
            Err(Error::NotDescendent) => false,
        };
        let base = if holds_primary {
            self.primary
        } else {
            self.estimate
        };
        Step::FindBestChain(
            BestChainQuery { round: self.round, base, precommit_timer: self.precommit_timer },
        )
    }
}

impl<H, N: BlockNumberOps, Id, T> BestChainQuery<H, N, Id, T> {
    /// The round once the best chain is known: its best block is prevoted for. If the
    /// base has disappeared from the chain, nothing is prevoted for, and nothing more is
    /// cast in the round.
    pub open spec fn answered<S>(self, best_chain: Option<(H, N)>) -> Step<H, N, S, Id, T> {
        match best_chain {
            Some(target) => Step::MarkVoted(
                Cast {
                    round: self.round,
                    ballot: Ballot::Prevote(
                        Prevote { target_hash: target.0, target_number: target.1 },
                        self.precommit_timer,
                    ),
                },
            ),
            None => VotingRound { voting: Voting::No, state: None, ..self.round }.concluded(),
        }
    }
}

impl<H: Identity, N: BlockNumberOps, Id, T> BestChainQuery<H, N, Id, T> {
    /// Takes the best block of the chains that contain the base, if there is one.
    pub fn answer<S>(self, best_chain: Option<(H, N)>) -> (r: Step<H, N, S, Id, T>)
        ensures
            r == self.answered::<S>(best_chain),
    {
        let mut round = self.round;
        match best_chain {
            Some(target) => {
                let prevote = Prevote { target_hash: target.0, target_number: target.1 };
                let ballot = Ballot::Prevote(prevote, self.precommit_timer);
                Step::MarkVoted(Cast { round, ballot })
            },
            None => {
                // Without a prevote there is no precommit either.
                round.voting = Voting::No;
                round.state = None;
                round.conclude()
            },
        }
    }
}

impl<H: Identity, N: BlockNumberOps, Id, T> GhostCheck<H, N, Id, T> {
    /// Takes whether the prevote-GHOST builds on the estimate of the last round.
    pub fn answer<S>(self, on_estimate: bool) -> (r: Step<H, N, S, Id, T>)
        ensures
            r == self.round.after_ghost_check::<S>(self.precommit_timer, on_estimate),
    {
        self.round.precommit_on(self.precommit_timer, on_estimate)
    }
}

impl<H, N, T> Ballot<H, N, T> {
    /// The message that carries the ballot.
    pub open spec fn spec_message(self) -> Message<H, N> {
        match self {
            Ballot::Propose(primary, _, _) => Message::PrimaryPropose(primary),
            Ballot::Prevote(prevote, _) => Message::Prevote(prevote),
            Ballot::Precommit(precommit) => Message::Precommit(precommit),
        }
    }
}

impl<H: Identity, N: BlockNumberOps, T> Ballot<H, N, T> {
    /// The message that carries the ballot.
    pub fn message(&self) -> (r: Message<H, N>)
        ensures
            r == self.spec_message(),
    {
        match self {
            Ballot::Propose(primary, _, _) => Message::PrimaryPropose(primary.clone()),
            Ballot::Prevote(prevote, _) => Message::Prevote(prevote.clone()),
            Ballot::Precommit(precommit) => Message::Precommit(precommit.clone()),
        }
    }
}

impl<H, N: BlockNumberOps, Id, T> Cast<H, N, Id, T> {
    /// The round once the ballot is out. After a proposal the turn goes on with the
    /// prevote; after a prevote or a precommit it ends.
    pub open spec fn completed<S>(self) -> Step<H, N, S, Id, T> {
        match self.ballot {
            Ballot::Propose(_, prevote_timer, precommit_timer) => Step::Decide(
                self.round.with_state(Some(State::Proposed(prevote_timer, precommit_timer))),
            ),
            Ballot::Prevote(_, precommit_timer) => self.round.with_state(
                Some(State::Prevoted(precommit_timer)),
            ).concluded(),
            Ballot::Precommit(_) => self.round.with_state(Some(State::Precommitted)).concluded(),
        }
    }
}

impl<H: Identity, N: BlockNumberOps, Id, T> Cast<H, N, Id, T> {
    /// Goes on after the tally was marked.
    pub fn marked<S>(self) -> (r: Step<H, N, S, Id, T>)
        ensures
            r == Step::<H, N, S, Id, T>::NoteVote(self),
    {
        Step::NoteVote(self)
    }

    /// Goes on after the ballot was noted, unless that failed: then it is not sent.
    pub fn noted<S, E>(self, outcome: Result<(), E>) -> (r: Result<Step<H, N, S, Id, T>, E>)
        ensures
            r == match outcome {
                Ok(()) => Ok(Step::<H, N, S, Id, T>::SendVote(self)),
                Err(failure) => Err(failure),
            },
    {
        match outcome {
            Ok(()) => Ok(Step::SendVote(self)),
            Err(failure) => Err(failure),
        }
    }

    /// Goes on after the message of the ballot was sent, unless that failed.
    pub fn sent<S, E>(self, outcome: Result<(), E>) -> (r: Result<Step<H, N, S, Id, T>, E>)
        ensures
            r == match outcome {
                Ok(()) => Ok(self.completed::<S>()),
                Err(failure) => Err(failure),
            },
    {
        let mut round = self.round;
        match outcome {
            Ok(()) => match self.ballot {
                Ballot::Propose(_, prevote_timer, precommit_timer) => {
                    round.state = Some(State::Proposed(prevote_timer, precommit_timer));
                    Ok(Step::Decide(round))
                },
                Ballot::Prevote(_, precommit_timer) => {
                    round.state = Some(State::Prevoted(precommit_timer));
                    Ok(round.conclude())
                },
                Ballot::Precommit(_) => {
                    round.state = Some(State::Precommitted);
                    Ok(round.conclude())
                },
            },
            Err(failure) => Err(failure),
        }
    }
}

} // verus!
