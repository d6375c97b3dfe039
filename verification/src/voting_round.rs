//! What a voter holds of a single round, and what it decides from that alone: the block
//! to propose, the base of the prevote, the precommit, and whether the round is over.

use crate::messages::{Precommit, PrimaryPropose, SignedMessage};
use crate::primitives::{BlockNumberOps, Identity, same_number};
use crate::round::{Round, RoundState, VoterSet};
use vstd::prelude::*;

verus! {

/// The state of a voting round. The timers before prevotes and before precommits are
/// kept for as long as they are waited for.
#[derive(PartialEq, Eq)]
pub enum State<T> {
    /// Nothing was cast. Holds the prevote timer and the precommit timer.
    Start(T, T),
    /// The local voter proposed a block. Holds the prevote timer and the precommit
    /// timer.
    Proposed(T, T),
    /// The local voter prevoted. Holds the precommit timer.
    Prevoted(T),
    /// The local voter precommitted.
    Precommitted,
}

impl<T> State<T> {
    /// The name of the state.
    pub fn name(&self) -> (r: &'static str)
        ensures
            r@ == (match *self {
                State::Start(..) => "Start"@,
                State::Proposed(..) => "Proposed"@,
                State::Prevoted(_) => "Prevoted"@,
                State::Precommitted => "Precommitted"@,
            }),
    {
        match self {
            State::Start(..) => "Start",
            State::Proposed(..) => "Proposed",
            State::Prevoted(_) => "Prevoted",
            State::Precommitted => "Precommitted",
        }
    }
}

/// Whether we should vote in the current round (i.e. push votes to the sink.)
#[derive(Clone, Copy, Debug, PartialEq, Eq)]
pub enum Voting {
    /// Voting is disabled for the current round.
    No,
    /// Voting is enabled for the current round (prevotes and precommits.)
    Yes,
    /// Voting is enabled for the current round and we are the primary proposer
    /// (we can also push primary propose messages).
    Primary,
}

impl Voting {
    /// How a voter takes part in a round: not at all without a local id or with one
    /// that is not in the voter set, as the primary if the id is the primary's, and as
    /// an ordinary voter otherwise.
    pub open spec fn spec_in_round<Id>(
        local_id: Option<Id>,
        voters: VoterSet<Id>,
        primary_voter: Id,
    ) -> Voting {
        match local_id {
            Some(id) if voters.has_voter(id) => if id == primary_voter {
                Voting::Primary
            } else {
                Voting::Yes
            },
            _ => Voting::No,
        }
    }

    /// How the voter with the given local id takes part in a round.
    pub fn in_round<Id: Identity>(
        local_id: &Option<Id>,
        voters: &VoterSet<Id>,
        primary_voter: &Id,
    ) -> (r: Voting)
        ensures
            r == Self::spec_in_round(*local_id, *voters, *primary_voter),
    {
        match local_id {
            Some(id) => if !voters.contains(id) {
                Voting::No
            } else if id.same(primary_voter) {
                Voting::Primary
            } else {
                Voting::Yes
            },
            None => Voting::No,
        }
    }

    /// Whether the voter should cast round votes (prevotes and precommits.)
    pub fn is_active(&self) -> (r: bool)
        ensures
            r == (*self is Yes || *self is Primary),
    {
        match self {
            Voting::Yes | Voting::Primary => true,
            _ => false,
        }
    }

    /// Whether the voter is the primary proposer.
    pub fn is_primary(&self) -> (r: bool)
        ensures
            r == (*self is Primary),
    {
        match self {
            Voting::Primary => true,
            _ => false,
        }
    }
}

/// Why the chain has no ancestry to give.
#[derive(Clone, Copy, Debug, PartialEq, Eq)]
pub enum Error {
    /// The block is not a descendent of the given base.
    NotDescendent,
}

/// What ended a wait.
#[derive(Debug, PartialEq, Eq)]
pub enum Input<H, N, S, Id, E> {
    /// A vote came in, or the stream of votes failed.
    Vote(Result<SignedMessage<H, N, S, Id>, E>),
    /// The state of the last round changed.
    LastRoundState(RoundState<H, N>),
    /// The timer that was waited for ended. One that failed counts as fired.
    Timer(Result<(), E>),
}

/// Logic for a voter on a specific round.
#[derive(PartialEq, Eq)]
pub struct VotingRound<H, N, Id, T> {
    /// Whether votes are cast.
    pub voting: Voting,
    /// The round, as its tally stands.
    pub round: Round<Id, H, N>,
    /// How far the voting has come, or `None` if nothing more is cast in this round.
    pub state: Option<State<T>>,
    /// The block that the primary voter proposed, if its proposal came in.
    pub primary_block: Option<(H, N)>,
    /// The block that was last found to be finalized in this round, if any.
    pub best_finalized: Option<(H, N)>,
    /// The state of the last round, if it is known.
    pub last_round_state: Option<RoundState<H, N>>,
    /// Whether the timer of the last wait has fired.
    pub timer_ready: bool,
}

/// The block that the best chain to prevote for has to contain.
#[derive(Debug, PartialEq, Eq)]
pub enum PrevoteBase<H> {
    /// This block.
    Block(H),
    /// The block `primary` if it stands at `offset` in the ancestry of `prevote_ghost`
    /// down to `estimate`, and `estimate` otherwise.
    Ancestry { estimate: H, prevote_ghost: H, primary: H, offset: usize },
}

/// The block that the primary voter proposes, given the state of the last round: the
/// estimate of the last round, unless it is already finalized there. Other voters
/// propose nothing.
pub open spec fn proposal_of<H, N: BlockNumberOps>(
    voting: Voting,
    last_round_state: RoundState<H, N>,
) -> Option<PrimaryPropose<H, N>> {
    match last_round_state.estimate {
        Some(estimate) if voting is Primary && (last_round_state.finalized matches Some(finalized)
            ==> finalized.1.height() < estimate.1.height()) => Some(
            PrimaryPropose { target_hash: estimate.0, target_number: estimate.1 },
        ),
        _ => None,
    }
}

/// The block that the best chain to prevote for has to contain: the primary's block if
/// it is the prevote-GHOST of the last round, or lies below it within its ancestry, and
/// the estimate of the last round otherwise.
pub open spec fn prevote_base_of<H, N: BlockNumberOps>(
    primary_block: Option<(H, N)>,
    estimate: (H, N),
    prevote_ghost: Option<(H, N)>,
) -> PrevoteBase<H> {
    match (primary_block, prevote_ghost) {
        (Some(primary), Some(p_g)) => if primary == p_g {
            PrevoteBase::Block(primary.0)
        } else if primary.1.height() < p_g.1.height() {
            PrevoteBase::Ancestry {
                estimate: estimate.0,
                prevote_ghost: p_g.0,
                primary: primary.0,
                offset: (p_g.1.height() - primary.1.height() - 1) as usize,
            }
        } else {
            PrevoteBase::Block(estimate.0)
        },
        _ => PrevoteBase::Block(estimate.0),
    }
}

/// Whether the estimate of the last round is finalized: in the last round, or in the
/// current one, where `finalized` is finalized. Without a last round there is nothing
/// to finalize.
pub open spec fn is_last_estimate_finalized<H, N: BlockNumberOps>(
    last_round_state: Option<RoundState<H, N>>,
    finalized: Option<(H, N)>,
) -> bool {
    match last_round_state {
        Some(last) => match (last.estimate, last.finalized) {
            (Some(estimate), Some(last_finalized)) => {
                ||| estimate.1.height() <= last_finalized.1.height()
                ||| finalized matches Some(f) && estimate.1.height() <= f.1.height()
            },
            _ => false,
        },
        None => true,
    }
}

impl<H, N: BlockNumberOps, Id, T> VotingRound<H, N, Id, T> {
    /// Whether it is time to vote: the timer has fired, or the round is completable
    /// without it.
    pub open spec fn is_due(self) -> bool {
        self.timer_ready || self.round.state.completable
    }

    /// Whether the local voter casts prevotes and precommits.
    pub open spec fn is_active(self) -> bool {
        self.voting is Yes || self.voting is Primary
    }

    /// Whether the round is over: it is completable and the estimate of the last round
    /// is finalized.
    pub open spec fn is_over(self) -> bool {
        self.round.state.completable && is_last_estimate_finalized(
            self.last_round_state,
            self.round.state.finalized,
        )
    }

    /// The last block that is known to be finalized: in this round, or when it started.
    pub open spec fn spec_last_finalized(self) -> (H, N) {
        match self.best_finalized {
            Some(block) => block,
            None => self.round.base,
        }
    }

    /// The block that is precommitted to: the prevote-GHOST, or the base of the round
    /// if there is none.
    pub open spec fn precommit_of(self) -> Precommit<H, N> {
        match self.round.state.prevote_ghost {
            Some(p_g) => Precommit { target_hash: p_g.0, target_number: p_g.1 },
            None => Precommit {
                target_hash: self.round.base.0,
                target_number: self.round.base.1,
            },
        }
    }
}

impl<H: Identity, N: BlockNumberOps, Id, T> VotingRound<H, N, Id, T> {
    /// The block to propose, if the local voter is the primary and the estimate of the
    /// last round is not finalized there.
    pub fn primary_propose(&self, last_round_state: &RoundState<H, N>) -> (r: Option<
        PrimaryPropose<H, N>,
    >)
        ensures
            r == proposal_of(self.voting, *last_round_state),
    {
        if !self.voting.is_primary() {
            return None;
        }
        match &last_round_state.estimate {
            Some(estimate) => {
                let should_send_primary = match &last_round_state.finalized {
                    Some(finalized) => finalized.1.is_below(estimate.1),
                    None => true,
                };
                if should_send_primary {
                    Some(
                        PrimaryPropose {
                            target_hash: estimate.0.duplicate(),
                            target_number: estimate.1,
                        },
                    )
                } else {
                    None
                }
            },
            None => None,
        }
    }

    /// The block that the best chain to prevote for has to contain. The last round has
    /// an estimate, and a prevote-GHOST if the primary voter proposed a block: rounds
    /// only start once the last round is completable.
    pub fn prevote_base(&self, last_round_state: &RoundState<H, N>) -> (r: PrevoteBase<H>)
        requires
            last_round_state.estimate is Some,
            self.primary_block is Some ==> last_round_state.prevote_ghost is Some,
        ensures
            r == prevote_base_of(
                self.primary_block,
                last_round_state.estimate->0,
                last_round_state.prevote_ghost,
            ),
    {
        let estimate = last_round_state.estimate.as_ref().unwrap();
        match &self.primary_block {
            None => PrevoteBase::Block(estimate.0.duplicate()),
            Some(primary) => {
                let p_g = last_round_state.prevote_ghost.as_ref().unwrap();
                // If the blocks are equal, the ancestry does not matter.
                if primary.0.same(&p_g.0) && same_number(primary.1, p_g.1) {
                    PrevoteBase::Block(primary.0.duplicate())
                } else if primary.1.is_below(p_g.1) {
                    PrevoteBase::Ancestry {
                        estimate: estimate.0.duplicate(),
                        prevote_ghost: p_g.0.duplicate(),
                        primary: primary.0.duplicate(),
                        offset: primary.1.blocks_up_to(p_g.1),
                    }
                } else {
                    PrevoteBase::Block(estimate.0.duplicate())
                }
            },
        }
    }

    /// The last block that is known to be finalized: the one that was last found to be
    /// finalized in this round, or else the base of the round.
    pub fn last_finalized(&self) -> (r: (H, N))
        ensures
            r == self.spec_last_finalized(),
    {
        let block = match &self.best_finalized {
            Some(block) => block,
            None => &self.round.base,
        };
        (block.0.duplicate(), block.1)
    }

    /// A precommit message based on local state.
    pub fn construct_precommit(&self) -> (r: Precommit<H, N>)
        ensures
            r == self.precommit_of(),
    {
        let target = match &self.round.state.prevote_ghost {
            Some(p_g) => p_g,
            None => &self.round.base,
        };
        Precommit { target_hash: target.0.duplicate(), target_number: target.1 }
    }
}

impl<H, N: BlockNumberOps, Id, T> VotingRound<H, N, Id, T> {
    /// Whether the round is completable and the estimate of the last round is
    /// finalized.
    pub fn completed(&self) -> (r: bool)
        ensures
            r == self.is_over(),
    {
        if !self.round.state.completable {
            return false;
        }
        match &self.last_round_state {
            Some(last) => match (&last.estimate, &last.finalized) {
                (Some(estimate), Some(last_finalized)) => {
                    // Either it was already finalized in the last round, or it must be
                    // finalized in the current round.
                    let finalized_in_last_round = !last_finalized.1.is_below(estimate.1);
                    let finalized_in_current_round = match &self.round.state.finalized {
                        Some(finalized) => !finalized.1.is_below(estimate.1),
                        None => false,
                    };
                    finalized_in_last_round || finalized_in_current_round
                },
                _ => false,
            },
            // A round that was caught up with is completed without any last round
            // state; a new round was already started then.
            None => true,
        }
    }
}

} // verus!
