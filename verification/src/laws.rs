//! What holds of every round, whatever comes in and whatever the chain answers.

use crate::messages::{Equivocation, Message, Precommit, Prevote, PrimaryPropose, SignedMessage};
use crate::primitives::BlockNumberOps;
use crate::round::{RoundState, VoterSet, newly_finalized};
use crate::step::{AncestryQuery, Ballot, BestChainQuery, Step};
use crate::voting_round::{Error, Input, State, Voting, VotingRound, proposal_of};
use vstd::prelude::*;

verus! {

/// Whether `b` is `a`, but for what waiting did to the timer that was waited for.
pub open spec fn same_but_timer<H, N: BlockNumberOps, Id, T>(
    a: VotingRound<H, N, Id, T>,
    b: VotingRound<H, N, Id, T>,
) -> bool {
    &&& b == a.with_state(b.state)
    &&& match (a.state, b.state) {
        (Some(State::Start(_, c)), Some(State::Start(_, d))) => c == d,
        (Some(State::Proposed(_, c)), Some(State::Proposed(_, d))) => c == d,
        (Some(State::Prevoted(_)), Some(State::Prevoted(_))) => true,
        (c, d) => c == d,
    }
}

/// Whether `q` can come next after `p`: for some input, some outcome of an import, or
/// some answer of the chain.
pub open spec fn leads_to<H, N: BlockNumberOps, S, Id, T>(
    p: Step<H, N, S, Id, T>,
    q: Step<H, N, S, Id, T>,
) -> bool {
    match p {
        Step::Wait(round) => exists|
            waited: VotingRound<H, N, Id, T>,
            input: Input<H, N, S, Id, ()>,
            timer_ready: bool,
        |
            same_but_timer(round, waited) && #[trigger] waited.after_input(input, timer_ready)
                == Ok::<Step<H, N, S, Id, T>, ()>(q),
        Step::CheckTarget(check) => exists|b: bool| q == #[trigger] check.answered(b),
        Step::ImportPrevote { round, .. } => exists|
            state: RoundState<H, N>,
            equivocation: Option<Equivocation<Id, Prevote<H, N>, S>>,
        |
            q == #[trigger] round.after_prevote_import(state, equivocation),
        Step::ImportPrecommit { round, .. } => exists|
            state: RoundState<H, N>,
            equivocation: Option<Equivocation<Id, Precommit<H, N>, S>>,
        |
            q == #[trigger] round.after_precommit_import(state, equivocation),
        Step::ReportPrevotes(round, _, finalized) => q == round.after_finalization::<S>(finalized),
        Step::ReportPrecommits(round, _, finalized) => q == round.after_finalization::<S>(
            finalized,
        ),
        Step::Finalize { round, .. } => q == Step::<H, N, S, Id, T>::Decide(round),
        Step::Decide(round) => round.spec_can_decide() && q == round.decided::<S>(),
        Step::FindAncestry(query) => exists|ancestry: Result<Seq<H>, Error>|
            q == #[trigger] query.answered::<S>(ancestry),
        Step::FindBestChain(query) => exists|best_chain: Option<(H, N)>|
            q == #[trigger] query.answered::<S>(best_chain),
        Step::CheckGhost(check) => exists|b: bool|
            q == #[trigger] check.round.after_ghost_check::<S>(check.precommit_timer, b),
        Step::MarkVoted(cast) => q == Step::<H, N, S, Id, T>::NoteVote(cast),
        Step::NoteVote(cast) => q == Step::<H, N, S, Id, T>::SendVote(cast),
        Step::SendVote(cast) => q == cast.completed::<S>(),
        Step::Done(_) => false,
    }
}

/// Whether each step leads to the next one.
pub open spec fn is_run<H, N: BlockNumberOps, S, Id, T>(run: Seq<Step<H, N, S, Id, T>>) -> bool {
    forall|i: int, j: int|
        0 <= i && j == i + 1 && j < run.len() ==> leads_to(#[trigger] run[i], #[trigger] run[j])
}

impl<H, N, S, Id, T> Step<H, N, S, Id, T> {
    /// The round that takes the step.
    pub open spec fn round(self) -> VotingRound<H, N, Id, T> {
        match self {
            Step::Wait(round) => round,
            Step::CheckTarget(check) => check.round,
            Step::ImportPrevote { round, .. } => round,
            Step::ImportPrecommit { round, .. } => round,
            Step::ReportPrevotes(round, _, _) => round,
            Step::ReportPrecommits(round, _, _) => round,
            Step::Finalize { round, .. } => round,
            Step::Decide(round) => round,
            Step::FindAncestry(query) => query.round,
            Step::FindBestChain(query) => query.round,
            Step::CheckGhost(check) => check.round,
            Step::MarkVoted(cast) => cast.round,
            Step::NoteVote(cast) => cast.round,
            Step::SendVote(cast) => cast.round,
            Step::Done(round) => round,
        }
    }

    /// The ballot that the step marks, notes or sends, if it does.
    pub open spec fn ballot(self) -> Option<Ballot<H, N, T>> {
        match self {
            Step::MarkVoted(cast) => Some(cast.ballot),
            Step::NoteVote(cast) => Some(cast.ballot),
            Step::SendVote(cast) => Some(cast.ballot),
            _ => None,
        }
    }

    /// Whether the step ends a turn of votes.
    pub open spec fn ends_turn(self) -> bool {
        self is Wait || self is Done
    }
}

/// The place of a ballot in the order in which ballots are cast.
pub open spec fn rank<H, N, T>(ballot: Ballot<H, N, T>) -> nat {
    match ballot {
        Ballot::Propose(..) => 1,
        Ballot::Prevote(..) => 3,
        Ballot::Precommit(_) => 5,
    }
}

/// How far the voting has come: ballots on their way out have an odd rank, the states
/// between them an even one.
pub open spec fn progress<H, N, S, Id, T>(step: Step<H, N, S, Id, T>) -> nat {
    match step {
        Step::FindAncestry(_) => 3,
        Step::FindBestChain(_) => 3,
        Step::CheckGhost(_) => 4,
        Step::MarkVoted(cast) => rank(cast.ballot),
        Step::NoteVote(cast) => rank(cast.ballot),
        Step::SendVote(cast) => rank(cast.ballot),
        _ => match step.round().state {
            Some(State::Start(..)) => 0,
            Some(State::Proposed(..)) => 2,
            Some(State::Prevoted(_)) => 4,
            Some(State::Precommitted) => 6,
            None => 7,
        },
    }
}

/// One step does not undo progress, and a ballot that is sent is behind.
proof fn lemma_progress_step<H, N: BlockNumberOps, S, Id, T>(
    p: Step<H, N, S, Id, T>,
    q: Step<H, N, S, Id, T>,
)
    requires
        leads_to(p, q),
    ensures
        progress(p) <= progress(q),
        p is SendVote ==> progress(p) < progress(q),
{
    match p {
        Step::Wait(round) => {},
        Step::CheckTarget(check) => {},
        Step::ImportPrevote { round, .. } => {},
        Step::ImportPrecommit { round, .. } => {},
        Step::Decide(round) => {},
        Step::FindAncestry(query) => {},
        Step::FindBestChain(query) => {},
        Step::CheckGhost(check) => {},
        _ => {},
    }
}

/// Progress is never undone.
pub proof fn law_progress_is_kept<H, N: BlockNumberOps, S, Id, T>(
    run: Seq<Step<H, N, S, Id, T>>,
    i: int,
    j: int,
)
    requires
        is_run(run),
        0 <= i <= j < run.len(),
    ensures
        progress(run[i]) <= progress(run[j]),
    decreases j - i,
{
    if i < j {
        law_progress_is_kept(run, i, j - 1);
        lemma_progress_step(run[j - 1], run[j]);
    }
}

/// A voter casts at most one proposal, one prevote and one precommit in a round, in
/// this order: of two votes that are sent, the later one has the higher rank.
pub proof fn law_votes_are_sent_once_and_in_order<H, N: BlockNumberOps, S, Id, T>(
    run: Seq<Step<H, N, S, Id, T>>,
    i: int,
    j: int,
)
    requires
        is_run(run),
        0 <= i < j < run.len(),
        run[i] is SendVote,
        run[j] is SendVote,
    ensures
        rank(run[i].ballot()->0) < rank(run[j].ballot()->0),
{
    lemma_progress_step(run[i], run[i + 1]);
    law_progress_is_kept(run, i + 1, j);
}

/// Whether the step follows the round without a part in it: the local voter is not
/// active, no block is looked for to prevote for, and no ballot is cast.
pub open spec fn is_silent<H, N: BlockNumberOps, S, Id, T>(step: Step<H, N, S, Id, T>) -> bool {
    &&& !step.round().is_active()
    &&& step.ballot() is None
    &&& !(step is FindAncestry)
    &&& !(step is FindBestChain)
}

/// A silent step leads to a silent one.
proof fn lemma_silent_step<H, N: BlockNumberOps, S, Id, T>(
    p: Step<H, N, S, Id, T>,
    q: Step<H, N, S, Id, T>,
)
    requires
        leads_to(p, q),
        is_silent(p),
    ensures
        is_silent(q),
{
    match p {
        Step::Wait(round) => {},
        Step::CheckTarget(check) => {},
        Step::ImportPrevote { round, .. } => {},
        Step::ImportPrecommit { round, .. } => {},
        Step::Decide(round) => {},
        Step::FindAncestry(query) => {},
        Step::FindBestChain(query) => {},
        Step::CheckGhost(check) => {},
        _ => {},
    }
}

/// A voter that is not active casts nothing: from the start of a round in which voting
/// is disabled, no ballot is ever marked, noted or sent.
pub proof fn law_inactive_voter_casts_nothing<H, N: BlockNumberOps, S, Id, T>(
    run: Seq<Step<H, N, S, Id, T>>,
    k: int,
)
    requires
        is_run(run),
        0 <= k < run.len(),
        run[0] is Wait,
        run[0].round().voting is No,
    ensures
        is_silent(run[k]),
        run[k].ballot() is None,
    decreases k,
{
    if k > 0 {
        law_inactive_voter_casts_nothing(run, k - 1);
        lemma_silent_step(run[k - 1], run[k]);
    }
}

/// Without a local voter id, or with one that is not part of the voter set, no votes are
/// pushed to the sink.
pub proof fn law_voter_outside_the_set_casts_nothing<H, N: BlockNumberOps, S, Id, T>(
    run: Seq<Step<H, N, S, Id, T>>,
    local_id: Option<Id>,
    voters: VoterSet<Id>,
    primary_voter: Id,
    k: int,
)
    requires
        is_run(run),
        0 <= k < run.len(),
        run[0] is Wait,
        run[0].round().voting == Voting::spec_in_round(local_id, voters, primary_voter),
        local_id matches Some(id) ==> !voters.has_voter(id),
    ensures
        run[k].ballot() is None,
{
    law_inactive_voter_casts_nothing(run, k);
}

/// Whether the voting of the round has ended without a precommit.
pub open spec fn is_ended<H, N: BlockNumberOps, S, Id, T>(step: Step<H, N, S, Id, T>) -> bool {
    &&& is_silent(step)
    &&& step.round().state is None
    &&& !(step is CheckGhost)
}

/// Voting that has ended stays so.
proof fn lemma_ended_step<H, N: BlockNumberOps, S, Id, T>(
    p: Step<H, N, S, Id, T>,
    q: Step<H, N, S, Id, T>,
)
    requires
        leads_to(p, q),
        is_ended(p),
    ensures
        is_ended(q),
{
    match p {
        Step::Wait(round) => {},
        Step::CheckTarget(check) => {},
        Step::ImportPrevote { round, .. } => {},
        Step::ImportPrecommit { round, .. } => {},
        Step::Decide(round) => {},
        Step::FindAncestry(query) => {},
        Step::FindBestChain(query) => {},
        Step::CheckGhost(check) => {},
        _ => {},
    }
}

/// A prevote that cannot be constructed ends the voting: nothing is cast in the round
/// from then on, and no state is entered again.
pub proof fn law_failed_prevote_ends_the_voting<H, N: BlockNumberOps, S, Id, T>(
    run: Seq<Step<H, N, S, Id, T>>,
    query: BestChainQuery<H, N, Id, T>,
    k: int,
)
    requires
        is_run(run),
        0 <= k < run.len(),
        run[0] == query.answered::<S>(None),
    ensures
        is_ended(run[k]),
        run[k].ballot() is None,
    decreases k,
{
    if k > 0 {
        law_failed_prevote_ends_the_voting(run, query, k - 1);
        lemma_ended_step(run[k - 1], run[k]);
    }
}

/// Whether what the step asks or casts is what the round warrants:
/// - a proposal is that of the primary voter, for the estimate of the last round;
/// - a prevote is one of an active voter, when it is time to vote; its base is the
///   estimate of the last round or the block of the primary voter;
/// - a precommit is one of an active voter, when it is time to vote, for the
///   prevote-GHOST of the round.
pub open spec fn is_warranted<H, N: BlockNumberOps, S, Id, T>(
    step: Step<H, N, S, Id, T>,
) -> bool {
    let round = step.round();
    let votes = round.is_active() && round.is_due();
    match step {
        Step::FindAncestry(query) => {
            &&& votes
            &&& round.last_round_state matches Some(last) && last.estimate matches Some(estimate)
                && query.estimate == estimate.0
            &&& round.primary_block matches Some(primary) && query.primary == primary.0
        },
        Step::FindBestChain(query) => {
            &&& votes
            &&& {
                ||| round.last_round_state matches Some(last) && last.estimate matches Some(
                    estimate,
                ) && query.base == estimate.0
                ||| round.primary_block matches Some(primary) && query.base == primary.0
            }
        },
        Step::CheckGhost(check) => {
            &&& round.round.state.prevote_ghost matches Some(p_g) && check.prevote_ghost == p_g.0
            &&& round.last_round_state matches Some(last) && last.estimate matches Some(estimate)
                && check.estimate == estimate.0
        },
        _ => match step.ballot() {
            Some(Ballot::Propose(proposal, _, _)) => round.last_round_state matches Some(last)
                && proposal_of(round.voting, last) == Some(proposal),
            Some(Ballot::Prevote(..)) => votes,
            Some(Ballot::Precommit(precommit)) => {
                &&& votes
                &&& round.round.state.prevote_ghost == Some(
                    (precommit.target_hash, precommit.target_number),
                )
            },
            None => true,
        },
    }
}

/// A warranted step leads to a warranted one.
proof fn lemma_warranted_step<H, N: BlockNumberOps, S, Id, T>(
    p: Step<H, N, S, Id, T>,
    q: Step<H, N, S, Id, T>,
)
    requires
        leads_to(p, q),
        is_warranted(p),
    ensures
        is_warranted(q),
{
    match p {
        Step::Wait(round) => {},
        Step::CheckTarget(check) => {},
        Step::ImportPrevote { round, .. } => {},
        Step::ImportPrecommit { round, .. } => {},
        Step::Decide(round) => {},
        Step::FindAncestry(query) => {},
        Step::FindBestChain(query) => {},
        Step::CheckGhost(check) => {},
        _ => {},
    }
}

/// Whatever a round asks or casts, it has a warrant for: proposals are only made by the
/// primary voter, prevotes and precommits only by an active voter and only when it is
/// time to vote, and a precommit is for the prevote-GHOST.
pub proof fn law_votes_are_warranted<H, N: BlockNumberOps, S, Id, T>(
    run: Seq<Step<H, N, S, Id, T>>,
    k: int,
)
    requires
        is_run(run),
        0 <= k < run.len(),
        run[0] is Wait,
    ensures
        is_warranted(run[k]),
    decreases k,
{
    if k > 0 {
        law_votes_are_warranted(run, k - 1);
        lemma_warranted_step(run[k - 1], run[k]);
    }
}

/// A precommit is only cast once the prevote-GHOST builds on the estimate of the last
/// round: it is that estimate, or the chain said that it descends from it.
pub proof fn law_precommit_builds_on_last_estimate<H, N: BlockNumberOps, S, Id, T>(
    p: Step<H, N, S, Id, T>,
    q: Step<H, N, S, Id, T>,
)
    requires
        leads_to(p, q),
        q matches Step::MarkVoted(cast) && cast.ballot is Precommit,
    ensures
        match p {
            Step::Decide(round) => round.last_round_state matches Some(last)
                && last.estimate is Some && round.round.state.prevote_ghost == last.estimate,
            Step::CheckGhost(check) => {
                &&& q == check.round.after_ghost_check::<S>(check.precommit_timer, true)
                &&& q != check.round.after_ghost_check::<S>(check.precommit_timer, false)
            },
            _ => false,
        },
{
    match p {
        Step::Wait(round) => {},
        Step::CheckTarget(check) => {},
        Step::ImportPrevote { round, .. } => {},
        Step::ImportPrecommit { round, .. } => {},
        Step::Decide(round) => {},
        Step::FindAncestry(query) => {},
        Step::FindBestChain(query) => {},
        Step::CheckGhost(check) => {},
        _ => {},
    }
}

/// A prevote is only cast for the block that the chain gave as the best one that builds
/// on the base of the prevote.
pub proof fn law_prevote_is_for_the_best_chain<H, N: BlockNumberOps, S, Id, T>(
    p: Step<H, N, S, Id, T>,
    q: Step<H, N, S, Id, T>,
)
    requires
        leads_to(p, q),
        q matches Step::MarkVoted(cast) && cast.ballot is Prevote,
    ensures
        p matches Step::FindBestChain(query) && q.ballot() matches Some(Ballot::Prevote(prevote, _))
            && q == query.answered::<S>(Some((prevote.target_hash, prevote.target_number))),
{
    match p {
        Step::Wait(round) => {},
        Step::CheckTarget(check) => {},
        Step::ImportPrevote { round, .. } => {},
        Step::ImportPrecommit { round, .. } => {},
        Step::Decide(round) => {},
        Step::FindAncestry(query) => {},
        Step::FindBestChain(query) => {},
        Step::CheckGhost(check) => {},
        _ => {},
    }
}

/// A vote is sent only after it was noted, and a prevote or a precommit is noted only
/// after it was marked in the tally.
pub proof fn law_vote_is_noted_before_it_is_sent<H, N: BlockNumberOps, S, Id, T>(
    p: Step<H, N, S, Id, T>,
    q: Step<H, N, S, Id, T>,
)
    requires
        leads_to(p, q),
    ensures
        q matches Step::SendVote(cast) ==> p == Step::<H, N, S, Id, T>::NoteVote(cast),
        q matches Step::NoteVote(cast) ==> cast.ballot is Propose || p == Step::<
            H,
            N,
            S,
            Id,
            T,
        >::MarkVoted(cast),
{
    match p {
        Step::Wait(round) => {},
        Step::CheckTarget(check) => {},
        Step::ImportPrevote { round, .. } => {},
        Step::ImportPrecommit { round, .. } => {},
        Step::Decide(round) => {},
        Step::FindAncestry(query) => {},
        Step::FindBestChain(query) => {},
        Step::CheckGhost(check) => {},
        _ => {},
    }
}

/// Only a vote whose target builds on the base of the round is imported, and only an
/// import changes the tally.
pub proof fn law_only_votes_on_the_base_are_imported<H, N: BlockNumberOps, S, Id, T>(
    p: Step<H, N, S, Id, T>,
    q: Step<H, N, S, Id, T>,
)
    requires
        leads_to(p, q),
    ensures
        q matches Step::ImportPrevote { round, prevote, signature, id } ==> {
            &&& p matches Step::CheckTarget(check)
            &&& check.vote == (SignedMessage { message: Message::Prevote(prevote), signature, id })
            &&& q == check.answered(true) && q != check.answered(false)
        },
        q matches Step::ImportPrecommit { round, precommit, signature, id } ==> {
            &&& p matches Step::CheckTarget(check)
            &&& check.vote == (SignedMessage {
                message: Message::Precommit(precommit),
                signature,
                id,
            })
            &&& q == check.answered(true) && q != check.answered(false)
        },
        q.round().round.state != p.round().round.state ==> p is ImportPrevote
            || p is ImportPrecommit,
{
    match p {
        Step::Wait(round) => {},
        Step::CheckTarget(check) => {},
        Step::ImportPrevote { round, .. } => {},
        Step::ImportPrecommit { round, .. } => {},
        Step::Decide(round) => {},
        Step::FindAncestry(query) => {},
        Step::FindBestChain(query) => {},
        Step::CheckGhost(check) => {},
        _ => {},
    }
}

/// A turn ends the round if and only if the round is completable and the estimate of
/// the last round is finalized.
pub proof fn law_round_ends_once_it_is_over<H, N: BlockNumberOps, S, Id, T>(
    p: Step<H, N, S, Id, T>,
    q: Step<H, N, S, Id, T>,
)
    requires
        leads_to(p, q),
    ensures
        q is Done ==> q.round().is_over(),
        q is Wait ==> !q.round().is_over(),
{
    match p {
        Step::Wait(round) => {},
        Step::CheckTarget(check) => {},
        Step::ImportPrevote { round, .. } => {},
        Step::ImportPrecommit { round, .. } => {},
        Step::Decide(round) => {},
        Step::FindAncestry(query) => {},
        Step::FindBestChain(query) => {},
        Step::CheckGhost(check) => {},
        _ => {},
    }
}

/// What one step leaves unchanged.
proof fn lemma_fixed_step<H, N: BlockNumberOps, S, Id, T>(
    p: Step<H, N, S, Id, T>,
    q: Step<H, N, S, Id, T>,
)
    requires
        leads_to(p, q),
    ensures
        q.round().round.number == p.round().round.number,
        q.round().round.base == p.round().round.base,
        q.round().round.primary_voter == p.round().round.primary_voter,
        q.round().voting == p.round().voting || q.round().voting is No,
{
    match p {
        Step::Wait(round) => {},
        Step::CheckTarget(check) => {},
        Step::ImportPrevote { round, .. } => {},
        Step::ImportPrecommit { round, .. } => {},
        Step::Decide(round) => {},
        Step::FindAncestry(query) => {},
        Step::FindBestChain(query) => {},
        Step::CheckGhost(check) => {},
        _ => {},
    }
}

/// The number of a round, its base and its primary voter never change, and a voter only
/// ever changes its part in the round by giving it up.
pub proof fn law_round_is_fixed<H, N: BlockNumberOps, S, Id, T>(
    run: Seq<Step<H, N, S, Id, T>>,
    i: int,
    j: int,
)
    requires
        is_run(run),
        0 <= i <= j < run.len(),
    ensures
        run[j].round().round.number == run[i].round().round.number,
        run[j].round().round.base == run[i].round().round.base,
        run[j].round().round.primary_voter == run[i].round().round.primary_voter,
        run[j].round().voting == run[i].round().voting || run[j].round().voting is No,
    decreases j - i,
{
    if i < j {
        law_round_is_fixed(run, i, j - 1);
        lemma_fixed_step(run[j - 1], run[j]);
    }
}

/// Whether the step takes the proposal of `block` by the primary voter.
pub open spec fn is_proposed_in<H, N, S, Id, T>(
    step: Step<H, N, S, Id, T>,
    block: (H, N),
) -> bool {
    &&& step matches Step::CheckTarget(check)
    &&& check.vote.id == check.round.round.primary_voter
    &&& check.vote.message == Message::PrimaryPropose(
        PrimaryPropose { target_hash: block.0, target_number: block.1 },
    )
}

/// Only a proposal of the primary voter changes the primary block.
proof fn lemma_primary_block_step<H, N: BlockNumberOps, S, Id, T>(
    p: Step<H, N, S, Id, T>,
    q: Step<H, N, S, Id, T>,
)
    requires
        leads_to(p, q),
    ensures
        q.round().primary_block == p.round().primary_block || (q.round().primary_block matches Some(
            block,
        ) && is_proposed_in(p, block)),
{
    match p {
        Step::Wait(round) => {},
        Step::CheckTarget(check) => {},
        Step::ImportPrevote { round, .. } => {},
        Step::ImportPrecommit { round, .. } => {},
        Step::Decide(round) => {},
        Step::FindAncestry(query) => {},
        Step::FindBestChain(query) => {},
        Step::CheckGhost(check) => {},
        _ => {},
    }
}

/// The primary block of a round is one that the primary voter proposed in it.
pub proof fn law_primary_block_is_from_primary_voter<H, N: BlockNumberOps, S, Id, T>(
    run: Seq<Step<H, N, S, Id, T>>,
    k: int,
    block: (H, N),
)
    requires
        is_run(run),
        0 <= k < run.len(),
        run[0].round().primary_block is None,
        run[k].round().primary_block == Some(block),
    ensures
        exists|i: int| 0 <= i < k && is_proposed_in(#[trigger] run[i], block),
    decreases k,
{
    if k > 0 {
        lemma_primary_block_step(run[k - 1], run[k]);
        if !is_proposed_in(run[k - 1], block) {
            law_primary_block_is_from_primary_voter(run, k - 1, block);
        }
    }
}

/// Whether the last round, if there was one, left an estimate and a prevote-GHOST, as a
/// completable round does.
pub open spec fn follows_completable<H, N>(last_round_state: Option<RoundState<H, N>>) -> bool {
    last_round_state matches Some(last) ==> last.estimate is Some && last.prevote_ghost is Some
}

/// Only a wait brings a new state of the last round.
proof fn lemma_last_round_step<H, N: BlockNumberOps, S, Id, T>(
    p: Step<H, N, S, Id, T>,
    q: Step<H, N, S, Id, T>,
)
    requires
        leads_to(p, q),
        !(p is Wait),
    ensures
        q.round().last_round_state == p.round().last_round_state,
{
    match p {
        Step::Wait(round) => {},
        Step::CheckTarget(check) => {},
        Step::ImportPrevote { round, .. } => {},
        Step::ImportPrecommit { round, .. } => {},
        Step::Decide(round) => {},
        Step::FindAncestry(query) => {},
        Step::FindBestChain(query) => {},
        Step::CheckGhost(check) => {},
        _ => {},
    }
}

/// A round that follows a completable one can always decide, as long as each new state
/// of the last round is that of a completable one.
pub proof fn law_round_after_completable_round_decides<H, N: BlockNumberOps, S, Id, T>(
    run: Seq<Step<H, N, S, Id, T>>,
    k: int,
)
    requires
        is_run(run),
        0 <= k < run.len(),
        follows_completable(run[0].round().last_round_state),
        forall|i: int, j: int|
            0 <= i && j == i + 1 && j < run.len() && (#[trigger] run[i]) is Wait
                ==> follows_completable((#[trigger] run[j]).round().last_round_state),
    ensures
        follows_completable(run[k].round().last_round_state),
        run[k] matches Step::Decide(round) ==> round.spec_can_decide(),
    decreases k,
{
    if k > 0 {
        law_round_after_completable_round_decides(run, k - 1);
        if !(run[k - 1] is Wait) {
            lemma_last_round_step(run[k - 1], run[k]);
        }
    }
}

/// A round that counts as completed on one block leaves an estimate and a
/// prevote-GHOST.
pub proof fn law_genesis_is_completable<H, N>(block: (H, N))
    ensures
        follows_completable(Some(RoundState::spec_genesis(block))),
{
}

/// The block of the primary voter is only built on if it is a strict descendent of the
/// estimate of the last round: an ancestry that holds the blocks from the parent of the
/// prevote-GHOST down to, but without, the estimate does not hold a block at or below
/// the estimate.
pub proof fn law_primary_block_lies_above_estimate<H, N: BlockNumberOps, Id, T>(
    query: AncestryQuery<H, N, Id, T>,
    ancestry: Seq<H>,
    primary: N,
    prevote_ghost: N,
    estimate: N,
)
    requires
        primary.height() < prevote_ghost.height(),
        prevote_ghost.height() <= usize::MAX,
        query.offset == (prevote_ghost.height() - primary.height() - 1) as usize,
        ancestry.len() == prevote_ghost.height() - estimate.height() - 1,
        query.base_in(Ok(ancestry)) != query.estimate,
    ensures
        estimate.height() < primary.height(),
        query.base_in(Ok(ancestry)) == query.primary,
        ancestry[prevote_ghost.height() - primary.height() - 1] == query.primary,
{
}

/// Whether two steps end a turn alike, with rounds that differ at most in whether the
/// local voter votes.
pub open spec fn is_in_pace<H, N, S, Id, T>(
    a: Step<H, N, S, Id, T>,
    b: Step<H, N, S, Id, T>,
) -> bool {
    &&& a is Wait && b is Wait || a is Done && b is Done
    &&& a.round() == (VotingRound { voting: a.round().voting, ..b.round() })
}

/// Whether `step` is on the way from the turn of `round` to a prevote or a precommit,
/// or at its end.
spec fn is_in_turn<H, N: BlockNumberOps, S, Id, T>(
    round: VotingRound<H, N, Id, T>,
    precommit_timer: T,
    step: Step<H, N, S, Id, T>,
) -> bool {
    match step {
        Step::FindAncestry(query) => query.round == round.with_state(None) && query.precommit_timer
            == precommit_timer,
        Step::FindBestChain(query) => query.round == round.with_state(None)
            && query.precommit_timer == precommit_timer,
        Step::Wait(_) | Step::Done(_) => {
            ||| step.round().voting is No
            ||| step == round.with_state(Some(State::Prevoted(precommit_timer))).concluded::<S>()
        },
        _ => step.ballot() matches Some(Ballot::Prevote(_, timer)) && timer == precommit_timer
            && step.round() == round.with_state(None),
    }
}

/// A turn towards a prevote stays one.
proof fn lemma_prevote_turn_step<H, N: BlockNumberOps, S, Id, T>(
    round: VotingRound<H, N, Id, T>,
    precommit_timer: T,
    p: Step<H, N, S, Id, T>,
    q: Step<H, N, S, Id, T>,
)
    requires
        leads_to(p, q),
        !p.ends_turn(),
        is_in_turn(round, precommit_timer, p),
    ensures
        is_in_turn(round, precommit_timer, q),
{
    match p {
        Step::Wait(round) => {},
        Step::CheckTarget(check) => {},
        Step::ImportPrevote { round, .. } => {},
        Step::ImportPrecommit { round, .. } => {},
        Step::Decide(round) => {},
        Step::FindAncestry(query) => {},
        Step::FindBestChain(query) => {},
        Step::CheckGhost(check) => {},
        _ => {},
    }
}

/// The steps of a turn towards a prevote.
proof fn lemma_prevote_turn<H, N: BlockNumberOps, S, Id, T>(
    run: Seq<Step<H, N, S, Id, T>>,
    round: VotingRound<H, N, Id, T>,
    precommit_timer: T,
    k: int,
)
    requires
        is_run(run),
        1 <= k < run.len(),
        is_in_turn(round, precommit_timer, run[1]),
        forall|i: int| 0 <= i < k ==> !(#[trigger] run[i]).ends_turn(),
    ensures
        is_in_turn(round, precommit_timer, run[k]),
    decreases k,
{
    if k > 1 {
        lemma_prevote_turn(run, round, precommit_timer, k - 1);
        lemma_prevote_turn_step(round, precommit_timer, run[k - 1], run[k]);
    }
}

/// The state of a round goes on without the votes as if they had been cast: where the
/// turn of an active voter up to its prevote does not fail, a voter that is not active
/// ends the same turn in the same way.
pub proof fn law_inactive_voter_keeps_pace_with_prevote<H, N: BlockNumberOps, S, Id, T>(
    run: Seq<Step<H, N, S, Id, T>>,
    inactive: VotingRound<H, N, Id, T>,
    k: int,
)
    requires
        inactive.voting is No,
        inactive.state matches Some(state) && (state is Start || state is Proposed),
        inactive.last_round_state is Some,
        is_run(run),
        1 <= k < run.len(),
        run[0] == Step::<H, N, S, Id, T>::Decide(VotingRound { voting: Voting::Yes, ..inactive }),
        forall|i: int| 0 <= i < k ==> !(#[trigger] run[i]).ends_turn(),
        run[k].ends_turn(),
        run[k].round().voting is Yes,
    ensures
        is_in_pace(inactive.decided::<S>(), run[k]),
{
    let active = VotingRound { voting: Voting::Yes, ..inactive };
    assert(leads_to(run[0], run[1]));
    assert(run[1] == active.decided::<S>());
    let precommit_timer = match inactive.state->0 {
        State::Start(_, precommit_timer) => precommit_timer,
        State::Proposed(_, precommit_timer) => precommit_timer,
        _ => arbitrary(),
    };
    if active.is_due() {
        lemma_prevote_turn(run, active, precommit_timer, k);
    } else if k > 1 {
        assert(run[1].ends_turn());
    }
}

/// A voter that is not active asks the same about the prevote-GHOST as one that is.
pub proof fn law_inactive_voter_asks_the_same_of_the_ghost<H, N: BlockNumberOps, S, Id, T>(
    inactive: VotingRound<H, N, Id, T>,
)
    requires
        inactive.voting is No,
        inactive.state matches Some(State::Prevoted(_)),
    ensures
        ({
            let active = VotingRound { voting: Voting::Yes, ..inactive };
            match (inactive.decided::<S>(), active.decided::<S>()) {
                (Step::CheckGhost(a), Step::CheckGhost(b)) => {
                    &&& a.estimate == b.estimate
                    &&& a.prevote_ghost == b.prevote_ghost
                    &&& a.precommit_timer == b.precommit_timer
                    &&& a.round == (VotingRound { voting: Voting::No, ..b.round })
                },
                (a, b) => !(a is CheckGhost) && !(b is CheckGhost),
            }
        }),
{
}

/// The state of a round goes on without the votes as if they had been cast: whether the
/// prevote-GHOST builds on the estimate of the last round or not, a voter that is not
/// active ends the turn in the same way as one that is and that precommits where it is
/// time to.
pub proof fn law_inactive_voter_keeps_pace_with_precommit<H, N: BlockNumberOps, S, Id, T>(
    run: Seq<Step<H, N, S, Id, T>>,
    inactive: VotingRound<H, N, Id, T>,
    precommit_timer: T,
    on_estimate: bool,
    k: int,
)
    requires
        inactive.voting is No,
        is_run(run),
        0 <= k < run.len(),
        run[0] == (VotingRound { voting: Voting::Yes, ..inactive }).after_ghost_check::<S>(
            precommit_timer,
            on_estimate,
        ),
        forall|i: int| 0 <= i < k ==> !(#[trigger] run[i]).ends_turn(),
        run[k].ends_turn(),
    ensures
        is_in_pace(inactive.after_ghost_check::<S>(precommit_timer, on_estimate), run[k]),
{
    if k > 0 {
        assert(leads_to(run[0], run[1]));
        assert(k > 1 && leads_to(run[1], run[2]));
        assert(k > 2 && leads_to(run[2], run[3]));
        assert(run[3].ends_turn());
    }
}

/// A wait that ends without a failure leads on, whatever ended it and whatever kind of
/// failure there could have been.
pub proof fn law_input_leads_on<H, N: BlockNumberOps, S, Id, T, E>(
    round: VotingRound<H, N, Id, T>,
    waited: VotingRound<H, N, Id, T>,
    input: Input<H, N, S, Id, E>,
    timer_ready: bool,
    next: Step<H, N, S, Id, T>,
)
    requires
        same_but_timer(round, waited),
        waited.after_input(input, timer_ready) == Ok::<Step<H, N, S, Id, T>, E>(next),
    ensures
        leads_to(Step::Wait(round), next),
{
    let same_input: Input<H, N, S, Id, ()> = match input {
        Input::Vote(Ok(vote)) => Input::Vote(Ok(vote)),
        Input::Vote(Err(_)) => Input::Vote(Err(())),
        Input::LastRoundState(state) => Input::LastRoundState(state),
        Input::Timer(_) => Input::Timer(Ok(())),
    };
    assert(waited.after_input(same_input, timer_ready) == Ok::<Step<H, N, S, Id, T>, ()>(next));
}

/// A timer that failed counts as fired: the outcome of a timer makes no difference.
pub proof fn law_failed_timer_counts_as_fired<H, N: BlockNumberOps, S, Id, T, E>(
    round: VotingRound<H, N, Id, T>,
    failure: E,
    timer_ready: bool,
)
    ensures
        round.after_input(Input::<H, N, S, Id, E>::Timer(Err(failure)), timer_ready)
            == round.after_input(Input::<H, N, S, Id, E>::Timer(Ok(())), timer_ready),
{
}

/// The block that the step reports as finalized, if it does.
pub open spec fn reported_block<H, N, S, Id, T>(step: Step<H, N, S, Id, T>) -> Option<(H, N)> {
    match step {
        Step::Finalize { block, .. } => Some(block),
        _ => None,
    }
}

/// The block that the step reports as finalized, or that is to be reported after it.
pub open spec fn announced_block<H, N, S, Id, T>(step: Step<H, N, S, Id, T>) -> Option<(H, N)> {
    match step {
        Step::ReportPrevotes(_, _, finalized) => finalized,
        Step::ReportPrecommits(_, _, finalized) => finalized,
        _ => reported_block(step),
    }
}

/// How a finalized block comes to be reported: an import announces it, and it is
/// announced until it is reported.
proof fn lemma_finalized_step<H, N: BlockNumberOps, S, Id, T>(
    p: Step<H, N, S, Id, T>,
    q: Step<H, N, S, Id, T>,
)
    requires
        leads_to(p, q),
    ensures
        q.round().round.state.finalized == p.round().round.state.finalized || p is ImportPrevote
            || p is ImportPrecommit,
        p is ImportPrevote || p is ImportPrecommit ==> {
            &&& announced_block(p) is None
            &&& announced_block(q) == newly_finalized(
                p.round().round.state,
                q.round().round.state,
            )
        },
        announced_block(p) is Some && reported_block(p) is None ==> reported_block(q)
            == announced_block(p),
{
    match p {
        Step::Wait(round) => {},
        Step::CheckTarget(check) => {},
        Step::ImportPrevote { round, .. } => {},
        Step::ImportPrecommit { round, .. } => {},
        Step::Decide(round) => {},
        Step::FindAncestry(query) => {},
        Step::FindBestChain(query) => {},
        Step::CheckGhost(check) => {},
        _ => {},
    }
}

/// Whether a block at least as high as `height` is reported in the step.
pub open spec fn reports_from<H, N: BlockNumberOps, S, Id, T>(
    step: Step<H, N, S, Id, T>,
    height: nat,
) -> bool {
    reported_block(step) matches Some(block) && height <= block.1.height()
}

/// A finalized block, or a higher one, was reported or is announced.
proof fn lemma_finalized_height_is_announced<H, N: BlockNumberOps, S, Id, T>(
    run: Seq<Step<H, N, S, Id, T>>,
    k: int,
    block: (H, N),
)
    requires
        is_run(run),
        0 <= k < run.len(),
        run[0].round().round.state.finalized is None,
        run[k].round().round.state.finalized == Some(block),
    ensures
        (announced_block(run[k]) matches Some(b) && block.1.height() <= b.1.height()) || exists|
            i: int,
        |
            0 <= i < k && reports_from(#[trigger] run[i], block.1.height()),
    decreases k,
{
    lemma_finalized_step(run[k - 1], run[k]);
    let before = run[k - 1].round().round.state;
    if newly_finalized(before, run[k].round().round.state) is None {
        let last = before.finalized->0;
        lemma_finalized_height_is_announced(run, k - 1, last);
        if exists|i: int| 0 <= i < k - 1 && reports_from(#[trigger] run[i], last.1.height()) {
            let i = choose|i: int|
                0 <= i < k - 1 && reports_from(#[trigger] run[i], last.1.height());
            assert(reports_from(run[i], block.1.height()));
        } else if reported_block(run[k - 1]) is Some {
            assert(reports_from(run[k - 1], block.1.height()));
        }
    }
}

/// Whatever is finalized is reported: in a run that starts with nothing finalized, the
/// block that is finalized at the end of a turn was reported before, or a higher one was.
pub proof fn law_finalized_height_is_reported<H, N: BlockNumberOps, S, Id, T>(
    run: Seq<Step<H, N, S, Id, T>>,
    k: int,
    block: (H, N),
)
    requires
        is_run(run),
        0 <= k < run.len(),
        run[0].round().round.state.finalized is None,
        run[k].ends_turn(),
        run[k].round().round.state.finalized == Some(block),
    ensures
        exists|i: int| 0 <= i < k && reports_from(#[trigger] run[i], block.1.height()),
{
    lemma_finalized_height_is_announced(run, k, block);
}

/// Whether the tally never takes back what it finalized: the finalized block changes
/// only for a higher one.
pub open spec fn keeps_finalized<H, N: BlockNumberOps, S, Id, T>(
    run: Seq<Step<H, N, S, Id, T>>,
) -> bool {
    forall|i: int, j: int|
        #![trigger run[i], run[j]]
        0 <= i && j == i + 1 && j < run.len() ==> {
            ||| run[j].round().round.state.finalized == run[i].round().round.state.finalized
            ||| newly_finalized(run[i].round().round.state, run[j].round().round.state) is Some
        }
}

/// A finalized block was reported or is announced.
proof fn lemma_finalized_block_is_announced<H, N: BlockNumberOps, S, Id, T>(
    run: Seq<Step<H, N, S, Id, T>>,
    k: int,
    block: (H, N),
)
    requires
        is_run(run),
        keeps_finalized(run),
        0 <= k < run.len(),
        run[0].round().round.state.finalized is None,
        run[k].round().round.state.finalized == Some(block),
    ensures
        announced_block(run[k]) == Some(block) || exists|i: int|
            0 <= i < k && reported_block(#[trigger] run[i]) == Some(block),
    decreases k,
{
    lemma_finalized_step(run[k - 1], run[k]);
    let before = run[k - 1].round().round.state;
    if before.finalized == Some(block) {
        lemma_finalized_block_is_announced(run, k - 1, block);
    }
}

/// A finalized block is reported: in a run that starts with nothing finalized, on a
/// tally that never takes back what it finalized, the block that is finalized at the end
/// of a turn was reported before.
pub proof fn law_finalized_block_is_reported<H, N: BlockNumberOps, S, Id, T>(
    run: Seq<Step<H, N, S, Id, T>>,
    k: int,
    block: (H, N),
)
    requires
        is_run(run),
        keeps_finalized(run),
        0 <= k < run.len(),
        run[0].round().round.state.finalized is None,
        run[k].ends_turn(),
        run[k].round().round.state.finalized == Some(block),
    ensures
        exists|i: int| 0 <= i < k && reported_block(#[trigger] run[i]) == Some(block),
{
    lemma_finalized_block_is_announced(run, k, block);
}

/// What is announced is finalized.
proof fn lemma_announced_step<H, N: BlockNumberOps, S, Id, T>(
    p: Step<H, N, S, Id, T>,
    q: Step<H, N, S, Id, T>,
)
    requires
        leads_to(p, q),
        announced_block(p) matches Some(block) ==> p.round().round.state.finalized == Some(block)
            && p.round().best_finalized == Some(block),
    ensures
        announced_block(q) matches Some(block) ==> q.round().round.state.finalized == Some(block)
            && q.round().best_finalized == Some(block),
{
    match p {
        Step::Wait(round) => {},
        Step::CheckTarget(check) => {},
        Step::ImportPrevote { round, .. } => {},
        Step::ImportPrecommit { round, .. } => {},
        Step::Decide(round) => {},
        Step::FindAncestry(query) => {},
        Step::FindBestChain(query) => {},
        Step::CheckGhost(check) => {},
        _ => {},
    }
}

/// Only what is finalized is reported: the tally has it as the finalized block, and the
/// round keeps it as the last one.
pub proof fn law_reported_block_is_finalized<H, N: BlockNumberOps, S, Id, T>(
    run: Seq<Step<H, N, S, Id, T>>,
    k: int,
)
    requires
        is_run(run),
        0 <= k < run.len(),
        run[0] is Wait,
    ensures
        announced_block(run[k]) matches Some(block) ==> {
            &&& run[k].round().round.state.finalized == Some(block)
            &&& run[k].round().best_finalized == Some(block)
        },
    decreases k,
{
    if k > 0 {
        law_reported_block_is_finalized(run, k - 1);
        lemma_announced_step(run[k - 1], run[k]);
    }
}

/// An active voter gets past the prevote only by sending one.
proof fn lemma_prevoted_step<H, N: BlockNumberOps, S, Id, T>(
    p: Step<H, N, S, Id, T>,
    q: Step<H, N, S, Id, T>,
)
    requires
        leads_to(p, q),
        progress(p) < 4,
        progress(q) >= 4,
        q.round().is_active(),
    ensures
        p is SendVote,
        p.ballot()->0 is Prevote,
{
    match p {
        Step::Wait(round) => {},
        Step::CheckTarget(check) => {},
        Step::ImportPrevote { round, .. } => {},
        Step::ImportPrecommit { round, .. } => {},
        Step::Decide(round) => {},
        Step::FindAncestry(query) => {},
        Step::FindBestChain(query) => {},
        Step::CheckGhost(check) => {},
        _ => {},
    }
}

/// An active voter that is past the prevote has sent one.
proof fn lemma_prevote_was_sent<H, N: BlockNumberOps, S, Id, T>(
    run: Seq<Step<H, N, S, Id, T>>,
    k: int,
)
    requires
        is_run(run),
        0 <= k < run.len(),
        progress(run[0]) < 4,
        progress(run[k]) >= 4,
        run[k].round().is_active(),
    ensures
        exists|i: int|
            0 <= i < k && (#[trigger] run[i]) is SendVote && run[i].ballot()->0 is Prevote,
    decreases k,
{
    if progress(run[k - 1]) < 4 {
        lemma_prevoted_step(run[k - 1], run[k]);
    } else {
        lemma_fixed_step(run[k - 1], run[k]);
        lemma_prevote_was_sent(run, k - 1);
    }
}

/// A precommit is sent only after a prevote was sent, in a run from the start of a round.
pub proof fn law_precommit_follows_prevote<H, N: BlockNumberOps, S, Id, T>(
    run: Seq<Step<H, N, S, Id, T>>,
    k: int,
)
    requires
        is_run(run),
        0 <= k < run.len(),
        run[0] is Wait,
        run[0].round().state matches Some(State::Start(..)),
        run[k] is SendVote,
        run[k].ballot()->0 is Precommit,
    ensures
        exists|i: int|
            0 <= i < k && (#[trigger] run[i]) is SendVote && run[i].ballot()->0 is Prevote,
{
    law_votes_are_warranted(run, k);
    lemma_prevote_was_sent(run, k);
}

/// Whether the prevote-GHOST of the last round builds on its estimate, where it has both.
pub open spec fn ghost_builds_on_estimate<H, N>(
    builds_on: spec_fn(H, H) -> bool,
    last_round_state: Option<RoundState<H, N>>,
) -> bool {
    last_round_state matches Some(last) ==> last.prevote_ghost matches Some(p_g)
        ==> last.estimate matches Some(estimate) ==> builds_on(p_g.0, estimate.0)
}

/// Whether what led from `p` to `q` is honest about which blocks build on which: the
/// blocks of an ancestry build on its end, the best block builds on the base that was
/// asked for, and the prevote-GHOST of the last round builds on its estimate.
pub open spec fn is_honest<H, N: BlockNumberOps, S, Id, T>(
    builds_on: spec_fn(H, H) -> bool,
    p: Step<H, N, S, Id, T>,
    q: Step<H, N, S, Id, T>,
) -> bool {
    match p {
        Step::Wait(_) => ghost_builds_on_estimate(builds_on, q.round().last_round_state),
        Step::FindAncestry(query) => exists|ancestry: Result<Seq<H>, Error>|
            {
                &&& q == #[trigger] query.answered::<S>(ancestry)
                &&& ancestry matches Ok(blocks) ==> forall|i: int|
                    0 <= i < blocks.len() ==> builds_on(#[trigger] blocks[i], query.estimate)
            },
        Step::FindBestChain(query) => exists|best_chain: Option<(H, N)>|
            {
                &&& q == #[trigger] query.answered::<S>(best_chain)
                &&& best_chain matches Some(target) ==> builds_on(target.0, query.base)
            },
        _ => true,
    }
}

/// Whether what the step is about to prevote for builds on the estimate of the last
/// round.
pub open spec fn prevotes_on_estimate<H, N: BlockNumberOps, S, Id, T>(
    builds_on: spec_fn(H, H) -> bool,
    step: Step<H, N, S, Id, T>,
) -> bool {
    let last_round_state = step.round().last_round_state;
    match step {
        Step::FindAncestry(query) => last_round_state matches Some(last)
            && last.estimate matches Some(estimate) && query.estimate == estimate.0,
        Step::FindBestChain(query) => last_round_state matches Some(last)
            && last.estimate matches Some(estimate) && builds_on(query.base, estimate.0),
        _ => step.ballot() matches Some(Ballot::Prevote(prevote, _))
            ==> last_round_state matches Some(last) && last.estimate matches Some(estimate)
            && builds_on(prevote.target_hash, estimate.0),
    }
}

/// An honest step keeps a prevote on the estimate of the last round.
proof fn lemma_honest_step<H, N: BlockNumberOps, S, Id, T>(
    builds_on: spec_fn(H, H) -> bool,
    p: Step<H, N, S, Id, T>,
    q: Step<H, N, S, Id, T>,
)
    requires
        forall|a: H| #[trigger] builds_on(a, a),
        forall|a: H, b: H, c: H| #[trigger]
            builds_on(a, b) && #[trigger] builds_on(b, c) ==> builds_on(a, c),
        leads_to(p, q),
        is_honest(builds_on, p, q),
        ghost_builds_on_estimate(builds_on, p.round().last_round_state),
        prevotes_on_estimate(builds_on, p),
    ensures
        ghost_builds_on_estimate(builds_on, q.round().last_round_state),
        prevotes_on_estimate(builds_on, q),
{
    if !(p is Wait) {
        lemma_last_round_step(p, q);
    }
    match p {
        Step::Wait(round) => {},
        Step::CheckTarget(check) => {},
        Step::ImportPrevote { round, .. } => {},
        Step::ImportPrecommit { round, .. } => {},
        Step::Decide(round) => {},
        Step::FindAncestry(query) => {},
        Step::FindBestChain(query) => {},
        Step::CheckGhost(check) => {},
        _ => {},
    }
}

/// Whatever the primary voter proposes, a prevote is on the chain of the estimate of the
/// last round, given a chain whose answers are honest and a last round whose
/// prevote-GHOST builds on its estimate.
pub proof fn law_prevote_builds_on_last_estimate<H, N: BlockNumberOps, S, Id, T>(
    builds_on: spec_fn(H, H) -> bool,
    run: Seq<Step<H, N, S, Id, T>>,
    k: int,
)
    requires
        forall|a: H| #[trigger] builds_on(a, a),
        forall|a: H, b: H, c: H| #[trigger]
            builds_on(a, b) && #[trigger] builds_on(b, c) ==> builds_on(a, c),
        is_run(run),
        0 <= k < run.len(),
        run[0] is Wait,
        ghost_builds_on_estimate(builds_on, run[0].round().last_round_state),
        forall|i: int, j: int|
            0 <= i && j == i + 1 && j < run.len() ==> is_honest(
                builds_on,
                #[trigger] run[i],
                #[trigger] run[j],
            ),
    ensures
        ghost_builds_on_estimate(builds_on, run[k].round().last_round_state),
        prevotes_on_estimate(builds_on, run[k]),
    decreases k,
{
    if k > 0 {
        law_prevote_builds_on_last_estimate(builds_on, run, k - 1);
        lemma_honest_step(builds_on, run[k - 1], run[k]);
    }
}

/// Rounds are only started when the last round is completable: a round that takes over
/// the state of one that came to its end has a completable last round.
pub proof fn law_next_round_follows_completable_round<H, N: BlockNumberOps, S, Id, T>(
    run: Seq<Step<H, N, S, Id, T>>,
    ended: VotingRound<H, N, Id, T>,
    next: VotingRound<H, N, Id, T>,
)
    requires
        is_run(run),
        run.len() >= 2,
        run.last() == Step::<H, N, S, Id, T>::Done(ended),
        next.last_round_state == Some(ended.round.state),
    ensures
        next.last_round_state matches Some(last) && last.completable,
{
    law_round_ends_once_it_is_over(run[run.len() - 2], run[run.len() - 1]);
}

} // verus!
