//! What each operation does, told from what it is given and what it gives.
//!
//! Each law speaks of the outcome of calls, on the values that go in and come out.

use crate::messages::{Equivocation, Message, Precommit, Prevote, PrimaryPropose, SignedMessage};
use crate::primitives::{BlockNumberOps, Identity};
use crate::round::{Round, RoundData, RoundState, VoterSet, newly_finalized};
use crate::step::{AncestryQuery, Ballot, BestChainQuery, Cast, GhostCheck, Step, TargetCheck};
use crate::voter::Voter;
use crate::voting_round::{Error, Input, PrevoteBase, State, Voting, VotingRound, proposal_of};
use vstd::prelude::*;

verus! {

/// Whether the step ends a turn, with the given round: by a wait, or with the round.
pub open spec fn ends_turn<H, N, S, Id, T>(
    step: Step<H, N, S, Id, T>,
    round: VotingRound<H, N, Id, T>,
) -> bool {
    step == Step::<H, N, S, Id, T>::Wait(round) || step == Step::<H, N, S, Id, T>::Done(round)
}

/// Integer block numbers are ordered as integers are, and count the blocks strictly
/// between them.
pub proof fn law_integer_block_numbers(
    a: u32,
    b: u32,
    c: u64,
    d: u64,
    small_is_below: bool,
    large_is_below: bool,
    small_between: usize,
    large_between: usize,
)
    requires
        call_ensures(<u32 as BlockNumberOps>::is_below, (a, b), small_is_below),
        call_ensures(<u64 as BlockNumberOps>::is_below, (c, d), large_is_below),
        call_ensures(<u32 as BlockNumberOps>::blocks_up_to, (a, b), small_between),
        call_ensures(<u64 as BlockNumberOps>::blocks_up_to, (c, d), large_between),
    ensures
        a.height() == a as nat,
        c.height() == c as nat,
        small_is_below <==> a < b,
        large_is_below <==> c < d,
        small_between == (b - a - 1) as usize,
        large_between == (d - c - 1) as usize,
{
}

/// A message targets the block that its vote names.
pub proof fn law_message_targets_the_block_of_its_vote<H: Identity, N: BlockNumberOps>(
    message: Message<H, N>,
    hash: H,
    number: N,
    r: (H, N),
)
    requires
        call_ensures(Message::<H, N>::target, (&message,), r),
        message == Message::Prevote(Prevote { target_hash: hash, target_number: number })
            || message == Message::Precommit(
            Precommit { target_hash: hash, target_number: number },
        ) || message == Message::PrimaryPropose(
            PrimaryPropose { target_hash: hash, target_number: number },
        ),
    ensures
        r == (hash, number),
{
}

/// A ballot goes out as a message of its own kind that carries its own vote, whatever the
/// timers.
pub proof fn law_ballot_goes_out_as_its_own_kind<H: Identity, N: BlockNumberOps, T>(
    ballot: Ballot<H, N, T>,
    r: Message<H, N>,
)
    requires
        call_ensures(Ballot::<H, N, T>::message, (&ballot,), r),
    ensures
        forall|vote: PrimaryPropose<H, N>, a: T, b: T|
            ballot == Ballot::Propose(vote, a, b) ==> r == Message::PrimaryPropose(vote),
        forall|vote: Prevote<H, N>, a: T|
            ballot == Ballot::Prevote(vote, a) ==> r == Message::Prevote(vote),
        forall|vote: Precommit<H, N>|
            ballot == Ballot::<H, N, T>::Precommit(vote) ==> r == Message::Precommit(vote),
{
}

/// The ids of the voters, without the weights.
pub open spec fn ids_of<Id>(voters: VoterSet<Id>) -> Seq<Id> {
    voters@.map_values(|voter: (Id, u64)| voter.0)
}

/// An id belongs to a voter if and only if it is among the ids of the set.
proof fn lemma_voter_is_one_of_the_ids<Id>(voters: VoterSet<Id>, id: Id)
    ensures
        voters.has_voter(id) <==> ids_of(voters).contains(id),
{
    let ids = ids_of(voters);
    if voters.has_voter(id) {
        let i = choose|i: int| 0 <= i < voters@.len() && (#[trigger] voters@[i]).0 == id;
        assert(ids[i] == id);
    }
    if ids.contains(id) {
        let i = choose|i: int| 0 <= i < ids.len() && ids[i] == id;
        assert(voters@[i].0 == id);
    }
}

/// A set is made of any voters but none, holds them as they were given, and contains an id
/// if and only if it is among theirs; weights make no difference.
pub proof fn law_voter_set_holds_exactly_the_given_voters<Id: Identity>(
    given: Vec<(Id, u64)>,
    made: Option<VoterSet<Id>>,
    id: Id,
    contains: bool,
    voters: Vec<(Id, u64)>,
)
    requires
        call_ensures(VoterSet::<Id>::new, (given,), made),
        made matches Some(set) ==> {
            &&& call_ensures(VoterSet::<Id>::contains, (&set, &id), contains)
            &&& call_ensures(VoterSet::<Id>::voters, (&set,), &voters)
        },
    ensures
        made is Some <==> given@.len() > 0,
        made is Some ==> voters@ == given@,
        made is Some ==> (contains <==> given@.map_values(
            |voter: (Id, u64)| voter.0,
        ).contains(id)),
{
    if let Some(set) = made {
        lemma_voter_is_one_of_the_ids(set, id);
    }
}

/// A voter has a part in a round if and only if its id is among those of the voter set,
/// and is the primary proposer if and only if that id is also the primary's.
pub proof fn law_part_in_the_round_goes_by_the_id<Id: Identity>(
    local_id: Option<Id>,
    voters: VoterSet<Id>,
    primary_voter: Id,
    r: Voting,
    is_active: bool,
    is_primary: bool,
)
    requires
        call_ensures(Voting::in_round::<Id>, (&local_id, &voters, &primary_voter), r),
        call_ensures(Voting::is_active, (&r,), is_active),
        call_ensures(Voting::is_primary, (&r,), is_primary),
    ensures
        is_active <==> (local_id matches Some(id) && ids_of(voters).contains(id)),
        is_primary <==> local_id == Some(primary_voter) && ids_of(voters).contains(primary_voter),
        is_active <==> r is Yes || r is Primary,
        is_primary <==> r is Primary,
{
    if let Some(id) = local_id {
        lemma_voter_is_one_of_the_ids(voters, id);
    }
}

/// States of different kinds have different names, and the timers make no difference.
pub proof fn law_states_have_their_own_names<T>(
    state: State<T>,
    r: &'static str,
)
    requires
        call_ensures(State::<T>::name, (&state,), r),
    ensures
        state is Start ==> r@ == "Start"@,
        state is Proposed ==> r@ == "Proposed"@,
        state is Prevoted ==> r@ == "Prevoted"@,
        state is Precommitted ==> r@ == "Precommitted"@,
{
}

/// A round that counts as completed on a block has that block as everything it could
/// have.
pub proof fn law_genesis_is_the_block_throughout<H: Identity, N: BlockNumberOps>(
    block: (H, N),
    r: RoundState<H, N>,
)
    requires
        call_ensures(RoundState::<H, N>::genesis, (block,), r),
    ensures
        r.prevote_ghost == Some(block),
        r.finalized == Some(block),
        r.estimate == Some(block),
        r.completable,
{
}

/// A block is newly finalized if and only if it is finalized now and is higher than what
/// was finalized before, if anything was. Nothing else of the states counts.
pub proof fn law_newly_finalized_is_higher_than_before<H: Identity, N: BlockNumberOps>(
    before: RoundState<H, N>,
    after: RoundState<H, N>,
    block: (H, N),
    r: Option<(H, N)>,
)
    requires
        call_ensures(RoundState::<H, N>::finalized_since, (&after, &before), r),
    ensures
        r == newly_finalized(before, after),
        r == Some(block) <==> after.finalized == Some(block) && (before.finalized is None || (
        before.finalized->0).1.height() < block.1.height()),
        r is Some ==> r == after.finalized,
{
}

/// Proposals are made by the primary voter alone, for the estimate of the last round
/// alone, and always unless that estimate is missing or the last round has finalized a
/// block at least as high. Nothing else of the last round or of this one counts.
pub proof fn law_primary_voter_proposes_an_open_estimate<H: Identity, N: BlockNumberOps, Id, T>(
    round: VotingRound<H, N, Id, T>,
    last: RoundState<H, N>,
    r: Option<PrimaryPropose<H, N>>,
)
    requires
        call_ensures(VotingRound::<H, N, Id, T>::primary_propose, (&round, &last), r),
    ensures
        r == proposal_of(round.voting, last),
        r is Some <==> round.voting is Primary && last.estimate is Some && (last.finalized is None
            || (last.finalized->0).1.height() < (last.estimate->0).1.height()),
        r matches Some(proposal) ==> last.estimate == Some(
            (proposal.target_hash, proposal.target_number),
        ),
{
}

/// Two last rounds with the same estimate and the same finalized block have the same
/// proposal.
pub proof fn law_proposal_ignores_the_ghost<H: Identity, N: BlockNumberOps, Id, T>(
    round: VotingRound<H, N, Id, T>,
    other: VotingRound<H, N, Id, T>,
    last: RoundState<H, N>,
    other_last: RoundState<H, N>,
    r: Option<PrimaryPropose<H, N>>,
    other_r: Option<PrimaryPropose<H, N>>,
)
    requires
        call_ensures(VotingRound::<H, N, Id, T>::primary_propose, (&round, &last), r),
        call_ensures(VotingRound::<H, N, Id, T>::primary_propose, (&other, &other_last), other_r),
        round.voting == other.voting,
        last.estimate == other_last.estimate,
        last.finalized == other_last.finalized,
    ensures
        r == other_r,
{
}

/// The base of a prevote is the estimate of the last round without a proposal, the
/// proposed block if that is the last prevote-GHOST, the estimate again if the proposed
/// block is not below the last prevote-GHOST, and a matter of the ancestry only if it is
/// below: then of the place that lies as far down from the parent of the last
/// prevote-GHOST as the heights say.
pub proof fn law_base_of_a_prevote<H: Identity, N: BlockNumberOps, Id, T>(
    round: VotingRound<H, N, Id, T>,
    last: RoundState<H, N>,
    estimate: (H, N),
    r: PrevoteBase<H>,
)
    requires
        call_ensures(VotingRound::<H, N, Id, T>::prevote_base, (&round, &last), r),
        last.estimate == Some(estimate),
        round.primary_block is Some ==> last.prevote_ghost is Some,
    ensures
        round.primary_block is None ==> r == PrevoteBase::Block(estimate.0),
        round.primary_block matches Some(proposed) ==> {
            let p_g = last.prevote_ghost->0;
            &&& proposed == p_g ==> r == PrevoteBase::Block(p_g.0)
            &&& proposed != p_g && proposed.1.height() >= p_g.1.height() ==> r
                == PrevoteBase::Block(estimate.0)
            &&& proposed.1.height() < p_g.1.height() ==> r == (PrevoteBase::Ancestry {
                estimate: estimate.0,
                prevote_ghost: p_g.0,
                primary: proposed.0,
                offset: (p_g.1.height() - proposed.1.height() - 1) as usize,
            })
        },
{
}

/// A round is over if and only if it is completable and the estimate of the last round is
/// finalized, by height, in the last round or in this one; or it is completable and has
/// no last round. Nothing else of the round counts.
pub proof fn law_round_is_over_by_height<H, N: BlockNumberOps, Id, T>(
    round: VotingRound<H, N, Id, T>,
    r: bool,
)
    requires
        call_ensures(VotingRound::<H, N, Id, T>::completed, (&round,), r),
    ensures
        r == round.is_over(),
        r <==> {
            &&& round.round.state.completable
            &&& round.last_round_state matches Some(last) ==> {
                &&& last.estimate is Some
                &&& last.finalized is Some
                &&& {
                    ||| (last.estimate->0).1.height() <= (last.finalized->0).1.height()
                    ||| round.round.state.finalized is Some && (last.estimate->0).1.height() <= (
                    round.round.state.finalized->0).1.height()
                }
            }
        },
{
}

/// A round that is over stays so when its finalized block goes up.
pub proof fn law_over_is_kept_when_more_is_finalized<H, N: BlockNumberOps, Id, T>(
    round: VotingRound<H, N, Id, T>,
    later: VotingRound<H, N, Id, T>,
    was_over: bool,
    is_over: bool,
)
    requires
        call_ensures(VotingRound::<H, N, Id, T>::completed, (&round,), was_over),
        call_ensures(VotingRound::<H, N, Id, T>::completed, (&later,), is_over),
        later.last_round_state == round.last_round_state,
        later.round.state.completable,
        round.round.state.finalized matches Some(block) ==> later.round.state.finalized is Some
            && block.1.height() <= (later.round.state.finalized->0).1.height(),
    ensures
        was_over ==> is_over,
{
}

/// Wherever a turn ends, it ends the round if and only if the round is over, told by
/// heights.
pub proof fn law_turn_ends_the_round_by_height<H: Identity, N: BlockNumberOps, S, Id, T>(
    turn: VotingRound<H, N, Id, T>,
    query: BestChainQuery<H, N, Id, T>,
    best_chain: Option<(H, N)>,
    check: GhostCheck<H, N, Id, T>,
    on_estimate: bool,
    cast: Cast<H, N, Id, T>,
    next: Step<H, N, S, Id, T>,
    round: VotingRound<H, N, Id, T>,
)
    requires
        ({
            ||| call_ensures(VotingRound::<H, N, Id, T>::decide::<S>, (turn,), next)
            ||| call_ensures(BestChainQuery::<H, N, Id, T>::answer::<S>, (query, best_chain), next)
            ||| call_ensures(GhostCheck::<H, N, Id, T>::answer::<S>, (check, on_estimate), next)
            ||| call_ensures(
                Cast::<H, N, Id, T>::sent::<S, ()>,
                (cast, Ok(())),
                Ok::<Step<H, N, S, Id, T>, ()>(next),
            )
        }),
        ends_turn(next, round),
    ensures
        next == Step::<H, N, S, Id, T>::Done(round) <==> {
            &&& round.round.state.completable
            &&& round.last_round_state matches Some(last) ==> {
                &&& last.estimate is Some
                &&& last.finalized is Some
                &&& {
                    ||| (last.estimate->0).1.height() <= (last.finalized->0).1.height()
                    ||| round.round.state.finalized is Some && (last.estimate->0).1.height() <= (
                    round.round.state.finalized->0).1.height()
                }
            }
        },
{
}

/// The precommit is for the prevote-GHOST of the round, or for its base if there is none,
/// and the last finalized block is the last one found in the round, or its base.
pub proof fn law_blocks_of_a_round<H: Identity, N: BlockNumberOps, Id, T>(
    round: VotingRound<H, N, Id, T>,
    precommit: Precommit<H, N>,
    block: (H, N),
)
    requires
        call_ensures(VotingRound::<H, N, Id, T>::construct_precommit, (&round,), precommit),
        call_ensures(VotingRound::<H, N, Id, T>::last_finalized, (&round,), block),
    ensures
        round.round.state.prevote_ghost matches Some(p_g) ==> precommit.target_hash == p_g.0
            && precommit.target_number == p_g.1,
        round.round.state.prevote_ghost is None ==> precommit.target_hash == round.round.base.0
            && precommit.target_number == round.round.base.1,
        round.best_finalized matches Some(found) ==> block == found,
        round.best_finalized is None ==> block == round.round.base,
{
}

/// A round starts with the timers of its data, with nothing proposed and nothing found
/// finalized, in the part that the local id gives, and hands the channels back.
pub proof fn law_round_starts_fresh<H: Identity, N: BlockNumberOps, Id: Identity, T, In, Out>(
    round: Round<Id, H, N>,
    voters: VoterSet<Id>,
    last_round_state: Option<RoundState<H, N>>,
    round_data: RoundData<Id, T, In, Out>,
    r: (VotingRound<H, N, Id, T>, In, Out),
)
    requires
        call_ensures(
            VotingRound::<H, N, Id, T>::new::<In, Out>,
            (round, &voters, last_round_state, round_data),
            r,
        ),
    ensures
        r.0.round == round,
        r.0.last_round_state == last_round_state,
        r.0.state == Some(State::Start(round_data.prevote_timer, round_data.precommit_timer)),
        r.0.primary_block is None,
        r.0.best_finalized is None,
        !r.0.timer_ready,
        r.0.voting is No <==> !(round_data.voter_id matches Some(id) && ids_of(voters).contains(
            id,
        )),
        r.0.voting is Primary <==> round_data.voter_id == Some(round.primary_voter) && ids_of(
            voters,
        ).contains(round.primary_voter),
        r.1 == round_data.incoming,
        r.2 == round_data.outgoing,
{
    if let Some(id) = round_data.voter_id {
        lemma_voter_is_one_of_the_ids(voters, id);
    }
}

/// A new voter starts the round after the last one, from the last finalized block, and
/// takes the last round as completed on its base. The votes of the last round make no
/// difference.
pub proof fn law_voter_starts_after_the_last_round<
    H: Identity,
    N: BlockNumberOps,
    S,
    Id: Identity,
    T,
    In,
    Out,
>(
    voters: VoterSet<Id>,
    last_round_number: u64,
    last_round_votes: Vec<SignedMessage<H, N, S, Id>>,
    last_round_base: (H, N),
    last_finalized: (H, N),
    round_data: RoundData<Id, T, In, Out>,
    primary_voter: Id,
    tally: RoundState<H, N>,
    r: (Voter<H, N, Id, T>, In, Out),
)
    requires
        last_round_number < u64::MAX,
        call_ensures(
            Voter::<H, N, Id, T>::new::<S, In, Out>,
            (
                voters,
                last_round_number,
                last_round_votes,
                last_round_base,
                last_finalized,
                round_data,
                primary_voter,
                tally,
            ),
            r,
        ),
    ensures
        r.0.voters == voters,
        r.0.best_round.round.number == last_round_number + 1,
        r.0.best_round.round.base == last_finalized,
        r.0.best_round.round.primary_voter == primary_voter,
        r.0.best_round.round.state == tally,
        r.0.best_round.last_round_state matches Some(last) && last.prevote_ghost == Some(
            last_round_base,
        ) && last.finalized == Some(last_round_base) && last.estimate == Some(last_round_base)
            && last.completable,
        r.0.best_round.state == Some(
            State::Start(round_data.prevote_timer, round_data.precommit_timer),
        ),
        r.0.best_round.primary_block is None,
        r.0.best_round.best_finalized is None,
        !r.0.best_round.timer_ready,
        r.0.best_round.voting is No <==> !(round_data.voter_id matches Some(id) && ids_of(
            voters,
        ).contains(id)),
        r.0.best_round.voting is Primary <==> round_data.voter_id == Some(primary_voter) && ids_of(
            voters,
        ).contains(primary_voter),
        r.1 == round_data.incoming,
        r.2 == round_data.outgoing,
{
    if let Some(id) = round_data.voter_id {
        lemma_voter_is_one_of_the_ids(voters, id);
    }
}

/// The next round has the next number, the given base, the same voters, and the state in
/// which the ended round was left as that of the last round. Nothing else of the ended
/// round is taken over.
pub proof fn law_voter_goes_on_where_the_round_ended<
    H: Identity,
    N: BlockNumberOps,
    Id: Identity,
    T,
    In,
    Out,
>(
    voters: VoterSet<Id>,
    ended: VotingRound<H, N, Id, T>,
    base: (H, N),
    round_data: RoundData<Id, T, In, Out>,
    primary_voter: Id,
    tally: RoundState<H, N>,
    r: (Voter<H, N, Id, T>, In, Out),
)
    requires
        ended.round.number < u64::MAX,
        call_ensures(
            Voter::<H, N, Id, T>::next_round::<In, Out>,
            (voters, ended, base, round_data, primary_voter, tally),
            r,
        ),
    ensures
        r.0.voters == voters,
        r.0.best_round.round.number == ended.round.number + 1,
        r.0.best_round.round.base == base,
        r.0.best_round.round.primary_voter == primary_voter,
        r.0.best_round.round.state == tally,
        r.0.best_round.last_round_state == Some(ended.round.state),
        r.0.best_round.state == Some(
            State::Start(round_data.prevote_timer, round_data.precommit_timer),
        ),
        r.0.best_round.primary_block is None,
        r.0.best_round.best_finalized is None,
        !r.0.best_round.timer_ready,
        r.0.best_round.voting is No <==> !(round_data.voter_id matches Some(id) && ids_of(
            voters,
        ).contains(id)),
        r.0.best_round.voting is Primary <==> round_data.voter_id == Some(primary_voter) && ids_of(
            voters,
        ).contains(primary_voter),
        r.1 == round_data.incoming,
        r.2 == round_data.outgoing,
{
    if let Some(id) = round_data.voter_id {
        lemma_voter_is_one_of_the_ids(voters, id);
    }
}

/// A voter runs its round as it is, which starts with a wait, and hands its voters back.
pub proof fn law_voter_runs_its_round<H: Identity, N: BlockNumberOps, S, Id: Identity, T>(
    voter: Voter<H, N, Id, T>,
    round: VotingRound<H, N, Id, T>,
    r: (VoterSet<Id>, Step<H, N, S, Id, T>),
    first: Step<H, N, S, Id, T>,
)
    requires
        call_ensures(Voter::<H, N, Id, T>::run::<S>, (voter,), r),
        call_ensures(VotingRound::<H, N, Id, T>::run::<S>, (round,), first),
    ensures
        r.0 == voter.voters,
        r.1 == Step::<H, N, S, Id, T>::Wait(voter.best_round),
        first == Step::<H, N, S, Id, T>::Wait(round),
{
}

/// A copy of a signed message has the same message, signature and id.
pub proof fn law_copy_of_a_message_is_the_message<
    H: Identity,
    N: BlockNumberOps,
    S: Identity,
    Id: Identity,
>(
    message: SignedMessage<H, N, S, Id>,
    r: SignedMessage<H, N, S, Id>,
    bare: Message<H, N>,
)
    requires
        call_ensures(<SignedMessage<H, N, S, Id> as Clone>::clone, (&message,), r),
        call_ensures(<Message<H, N> as Clone>::clone, (&message.message,), bare),
    ensures
        r.message == message.message,
        r.signature == message.signature,
        r.id == message.id,
        bare == message.message,
{
}

/// The timer to wait for is the one before the vote that comes next, and there is none
/// after the precommit or after voting was given up. Whatever becomes of the timer takes
/// its place in the round, and nothing else of the round changes.
pub proof fn law_timer_is_that_of_the_next_vote<H: Identity, N: BlockNumberOps, Id, T>(
    round: &mut VotingRound<H, N, Id, T>,
    r: Option<&mut T>,
)
    requires
        call_ensures(VotingRound::<H, N, Id, T>::timer_mut, (round,), r),
    ensures
        old(round).state matches Some(State::Start(prevote_timer, precommit_timer)) ==> (
        r matches Some(timer) && *timer == prevote_timer && *final(round) == (VotingRound {
            state: Some(State::Start(*final(timer), precommit_timer)),
            ..*old(round)
        })),
        old(round).state matches Some(State::Proposed(prevote_timer, precommit_timer)) ==> (
        r matches Some(timer) && *timer == prevote_timer && *final(round) == (VotingRound {
            state: Some(State::Proposed(*final(timer), precommit_timer)),
            ..*old(round)
        })),
        old(round).state matches Some(State::Prevoted(precommit_timer)) ==> (
        r matches Some(timer) && *timer == precommit_timer && *final(round) == (VotingRound {
            state: Some(State::Prevoted(*final(timer))),
            ..*old(round)
        })),
        old(round).state is None || old(round).state == Some(State::<T>::Precommitted) ==> (
        r is None && *final(round) == *old(round)),
{
}

/// A wait changes nothing but what the input brings: every vote goes to the check of its
/// target, a new state of the last round takes the place of the old one, and a timer
/// leaves the round as it is. Only the stream of votes can fail.
pub proof fn law_input_brings_only_itself<H: Identity, N: BlockNumberOps, S, Id, T, E>(
    round: VotingRound<H, N, Id, T>,
    input: Input<H, N, S, Id, E>,
    timer_ready: bool,
    r: Result<Step<H, N, S, Id, T>, E>,
)
    requires
        call_ensures(VotingRound::<H, N, Id, T>::input::<S, E>, (round, input, timer_ready), r),
    ensures
        input matches Input::Vote(Ok(vote)) ==> r == Ok::<Step<H, N, S, Id, T>, E>(
            Step::CheckTarget(TargetCheck { round: VotingRound { timer_ready, ..round }, vote }),
        ),
        input matches Input::Vote(Err(failure)) ==> r == Err::<Step<H, N, S, Id, T>, E>(failure),
        input matches Input::LastRoundState(state) ==> r == Ok::<Step<H, N, S, Id, T>, E>(
            Step::Decide(VotingRound { timer_ready, last_round_state: Some(state), ..round }),
        ),
        input is Timer ==> r == Ok::<Step<H, N, S, Id, T>, E>(
            Step::Decide(VotingRound { timer_ready, ..round }),
        ),
{
}

/// A vote is held against the base of the round: the chain is asked about the base and
/// about the target of the vote, and nothing else happens first.
pub proof fn law_vote_is_checked_against_the_base<
    H: Identity,
    N: BlockNumberOps,
    S,
    Id: Identity,
    T,
>(
    round: VotingRound<H, N, Id, T>,
    vote: SignedMessage<H, N, S, Id>,
    r: Step<H, N, S, Id, T>,
    check: TargetCheck<H, N, S, Id, T>,
    question: (H, H),
)
    requires
        call_ensures(VotingRound::<H, N, Id, T>::handle_vote::<S>, (round, vote), r),
        call_ensures(TargetCheck::<H, N, S, Id, T>::question, (&check,), question),
    ensures
        r == Step::<H, N, S, Id, T>::CheckTarget(TargetCheck { round, vote }),
        question.0 == check.round.round.base.0,
        check.vote.message matches Message::Prevote(v) ==> question.1 == v.target_hash,
        check.vote.message matches Message::Precommit(v) ==> question.1 == v.target_hash,
        check.vote.message matches Message::PrimaryPropose(v) ==> question.1 == v.target_hash,
{
}

/// Every prevote and every precommit that builds on the base is imported as it came,
/// whatever the round holds, and every proposal of the primary voter takes the place of
/// an earlier one. What does not build on the base, and what others propose, leaves the
/// round as it is.
pub proof fn law_votes_on_the_base_all_count<H: Identity, N: BlockNumberOps, S, Id: Identity, T>(
    round: VotingRound<H, N, Id, T>,
    vote: SignedMessage<H, N, S, Id>,
    builds_on_base: bool,
    r: Step<H, N, S, Id, T>,
)
    requires
        call_ensures(
            TargetCheck::<H, N, S, Id, T>::answer,
            (TargetCheck { round, vote }, builds_on_base),
            r,
        ),
    ensures
        !builds_on_base ==> r == Step::<H, N, S, Id, T>::Decide(round),
        builds_on_base ==> (vote.message matches Message::Prevote(prevote) ==> r == (
        Step::<H, N, S, Id, T>::ImportPrevote {
            round,
            prevote,
            signature: vote.signature,
            id: vote.id,
        })),
        builds_on_base ==> (vote.message matches Message::Precommit(precommit) ==> r == (
        Step::<H, N, S, Id, T>::ImportPrecommit {
            round,
            precommit,
            signature: vote.signature,
            id: vote.id,
        })),
        builds_on_base && vote.id == round.round.primary_voter ==> (
        vote.message matches Message::PrimaryPropose(proposal) ==> r
            == Step::<H, N, S, Id, T>::Decide(
            VotingRound {
                primary_block: Some((proposal.target_hash, proposal.target_number)),
                ..round
            },
        )),
        vote.message is PrimaryPropose && vote.id != round.round.primary_voter ==> r
            == Step::<H, N, S, Id, T>::Decide(round),
{
}

/// An import of a prevote puts the new state of the tally into the round. If it finalizes
/// a block, that is kept as the last finalized one and reported, after the equivocation
/// if there is one; nothing else of the round changes. A failed import ends the run.
pub proof fn law_prevote_import_changes_the_tally<H: Identity, N: BlockNumberOps, S, Id, T, E>(
    round: VotingRound<H, N, Id, T>,
    outcome: Result<(RoundState<H, N>, Option<Equivocation<Id, Prevote<H, N>, S>>), E>,
    r: Result<Step<H, N, S, Id, T>, E>,
)
    requires
        call_ensures(VotingRound::<H, N, Id, T>::prevote_imported::<S, E>, (round, outcome), r),
    ensures
        outcome matches Err(failure) ==> r == Err::<Step<H, N, S, Id, T>, E>(failure),
        outcome matches Ok((state, equivocation)) ==> {
            let counted = VotingRound { round: Round { state, ..round.round }, ..round };
            let finalizes = state.finalized is Some && (round.round.state.finalized is None || (
            round.round.state.finalized->0).1.height() < (state.finalized->0).1.height());
            let finalizing = VotingRound { best_finalized: state.finalized, ..counted };
            &&& r matches Ok(next)
            &&& finalizes && equivocation is None ==> next == (Step::<H, N, S, Id, T>::Finalize {
                round: finalizing,
                block: state.finalized->0,
            })
            &&& finalizes && equivocation is Some ==> next
                == Step::<H, N, S, Id, T>::ReportPrevotes(
                finalizing,
                equivocation->0,
                state.finalized,
            )
            &&& !finalizes && equivocation is None ==> next
                == Step::<H, N, S, Id, T>::Decide(counted)
            &&& !finalizes && equivocation is Some ==> next
                == Step::<H, N, S, Id, T>::ReportPrevotes(
                counted,
                equivocation->0,
                None,
            )
        },
{
}

/// An import of a precommit puts the new state of the tally into the round. If it
/// finalizes a block, that is kept as the last finalized one and reported, after the
/// equivocation if there is one; nothing else of the round changes. A failed import ends
/// the run.
pub proof fn law_precommit_import_changes_the_tally<H: Identity, N: BlockNumberOps, S, Id, T, E>(
    round: VotingRound<H, N, Id, T>,
    outcome: Result<(RoundState<H, N>, Option<Equivocation<Id, Precommit<H, N>, S>>), E>,
    r: Result<Step<H, N, S, Id, T>, E>,
)
    requires
        call_ensures(VotingRound::<H, N, Id, T>::precommit_imported::<S, E>, (round, outcome), r),
    ensures
        outcome matches Err(failure) ==> r == Err::<Step<H, N, S, Id, T>, E>(failure),
        outcome matches Ok((state, equivocation)) ==> {
            let counted = VotingRound { round: Round { state, ..round.round }, ..round };
            let finalizes = state.finalized is Some && (round.round.state.finalized is None || (
            round.round.state.finalized->0).1.height() < (state.finalized->0).1.height());
            let finalizing = VotingRound { best_finalized: state.finalized, ..counted };
            &&& r matches Ok(next)
            &&& finalizes && equivocation is None ==> next == (Step::<H, N, S, Id, T>::Finalize {
                round: finalizing,
                block: state.finalized->0,
            })
            &&& finalizes && equivocation is Some ==> next
                == Step::<H, N, S, Id, T>::ReportPrecommits(
                finalizing,
                equivocation->0,
                state.finalized,
            )
            &&& !finalizes && equivocation is None ==> next
                == Step::<H, N, S, Id, T>::Decide(counted)
            &&& !finalizes && equivocation is Some ==> next
                == Step::<H, N, S, Id, T>::ReportPrecommits(
                counted,
                equivocation->0,
                None,
            )
        },
{
}

/// After an equivocation, a finalized block that is due for a report is reported, with the
/// round as it is; otherwise the turn goes on. It goes on after the report, too, unless the
/// report failed.
pub proof fn law_finalized_block_comes_before_the_turn<
    H: Identity,
    N: BlockNumberOps,
    S,
    Id,
    T,
    E,
>(
    round: VotingRound<H, N, Id, T>,
    finalized: Option<(H, N)>,
    next: Step<H, N, S, Id, T>,
    outcome: Result<(), E>,
    r: Result<Step<H, N, S, Id, T>, E>,
)
    requires
        call_ensures(
            VotingRound::<H, N, Id, T>::equivocation_reported::<S>,
            (round, finalized),
            next,
        ),
        call_ensures(VotingRound::<H, N, Id, T>::block_finalized::<S, E>, (round, outcome), r),
    ensures
        finalized matches Some(block) ==> next == (
        Step::<H, N, S, Id, T>::Finalize { round, block }),
        finalized is None ==> next == Step::<H, N, S, Id, T>::Decide(round),
        outcome is Ok ==> r == Ok::<Step<H, N, S, Id, T>, E>(Step::Decide(round)),
        outcome matches Err(failure) ==> r == Err::<Step<H, N, S, Id, T>, E>(failure),
{
}

/// The block of the primary voter is the base if and only if it stands in the ancestry at
/// its place; otherwise the estimate of the last round is. The round and the timer go on
/// as they are.
pub proof fn law_ancestry_tells_the_base<H: Identity, N, S, Id, T>(
    query: AncestryQuery<H, N, Id, T>,
    ancestry: Result<Vec<H>, Error>,
    r: Step<H, N, S, Id, T>,
)
    requires
        call_ensures(AncestryQuery::<H, N, Id, T>::answer::<S>, (query, ancestry), r),
    ensures
        r matches Step::FindBestChain(next) && {
            &&& next.round == query.round
            &&& next.precommit_timer == query.precommit_timer
            &&& ancestry is Err ==> next.base == query.estimate
            &&& ancestry matches Ok(blocks) ==> {
                &&& query.offset >= blocks@.len() ==> next.base == query.estimate
                &&& query.offset < blocks@.len() && blocks@[query.offset as int] != query.primary
                    ==> next.base == query.estimate
                &&& query.offset < blocks@.len() && blocks@[query.offset as int] == query.primary
                    ==> next.base == query.primary
            }
        },
{
}

/// The prevote is for the very block that the chain gives, whatever the base and whatever
/// the round holds. Without one, the voter gives up its part in the round and its state,
/// keeps everything else, and the turn ends.
pub proof fn law_prevote_is_for_the_block_that_the_chain_gives<
    H: Identity,
    N: BlockNumberOps,
    S,
    Id,
    T,
>(
    query: BestChainQuery<H, N, Id, T>,
    best_chain: Option<(H, N)>,
    r: Step<H, N, S, Id, T>,
)
    requires
        call_ensures(BestChainQuery::<H, N, Id, T>::answer::<S>, (query, best_chain), r),
    ensures
        best_chain matches Some(block) ==> {
            &&& r matches Step::MarkVoted(cast)
            &&& cast.round == query.round
            &&& cast.ballot matches Ballot::Prevote(prevote, timer)
            &&& prevote.target_hash == block.0
            &&& prevote.target_number == block.1
            &&& timer == query.precommit_timer
        },
        best_chain is None ==> {
            let ended = VotingRound { voting: Voting::No, state: None, ..query.round };
            ends_turn(r, ended)
        },
{
}

/// Once the prevote-GHOST builds on the estimate of the last round, and the timer has
/// fired or the round is completable, every voter that votes casts a precommit, for the
/// prevote-GHOST, and any other voter goes to the state after it. Before that, the round
/// stays where it is. Nothing else of the round counts.
pub proof fn law_precommit_is_cast_when_due<H: Identity, N: BlockNumberOps, S, Id, T>(
    check: GhostCheck<H, N, Id, T>,
    on_estimate: bool,
    r: Step<H, N, S, Id, T>,
)
    requires
        call_ensures(GhostCheck::<H, N, Id, T>::answer::<S>, (check, on_estimate), r),
    ensures
        ({
            let round = check.round;
            let due = on_estimate && (round.timer_ready || round.round.state.completable);
            let kept = VotingRound { state: Some(State::Prevoted(check.precommit_timer)), ..round };
            let passed = VotingRound { state: Some(State::Precommitted), ..round };
            &&& due && !(round.voting is No) ==> {
                &&& r matches Step::MarkVoted(cast)
                &&& cast.round == (VotingRound { state: None, ..round })
                &&& cast.ballot matches Ballot::Precommit(precommit)
                &&& round.round.state.prevote_ghost matches Some(p_g) ==> precommit.target_hash
                    == p_g.0 && precommit.target_number == p_g.1
                &&& round.round.state.prevote_ghost is None ==> precommit.target_hash
                    == round.round.base.0 && precommit.target_number == round.round.base.1
            }
            &&& due && round.voting is No ==> ends_turn(r, passed)
            &&& !due ==> ends_turn(r, kept)
        }),
{
}

/// A ballot that was marked is noted, and one that was noted is sent, as it is and with the
/// round as it is. A failed note or a failed send ends the run.
pub proof fn law_ballot_is_noted_and_then_sent<H: Identity, N: BlockNumberOps, S, Id, T, E>(
    cast: Cast<H, N, Id, T>,
    outcome: Result<(), E>,
    marked: Step<H, N, S, Id, T>,
    noted: Result<Step<H, N, S, Id, T>, E>,
    sent: Result<Step<H, N, S, Id, T>, E>,
)
    requires
        call_ensures(Cast::<H, N, Id, T>::marked::<S>, (cast,), marked),
        call_ensures(Cast::<H, N, Id, T>::noted::<S, E>, (cast, outcome), noted),
        call_ensures(Cast::<H, N, Id, T>::sent::<S, E>, (cast, outcome), sent),
    ensures
        marked == Step::<H, N, S, Id, T>::NoteVote(cast),
        outcome is Ok ==> noted == Ok::<Step<H, N, S, Id, T>, E>(Step::SendVote(cast)),
        outcome is Ok ==> sent is Ok,
        outcome matches Err(failure) ==> noted == Err::<Step<H, N, S, Id, T>, E>(failure) && sent
            == Err::<Step<H, N, S, Id, T>, E>(failure),
{
}

/// Once a ballot is out, a proposal leads to the rest of the turn in the state after it,
/// a prevote and a precommit to the end of the turn in the state after them. Timers are
/// handed on, and nothing else of the round changes.
pub proof fn law_ballot_that_is_out_moves_the_state<H: Identity, N: BlockNumberOps, S, Id, T, E>(
    round: VotingRound<H, N, Id, T>,
    ballot: Ballot<H, N, T>,
    next: Step<H, N, S, Id, T>,
)
    requires
        call_ensures(
            Cast::<H, N, Id, T>::sent::<S, E>,
            (Cast { round, ballot }, Ok(())),
            Ok::<Step<H, N, S, Id, T>, E>(next),
        ),
    ensures
        ballot matches Ballot::Propose(_, prevote_timer, precommit_timer) ==> next
            == Step::<H, N, S, Id, T>::Decide(
            VotingRound { state: Some(State::Proposed(prevote_timer, precommit_timer)), ..round },
        ),
        ballot matches Ballot::Prevote(_, precommit_timer) ==> {
            let moved = VotingRound { state: Some(State::Prevoted(precommit_timer)), ..round };
            ends_turn(next, moved)
        },
        ballot is Precommit ==> {
            let moved = VotingRound { state: Some(State::Precommitted), ..round };
            ends_turn(next, moved)
        },
{
}

/// A round that has cast nothing proposes if and only if the local voter is the primary
/// and the estimate of the last round is there and above what the last round finalized.
/// It proposes that estimate and keeps both timers.
pub proof fn law_turn_at_the_start_proposes<H: Identity, N: BlockNumberOps, S, Id, T>(
    round: VotingRound<H, N, Id, T>,
    last: RoundState<H, N>,
    prevote_timer: T,
    precommit_timer: T,
    next: Step<H, N, S, Id, T>,
)
    requires
        call_ensures(VotingRound::<H, N, Id, T>::decide::<S>, (round,), next),
        round.state == Some(State::Start(prevote_timer, precommit_timer)),
        round.last_round_state == Some(last),
    ensures
        ({
            let open = last.estimate is Some && (last.finalized is None || (
            last.finalized->0).1.height() < (last.estimate->0).1.height());
            &&& round.voting is Primary && open ==> {
                &&& next matches Step::NoteVote(cast)
                &&& cast.round == (VotingRound { state: None, ..round })
                &&& cast.ballot matches Ballot::Propose(proposal, a, b)
                &&& last.estimate == Some((proposal.target_hash, proposal.target_number))
                &&& a == prevote_timer && b == precommit_timer
            }
            &&& !(round.voting is Primary && open) ==> !(next is NoteVote)
        }),
{
}

/// A round that has not prevoted, and that has nothing to propose, waits until the timer
/// has fired or the round is completable. Then a voter that votes looks for the block to
/// prevote for, on the base that the proposal and the last round give, and any other
/// voter goes to the state after the prevote. Nothing else of the round counts.
pub proof fn law_turn_before_the_prevote<H: Identity, N: BlockNumberOps, S, Id, T>(
    round: VotingRound<H, N, Id, T>,
    last: RoundState<H, N>,
    prevote_timer: T,
    precommit_timer: T,
    next: Step<H, N, S, Id, T>,
)
    requires
        call_ensures(VotingRound::<H, N, Id, T>::decide::<S>, (round,), next),
        round.last_round_state == Some(last),
        round.state == Some(State::Proposed(prevote_timer, precommit_timer)) || (round.state
            == Some(State::Start(prevote_timer, precommit_timer)) && !(round.voting is Primary
            && last.estimate is Some && (last.finalized is None || (
        last.finalized->0).1.height() < (last.estimate->0).1.height()))),
    ensures
        ({
            let due = round.timer_ready || round.round.state.completable;
            let passed = VotingRound { state: Some(State::Prevoted(precommit_timer)), ..round };
            &&& !due ==> ends_turn(next, round)
            &&& due && round.voting is No ==> ends_turn(next, passed)
            &&& due && !(round.voting is No) && last.estimate is Some && (
            round.primary_block is None || last.prevote_ghost is Some) ==> {
                let estimate = last.estimate->0;
                let proposed = round.primary_block->0;
                let p_g = last.prevote_ghost->0;
                let voting = VotingRound { state: None, ..round };
                if round.primary_block is Some && proposed != p_g && proposed.1.height()
                    < p_g.1.height() {
                    &&& next matches Step::FindAncestry(query)
                    &&& query.round == voting
                    &&& query.precommit_timer == precommit_timer
                    &&& query.estimate == estimate.0
                    &&& query.prevote_ghost == p_g.0
                    &&& query.primary == proposed.0
                    &&& query.offset == (p_g.1.height() - proposed.1.height() - 1) as usize
                } else {
                    &&& next matches Step::FindBestChain(query)
                    &&& query.round == voting
                    &&& query.precommit_timer == precommit_timer
                    &&& round.primary_block is Some && proposed == p_g ==> query.base == proposed.0
                    &&& round.primary_block is None || proposed != p_g ==> query.base == estimate.0
                }
            }
        }),
{
}

/// A round that has prevoted waits for a prevote-GHOST, asks the chain about one that is
/// not the estimate of the last round, and about no other. If it is that estimate, a
/// voter that votes precommits to it when it is time to, and any other goes on.
pub proof fn law_turn_before_the_precommit<H: Identity, N: BlockNumberOps, S, Id, T>(
    round: VotingRound<H, N, Id, T>,
    last: RoundState<H, N>,
    estimate: (H, N),
    precommit_timer: T,
    next: Step<H, N, S, Id, T>,
)
    requires
        call_ensures(VotingRound::<H, N, Id, T>::decide::<S>, (round,), next),
        round.state == Some(State::Prevoted(precommit_timer)),
        round.last_round_state == Some(last),
        last.estimate == Some(estimate),
    ensures
        ({
            let due = round.timer_ready || round.round.state.completable;
            let voting = VotingRound { state: None, ..round };
            let passed = VotingRound { state: Some(State::Precommitted), ..round };
            &&& round.round.state.prevote_ghost is None ==> ends_turn(next, round)
            &&& round.round.state.prevote_ghost matches Some(p_g) ==> {
                &&& p_g != estimate ==> {
                    &&& next matches Step::CheckGhost(check)
                    &&& check.round == voting
                    &&& check.estimate == estimate.0
                    &&& check.prevote_ghost == p_g.0
                    &&& check.precommit_timer == precommit_timer
                }
                &&& p_g == estimate && !due ==> ends_turn(next, round)
                &&& p_g == estimate && due && !(round.voting is No) ==> {
                    &&& next matches Step::MarkVoted(cast)
                    &&& cast.round == voting
                    &&& cast.ballot matches Ballot::Precommit(precommit)
                    &&& precommit.target_hash == p_g.0
                    &&& precommit.target_number == p_g.1
                }
                &&& p_g == estimate && due && round.voting is No ==> ends_turn(next, passed)
            }
        }),
{
}

/// Without a last round, after the precommit, and after voting was given up, a turn
/// leaves the round as it is.
pub proof fn law_turn_with_nothing_to_cast<H: Identity, N: BlockNumberOps, S, Id, T>(
    round: VotingRound<H, N, Id, T>,
    next: Step<H, N, S, Id, T>,
)
    requires
        call_ensures(VotingRound::<H, N, Id, T>::decide::<S>, (round,), next),
        round.last_round_state is None || round.state is None || round.state == Some(
            State::<T>::Precommitted,
        ),
    ensures
        ends_turn(next, round),
{
}

/// A turn can be taken unless a prevote is due that lacks the estimate of the last round,
/// or the last prevote-GHOST to hold a proposal against, or the round has prevoted and
/// lacks the estimate. A turn that proposes needs no more than the estimate, and a turn that
/// can be taken needs nothing else.
pub proof fn law_turn_needs_the_last_round<H: Identity, N: BlockNumberOps, S, Id, T>(
    round: VotingRound<H, N, Id, T>,
    r: bool,
)
    requires
        call_ensures(VotingRound::<H, N, Id, T>::can_decide, (&round,), r),
    ensures
        r == round.spec_can_decide(),
        r ==> call_requires(VotingRound::<H, N, Id, T>::decide::<S>, (round,)),
        round.last_round_state is None || round.state is None || round.state == Some(
            State::<T>::Precommitted,
        ) ==> r,
        round.last_round_state matches Some(last) ==> {
            let casts = (round.timer_ready || round.round.state.completable) && !(
            round.voting is No);
            let has_base = last.estimate is Some && (round.primary_block is None
                || last.prevote_ghost is Some);
            let proposes = round.voting is Primary && last.estimate is Some && (
            last.finalized is None || (last.finalized->0).1.height() < (
            last.estimate->0).1.height());
            &&& round.state matches Some(State::Start(_, _)) ==> (r <==> proposes || !casts
                || has_base)
            &&& round.state matches Some(State::Proposed(_, _)) ==> (r <==> !casts || has_base)
            &&& round.state matches Some(State::Prevoted(_)) ==> (r <==> last.estimate is Some)
        },
{
}

} // verus!
