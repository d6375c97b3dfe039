//! What a round decides, step by step.

use grandpa_voter::{
    AncestryQuery, Ballot, BestChainQuery, BlockNumberOps, Cast, Equivocation, Error, GhostCheck,
    Identity, Input, Message, Precommit, Prevote, PrevoteBase, PrimaryPropose, Round, RoundData,
    RoundState, SignedMessage, State, Step, TargetCheck, Voter, VoterSet, Voting, VotingRound,
};

type TestRound = VotingRound<u64, u64, u32, char>;
type TestInput = Input<u64, u64, u32, u32, &'static str>;
type TestStep = Step<u64, u64, u32, u32, char>;

const PRIMARY: u32 = 7;

fn tally() -> RoundState<u64, u64> {
    RoundState { prevote_ghost: None, finalized: None, estimate: None, completable: false }
}

/// A last round with prevote-GHOST 120, estimate 110 and finalized block 100, where the
/// hash of a block is ten times its number.
fn last() -> RoundState<u64, u64> {
    RoundState {
        prevote_ghost: Some((120, 12)),
        finalized: Some((100, 10)),
        estimate: Some((110, 11)),
        completable: true,
    }
}

fn round_in(voting: Voting, state: Option<State<char>>) -> TestRound {
    VotingRound {
        voting,
        round: Round { number: 3, base: (100, 10), primary_voter: PRIMARY, state: tally() },
        state,
        primary_block: None,
        best_finalized: None,
        last_round_state: Some(last()),
        timer_ready: false,
    }
}

fn start(voting: Voting) -> TestRound {
    round_in(voting, Some(State::Start('p', 'c')))
}

fn prevoted(voting: Voting) -> TestRound {
    round_in(voting, Some(State::Prevoted('c')))
}

fn signed(message: Message<u64, u64>, id: u32) -> SignedMessage<u64, u64, u32, u32> {
    SignedMessage { message, signature: 99, id }
}

fn vote_input(vote: SignedMessage<u64, u64, u32, u32>) -> TestInput {
    Input::Vote(Ok(vote))
}

/// An outcome of something that did not fail.
fn done<X>(outcome: X) -> Result<X, &'static str> {
    Ok(outcome)
}

fn decide(round: TestRound) -> TestStep {
    assert!(round.can_decide());
    round.decide()
}

#[test]
fn local_id_decides_the_part_in_the_round() {
    let voters = VoterSet::new(vec![(1u32, 5), (PRIMARY, 6)]).unwrap();
    assert_eq!(Voting::in_round(&None, &voters, &PRIMARY), Voting::No);
    assert_eq!(Voting::in_round(&Some(2), &voters, &PRIMARY), Voting::No);
    assert_eq!(Voting::in_round(&Some(1), &voters, &PRIMARY), Voting::Yes);
    assert_eq!(Voting::in_round(&Some(PRIMARY), &voters, &PRIMARY), Voting::Primary);
    // A primary that is not part of the voter set casts nothing either.
    assert_eq!(Voting::in_round(&Some(9), &voters, &9), Voting::No);
}

#[test]
fn parts_in_a_round() {
    assert!(!Voting::No.is_active());
    assert!(Voting::Yes.is_active());
    assert!(Voting::Primary.is_active());
    assert!(!Voting::No.is_primary());
    assert!(!Voting::Yes.is_primary());
    assert!(Voting::Primary.is_primary());
}

#[test]
fn voter_sets_are_not_empty() {
    assert!(VoterSet::<u32>::new(vec![]).is_none());
    let set = VoterSet::new(vec![(4u32, 1), (5, 2)]).unwrap();
    assert_eq!(*set.voters(), vec![(4, 1), (5, 2)]);
    assert!(set.contains(&5));
    assert!(!set.contains(&6));
}

#[test]
fn states_have_names() {
    assert_eq!(State::Start('p', 'c').name(), "Start");
    assert_eq!(State::Proposed('p', 'c').name(), "Proposed");
    assert_eq!(State::Prevoted('c').name(), "Prevoted");
    assert_eq!(State::<char>::Precommitted.name(), "Precommitted");
}

#[test]
fn hashes_are_compared_by_their_bytes() {
    let a = [1u8, 2, 3];
    assert!(a.same(&[1, 2, 3]));
    assert!(!a.same(&[1, 2, 4]));
    assert_eq!(a.duplicate(), [1, 2, 3]);
    assert!(5u32.same(&5) && !5u32.same(&6));
    assert!(5u64.same(&5) && !5u64.same(&6));
}

#[test]
fn block_numbers_count_the_blocks_between() {
    assert_eq!(10u64.blocks_up_to(11), 0);
    assert_eq!(10u64.blocks_up_to(14), 3);
    assert_eq!(0u32.blocks_up_to(u32::MAX), u32::MAX as usize - 1);
    assert!(10u32.is_below(11) && !11u32.is_below(11));
}

#[test]
fn messages_have_targets() {
    let prevote = Message::Prevote(Prevote { target_hash: 1u64, target_number: 2u64 });
    let precommit = Message::Precommit(Precommit { target_hash: 3u64, target_number: 4u64 });
    let propose =
        Message::PrimaryPropose(PrimaryPropose { target_hash: 5u64, target_number: 6u64 });
    assert_eq!(prevote.target(), (1, 2));
    assert_eq!(precommit.target(), (3, 4));
    assert_eq!(propose.target(), (5, 6));
    assert_eq!(signed(prevote.clone(), 4).clone(), signed(prevote, 4));
}

#[test]
fn genesis_state() {
    let state = RoundState::genesis((7u64, 1u64));
    let block = Some((7, 1));
    assert_eq!(
        state,
        RoundState { prevote_ghost: block, finalized: block, estimate: block, completable: true }
    );
}

#[test]
fn new_voter_starts_the_next_round() {
    let voters = VoterSet::new(vec![(1u32, 5), (PRIMARY, 6)]).unwrap();
    let round_data = RoundData {
        voter_id: Some(1u32),
        prevote_timer: 'p',
        precommit_timer: 'c',
        incoming: "in",
        outgoing: "out",
    };
    let votes: Vec<SignedMessage<u64, u64, u32, u32>> = Vec::new();
    let (voter, incoming, outgoing) =
        Voter::new(voters, 41, votes, (90, 9), (100, 10), round_data, PRIMARY, tally());
    assert_eq!(incoming, "in");
    assert_eq!(outgoing, "out");
    assert_eq!(*voter.voters.voters(), vec![(1, 5), (PRIMARY, 6)]);
    let expected = VotingRound {
        voting: Voting::Yes,
        round: Round { number: 42, base: (100, 10), primary_voter: PRIMARY, state: tally() },
        state: Some(State::Start('p', 'c')),
        primary_block: None,
        best_finalized: None,
        last_round_state: Some(RoundState::genesis((90u64, 9u64))),
        timer_ready: false,
    };
    assert!(voter.best_round == expected);
    let (voters, step) = voter.run();
    assert_eq!(*voters.voters(), vec![(1, 5), (PRIMARY, 6)]);
    let expected: TestStep = Step::Wait(expected);
    assert!(step == expected);
}

#[test]
fn timer_follows_the_state() {
    let mut round = start(Voting::Yes);
    *round.timer_mut().unwrap() = 'x';
    assert!(round.state == Some(State::Start('x', 'c')));
    round.state = Some(State::Proposed('p', 'c'));
    *round.timer_mut().unwrap() = 'x';
    assert!(round.state == Some(State::Proposed('x', 'c')));
    round.state = Some(State::Prevoted('c'));
    *round.timer_mut().unwrap() = 'x';
    assert!(round.state == Some(State::Prevoted('x')));
    round.state = Some(State::Precommitted);
    assert!(round.timer_mut().is_none());
    round.state = None;
    assert!(round.timer_mut().is_none());
}

#[test]
fn inputs() {
    let vote = signed(Message::Prevote(Prevote { target_hash: 130, target_number: 13 }), 1);
    let step: TestStep = start(Voting::Yes).input(vote_input(vote.clone()), true).unwrap();
    let mut ready = start(Voting::Yes);
    ready.timer_ready = true;
    match step {
        Step::CheckTarget(check) => {
            assert_eq!(check.question(), (100, 130));
            assert!(check == TargetCheck { round: ready, vote });
        }
        _ => panic!("the target is checked first"),
    }

    let state = RoundState::genesis((1u64, 1u64));
    let step: TestStep = start(Voting::Yes).input(TestInput::LastRoundState(state), false).unwrap();
    let mut expected = start(Voting::Yes);
    expected.last_round_state = Some(RoundState::genesis((1, 1)));
    assert!(step == Step::Decide(expected));

    let step: TestStep = start(Voting::Yes).input(TestInput::Timer(Ok(())), true).unwrap();
    let mut expected = start(Voting::Yes);
    expected.timer_ready = true;
    assert!(step == Step::Decide(expected));
}

#[test]
fn votes_off_the_base_are_ignored() {
    for message in [
        Message::Prevote(Prevote { target_hash: 1, target_number: 1 }),
        Message::Precommit(Precommit { target_hash: 1, target_number: 1 }),
        Message::PrimaryPropose(PrimaryPropose { target_hash: 1, target_number: 1 }),
    ] {
        let check = TargetCheck { round: start(Voting::Yes), vote: signed(message, PRIMARY) };
        assert!(check.answer(false) == Step::Decide(start(Voting::Yes)));
    }
}

#[test]
fn votes_on_the_base_are_imported() {
    let prevote = Prevote { target_hash: 130, target_number: 13 };
    let vote = signed(Message::Prevote(prevote.clone()), 1);
    let step = TargetCheck { round: start(Voting::Yes), vote }.answer(true);
    let round = start(Voting::Yes);
    assert!(step == Step::ImportPrevote { round, prevote, signature: 99, id: 1 });

    let precommit = Precommit { target_hash: 130, target_number: 13 };
    let vote = signed(Message::Precommit(precommit.clone()), 1);
    let step = TargetCheck { round: start(Voting::Yes), vote }.answer(true);
    let round = start(Voting::Yes);
    assert!(step == Step::ImportPrecommit { round, precommit, signature: 99, id: 1 });
}

#[test]
fn only_the_primary_voter_proposes() {
    let propose =
        Message::PrimaryPropose(PrimaryPropose { target_hash: 130, target_number: 13 });
    let vote = signed(propose.clone(), PRIMARY);
    let step = TargetCheck { round: start(Voting::Yes), vote }.answer(true);
    let mut expected = start(Voting::Yes);
    expected.primary_block = Some((130, 13));
    assert!(step == Step::Decide(expected));

    let vote = signed(propose, PRIMARY + 1);
    let step = TargetCheck { round: start(Voting::Yes), vote }.answer(true);
    assert!(step == Step::Decide(start(Voting::Yes)));
}

#[test]
fn equivocations_are_reported() {
    let first = (Prevote { target_hash: 1, target_number: 1 }, 5);
    let second = (Prevote { target_hash: 2, target_number: 1 }, 6);
    let equivocation = Equivocation { round_number: 3, identity: 8, first, second };
    match start(Voting::Yes).prevote_imported(done((last(), Some(equivocation)))).unwrap() {
        Step::ReportPrevotes(round, equivocation, finalized) => {
            assert_eq!(equivocation.identity, 8);
            assert_eq!(round.round.state, last());
            assert_eq!(finalized, Some((100, 10)));
            // The finalized block is reported after the equivocation.
            let step: TestStep = round.equivocation_reported(finalized);
            match step {
                Step::Finalize { block, .. } => assert_eq!(block, (100, 10)),
                _ => panic!("the finalized block is reported"),
            }
        }
        _ => panic!("the equivocation is reported"),
    }

    let first = (Precommit { target_hash: 1, target_number: 1 }, 5);
    let second = (Precommit { target_hash: 2, target_number: 1 }, 6);
    let equivocation = Equivocation { round_number: 3, identity: 9, first, second };
    match start(Voting::Yes).precommit_imported(done((last(), Some(equivocation)))).unwrap() {
        Step::ReportPrecommits(round, equivocation, _) => {
            assert_eq!(equivocation.identity, 9);
            // Without a finalized block the turn goes on.
            let step: TestStep = round.equivocation_reported(None);
            assert!(matches!(step, Step::Decide(_)));
        }
        _ => panic!("the equivocation is reported"),
    }
}

#[test]
fn newly_finalized_blocks_are_reported() {
    let ghost_only = || RoundState { prevote_ghost: Some((120, 12)), ..tally() };
    // An import that finalizes nothing.
    let step: TestStep = start(Voting::Yes).prevote_imported(done((ghost_only(), None))).unwrap();
    let mut expected = start(Voting::Yes);
    expected.round.state = ghost_only();
    assert!(step == Step::Decide(expected));

    // One that finalizes a block.
    for by_prevote in [true, false] {
        let step: TestStep = if by_prevote {
            start(Voting::Yes).prevote_imported(done((last(), None))).unwrap()
        } else {
            start(Voting::Yes).precommit_imported(done((last(), None))).unwrap()
        };
        let expected = || {
            let mut expected = start(Voting::Yes);
            expected.round.state = last();
            expected.best_finalized = Some((100, 10));
            expected
        };
        assert!(step == Step::Finalize { round: expected(), block: (100, 10) });
        assert_eq!(expected().last_finalized(), (100, 10));
        let step: TestStep = expected().block_finalized(done(())).unwrap();
        assert!(step == Step::Decide(expected()));
        let failed: Result<TestStep, &str> = expected().block_finalized(Err("note"));
        assert!(failed == Err("note"));
        // It is not reported again while it stays the finalized one.
        let step: TestStep = expected().precommit_imported(done((last(), None))).unwrap();
        assert!(step == Step::Decide(expected()));
        // A higher one is.
        let higher = RoundState { finalized: Some((110, 11)), ..last() };
        let step: TestStep = expected().precommit_imported(done((higher, None))).unwrap();
        match step {
            Step::Finalize { round, block } => {
                assert_eq!(block, (110, 11));
                assert_eq!(round.last_finalized(), (110, 11));
            }
            _ => panic!("the finalized block is reported"),
        }
    }
    assert_eq!(last().finalized_since(&tally()), Some((100, 10)));
    assert_eq!(last().finalized_since(&last()), None);
    assert_eq!(tally().finalized_since(&last()), None);
    // The base is what was finalized before the round.
    assert_eq!(start(Voting::Yes).last_finalized(), (100, 10));
}

#[test]
fn failed_timer_counts_as_fired() {
    let step: TestStep = start(Voting::Yes).input(TestInput::Timer(Err("timer")), true).unwrap();
    let same: TestStep = start(Voting::Yes).input(TestInput::Timer(Ok(())), true).unwrap();
    assert!(step == same);
}

#[test]
fn next_round_takes_over_the_last_one() {
    let voters = VoterSet::new(vec![(1u32, 5), (PRIMARY, 6)]).unwrap();
    let round_data = RoundData {
        voter_id: Some(PRIMARY),
        prevote_timer: 'q',
        precommit_timer: 'd',
        incoming: "in",
        outgoing: "out",
    };
    let mut ended = round_in(Voting::Yes, Some(State::Precommitted));
    ended.round.state = last();
    let (voter, incoming, outgoing) =
        Voter::next_round(voters, ended, (110, 11), round_data, PRIMARY, tally());
    assert_eq!((incoming, outgoing), ("in", "out"));
    assert_eq!(*voter.voters.voters(), vec![(1, 5), (PRIMARY, 6)]);
    let expected = VotingRound {
        voting: Voting::Primary,
        round: Round { number: 4, base: (110, 11), primary_voter: PRIMARY, state: tally() },
        state: Some(State::Start('q', 'd')),
        primary_block: None,
        best_finalized: None,
        last_round_state: Some(last()),
        timer_ready: false,
    };
    assert!(voter.best_round == expected);
}

#[test]
fn proposals() {
    let propose = Some(PrimaryPropose { target_hash: 110, target_number: 11 });
    let mut state = last();
    assert_eq!(start(Voting::Primary).primary_propose(&state), propose);
    assert_eq!(start(Voting::Yes).primary_propose(&state), None);
    assert_eq!(start(Voting::No).primary_propose(&state), None);
    state.finalized = None;
    assert_eq!(start(Voting::Primary).primary_propose(&state), propose);
    state.finalized = Some((110, 11));
    assert_eq!(start(Voting::Primary).primary_propose(&state), None);
    state.finalized = Some((120, 12));
    assert_eq!(start(Voting::Primary).primary_propose(&state), None);
    state.finalized = None;
    state.estimate = None;
    assert_eq!(start(Voting::Primary).primary_propose(&state), None);
}

#[test]
fn primary_proposes_and_then_prevotes_in_one_turn() {
    let mut round = start(Voting::Primary);
    round.timer_ready = true;
    let step = decide(round);
    let cast = match step {
        Step::NoteVote(cast) => cast,
        _ => panic!("a proposal is noted first"),
    };
    let propose = PrimaryPropose { target_hash: 110, target_number: 11 };
    assert!(cast.ballot == Ballot::Propose(propose.clone(), 'p', 'c'));
    assert_eq!(cast.ballot.message(), Message::PrimaryPropose(propose));
    let step: TestStep = cast.noted(done(())).unwrap();
    let cast = match step {
        Step::SendVote(cast) => cast,
        _ => panic!("a noted vote is sent"),
    };
    let step: TestStep = cast.sent(done(())).unwrap();
    let mut expected = start(Voting::Primary);
    expected.timer_ready = true;
    expected.state = Some(State::Proposed('p', 'c'));
    let round = match step {
        Step::Decide(round) => round,
        _ => panic!("the turn goes on"),
    };
    assert!(round == expected);
    match decide(round) {
        Step::FindBestChain(query) => {
            assert_eq!(query.base, 110);
            assert_eq!(query.precommit_timer, 'c');
        }
        _ => panic!("the prevote is due"),
    }
}

#[test]
fn prevotes_wait_for_the_timer_or_for_completion() {
    assert!(decide(start(Voting::Yes)) == Step::Wait(start(Voting::Yes)));
    let proposed = round_in(Voting::Primary, Some(State::Proposed('p', 'c')));
    let same = round_in(Voting::Primary, Some(State::Proposed('p', 'c')));
    assert!(decide(proposed) == Step::Wait(same));

    let mut round = start(Voting::Yes);
    round.round.state.completable = true;
    match decide(round) {
        Step::FindBestChain(query) => assert_eq!(query.base, 110),
        _ => panic!("a completable round prevotes"),
    }

    let mut round = start(Voting::Yes);
    round.timer_ready = true;
    round.last_round_state = None;
    match decide(round) {
        Step::Wait(round) => assert!(round.state == Some(State::Start('p', 'c'))),
        _ => panic!("nothing is cast without a last round"),
    }
}

#[test]
fn bases_of_prevotes() {
    let mut round = start(Voting::Yes);
    assert_eq!(round.prevote_base(&last()), PrevoteBase::Block(110));
    // The prevote-GHOST itself.
    round.primary_block = Some((120, 12));
    assert_eq!(round.prevote_base(&last()), PrevoteBase::Block(120));
    // At or above the prevote-GHOST.
    round.primary_block = Some((121, 12));
    assert_eq!(round.prevote_base(&last()), PrevoteBase::Block(110));
    round.primary_block = Some((120, 13));
    assert_eq!(round.prevote_base(&last()), PrevoteBase::Block(110));
    // Below it.
    round.primary_block = Some((90, 9));
    let base =
        PrevoteBase::Ancestry { estimate: 110, prevote_ghost: 120, primary: 90, offset: 2 };
    assert_eq!(round.prevote_base(&last()), base);
}

#[test]
fn ancestry_tells_whether_the_primary_block_counts() {
    let base_in = |offset: usize, ancestry: Result<Vec<u64>, Error>| {
        let query = AncestryQuery {
            round: round_in(Voting::Yes, None),
            estimate: 100,
            prevote_ghost: 150,
            primary: 130,
            offset,
            precommit_timer: 'c',
        };
        let step: TestStep = query.answer(ancestry);
        match step {
            Step::FindBestChain(query) => query.base,
            _ => panic!("the best chain comes next"),
        }
    };
    assert_eq!(base_in(1, Ok(vec![140, 130, 120, 110])), 130);
    assert_eq!(base_in(1, Ok(vec![140, 131, 120, 110])), 100);
    assert_eq!(base_in(0, Ok(vec![140, 130, 120, 110])), 100);
    assert_eq!(base_in(4, Ok(vec![140, 130, 120, 110])), 100);
    assert_eq!(base_in(0, Ok(vec![])), 100);
    assert_eq!(base_in(1, Err(Error::NotDescendent)), 100);
}

#[test]
fn primary_block_within_the_ancestry_is_asked_for() {
    let mut round = start(Voting::Yes);
    round.timer_ready = true;
    round.primary_block = Some((110, 11));
    match decide(round) {
        Step::FindAncestry(query) => {
            assert_eq!((query.estimate, query.prevote_ghost), (110, 120));
            assert_eq!((query.primary, query.offset), (110, 0));
            // The estimate itself is not in its own ancestry, but is voted on anyway.
            let step: TestStep = query.answer(Ok(vec![]));
            match step {
                Step::FindBestChain(query) => assert_eq!(query.base, 110),
                _ => panic!("the best chain comes next"),
            }
        }
        _ => panic!("the ancestry is asked for"),
    }
}

#[test]
fn prevote_is_for_the_best_chain() {
    let query =
        BestChainQuery { round: round_in(Voting::Yes, None), base: 110, precommit_timer: 'c' };
    let step: TestStep = query.answer(Some((170, 17)));
    let prevote = Prevote { target_hash: 170, target_number: 17 };
    let cast = || Cast {
        round: round_in(Voting::Yes, None),
        ballot: Ballot::Prevote(Prevote { target_hash: 170, target_number: 17 }, 'c'),
    };
    assert!(step == Step::MarkVoted(cast()));
    let step: TestStep = cast().marked();
    assert!(step == Step::NoteVote(cast()));
    let step: TestStep = cast().noted(done(())).unwrap();
    assert!(step == Step::SendVote(cast()));
    assert_eq!(cast().ballot.message(), Message::Prevote(prevote));
    let step: TestStep = cast().sent(done(())).unwrap();
    assert!(step == Step::Wait(prevoted(Voting::Yes)));
}

#[test]
fn failures_outside_end_the_run() {
    let input = TestInput::Vote(Err("stream"));
    assert!(start(Voting::Yes).input(input, false) == Err("stream"));
    let prevote: Result<(RoundState<u64, u64>, Option<Equivocation<u32, Prevote<u64, u64>, u32>>), &str> =
        Err("prevote");
    assert!(start(Voting::Yes).prevote_imported(prevote) == Err("prevote"));
    let precommit: Result<(RoundState<u64, u64>, Option<Equivocation<u32, Precommit<u64, u64>, u32>>), &str> =
        Err("precommit");
    assert!(start(Voting::Yes).precommit_imported(precommit) == Err("precommit"));
    let cast = || Cast {
        round: round_in(Voting::Yes, None),
        ballot: Ballot::Prevote(Prevote { target_hash: 170, target_number: 17 }, 'c'),
    };
    let noted: Result<TestStep, &str> = cast().noted(Err("note"));
    assert!(noted == Err("note"));
    let sent: Result<TestStep, &str> = cast().sent(Err("sink"));
    assert!(sent == Err("sink"));
}

#[test]
fn failed_prevote_ends_the_voting() {
    let query =
        BestChainQuery { round: round_in(Voting::Primary, None), base: 110, precommit_timer: 'c' };
    let step: TestStep = query.answer(None);
    let round = match step {
        Step::Wait(round) => round,
        _ => panic!("the round goes on without votes"),
    };
    assert!(round == round_in(Voting::No, None));
    let step: TestStep = round.input(TestInput::Timer(Ok(())), true).unwrap();
    let round = match step {
        Step::Decide(round) => round,
        _ => panic!("there is no vote to check"),
    };
    match decide(round) {
        Step::Wait(round) => assert!(round.state == None),
        _ => panic!("nothing is cast any more"),
    }
}

#[test]
fn inactive_voter_passes_the_prevote() {
    let mut round = start(Voting::No);
    round.timer_ready = true;
    let mut expected = prevoted(Voting::No);
    expected.timer_ready = true;
    assert!(decide(round) == Step::Wait(expected));
    // Not before it is time to.
    assert!(decide(start(Voting::No)) == Step::Wait(start(Voting::No)));
}

#[test]
fn inactive_voter_passes_the_precommit() {
    let mut round = prevoted(Voting::No);
    round.timer_ready = true;
    round.round.state.prevote_ghost = Some((110, 11));
    match decide(round) {
        Step::Wait(round) => assert!(round.state == Some(State::Precommitted)),
        _ => panic!("nothing is cast"),
    }
}

#[test]
fn inactive_voter_keeps_pace_with_an_active_one() {
    // Up to the prevote.
    let turn = |voting: Voting| {
        let mut round = start(voting);
        round.timer_ready = true;
        let mut step = decide(round);
        loop {
            step = match step {
                Step::FindBestChain(query) => query.answer(Some((170, 17))),
                Step::MarkVoted(cast) => cast.marked(),
                Step::NoteVote(cast) => cast.noted(done(())).unwrap(),
                Step::SendVote(cast) => cast.sent(done(())).unwrap(),
                Step::Wait(round) => return round,
                _ => panic!("nothing else is asked"),
            };
        }
    };
    let mut active = turn(Voting::Yes);
    active.voting = Voting::No;
    assert!(turn(Voting::No) == active);

    // From there to the precommit.
    for on_estimate in [true, false] {
        let turn = |voting: Voting| {
            let mut round = prevoted(voting);
            round.timer_ready = true;
            round.round.state.prevote_ghost = Some((130, 13));
            let mut step = decide(round);
            loop {
                step = match step {
                    Step::CheckGhost(check) => check.answer(on_estimate),
                    Step::MarkVoted(cast) => cast.marked(),
                    Step::NoteVote(cast) => cast.noted(done(())).unwrap(),
                    Step::SendVote(cast) => cast.sent(done(())).unwrap(),
                    Step::Wait(round) => return round,
                    _ => panic!("nothing else is asked"),
                };
            }
        };
        let mut active = turn(Voting::Yes);
        active.voting = Voting::No;
        assert!(turn(Voting::No) == active);
    }
}

#[test]
fn precommits_wait_for_a_prevote_ghost() {
    let mut round = prevoted(Voting::Yes);
    round.timer_ready = true;
    let mut same = prevoted(Voting::Yes);
    same.timer_ready = true;
    assert!(decide(round) == Step::Wait(same));
    assert_eq!(
        prevoted(Voting::Yes).construct_precommit(),
        Precommit { target_hash: 100, target_number: 10 }
    );
}

#[test]
fn precommit_on_the_last_estimate() {
    let mut round = prevoted(Voting::Yes);
    round.timer_ready = true;
    round.round.state.prevote_ghost = Some((110, 11));
    let cast = match decide(round) {
        Step::MarkVoted(cast) => cast,
        _ => panic!("the estimate itself needs no question"),
    };
    let precommit = Precommit { target_hash: 110, target_number: 11 };
    assert_eq!(cast.ballot.message(), Message::Precommit(precommit.clone()));
    assert!(cast.ballot == Ballot::Precommit(precommit));
    let step: TestStep = cast.sent(done(())).unwrap();
    match step {
        Step::Wait(round) => assert!(round.state == Some(State::Precommitted)),
        _ => panic!("the round is not over"),
    }
}

#[test]
fn precommit_above_the_last_estimate() {
    let question = |timer_ready: bool| {
        let mut round = prevoted(Voting::Yes);
        round.timer_ready = timer_ready;
        round.round.state.prevote_ghost = Some((130, 13));
        match decide(round) {
            Step::CheckGhost(check) => check,
            _ => panic!("the chain is asked"),
        }
    };
    let check: GhostCheck<u64, u64, u32, char> = question(true);
    assert_eq!((check.estimate, check.prevote_ghost), (110, 130));
    let step: TestStep = check.answer(true);
    match step {
        Step::MarkVoted(cast) => assert_eq!(cast.ballot.message().target(), (130, 13)),
        _ => panic!("the precommit is due"),
    }
    let step: TestStep = question(true).answer(false);
    match step {
        Step::Wait(round) => assert!(round.state == Some(State::Prevoted('c'))),
        _ => panic!("the prevote-GHOST is off the estimate"),
    }
    let step: TestStep = question(false).answer(true);
    match step {
        Step::Wait(round) => assert!(round.state == Some(State::Prevoted('c'))),
        _ => panic!("it is not time to precommit"),
    }
}

#[test]
fn nothing_is_cast_after_the_precommit() {
    let mut round = round_in(Voting::Yes, Some(State::Precommitted));
    round.timer_ready = true;
    round.round.state.prevote_ghost = Some((110, 11));
    match decide(round) {
        Step::Wait(round) => assert!(round.state == Some(State::Precommitted)),
        _ => panic!("nothing is left to cast"),
    }
}

#[test]
fn rounds_end_once_the_last_estimate_is_finalized() {
    let completed = |last: Option<RoundState<u64, u64>>, finalized, completable| {
        let mut round = round_in(Voting::Yes, Some(State::Precommitted));
        round.last_round_state = last;
        round.round.state.finalized = finalized;
        round.round.state.completable = completable;
        let completed = round.completed();
        assert!(matches!(decide(round), Step::Done(_)) == completed);
        completed
    };
    // In this round.
    assert!(!completed(Some(last()), None, true));
    assert!(!completed(Some(last()), Some((100, 10)), true));
    assert!(completed(Some(last()), Some((110, 11)), true));
    assert!(!completed(Some(last()), Some((110, 11)), false));
    // In the last round.
    assert!(completed(Some(RoundState::genesis((5, 5))), None, true));
    // Without an estimate or a finalized block in the last round.
    let mut state = last();
    state.finalized = None;
    assert!(!completed(Some(state), Some((110, 11)), true));
    let mut state = last();
    state.estimate = None;
    assert!(!completed(Some(state), Some((110, 11)), true));
    // Without a last round.
    assert!(completed(None, None, true));
    assert!(!completed(None, None, false));
}

#[test]
fn deciding_takes_a_completable_last_round() {
    let mut round = start(Voting::Yes);
    round.timer_ready = true;
    round.last_round_state.as_mut().unwrap().estimate = None;
    assert!(!round.can_decide());
    round.timer_ready = false;
    assert!(round.can_decide());

    let mut round = start(Voting::Yes);
    round.timer_ready = true;
    round.primary_block = Some((90, 9));
    round.last_round_state.as_mut().unwrap().prevote_ghost = None;
    assert!(!round.can_decide());
    // The proposal comes before the prevote.
    round.voting = Voting::Primary;
    assert!(round.can_decide());
    round.state = Some(State::Proposed('p', 'c'));
    assert!(!round.can_decide());
    round.voting = Voting::No;
    assert!(round.can_decide());

    let mut round = prevoted(Voting::No);
    round.last_round_state.as_mut().unwrap().estimate = None;
    assert!(!round.can_decide());
    round.last_round_state = None;
    assert!(round.can_decide());
}
