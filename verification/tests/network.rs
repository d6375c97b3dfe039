//! Voters that talk to each other over a network in memory.

use grandpa_voter::{
    Ballot, BlockNumberOps, Error, Identity, Input, Message, RoundData, RoundState, SignedMessage,
    State, Step, Voter, VoterSet, Voting, VotingRound,
};

#[derive(Clone, Copy, Debug, PartialEq, Eq)]
struct Id(u32);

#[derive(Clone, Copy, Debug, PartialEq, Eq)]
struct Signature(u32);

#[derive(Clone, Copy, Debug, PartialEq, Eq)]
struct Hash(&'static str);

impl Identity for Id {
    fn same(&self, other: &Id) -> bool {
        self == other
    }

    fn duplicate(&self) -> Id {
        *self
    }
}

impl Identity for Signature {
    fn same(&self, other: &Signature) -> bool {
        self == other
    }

    fn duplicate(&self) -> Signature {
        *self
    }
}

impl Identity for Hash {
    fn same(&self, other: &Hash) -> bool {
        self == other
    }

    fn duplicate(&self) -> Hash {
        *self
    }
}


const GENESIS_HASH: Hash = Hash("genesis");

#[derive(Debug, PartialEq, Eq)]
struct Timer {
    fired: bool,
}

type Vote = SignedMessage<Hash, u32, Signature, Id>;
type NextStep = Step<Hash, u32, Signature, Id, Timer>;

/// A chain without forks, from the genesis block at number 1.
#[derive(Clone)]
struct Chain {
    blocks: Vec<(Hash, u32)>,
}

impl Chain {
    fn new(hashes: &[&'static str]) -> Chain {
        let mut blocks = vec![(GENESIS_HASH, 1)];
        for hash in hashes {
            let number = blocks.len() as u32 + 1;
            blocks.push((Hash(hash), number));
        }
        Chain { blocks }
    }

    fn last_finalized(&self) -> (Hash, u32) {
        self.blocks[0]
    }

    fn position(&self, hash: &Hash) -> Option<usize> {
        self.blocks.iter().position(|b| b.0 == *hash)
    }

    fn is_equal_or_descendent_of(&self, base: Hash, block: Hash) -> bool {
        match (self.position(&base), self.position(&block)) {
            (Some(base), Some(block)) => base <= block,
            _ => false,
        }
    }

    fn ancestry(&self, base: Hash, block: Hash) -> Result<Vec<Hash>, Error> {
        if !self.is_equal_or_descendent_of(base, block) {
            return Err(Error::NotDescendent);
        }
        let base = self.position(&base).unwrap();
        let block = self.position(&block).unwrap();
        Ok((base + 1..block).rev().map(|i| self.blocks[i].0).collect())
    }

    fn best_chain_containing(&self, base: Hash) -> Option<(Hash, u32)> {
        self.position(&base).map(|_| *self.blocks.last().unwrap())
    }

    fn at(&self, number: u32) -> (Hash, u32) {
        self.blocks[number as usize - 1]
    }
}

/// The tally of a round on a chain without forks.
struct Tally {
    voters: Vec<(Id, u64)>,
    base: u32,
    prevotes: Vec<(Id, u32)>,
    precommits: Vec<(Id, u32)>,
}

impl Tally {
    fn new(voters: &VoterSet<Id>, base: u32) -> Tally {
        Tally { voters: voters.voters().clone(), base, prevotes: vec![], precommits: vec![] }
    }

    fn weight(&self, id: &Id) -> u64 {
        self.voters.iter().filter(|v| v.0 == *id).map(|v| v.1).sum()
    }

    fn total(&self) -> u64 {
        self.voters.iter().map(|v| v.1).sum()
    }

    fn threshold(&self) -> u64 {
        self.total() - (self.total() - 1) / 3
    }

    fn highest(&self, votes: &[(Id, u32)], slack: u64, top: u32) -> Option<u32> {
        (self.base..=top).rev().find(|n| {
            let weight: u64 = votes.iter().filter(|v| v.1 >= *n).map(|v| self.weight(&v.0)).sum();
            weight + slack >= self.threshold()
        })
    }

    fn state(&self, chain: &Chain) -> RoundState<Hash, u32> {
        let top = chain.blocks.last().unwrap().1;
        let ghost = self.highest(&self.prevotes, 0, top);
        let seen: u64 = self.precommits.iter().map(|v| self.weight(&v.0)).sum();
        let mut state = RoundState {
            prevote_ghost: ghost.map(|n| chain.at(n)),
            finalized: None,
            estimate: None,
            completable: false,
        };
        if let Some(ghost) = ghost {
            state.finalized = self.highest(&self.precommits, 0, ghost).map(|n| chain.at(n));
            let slack = self.total() - seen;
            state.estimate = self.highest(&self.precommits, slack, ghost).map(|n| chain.at(n));
            state.completable = seen >= self.threshold();
        }
        state
    }
}

/// A voter on the network.
struct Node {
    id: Id,
    local_id: Option<Id>,
    voters: Option<VoterSet<Id>>,
    chain: Chain,
    tally: Tally,
    step: Option<NextStep>,
    incoming: Vec<Vote>,
    sent: Vec<Message<Hash, u32>>,
    /// The blocks that the voter reported as finalized, with the round.
    finalized: Vec<(Hash, u32, u64)>,
}

fn round_data(local_id: Option<Id>) -> RoundData<Id, Timer, (), ()> {
    RoundData {
        voter_id: local_id,
        prevote_timer: Timer { fired: false },
        precommit_timer: Timer { fired: false },
        incoming: (),
        outgoing: (),
    }
}

fn primary_of(voters: &VoterSet<Id>, number: u64) -> Id {
    voters.voters()[number as usize % voters.voters().len()].0
}

impl Node {
    fn new(id: Id, local_id: Option<Id>, voters: &VoterSet<Id>, chain: Chain) -> Node {
        let last_finalized = chain.last_finalized();
        let tally = Tally::new(voters, last_finalized.1);
        let (voter, (), ()) = Voter::new(
            VoterSet::new(voters.voters().clone()).unwrap(),
            0,
            Vec::<Vote>::new(),
            last_finalized,
            last_finalized,
            round_data(local_id),
            primary_of(voters, 1),
            tally.state(&chain),
        );
        assert_eq!(voter.best_round.round.number, 1);
        let (voters, step) = voter.run();
        Node {
            id,
            local_id,
            voters: Some(voters),
            chain,
            tally,
            step: Some(step),
            incoming: vec![],
            sent: vec![],
            finalized: vec![],
        }
    }

    /// Goes on with the round after the one that is done.
    fn next_round(&mut self) {
        let ended = match self.step.take() {
            Some(Step::Done(ended)) => ended,
            _ => panic!("the round is not done"),
        };
        let voters = self.voters.take().unwrap();
        let base = ended.last_finalized();
        let primary = primary_of(&voters, ended.round.number + 1);
        self.tally = Tally::new(&voters, base.1);
        self.incoming.clear();
        let tally = self.tally.state(&self.chain);
        let (voter, (), ()) =
            Voter::next_round(voters, ended, base, round_data(self.local_id), primary, tally);
        let (voters, step) = voter.run();
        self.voters = Some(voters);
        self.step = Some(step);
    }

    fn round(&self) -> &VotingRound<Hash, u32, Id, Timer> {
        match self.step.as_ref().unwrap() {
            Step::Wait(round) | Step::Done(round) => round,
            _ => panic!("in the middle of a turn"),
        }
    }

    fn is_done(&self) -> bool {
        matches!(self.step, Some(Step::Done(_)))
    }

    /// Goes on until the next wait with a vote, or else with the timer. Gives the
    /// messages that were sent.
    fn turn(&mut self) -> Vec<Message<Hash, u32>> {
        let mut out = vec![];
        let mut waited = false;
        loop {
            let next = match self.step.take().unwrap() {
                Step::Wait(mut round) => {
                    if waited {
                        self.step = Some(Step::Wait(round));
                        return out;
                    }
                    waited = true;
                    if !self.incoming.is_empty() {
                        let ready = round.timer_mut().map_or(false, |t| t.fired);
                        round.input(Input::<_, _, _, _, Error>::Vote(Ok(self.incoming.remove(0))), ready).unwrap()
                    } else if let Some(timer) = round.timer_mut() {
                        timer.fired = true;
                        round.input(Input::<_, _, _, _, Error>::Timer(Ok(())), true).unwrap()
                    } else {
                        self.step = Some(Step::Wait(round));
                        return out;
                    }
                }
                Step::CheckTarget(check) => {
                    let (base, target) = check.question();
                    check.answer(self.chain.is_equal_or_descendent_of(base, target))
                }
                Step::ImportPrevote { round, prevote, id, .. } => {
                    self.tally.prevotes.push((id, prevote.target_number));
                    let state = self.tally.state(&self.chain);
                    round.prevote_imported(Ok::<_, Error>((state, None))).unwrap()
                }
                Step::ImportPrecommit { round, precommit, id, .. } => {
                    self.tally.precommits.push((id, precommit.target_number));
                    let state = self.tally.state(&self.chain);
                    round.precommit_imported(Ok::<_, Error>((state, None))).unwrap()
                }
                Step::ReportPrevotes(round, _, finalized) => round.equivocation_reported(finalized),
                Step::ReportPrecommits(round, _, finalized) => round.equivocation_reported(finalized),
                Step::Finalize { round, block } => {
                    self.finalized.push((block.0, block.1, round.round.number));
                    round.block_finalized(Ok::<(), Error>(())).unwrap()
                }
                Step::Decide(round) => {
                    assert!(round.can_decide());
                    round.decide()
                }
                Step::FindAncestry(query) => {
                    let ancestry = self.chain.ancestry(query.estimate, query.prevote_ghost);
                    query.answer(ancestry)
                }
                Step::FindBestChain(query) => {
                    let best = self.chain.best_chain_containing(query.base);
                    query.answer(best)
                }
                Step::CheckGhost(check) => {
                    let answer =
                        self.chain.is_equal_or_descendent_of(check.estimate, check.prevote_ghost);
                    check.answer(answer)
                }
                Step::MarkVoted(cast) => cast.marked(),
                Step::NoteVote(cast) => cast.noted(Ok::<(), Error>(())).unwrap(),
                Step::SendVote(cast) => {
                    let message = cast.ballot.message();
                    self.sent.push(message.clone());
                    out.push(message);
                    cast.sent(Ok::<(), Error>(())).unwrap()
                }
                Step::Done(round) => {
                    self.step = Some(Step::Done(round));
                    return out;
                }
            };
            self.step = Some(next);
        }
    }
}

/// Runs the nodes, routing each message to all of them, until all are done.
fn run_network(nodes: &mut Vec<Node>) {
    for _ in 0..1000 {
        if nodes.iter().all(|n| n.is_done()) {
            return;
        }
        for i in 0..nodes.len() {
            let id = nodes[i].id;
            for message in nodes[i].turn() {
                for node in nodes.iter_mut() {
                    let vote = SignedMessage { message: message.clone(), signature: Signature(id.0), id };
                    node.incoming.push(vote);
                }
            }
        }
    }
    panic!("the voters do not come to an end");
}

/// The number of the best block that the voter reported as finalized.
fn finalized_number(node: &Node) -> u32 {
    node.finalized.iter().map(|b| b.1).max().unwrap_or(0)
}

#[test]
fn talking_to_myself() {
    let local_id = Id(5);
    let voters = VoterSet::new(vec![(local_id, 100)]).unwrap();

    // initialize chain
    let chain = Chain::new(&["A", "B", "C", "D", "E"]);
    let mut nodes = vec![Node::new(local_id, Some(local_id), &voters, chain)];
    assert_eq!(nodes[0].round().voting, Voting::Primary);

    // wait for the best block to finalize.
    run_network(&mut nodes);
    assert!(finalized_number(&nodes[0]) >= 6);
    assert_eq!(nodes[0].finalized, vec![(Hash("E"), 6, 1)]);
    assert!(nodes[0].round().state == Some(State::Precommitted));
}

#[test]
fn finalizing_at_fault_threshold() {
    // 10 voters
    let voters = VoterSet::new((0..10).map(|i| (Id(i), 1)).collect()).expect("nonempty");

    // 3 voters offline.
    let mut nodes: Vec<Node> = (0..7)
        .map(|i| {
            let local_id = Id(i);
            // initialize chain
            let chain = Chain::new(&["A", "B", "C", "D", "E"]);
            Node::new(local_id, Some(local_id), &voters, chain)
        })
        .collect();

    // wait for the best block to be finalized by all honest voters
    run_network(&mut nodes);
    for node in &nodes {
        assert!(finalized_number(node) >= 6);
        assert_eq!(node.finalized, vec![(Hash("E"), 6, 1)]);
    }
}

#[test]
fn each_voter_sends_one_prevote_and_then_one_precommit() {
    let voters = VoterSet::new((0..10).map(|i| (Id(i), 1)).collect()).unwrap();
    let chain = Chain::new(&["A", "B", "C", "D", "E"]);
    let mut nodes: Vec<Node> =
        (0..10).map(|i| Node::new(Id(i), Some(Id(i)), &voters, chain.clone())).collect();
    run_network(&mut nodes);
    for node in &nodes {
        assert_eq!(node.sent.len(), 2);
        assert!(matches!(node.sent[0], Message::Prevote(_)));
        assert!(matches!(node.sent[1], Message::Precommit(_)));
        assert_eq!(node.sent[0].target(), (Hash("E"), 6));
        assert_eq!(node.sent[1].target(), (Hash("E"), 6));
    }
}

#[test]
fn observers_send_nothing_and_follow_the_round() {
    let voters = VoterSet::new((0..7).map(|i| (Id(i), 1)).collect()).unwrap();
    let chain = Chain::new(&["A", "B", "C", "D", "E"]);
    let mut nodes: Vec<Node> =
        (0..7).map(|i| Node::new(Id(i), Some(Id(i)), &voters, chain.clone())).collect();
    nodes.push(Node::new(Id(50), Some(Id(50)), &voters, chain.clone()));
    nodes.push(Node::new(Id(51), None, &voters, chain.clone()));
    assert_eq!(nodes[7].round().voting, Voting::No);
    assert_eq!(nodes[8].round().voting, Voting::No);
    run_network(&mut nodes);
    for node in &nodes[7..] {
        assert!(node.sent.is_empty());
        assert!(node.round().state == Some(State::Precommitted));
        assert_eq!(finalized_number(node), 6);
    }
}

#[test]
fn voters_go_on_with_the_next_round() {
    let voters = VoterSet::new((0..4).map(|i| (Id(i), 1)).collect()).unwrap();
    let chain = Chain::new(&["A", "B"]);
    let mut nodes: Vec<Node> =
        (0..4).map(|i| Node::new(Id(i), Some(Id(i)), &voters, chain.clone())).collect();
    run_network(&mut nodes);

    // The chain has grown when the next round starts.
    for node in nodes.iter_mut() {
        node.chain = Chain::new(&["A", "B", "C"]);
        node.next_round();
        assert_eq!(node.round().round.number, 2);
        assert_eq!(node.round().round.base, (Hash("B"), 3));
        let last = node.round().last_round_state.as_ref().unwrap();
        assert_eq!(last.finalized, Some((Hash("B"), 3)));
        assert!(last.completable);
    }
    assert_eq!(nodes[2].round().voting, Voting::Primary);
    run_network(&mut nodes);

    // And so on.
    for node in nodes.iter_mut() {
        node.chain = Chain::new(&["A", "B", "C", "D"]);
        node.next_round();
        assert_eq!(node.round().round.number, 3);
    }
    run_network(&mut nodes);
    for node in &nodes {
        assert_eq!(node.finalized, vec![(Hash("B"), 3, 1), (Hash("C"), 4, 2), (Hash("D"), 5, 3)]);
        assert_eq!(node.sent.len(), 6);
    }
}

#[test]
fn ballots_carry_their_messages() {
    let voters = VoterSet::new(vec![(Id(1), 1)]).unwrap();
    let chain = Chain::new(&["A", "B"]);
    let mut node = Node::new(Id(1), Some(Id(1)), &voters, chain);
    let out = node.turn();
    assert_eq!(out.len(), 1);
    assert_eq!(out[0].target(), (Hash("B"), 3));
    let ballot: Ballot<Hash, u32, Timer> = match out[0].clone() {
        Message::Prevote(prevote) => Ballot::Prevote(prevote, Timer { fired: false }),
        _ => panic!("a prevote comes first"),
    };
    assert_eq!(ballot.message(), out[0]);
    assert_eq!(2u32.blocks_up_to(6), 3);
}
