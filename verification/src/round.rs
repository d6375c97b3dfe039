//! What a voter knows of a round: who votes in it, where it starts, and how its tally
//! stands.

use crate::primitives::{BlockNumberOps, Identity};
use vstd::prelude::*;

verus! {

/// Data necessary to participate in a round.
pub struct RoundData<Id, Timer, Input, Output> {
    /// Local voter id (if any.)
    pub voter_id: Option<Id>,
    /// Timer before prevotes can be cast. This should be Start + 2T
    /// where T is the gossip time estimate.
    pub prevote_timer: Timer,
    /// Timer before precommits can be cast. This should be Start + 4T
    pub precommit_timer: Timer,
    /// Incoming messages.
    pub incoming: Input,
    /// Outgoing messages.
    pub outgoing: Output,
}

/// The voters of a round, with their weights. There is at least one.
pub struct VoterSet<Id> {
    voters: Vec<(Id, u64)>,
}

impl<Id> View for VoterSet<Id> {
    type V = Seq<(Id, u64)>;

    closed spec fn view(&self) -> Seq<(Id, u64)> {
        self.voters@
    }
}

impl<Id> VoterSet<Id> {
    /// Whether `id` belongs to a voter.
    pub open spec fn has_voter(self, id: Id) -> bool {
        exists|i: int| 0 <= i < self@.len() && (#[trigger] self@[i]).0 == id
    }

    #[verifier::type_invariant]
    spec fn nonempty(self) -> bool {
        self.voters@.len() > 0
    }

    /// The set of the given voters, unless there are none.
    pub fn new(voters: Vec<(Id, u64)>) -> (r: Option<Self>)
        ensures
            r is None <==> voters@.len() == 0,
            r matches Some(set) ==> set@ == voters@,
    {
        if voters.len() == 0 {
            None
        } else {
            Some(VoterSet { voters })
        }
    }

    /// The voters and their weights. There is at least one.
    pub fn voters(&self) -> (r: &Vec<(Id, u64)>)
        ensures
            r@ == self@,
            r@.len() > 0,
    {
        proof {
            use_type_invariant(self);
        }
        &self.voters
    }
}

impl<Id: Identity> VoterSet<Id> {
    /// Whether `id` belongs to a voter.
    pub fn contains(&self, id: &Id) -> (r: bool)
        ensures
            r == self.has_voter(*id),
    {
        let mut i: usize = 0;
        while i < self.voters.len()
            invariant
                i <= self.voters@.len(),
                self@ == self.voters@,
                forall|j: int| 0 <= j < i ==> (#[trigger] self.voters@[j]).0 != *id,
            decreases self.voters@.len() - i,
        {
            if self.voters[i].0.same(id) {
                assert(self@[i as int].0 == *id);
                return true;
            }
            i += 1;
        }
        false
    }
}

/// How the tally of a round stands.
#[derive(Debug, PartialEq, Eq)]
pub struct RoundState<H, N> {
    /// The prevote-GHOST block.
    pub prevote_ghost: Option<(H, N)>,
    /// The finalized block.
    pub finalized: Option<(H, N)>,
    /// The estimate of what may still be finalized.
    pub estimate: Option<(H, N)>,
    /// Whether the round is completable.
    pub completable: bool,
}

impl<H, N> RoundState<H, N> {
    /// The state of a round that was completed on a single block.
    pub open spec fn spec_genesis(genesis: (H, N)) -> Self {
        RoundState {
            prevote_ghost: Some(genesis),
            finalized: Some(genesis),
            estimate: Some(genesis),
            completable: true,
        }
    }
}

impl<H: Identity, N: BlockNumberOps> RoundState<H, N> {
    /// The state of a round that was completed on a single block: the block is its
    /// prevote-GHOST, its estimate, and finalized.
    pub fn genesis(genesis: (H, N)) -> (r: Self)
        ensures
            r == Self::spec_genesis(genesis),
    {
        let prevote_ghost = (genesis.0.duplicate(), genesis.1);
        let finalized = (genesis.0.duplicate(), genesis.1);
        RoundState {
            prevote_ghost: Some(prevote_ghost),
            finalized: Some(finalized),
            estimate: Some(genesis),
            completable: true,
        }
    }
}

/// The block that is finalized in the state `after` and was not in the state `before`:
/// nothing was finalized there, or only a lower block.
pub open spec fn newly_finalized<H, N: BlockNumberOps>(
    before: RoundState<H, N>,
    after: RoundState<H, N>,
) -> Option<(H, N)> {
    match after.finalized {
        Some(block) if before.finalized matches Some(last) ==> last.1.height()
            < block.1.height() => Some(block),
        _ => None,
    }
}

impl<H: Identity, N: BlockNumberOps> RoundState<H, N> {
    /// The block that is finalized in this state and was not in the state `before`.
    pub fn finalized_since(&self, before: &Self) -> (r: Option<(H, N)>)
        ensures
            r == newly_finalized(*before, *self),
    {
        match &self.finalized {
            Some(block) => {
                let is_new = match &before.finalized {
                    Some(last) => last.1.is_below(block.1),
                    None => true,
                };
                if is_new {
                    Some((block.0.duplicate(), block.1))
                } else {
                    None
                }
            },
            None => None,
        }
    }
}

/// What a voter reads of a round.
#[derive(Debug, PartialEq, Eq)]
pub struct Round<Id, H, N> {
    /// The number of the round.
    pub number: u64,
    /// The block that the round starts from. Votes for anything that does not build
    /// on it are not counted.
    pub base: (H, N),
    /// The voter that may propose a block in the round.
    pub primary_voter: Id,
    /// How the tally of the votes stands.
    pub state: RoundState<H, N>,
}

} // verus!
