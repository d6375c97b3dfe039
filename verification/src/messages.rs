//! The messages that voters exchange within a round.

use crate::primitives::{BlockNumberOps, Identity};
use vstd::prelude::*;

verus! {

/// A prevote for a block and its ancestors.
#[derive(Debug, PartialEq, Eq)]
pub struct Prevote<H, N> {
    pub target_hash: H,
    pub target_number: N,
}

impl<H: Identity, N: BlockNumberOps> Clone for Prevote<H, N> {
    fn clone(&self) -> (r: Self)
        ensures
            r == *self,
    {
        Prevote { target_hash: self.target_hash.duplicate(), target_number: self.target_number }
    }
}

/// A precommit for a block and its ancestors.
#[derive(Debug, PartialEq, Eq)]
pub struct Precommit<H, N> {
    pub target_hash: H,
    pub target_number: N,
}

impl<H: Identity, N: BlockNumberOps> Clone for Precommit<H, N> {
    fn clone(&self) -> (r: Self)
        ensures
            r == *self,
    {
        Precommit { target_hash: self.target_hash.duplicate(), target_number: self.target_number }
    }
}

/// A block that the primary voter proposes at the start of a round.
#[derive(Debug, PartialEq, Eq)]
pub struct PrimaryPropose<H, N> {
    pub target_hash: H,
    pub target_number: N,
}

impl<H: Identity, N: BlockNumberOps> Clone for PrimaryPropose<H, N> {
    fn clone(&self) -> (r: Self)
        ensures
            r == *self,
    {
        PrimaryPropose { target_hash: self.target_hash.duplicate(), target_number: self.target_number }
    }
}

/// A message cast in a round.
#[derive(Debug, PartialEq, Eq)]
pub enum Message<H, N> {
    Prevote(Prevote<H, N>),
    Precommit(Precommit<H, N>),
    PrimaryPropose(PrimaryPropose<H, N>),
}

impl<H, N> Message<H, N> {
    /// The block that the message targets, as hash and number.
    pub open spec fn spec_target(self) -> (H, N) {
        match self {
            Message::Prevote(v) => (v.target_hash, v.target_number),
            Message::Precommit(v) => (v.target_hash, v.target_number),
            Message::PrimaryPropose(v) => (v.target_hash, v.target_number),
        }
    }
}

impl<H: Identity, N: BlockNumberOps> Message<H, N> {
    /// The block that the message targets, as hash and number.
    pub fn target(&self) -> (r: (H, N))
        ensures
            r == self.spec_target(),
    {
        match self {
            Message::Prevote(v) => (v.target_hash.duplicate(), v.target_number),
            Message::Precommit(v) => (v.target_hash.duplicate(), v.target_number),
            Message::PrimaryPropose(v) => (v.target_hash.duplicate(), v.target_number),
        }
    }
}

impl<H: Identity, N: BlockNumberOps> Clone for Message<H, N> {
    fn clone(&self) -> (r: Self)
        ensures
            r == *self,
    {
        match self {
            Message::Prevote(v) => Message::Prevote(v.clone()),
            Message::Precommit(v) => Message::Precommit(v.clone()),
            Message::PrimaryPropose(v) => Message::PrimaryPropose(v.clone()),
        }
    }
}

/// A message, its signature, and the voter that cast it.
#[derive(Debug, PartialEq, Eq)]
pub struct SignedMessage<H, N, S, Id> {
    pub message: Message<H, N>,
    pub signature: S,
    pub id: Id,
}

impl<H: Identity, N: BlockNumberOps, S: Identity, Id: Identity> Clone for SignedMessage<
    H,
    N,
    S,
    Id,
> {
    fn clone(&self) -> (r: Self)
        ensures
            r == *self,
    {
        SignedMessage {
            message: self.message.clone(),
            signature: self.signature.duplicate(),
            id: self.id.duplicate(),
        }
    }
}

/// Two conflicting votes that one voter cast in one round.
#[derive(Debug, PartialEq, Eq)]
pub struct Equivocation<Id, V, S> {
    pub round_number: u64,
    pub identity: Id,
    pub first: (V, S),
    pub second: (V, S),
}

} // verus!
