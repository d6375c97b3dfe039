//! What block hashes, voter ids and block numbers have to be able to do.

use vstd::prelude::*;

verus! {

/// A value that is compared and copied by what it holds, such as a block hash or a
/// voter id.
pub trait Identity: Sized {
    /// Whether two values are the same.
    fn same(&self, other: &Self) -> (r: bool)
        ensures
            r == (*self == *other),
    ;

    /// A copy of the value.
    fn duplicate(&self) -> (r: Self)
        ensures
            r == *self,
    ;
}

impl Identity for u32 {
    fn same(&self, other: &Self) -> (r: bool) {
        *self == *other
    }

    fn duplicate(&self) -> (r: Self) {
        *self
    }
}

impl Identity for u64 {
    fn same(&self, other: &Self) -> (r: bool) {
        *self == *other
    }

    fn duplicate(&self) -> (r: Self) {
        *self
    }
}

impl<const L: usize> Identity for [u8; L] {
    fn same(&self, other: &Self) -> (r: bool) {
        let mut i: usize = 0;
        while i < L
            invariant
                i <= L,
                forall|j: int| 0 <= j < i ==> self@[j] == other@[j],
            decreases L - i,
        {
            if self[i] != other[i] {
                return false;
            }
            i += 1;
        }
        assert(*self =~= *other);
        true
    }

    fn duplicate(&self) -> (r: Self) {
        *self
    }
}

/// A block number: it has a height, numbers of one height are equal, and the
/// distance between two of them indexes an ancestry.
pub trait BlockNumberOps: Copy {
    /// The height that the number stands for.
    spec fn height(self) -> nat;

    /// Numbers of one height are equal.
    proof fn height_is_injective(a: Self, b: Self)
        requires
            a.height() == b.height(),
        ensures
            a == b,
    ;

    /// Whether the number is lower than `other`.
    fn is_below(self, other: Self) -> (r: bool)
        ensures
            r == (self.height() < other.height()),
    ;

    /// How many blocks lie strictly between this number and a higher one. The count
    /// is cut to the width of `usize`.
    fn blocks_up_to(self, top: Self) -> (r: usize)
        requires
            self.height() < top.height(),
        ensures
            r == (top.height() - self.height() - 1) as usize,
    ;
}

impl BlockNumberOps for u32 {
    open spec fn height(self) -> nat {
        self as nat
    }

    proof fn height_is_injective(a: Self, b: Self) {
    }

    fn is_below(self, other: Self) -> (r: bool) {
        self < other
    }

    fn blocks_up_to(self, top: Self) -> (r: usize) {
        (top - self - 1) as usize
    }
}

impl BlockNumberOps for u64 {
    open spec fn height(self) -> nat {
        self as nat
    }

    proof fn height_is_injective(a: Self, b: Self) {
    }

    fn is_below(self, other: Self) -> (r: bool) {
        self < other
    }

    #[verifier::truncate]
    fn blocks_up_to(self, top: Self) -> (r: usize) {
        (top - self - 1) as usize
    }
}

/// Whether two block numbers are equal.
pub(crate) fn same_number<N: BlockNumberOps>(a: N, b: N) -> (r: bool)
    ensures
        r == (a == b),
{
    let r = !a.is_below(b) && !b.is_below(a);
    proof {
        if r {
            N::height_is_injective(a, b);
        }
    }
    r
}

} // verus!
