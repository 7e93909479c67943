//! Flag-set values and their set algebra.

use crate::bits::Bits;
use vstd::prelude::*;

verus! {

/// A set of flags, stored as the bits of one integer of type `B`.
///
/// The view of a flag set is the numeric value of that integer. A flag set is plain data:
/// it does not remember which declaration its bits came from.
#[derive(Debug, Hash, Ord)]
pub struct FlagSet<B: Bits> {
    bits: B,
}

impl<B: Bits> Clone for FlagSet<B> {
    fn clone(&self) -> (r: Self)
        ensures
            r == *self,
    {
        *self
    }
}

impl<B: Bits> Copy for FlagSet<B> {

}

impl<B: Bits> View for FlagSet<B> {
    type V = u128;

    open spec fn view(&self) -> u128 {
        self.spec_bits().raw()
    }
}

/// The union of the views of `sets`, which is `0` for the empty sequence.
pub open spec fn union_of<B: Bits>(sets: Seq<FlagSet<B>>) -> u128 {
    sets.fold_left(0u128, |acc: u128, f: FlagSet<B>| acc | f@)
}

/// The results of the bitwise operations on two integers of one width stay in that width.
pub proof fn lemma_stays_in_width(a: u128, b: u128, full: u128)
    requires
        a & !full == 0,
        b & !full == 0,
    ensures
        (a | b) & !full == 0,
        (a & b) & !full == 0,
        (a ^ b) & !full == 0,
        (a & !b) & !full == 0,
        (!a & b) & !full == 0,
{
    assert((a | b) & !full == 0 && (a & b) & !full == 0 && (a ^ b) & !full == 0 && (a & !b) & !full
        == 0 && (!a & b) & !full == 0) by (bit_vector)
        requires
            a & !full == 0,
            b & !full == 0,
    ;
}

impl<B: Bits> FlagSet<B> {
    /// The integer that holds the set.
    pub closed spec fn spec_bits(&self) -> B {
        self.bits
    }

    /// The flag set whose view is `v`, for a `v` that fits the width of `B`.
    pub open spec fn of(v: u128) -> Self {
        choose|f: Self| f@ == v
    }

    /// The view of a flag set fits the width of `B`.
    pub proof fn lemma_view_fits(f: Self)
        ensures
            f@ & !B::full() == 0,
    {
        B::lemma_raw_fits(f.bits);
    }

    /// Two flag sets with the same view are the same flag set.
    pub proof fn lemma_view_injective(a: Self, b: Self)
        requires
            a@ == b@,
        ensures
            a == b,
    {
        B::lemma_raw_injective(a.bits, b.bits);
    }

    /// A flag set is the one that `of` gives for its view.
    pub proof fn lemma_of_view(f: Self)
        ensures
            Self::of(f@) == f,
    {
        Self::lemma_view_injective(Self::of(f@), f);
    }

    /// For a number that fits the width of `B`, `of` gives a flag set with that view.
    pub proof fn lemma_view_of(v: u128)
        requires
            v & !B::full() == 0,
        ensures
            Self::of(v)@ == v,
    {
        B::lemma_raw_onto(v);
        let x = choose|x: B| x.raw() == v;
        assert((FlagSet { bits: x })@ == v);
    }

    /// The set with no flag in it.
    pub open spec fn spec_empty() -> Self {
        Self::of(0)
    }

    /// The flags that are in `self`, in `other`, or in both.
    pub open spec fn spec_union(self, other: Self) -> Self {
        Self::of(self@ | other@)
    }

    /// The flags that are in both `self` and `other`.
    pub open spec fn spec_intersection(self, other: Self) -> Self {
        Self::of(self@ & other@)
    }

    /// The flags of `self` that are not in `other`.
    pub open spec fn spec_difference(self, other: Self) -> Self {
        Self::of(self@ & !other@)
    }

    /// The flags that are in exactly one of `self` and `other`.
    pub open spec fn spec_symmetric_difference(self, other: Self) -> Self {
        Self::of(self@ ^ other@)
    }

    /// Whether no flag is in the set.
    pub open spec fn spec_is_empty(&self) -> bool {
        self@ == 0
    }

    /// Whether every bit of `other` is in `self`.
    pub open spec fn spec_contains(&self, other: Self) -> bool {
        self@ & other@ == other@
    }

    /// Whether `self` and `other` have a bit in common.
    pub open spec fn spec_intersects(&self, other: Self) -> bool {
        self@ & other@ != 0
    }

    /// The views of the empty set and of the results of the four binary operations.
    pub proof fn lemma_views(a: Self, b: Self)
        ensures
            Self::spec_empty()@ == 0,
            a.spec_union(b)@ == a@ | b@,
            a.spec_intersection(b)@ == a@ & b@,
            a.spec_difference(b)@ == a@ & !b@,
            a.spec_symmetric_difference(b)@ == a@ ^ b@,
    {
        Self::lemma_view_fits(a);
        Self::lemma_view_fits(b);
        lemma_stays_in_width(a@, b@, B::full());
        assert(0u128 & !B::full() == 0) by (bit_vector);
        Self::lemma_view_of(0);
        Self::lemma_view_of(a@ | b@);
        Self::lemma_view_of(a@ & b@);
        Self::lemma_view_of(a@ & !b@);
        Self::lemma_view_of(a@ ^ b@);
    }

    /// The set with no flag in it.
    #[verifier::when_used_as_spec(spec_empty)]
    pub fn empty() -> (r: Self)
        ensures
            r == Self::spec_empty(),
            r@ == 0,
    {
        assert(0u128 & !B::full() == 0) by (bit_vector);
        let r = FlagSet { bits: B::narrow(0) };
        proof {
            Self::lemma_of_view(r);
        }
        r
    }

    /// The set whose integer is exactly `raw`, whether or not any declaration knows its bits.
    ///
    /// Nothing is checked and nothing is dropped. Every operation of this crate is defined on
    /// the result, whatever bits it holds.
    pub fn from_bits_unchecked(raw: B) -> (r: Self)
        ensures
            r.spec_bits() == raw,
    {
        FlagSet { bits: raw }
    }

    /// The integer that holds the set.
    #[verifier::when_used_as_spec(spec_bits)]
    pub fn bits(&self) -> (r: B)
        ensures
            r == self.spec_bits(),
    {
        self.bits
    }

    /// Whether no flag is in the set.
    #[verifier::when_used_as_spec(spec_is_empty)]
    pub fn is_empty(&self) -> (r: bool)
        ensures
            r == (self@ == 0),
    {
        self.bits.widen() == 0
    }

    /// Whether every bit of `other` is in `self`. A set with no bits is contained in every set.
    #[verifier::when_used_as_spec(spec_contains)]
    pub fn contains(&self, other: Self) -> (r: bool)
        ensures
            r == (self@ & other@ == other@),
    {
        let theirs: u128 = other.bits.widen();
        self.bits.widen() & theirs == theirs
    }

    /// Whether `self` and `other` have a bit in common.
    #[verifier::when_used_as_spec(spec_intersects)]
    pub fn intersects(&self, other: Self) -> (r: bool)
        ensures
            r == (self@ & other@ != 0),
    {
        self.bits.widen() & other.bits.widen() != 0
    }

    /// The flags that are in `self`, in `other`, or in both.
    #[verifier::when_used_as_spec(spec_union)]
    pub fn union(self, other: Self) -> (r: Self)
        ensures
            r == self.spec_union(other),
            r@ == self@ | other@,
    {
        proof {
            Self::lemma_view_fits(self);
            Self::lemma_view_fits(other);
            lemma_stays_in_width(self@, other@, B::full());
        }
        let r = FlagSet { bits: B::narrow(self.bits.widen() | other.bits.widen()) };
        proof {
            Self::lemma_of_view(r);
        }
        r
    }

    /// The flags that are in both `self` and `other`.
    #[verifier::when_used_as_spec(spec_intersection)]
    pub fn intersection(self, other: Self) -> (r: Self)
        ensures
            r == self.spec_intersection(other),
            r@ == self@ & other@,
    {
        proof {
            Self::lemma_view_fits(self);
            Self::lemma_view_fits(other);
            lemma_stays_in_width(self@, other@, B::full());
        }
        let r = FlagSet { bits: B::narrow(self.bits.widen() & other.bits.widen()) };
        proof {
            Self::lemma_of_view(r);
        }
        r
    }

    /// The flags of `self` that are not in `other`.
    #[verifier::when_used_as_spec(spec_difference)]
    pub fn difference(self, other: Self) -> (r: Self)
        ensures
            r == self.spec_difference(other),
            r@ == self@ & !other@,
    {
        proof {
            Self::lemma_view_fits(self);
            Self::lemma_view_fits(other);
            lemma_stays_in_width(self@, other@, B::full());
        }
        let r = FlagSet { bits: B::narrow(self.bits.widen() & !other.bits.widen()) };
        proof {
            Self::lemma_of_view(r);
        }
        r
    }

    /// The flags that are in exactly one of `self` and `other`.
    #[verifier::when_used_as_spec(spec_symmetric_difference)]
    pub fn symmetric_difference(self, other: Self) -> (r: Self)
        ensures
            r == self.spec_symmetric_difference(other),
            r@ == self@ ^ other@,
    {
        proof {
            Self::lemma_view_fits(self);
            Self::lemma_view_fits(other);
            lemma_stays_in_width(self@, other@, B::full());
        }
        let r = FlagSet { bits: B::narrow(self.bits.widen() ^ other.bits.widen()) };
        proof {
            Self::lemma_of_view(r);
        }
        r
    }

    /// Adds the flags of `mask` to `self`.
    pub fn insert(&mut self, mask: Self)
        ensures
            *final(self) == old(self).union(mask),
            final(self)@ == old(self)@ | mask@,
    {
        *self = self.union(mask);
    }

    /// Takes the flags of `mask` out of `self`.
    pub fn remove(&mut self, mask: Self)
        ensures
            *final(self) == old(self).difference(mask),
            final(self)@ == old(self)@ & !mask@,
    {
        *self = self.difference(mask);
    }

    /// Flips each bit of `mask` in `self`: one that is set is cleared, one that is clear is set.
    pub fn toggle(&mut self, mask: Self)
        ensures
            *final(self) == old(self).symmetric_difference(mask),
            final(self)@ == old(self)@ ^ mask@,
    {
        *self = self.symmetric_difference(mask);
    }

    /// Inserts the flags of `mask` if `on` is true, and removes them if it is false.
    pub fn set(&mut self, mask: Self, on: bool)
        ensures
            *final(self) == if on {
                old(self).union(mask)
            } else {
                old(self).difference(mask)
            },
            final(self)@ == if on {
                old(self)@ | mask@
            } else {
                old(self)@ & !mask@
            },
    {
        if on {
            self.insert(mask);
        } else {
            self.remove(mask);
        }
    }

    /// Adds the flags of every set in `sets` to `self`.
    pub fn extend(&mut self, sets: &[Self])
        ensures
            final(self)@ == old(self)@ | union_of(sets@),
    {
        let mut i: usize = 0;
        let ghost start = self@;
        assert(sets@.take(0) =~= Seq::<Self>::empty());
        assert(start | 0 == start) by (bit_vector);
        while i < sets.len()
            invariant
                i <= sets.len(),
                start == old(self)@,
                self@ == start | union_of(sets@.take(i as int)),
            decreases sets.len() - i,
        {
            let ghost before = union_of(sets@.take(i as int));
            let ghost next = sets[i as int]@;
            assert(sets@.take(i + 1).drop_last() =~= sets@.take(i as int));
            assert(union_of(sets@.take(i + 1)) == before | next);
            assert((start | before) | next == start | (before | next)) by (bit_vector);
            self.insert(sets[i]);
            i += 1;
        }
        assert(sets@.take(sets.len() as int) =~= sets@);
    }

    /// The union of every set in `sets`, which is the empty set when there is none.
    pub fn collect(sets: &[Self]) -> (r: Self)
        ensures
            r@ == union_of(sets@),
    {
        let mut all = Self::empty();
        all.extend(sets);
        let ghost joined = union_of(sets@);
        assert(0u128 | joined == joined) by (bit_vector);
        all
    }
}

} // verus!
