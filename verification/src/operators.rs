//! The operators `|`, `&`, `^` and `-` on flag sets, and their assigning forms.

use crate::bits::Bits;
use crate::flags::FlagSet;
use vstd::prelude::*;

verus! {

impl<B: Bits> core::ops::BitOr for FlagSet<B> {
    type Output = FlagSet<B>;

    /// `a | b` is the union of `a` and `b`.
    fn bitor(self, rhs: Self) -> (r: Self)
        ensures
            r@ == self@ | rhs@,
    {
        self.union(rhs)
    }
}

impl<B: Bits> vstd::std_specs::ops::BitOrSpecImpl for FlagSet<B> {
    open spec fn obeys_bitor_spec() -> bool {
        true
    }

    open spec fn bitor_req(self, rhs: Self) -> bool {
        true
    }

    open spec fn bitor_spec(self, rhs: Self) -> Self {
        self.union(rhs)
    }
}

impl<B: Bits> core::ops::BitAnd for FlagSet<B> {
    type Output = FlagSet<B>;

    /// `a & b` is the intersection of `a` and `b`.
    fn bitand(self, rhs: Self) -> (r: Self)
        ensures
            r@ == self@ & rhs@,
    {
        self.intersection(rhs)
    }
}

impl<B: Bits> vstd::std_specs::ops::BitAndSpecImpl for FlagSet<B> {
    open spec fn obeys_bitand_spec() -> bool {
        true
    }

    open spec fn bitand_req(self, rhs: Self) -> bool {
        true
    }

    open spec fn bitand_spec(self, rhs: Self) -> Self {
        self.intersection(rhs)
    }
}

impl<B: Bits> core::ops::BitXor for FlagSet<B> {
    type Output = FlagSet<B>;

    /// `a ^ b` is the symmetric difference of `a` and `b`.
    fn bitxor(self, rhs: Self) -> (r: Self)
        ensures
            r@ == self@ ^ rhs@,
    {
        self.symmetric_difference(rhs)
    }
}

impl<B: Bits> vstd::std_specs::ops::BitXorSpecImpl for FlagSet<B> {
    open spec fn obeys_bitxor_spec() -> bool {
        true
    }

    open spec fn bitxor_req(self, rhs: Self) -> bool {
        true
    }

    open spec fn bitxor_spec(self, rhs: Self) -> Self {
        self.symmetric_difference(rhs)
    }
}

impl<B: Bits> core::ops::Sub for FlagSet<B> {
    type Output = FlagSet<B>;

    /// `a - b` is the difference of `a` and `b`.
    fn sub(self, rhs: Self) -> (r: Self)
        ensures
            r@ == self@ & !rhs@,
    {
        self.difference(rhs)
    }
}

impl<B: Bits> vstd::std_specs::ops::SubSpecImpl for FlagSet<B> {
    open spec fn obeys_sub_spec() -> bool {
        true
    }

    open spec fn sub_req(self, rhs: Self) -> bool {
        true
    }

    open spec fn sub_spec(self, rhs: Self) -> Self {
        self.difference(rhs)
    }
}

impl<B: Bits> core::ops::BitOrAssign for FlagSet<B> {
    /// `a |= b` inserts `b` into `a`.
    fn bitor_assign(&mut self, rhs: Self)
        ensures
            *final(self) == old(self).union(rhs),
            final(self)@ == old(self)@ | rhs@,
    {
        self.insert(rhs);
    }
}

impl<B: Bits> core::ops::BitAndAssign for FlagSet<B> {
    /// `a &= b` keeps in `a` only what is also in `b`.
    fn bitand_assign(&mut self, rhs: Self)
        ensures
            *final(self) == old(self).intersection(rhs),
            final(self)@ == old(self)@ & rhs@,
    {
        *self = self.intersection(rhs);
    }
}

impl<B: Bits> core::ops::BitXorAssign for FlagSet<B> {
    /// `a ^= b` toggles `b` in `a`.
    fn bitxor_assign(&mut self, rhs: Self)
        ensures
            *final(self) == old(self).symmetric_difference(rhs),
            final(self)@ == old(self)@ ^ rhs@,
    {
        self.toggle(rhs);
    }
}

impl<B: Bits> core::ops::SubAssign for FlagSet<B> {
    /// `a -= b` removes `b` from `a`.
    fn sub_assign(&mut self, rhs: Self)
        ensures
            *final(self) == old(self).difference(rhs),
            final(self)@ == old(self)@ & !rhs@,
    {
        self.remove(rhs);
    }
}

} // verus!
