//! Equality and order of flag sets: those of the integers that hold them.

use crate::bits::Bits;
use crate::flags::FlagSet;
use core::cmp::Ordering;
use vstd::prelude::*;

verus! {

impl<B: Bits> PartialEq for FlagSet<B> {
    /// Two flag sets are equal exactly when their integers are.
    fn eq(&self, other: &Self) -> (r: bool) {
        self.bits().widen() == other.bits().widen()
    }
}

impl<B: Bits> vstd::std_specs::cmp::PartialEqSpecImpl for FlagSet<B> {
    open spec fn obeys_eq_spec() -> bool {
        true
    }

    open spec fn eq_spec(&self, other: &Self) -> bool {
        self@ == other@
    }
}

impl<B: Bits> Eq for FlagSet<B> {

}

impl<B: Bits> PartialOrd for FlagSet<B> {
    /// Flag sets are ordered as their integers are.
    fn partial_cmp(&self, other: &Self) -> (r: Option<Ordering>) {
        let mine: u128 = self.bits().widen();
        let theirs: u128 = other.bits().widen();
        if mine < theirs {
            Some(Ordering::Less)
        } else if mine == theirs {
            Some(Ordering::Equal)
        } else {
            Some(Ordering::Greater)
        }
    }
}

impl<B: Bits> vstd::std_specs::cmp::PartialOrdSpecImpl for FlagSet<B> {
    open spec fn obeys_partial_cmp_spec() -> bool {
        true
    }

    open spec fn partial_cmp_spec(&self, other: &Self) -> Option<Ordering> {
        if self@ < other@ {
            Some(Ordering::Less)
        } else if self@ == other@ {
            Some(Ordering::Equal)
        } else {
            Some(Ordering::Greater)
        }
    }
}

} // verus!
