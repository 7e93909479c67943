//! Laws of the set algebra of flag sets.

use crate::bits::Bits;
use crate::declaration::mask_of;
use crate::declaration::Declaration;
use crate::flags::lemma_stays_in_width;
use crate::flags::FlagSet;
use vstd::prelude::*;

verus! {

/// The intersection of a union with itself is that union.
pub proof fn lemma_intersection_of_union_with_itself<B: Bits>(a: FlagSet<B>, b: FlagSet<B>)
    ensures
        a.union(b).intersection(a.union(b)) == a.union(b),
{
    FlagSet::lemma_views(a, b);
    let u = a.union(b);
    let v = u@;
    assert(v & v == v) by (bit_vector);
    FlagSet::lemma_of_view(u);
}

/// Union and intersection do not depend on the order of their operands.
pub proof fn lemma_commutative<B: Bits>(a: FlagSet<B>, b: FlagSet<B>)
    ensures
        a.union(b) == b.union(a),
        a.intersection(b) == b.intersection(a),
{
    let x = a@;
    let y = b@;
    assert(x | y == y | x && x & y == y & x) by (bit_vector);
}

/// A union of three sets does not depend on which two are joined first.
pub proof fn lemma_union_associative<B: Bits>(a: FlagSet<B>, b: FlagSet<B>, c: FlagSet<B>)
    ensures
        a.union(b.union(c)) == a.union(b).union(c),
{
    FlagSet::lemma_views(a, b);
    FlagSet::lemma_views(b, c);
    let x = a@;
    let y = b@;
    let z = c@;
    assert(x | (y | z) == (x | y) | z) by (bit_vector);
}

/// The difference of a set and itself, and their symmetric difference, are the empty set.
pub proof fn lemma_self_difference_is_empty<B: Bits>(a: FlagSet<B>)
    ensures
        a.difference(a) == FlagSet::<B>::empty(),
        a.symmetric_difference(a) == FlagSet::<B>::empty(),
{
    let x = a@;
    assert(x & !x == 0 && x ^ x == 0) by (bit_vector);
}

/// The complement of the complement of a set is the set without the bits that the
/// declaration does not know; so it is the set itself when all its bits are declared.
pub proof fn lemma_double_complement<B: Bits>(a: FlagSet<B>, decl: &Declaration<B>)
    ensures
        a.complement(decl).complement(decl) == a.intersection(decl.all()),
        a@ & !mask_of(decl@) == 0 ==> a.complement(decl).complement(decl) == a,
{
    let x = a@;
    let m = mask_of(decl@);
    FlagSet::lemma_view_fits(a);
    decl.lemma_mask_fits();
    lemma_stays_in_width(x, m, B::full());
    FlagSet::<B>::lemma_view_of(!x & m);
    FlagSet::<B>::lemma_view_of(m);
    assert(!(!x & m) & m == x & m) by (bit_vector);
    if x & !m == 0 {
        assert(x & m == x) by (bit_vector)
            requires
                x & !m == 0,
        ;
        FlagSet::lemma_of_view(a);
    }
}

/// Where every bit of an integer is declared, the truncating conversion keeps the integer
/// as it is.
pub proof fn lemma_truncate_keeps_declared_bits<B: Bits>(decl: &Declaration<B>, raw: B)
    requires
        raw.raw() & !mask_of(decl@) == 0,
    ensures
        decl.from_bits_truncate(raw).bits() == raw,
{
    let x = raw.raw();
    let m = mask_of(decl@);
    assert(x & m == x) by (bit_vector)
        requires
            x & !m == 0,
    ;
    B::lemma_raw_fits(raw);
    FlagSet::<B>::lemma_view_of(x);
    B::lemma_raw_injective(decl.from_bits_truncate(raw).bits(), raw);
}

/// A flag without bits is contained in every set, the empty set included, and the empty
/// set is empty all the same.
pub proof fn lemma_zero_flag_is_always_contained<B: Bits>(v: FlagSet<B>, none: FlagSet<B>)
    requires
        none.is_empty(),
    ensures
        v.contains(none),
        FlagSet::<B>::empty().contains(none),
        FlagSet::<B>::empty().is_empty(),
{
    FlagSet::lemma_views(v, none);
    let x = v@;
    assert(x & 0 == 0 && 0u128 & 0 == 0) by (bit_vector);
}

} // verus!
