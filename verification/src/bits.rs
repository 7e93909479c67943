//! The unsigned integers a flag set can be stored in.

use vstd::prelude::*;

verus! {

/// An unsigned integer type that can hold the bits of a flag set.
///
/// Every value is modelled by its numeric value as a `u128`. All bitwise work in this
/// crate is done on that model and brought back into the type with [`Bits::narrow`].
pub trait Bits: Copy + Sized {
    /// The numeric value of `self`.
    spec fn raw(self) -> u128;

    /// The value that has every bit of the type set.
    spec fn full() -> u128;

    /// No value has a bit outside the type's width.
    proof fn lemma_raw_fits(x: Self)
        ensures
            x.raw() & !Self::full() == 0,
    ;

    /// Two values with the same numeric value are the same value.
    proof fn lemma_raw_injective(x: Self, y: Self)
        requires
            x.raw() == y.raw(),
        ensures
            x == y,
    ;

    /// Every number that fits the type's width is the numeric value of some value.
    proof fn lemma_raw_onto(v: u128)
        requires
            v & !Self::full() == 0,
        ensures
            exists|x: Self| x.raw() == v,
    ;

    /// Widens `self` to 128 bits without changing its value.
    fn widen(self) -> (r: u128)
        ensures
            r == self.raw(),
    ;

    /// Brings a value that fits the type's width back into the type.
    fn narrow(v: u128) -> (r: Self)
        requires
            v & !Self::full() == 0,
        ensures
            r.raw() == v,
    ;
}

impl Bits for u8 {
    open spec fn raw(self) -> u128 {
        self as u128
    }

    open spec fn full() -> u128 {
        0xff
    }

    proof fn lemma_raw_fits(x: Self) {
        assert((x as u128) & !0xffu128 == 0) by (bit_vector);
    }

    proof fn lemma_raw_injective(x: Self, y: Self) {
    }

    fn widen(self) -> (r: u128) {
        self as u128
    }

    proof fn lemma_raw_onto(v: u128) {
        assert(v <= 0xff) by (bit_vector)
            requires
                v & !0xffu128 == 0,
        ;
        assert((v as u8).raw() == v);
    }

    fn narrow(v: u128) -> (r: Self) {
        assert(v <= 0xff) by (bit_vector)
            requires
                v & !0xffu128 == 0,
        ;
        v as u8
    }
}

impl Bits for u16 {
    open spec fn raw(self) -> u128 {
        self as u128
    }

    open spec fn full() -> u128 {
        0xffff
    }

    proof fn lemma_raw_fits(x: Self) {
        assert((x as u128) & !0xffffu128 == 0) by (bit_vector);
    }

    proof fn lemma_raw_injective(x: Self, y: Self) {
    }

    fn widen(self) -> (r: u128) {
        self as u128
    }

    proof fn lemma_raw_onto(v: u128) {
        assert(v <= 0xffff) by (bit_vector)
            requires
                v & !0xffffu128 == 0,
        ;
        assert((v as u16).raw() == v);
    }

    fn narrow(v: u128) -> (r: Self) {
        assert(v <= 0xffff) by (bit_vector)
            requires
                v & !0xffffu128 == 0,
        ;
        v as u16
    }
}

impl Bits for u32 {
    open spec fn raw(self) -> u128 {
        self as u128
    }

    open spec fn full() -> u128 {
        0xffff_ffff
    }

    proof fn lemma_raw_fits(x: Self) {
        assert((x as u128) & !0xffff_ffffu128 == 0) by (bit_vector);
    }

    proof fn lemma_raw_injective(x: Self, y: Self) {
    }

    fn widen(self) -> (r: u128) {
        self as u128
    }

    proof fn lemma_raw_onto(v: u128) {
        assert(v <= 0xffff_ffff) by (bit_vector)
            requires
                v & !0xffff_ffffu128 == 0,
        ;
        assert((v as u32).raw() == v);
    }

    fn narrow(v: u128) -> (r: Self) {
        assert(v <= 0xffff_ffff) by (bit_vector)
            requires
                v & !0xffff_ffffu128 == 0,
        ;
        v as u32
    }
}

impl Bits for u64 {
    open spec fn raw(self) -> u128 {
        self as u128
    }

    open spec fn full() -> u128 {
        0xffff_ffff_ffff_ffff
    }

    proof fn lemma_raw_fits(x: Self) {
        assert((x as u128) & !0xffff_ffff_ffff_ffffu128 == 0) by (bit_vector);
    }

    proof fn lemma_raw_injective(x: Self, y: Self) {
    }

    fn widen(self) -> (r: u128) {
        self as u128
    }

    proof fn lemma_raw_onto(v: u128) {
        assert(v <= 0xffff_ffff_ffff_ffff) by (bit_vector)
            requires
                v & !0xffff_ffff_ffff_ffffu128 == 0,
        ;
        assert((v as u64).raw() == v);
    }

    fn narrow(v: u128) -> (r: Self) {
        assert(v <= 0xffff_ffff_ffff_ffff) by (bit_vector)
            requires
                v & !0xffff_ffff_ffff_ffffu128 == 0,
        ;
        v as u64
    }
}

impl Bits for u128 {
    open spec fn raw(self) -> u128 {
        self
    }

    open spec fn full() -> u128 {
        0xffff_ffff_ffff_ffff_ffff_ffff_ffff_ffff
    }

    proof fn lemma_raw_fits(x: Self) {
        assert(x & !0xffff_ffff_ffff_ffff_ffff_ffff_ffff_ffffu128 == 0) by (bit_vector);
    }

    proof fn lemma_raw_injective(x: Self, y: Self) {
    }

    fn widen(self) -> (r: u128) {
        self
    }

    proof fn lemma_raw_onto(v: u128) {
        assert(v.raw() == v);
    }

    fn narrow(v: u128) -> (r: Self) {
        v
    }
}

impl Bits for usize {
    open spec fn raw(self) -> u128 {
        self as u128
    }

    open spec fn full() -> u128 {
        (!0usize) as u128
    }

    proof fn lemma_raw_fits(x: Self) {
        assert((x as u128) & !((!0usize) as u128) == 0) by (bit_vector);
    }

    proof fn lemma_raw_injective(x: Self, y: Self) {
    }

    proof fn lemma_raw_onto(v: u128) {
        assert((v as usize) as u128 == v) by (bit_vector)
            requires
                v & !((!0usize) as u128) == 0,
        ;
        assert((v as usize).raw() == v);
    }

    fn widen(self) -> (r: u128) {
        self as u128
    }

    fn narrow(v: u128) -> (r: Self) {
        assert((v as usize) as u128 == v) by (bit_vector)
            requires
                v & !((!0usize) as u128) == 0,
        ;
        #[verifier::truncate]
        (v as usize)
    }
}

} // verus!
