//! Declarations: the named bit patterns that a family of flag sets is made of.

use crate::bits::Bits;
use crate::flags::lemma_stays_in_width;
use crate::flags::FlagSet;
use crate::text::digits;
use crate::text::push_digits;
use vstd::prelude::*;
use vstd::string::StringExecFns;

verus! {

/// The union of all the bit patterns in `entries`: the bits that the declaration knows.
pub open spec fn mask_of(entries: Seq<(Seq<char>, u128)>) -> u128 {
    entries.fold_left(0u128, |acc: u128, e: (Seq<char>, u128)| acc | e.1)
}

/// Whether `entries` has a flag named `name`.
pub open spec fn declares(entries: Seq<(Seq<char>, u128)>, name: Seq<char>) -> bool {
    exists|i: int| 0 <= i < entries.len() && (#[trigger] entries[i]).0 == name
}

/// Whether no two flags in `entries` share a name.
pub open spec fn distinct_names(entries: Seq<(Seq<char>, u128)>) -> bool {
    forall|i: int, j: int|
        0 <= i < j < entries.len() ==> (#[trigger] entries[i]).0 != (#[trigger] entries[j]).0
}

/// The names that are written for a set with bits `bits`: those of the declared flags that
/// have at least one bit and whose bits are all in `bits`, in the order of declaration.
pub open spec fn shown_names(entries: Seq<(Seq<char>, u128)>, bits: u128) -> Seq<Seq<char>> {
    entries.filter_map(
        |e: (Seq<char>, u128)|
            if e.1 != 0 && bits & e.1 == e.1 {
                Some(e.0)
            } else {
                None
            },
    )
}

/// The parts that are written for a set with bits `bits`: the shown names, and then, if
/// `bits` has bits that no declared flag has, those bits as `0x` and their hexadecimal digits.
pub open spec fn shown_parts(entries: Seq<(Seq<char>, u128)>, bits: u128) -> Seq<Seq<char>> {
    let unknown = bits & !mask_of(entries);
    if unknown != 0 {
        shown_names(entries, bits).push("0x"@ + digits(unknown as nat, 16, false))
    } else {
        shown_names(entries, bits)
    }
}

/// The parts joined, with `" | "` between each two.
pub open spec fn joined(parts: Seq<Seq<char>>) -> Seq<char>
    decreases parts.len(),
{
    if parts.len() == 0 {
        Seq::empty()
    } else if parts.len() == 1 {
        parts[0]
    } else {
        joined(parts.drop_last()) + " | "@ + parts.last()
    }
}

/// The text of a set with bits `bits` under the declaration `entries`: its parts joined, or
/// `(empty)` when there is no part.
pub open spec fn rendered(entries: Seq<(Seq<char>, u128)>, bits: u128) -> Seq<char> {
    if shown_parts(entries, bits).len() == 0 {
        "(empty)"@
    } else {
        joined(shown_parts(entries, bits))
    }
}

/// Declaring one more flag adds its bits to the mask.
pub proof fn lemma_mask_of_push(entries: Seq<(Seq<char>, u128)>, e: (Seq<char>, u128))
    ensures
        mask_of(entries.push(e)) == mask_of(entries) | e.1,
{
    assert(entries.push(e).drop_last() =~= entries);
}

/// The mask of flags that all fit a width fits that width.
proof fn lemma_mask_of_stays_in_width(entries: Seq<(Seq<char>, u128)>, full: u128)
    requires
        forall|i: int| 0 <= i < entries.len() ==> (#[trigger] entries[i]).1 & !full == 0,
    ensures
        mask_of(entries) & !full == 0,
    decreases entries.len(),
{
    if entries.len() == 0 {
        assert(0u128 & !full == 0) by (bit_vector);
    } else {
        lemma_mask_of_stays_in_width(entries.drop_last(), full);
        lemma_stays_in_width(mask_of(entries.drop_last()), entries.last().1, full);
    }
}

/// The failure of a checked conversion: the integer had bits that no declared flag has.
#[derive(Debug, PartialEq, Eq)]
pub struct UnrecognizedBits<B: Bits> {
    /// The integer that was to be converted.
    pub raw: B,
    /// The bits of `raw` that no declared flag has.
    pub unrecognized: B,
}

impl<B: Bits> Clone for UnrecognizedBits<B> {
    fn clone(&self) -> (r: Self)
        ensures
            r == *self,
    {
        *self
    }
}

impl<B: Bits> Copy for UnrecognizedBits<B> {

}

/// A declaration: a name for the family, and its flags in the order they were declared.
///
/// The view is the sequence of flags, each a name and the numeric value of its bit pattern.
/// A pattern may have several bits, or none. No two flags share a name.
pub struct Declaration<B: Bits> {
    name: String,
    names: Vec<String>,
    values: Vec<B>,
    all: B,
}

impl<B: Bits> View for Declaration<B> {
    type V = Seq<(Seq<char>, u128)>;

    closed spec fn view(&self) -> Seq<(Seq<char>, u128)> {
        Seq::new(self.names.len() as nat, |i: int| (self.names[i]@, self.values[i].raw()))
    }
}

impl<B: Bits> Declaration<B> {
    #[verifier::type_invariant]
    spec fn inv(&self) -> bool {
        &&& self.names.len() == self.values.len()
        &&& self.all.raw() == mask_of(self@)
        &&& distinct_names(self@)
    }

    /// The bits that a declaration knows fit the width of `B`.
    pub proof fn lemma_mask_fits(&self)
        ensures
            mask_of(self@) & !B::full() == 0,
    {
        assert forall|i: int| 0 <= i < self@.len() implies (#[trigger] self@[i]).1 & !B::full()
            == 0 by {
            B::lemma_raw_fits(self.values[i]);
        }
        lemma_mask_of_stays_in_width(self@, B::full());
    }

    /// The name of the family of flag sets.
    pub closed spec fn spec_name(&self) -> Seq<char> {
        self.name@
    }

    /// A declaration with the given name and no flags yet.
    pub fn new(name: &str) -> (r: Self)
        ensures
            r.spec_name() == name@,
            r@ == Seq::<(Seq<char>, u128)>::empty(),
    {
        assert(0u128 & !B::full() == 0) by (bit_vector);
        let r = Declaration {
            name: name.to_owned(),
            names: Vec::new(),
            values: Vec::new(),
            all: B::narrow(0),
        };
        assert(r@ =~= Seq::<(Seq<char>, u128)>::empty());
        r
    }

    /// The name of the family of flag sets.
    pub fn name(&self) -> (r: &str)
        ensures
            r@ == self.spec_name(),
    {
        self.name.as_str()
    }

    /// The number of declared flags.
    pub fn len(&self) -> (r: usize)
        ensures
            r == self@.len(),
    {
        self.names.len()
    }

    /// The place of the flag named `name`, if there is one.
    fn position(&self, name: &String) -> (r: Option<usize>)
        ensures
            match r {
                Some(i) => i < self@.len() && self@[i as int].0 == name@,
                None => !declares(self@, name@),
            },
    {
        let mut i: usize = 0;
        while i < self.names.len()
            invariant
                i <= self.names.len(),
                forall|j: int| 0 <= j < i ==> (#[trigger] self@[j]).0 != name@,
            decreases self.names.len() - i,
        {
            if self.names[i] == *name {
                return Some(i);
            }
            i += 1;
        }
        None
    }

    /// The declaration with one more flag, `name`, whose bit pattern is `value`.
    ///
    /// A name that is already declared keeps its first pattern: the declaration is returned
    /// as it was.
    pub fn with(self, name: &str, value: B) -> (r: Self)
        ensures
            r.spec_name() == self.spec_name(),
            r@ == if declares(self@, name@) {
                self@
            } else {
                self@.push((name@, value.raw()))
            },
            distinct_names(r@),
    {
        proof {
            use_type_invariant(&self);
        }
        let owned = name.to_owned();
        match self.position(&owned) {
            Some(_) => self,
            None => {
                let ghost before = self@;
                let Declaration { name: family, mut names, mut values, all } = self;
                proof {
                    B::lemma_raw_fits(all);
                    B::lemma_raw_fits(value);
                    lemma_stays_in_width(all.raw(), value.raw(), B::full());
                    lemma_mask_of_push(before, (name@, value.raw()));
                }
                names.push(owned);
                values.push(value);
                let all = B::narrow(all.widen() | value.widen());
                proof {
                    let grown = Declaration { name: family, names, values, all };
                    assert(grown@ =~= before.push((name@, value.raw())));
                }
                Declaration { name: family, names, values, all }
            },
        }
    }

    /// The flag set of the flag named `name`, or `None` if no flag has that name.
    pub fn flag(&self, name: &str) -> (r: Option<FlagSet<B>>)
        ensures
            distinct_names(self@),
            match r {
                Some(f) => exists|i: int|
                    0 <= i < self@.len() && #[trigger] self@[i] == (name@, f@),
                None => !declares(self@, name@),
            },
    {
        proof {
            use_type_invariant(self);
        }
        let owned = name.to_owned();
        match self.position(&owned) {
            Some(i) => {
                let f = FlagSet::from_bits_unchecked(self.values[i]);
                assert(self@[i as int] == (name@, f@));
                Some(f)
            },
            None => None,
        }
    }

    /// The set of every declared flag.
    pub open spec fn spec_all(&self) -> FlagSet<B> {
        FlagSet::of(mask_of(self@))
    }

    /// The set whose integer is `raw` without the bits that no declared flag has.
    pub open spec fn spec_from_bits_truncate(&self, raw: B) -> FlagSet<B> {
        FlagSet::of(raw.raw() & mask_of(self@))
    }

    /// The set of every declared flag.
    #[verifier::when_used_as_spec(spec_all)]
    pub fn all(&self) -> (r: FlagSet<B>)
        ensures
            r == self.spec_all(),
            r@ == mask_of(self@),
    {
        proof {
            use_type_invariant(self);
        }
        let r = FlagSet::from_bits_unchecked(self.all);
        proof {
            FlagSet::lemma_of_view(r);
        }
        r
    }

    /// The set whose integer is `raw`, if every bit of `raw` belongs to a declared flag.
    pub fn from_bits(&self, raw: B) -> (r: Result<FlagSet<B>, UnrecognizedBits<B>>)
        ensures
            match r {
                Ok(f) => raw.raw() & !mask_of(self@) == 0 && f.spec_bits() == raw,
                Err(e) => {
                    &&& raw.raw() & !mask_of(self@) != 0
                    &&& e.raw == raw
                    &&& e.unrecognized.raw() == raw.raw() & !mask_of(self@)
                },
            },
    {
        proof {
            use_type_invariant(self);
            B::lemma_raw_fits(raw);
            B::lemma_raw_fits(self.all);
            lemma_stays_in_width(raw.raw(), self.all.raw(), B::full());
        }
        let unknown: u128 = raw.widen() & !self.all.widen();
        if unknown == 0 {
            Ok(FlagSet::from_bits_unchecked(raw))
        } else {
            Err(UnrecognizedBits { raw, unrecognized: B::narrow(unknown) })
        }
    }

    /// The set whose integer is `raw` without the bits that no declared flag has.
    #[verifier::when_used_as_spec(spec_from_bits_truncate)]
    pub fn from_bits_truncate(&self, raw: B) -> (r: FlagSet<B>)
        ensures
            r == self.spec_from_bits_truncate(raw),
            r@ == raw.raw() & mask_of(self@),
    {
        proof {
            use_type_invariant(self);
            B::lemma_raw_fits(raw);
            B::lemma_raw_fits(self.all);
            lemma_stays_in_width(raw.raw(), self.all.raw(), B::full());
        }
        let r = FlagSet::from_bits_unchecked(B::narrow(raw.widen() & self.all.widen()));
        proof {
            FlagSet::lemma_of_view(r);
        }
        r
    }

    /// The text of `set`: the names of the declared flags, other than those without bits,
    /// whose bits are all in `set`, in the order of declaration and with `" | "` between
    /// them; then the bits of `set` that no declared flag has, as `0x` and their hexadecimal
    /// digits; or `(empty)` if there is neither.
    pub fn render(&self, set: FlagSet<B>) -> (r: String)
        ensures
            r@ == rendered(self@, set@),
    {
        proof {
            use_type_invariant(self);
        }
        let bits: u128 = set.bits().widen();
        let mut out = String::new();
        let mut first = true;
        let mut i: usize = 0;
        assert(self@.take(0) =~= Seq::<(Seq<char>, u128)>::empty());
        while i < self.names.len()
            invariant
                i <= self.names.len(),
                self.names.len() == self.values.len(),
                bits == set@,
                first == (shown_names(self@.take(i as int), bits).len() == 0),
                out@ == joined(shown_names(self@.take(i as int), bits)),
            decreases self.names.len() - i,
        {
            let ghost names_before = shown_names(self@.take(i as int), bits);
            let value: u128 = self.values[i].widen();
            proof {
                self@.lemma_filter_map_take_succ(
                    |e: (Seq<char>, u128)|
                        if e.1 != 0 && bits & e.1 == e.1 {
                            Some(e.0)
                        } else {
                            None
                        },
                    i as int,
                );
            }
            if value != 0 && bits & value == value {
                if !first {
                    out.append(" | ");
                }
                out.append(self.names[i].as_str());
                first = false;
                proof {
                    let names_after = shown_names(self@.take(i + 1), bits);
                    assert(names_after =~= names_before.push(self.names[i as int]@));
                    assert(names_after.drop_last() =~= names_before);
                }
            }
            i += 1;
        }
        assert(self@.take(self.names.len() as int) =~= self@);
        let ghost named = shown_names(self@, bits);
        let unknown: u128 = bits & !self.all.widen();
        if unknown != 0 {
            if !first {
                out.append(" | ");
            }
            out.append("0x");
            push_digits(&mut out, unknown, 16, false);
            first = false;
            proof {
                let part = "0x"@ + digits(unknown as nat, 16, false);
                assert(shown_parts(self@, bits) == named.push(part));
                assert(named.push(part).drop_last() =~= named);
                assert(out@ =~= joined(named.push(part)));
            }
        }
        if first {
            out.append("(empty)");
        }
        out
    }
}

impl<B: Bits> FlagSet<B> {
    /// The declared flags that are not in `self`.
    pub open spec fn spec_complement(self, decl: &Declaration<B>) -> Self {
        Self::of(!self@ & mask_of(decl@))
    }

    /// Whether `self` is exactly the set of every flag that `decl` declares.
    pub open spec fn spec_is_all(&self, decl: &Declaration<B>) -> bool {
        self@ == mask_of(decl@)
    }

    /// The declared flags that are not in `self`. Bits that `decl` does not know are never in
    /// the result.
    #[verifier::when_used_as_spec(spec_complement)]
    pub fn complement(self, decl: &Declaration<B>) -> (r: Self)
        ensures
            r == self.spec_complement(decl),
            r@ == !self@ & mask_of(decl@),
    {
        let all = decl.all();
        proof {
            Self::lemma_view_fits(self);
            Self::lemma_view_fits(all);
            lemma_stays_in_width(self@, all@, B::full());
        }
        let r = FlagSet::from_bits_unchecked(B::narrow(!self.bits().widen() & all.bits().widen()));
        proof {
            Self::lemma_of_view(r);
        }
        r
    }

    /// Whether `self` is exactly the set of every flag that `decl` declares.
    #[verifier::when_used_as_spec(spec_is_all)]
    pub fn is_all(&self, decl: &Declaration<B>) -> (r: bool)
        ensures
            r == (self@ == mask_of(decl@)),
    {
        self.bits().widen() == decl.all().bits().widen()
    }
}

} // verus!
