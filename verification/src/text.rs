//! Flag sets written out as numbers in base 2, 8 and 16.

use crate::bits::Bits;
use crate::flags::FlagSet;
use vstd::arithmetic::div_mod::lemma_div_decreases;
use vstd::prelude::*;
use vstd::string::StringExecFns;

verus! {

/// The character that stands for the digit `d`, which is below 16.
pub open spec fn digit_char(d: nat, upper: bool) -> char {
    if upper {
        seq!['0', '1', '2', '3', '4', '5', '6', '7', '8', '9', 'A', 'B', 'C', 'D', 'E', 'F'][d as int]
    } else {
        seq!['0', '1', '2', '3', '4', '5', '6', '7', '8', '9', 'a', 'b', 'c', 'd', 'e', 'f'][d as int]
    }
}

/// The digits of `n` in base `base`, most significant first, without leading zeros.
/// Zero is written as the single digit `0`.
pub open spec fn digits(n: nat, base: nat, upper: bool) -> Seq<char>
    decreases n,
{
    if base < 2 || n < base {
        seq![digit_char(n, upper)]
    } else {
        proof {
            lemma_div_decreases(n as int, base as int);
        }
        digits(n / base, base, upper).push(digit_char(n % base, upper))
    }
}

/// The one-character string for the digit `d`.
fn digit_str(d: u128, upper: bool) -> (r: &'static str)
    requires
        d < 16,
    ensures
        r@ == seq![digit_char(d as nat, upper)],
{
    proof {
        reveal_strlit("0");
        reveal_strlit("1");
        reveal_strlit("2");
        reveal_strlit("3");
        reveal_strlit("4");
        reveal_strlit("5");
        reveal_strlit("6");
        reveal_strlit("7");
        reveal_strlit("8");
        reveal_strlit("9");
        reveal_strlit("a");
        reveal_strlit("b");
        reveal_strlit("c");
        reveal_strlit("d");
        reveal_strlit("e");
        reveal_strlit("f");
        reveal_strlit("A");
        reveal_strlit("B");
        reveal_strlit("C");
        reveal_strlit("D");
        reveal_strlit("E");
        reveal_strlit("F");
    }
    let r = if d == 0 {
        "0"
    } else if d == 1 {
        "1"
    } else if d == 2 {
        "2"
    } else if d == 3 {
        "3"
    } else if d == 4 {
        "4"
    } else if d == 5 {
        "5"
    } else if d == 6 {
        "6"
    } else if d == 7 {
        "7"
    } else if d == 8 {
        "8"
    } else if d == 9 {
        "9"
    } else if d == 10 {
        if upper { "A" } else { "a" }
    } else if d == 11 {
        if upper { "B" } else { "b" }
    } else if d == 12 {
        if upper { "C" } else { "c" }
    } else if d == 13 {
        if upper { "D" } else { "d" }
    } else if d == 14 {
        if upper { "E" } else { "e" }
    } else {
        if upper { "F" } else { "f" }
    };
    assert(r@ =~= seq![digit_char(d as nat, upper)]);
    r
}

/// Appends the digits of `n` in base `base` to `out`.
pub(crate) fn push_digits(out: &mut String, n: u128, base: u128, upper: bool)
    requires
        2 <= base <= 16,
    ensures
        final(out)@ == old(out)@ + digits(n as nat, base as nat, upper),
    decreases n,
{
    if n < base {
        out.append(digit_str(n, upper));
    } else {
        proof {
            lemma_div_decreases(n as int, base as int);
        }
        push_digits(out, n / base, base, upper);
        out.append(digit_str(n % base, upper));
    }
}

impl<B: Bits> FlagSet<B> {
    /// The integer of the set in base 2.
    pub fn to_binary(&self) -> (r: String)
        ensures
            r@ == digits(self@ as nat, 2, false),
    {
        let mut out = String::new();
        push_digits(&mut out, self.bits().widen(), 2, false);
        out
    }

    /// The integer of the set in base 8.
    pub fn to_octal(&self) -> (r: String)
        ensures
            r@ == digits(self@ as nat, 8, false),
    {
        let mut out = String::new();
        push_digits(&mut out, self.bits().widen(), 8, false);
        out
    }

    /// The integer of the set in base 16, with the letters `a` to `f`.
    pub fn to_lower_hex(&self) -> (r: String)
        ensures
            r@ == digits(self@ as nat, 16, false),
    {
        let mut out = String::new();
        push_digits(&mut out, self.bits().widen(), 16, false);
        out
    }

    /// The integer of the set in base 16, with the letters `A` to `F`.
    pub fn to_upper_hex(&self) -> (r: String)
        ensures
            r@ == digits(self@ as nat, 16, true),
    {
        let mut out = String::new();
        push_digits(&mut out, self.bits().widen(), 16, true);
        out
    }
}

} // verus!
