//! Typed sets of bit flags over a declared table of named bit patterns.
//!
//! A [`Declaration`] names the bit patterns that a family of flag sets is made of. A
//! [`FlagSet`] is one set of such flags, held in an unsigned integer of a chosen width.

pub mod bits;
pub mod compare;
pub mod declaration;
pub mod flags;
pub mod laws;
pub mod operators;
pub mod text;

pub use crate::bits::Bits;
pub use crate::declaration::Declaration;
pub use crate::declaration::UnrecognizedBits;
pub use crate::flags::FlagSet;
