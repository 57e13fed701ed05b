//! Unsigned numbers that wrap around at a bound of the caller's choosing.
//!
//! A [`WrapNum`] holds a value and an exclusive bound, both of one unsigned
//! storage type, with the value below the bound. `+` and `*` reduce their
//! result modulo the bound of the left operand; `-` and `%` work on the plain
//! values. The right operand may be a plain unsigned integer or another
//! wrapped number, of any supported width, and is cast to the storage type of
//! the left operand first.
//!
//! Every operation comes in two forms: an operator, which may only be used
//! where it cannot fail, and a `checked_` method, which reports a failure as
//! a [`WrapError`].

pub mod laws;
pub mod modular;
pub mod operators;
pub mod unsigned;
pub mod wrap_num;

pub use crate::unsigned::{cast, Operand, UnsignedUnified};
pub use crate::wrap_num::{Residue, WrapError, WrapNum};
