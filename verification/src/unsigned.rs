//! The unsigned storage widths a wrapped number can be built on, and the
//! failure-checked conversions between them.
//!
//! Every conversion goes through `u64`, the widest supported storage. The
//! conversions themselves are the ones of the `num` crate; their contracts
//! below are taken on trust and everything else is proved from them.

use vstd::prelude::*;

verus! {

/// An unsigned integer type that can store the value and the bound of a
/// wrapped number. Implemented for `u8`, `u16`, `u32` and `u64`.
pub trait UnsignedUnified: Copy + Sized {
    /// The number this value stands for.
    spec fn as_nat(self) -> nat;

    /// The value that stands for a number, for numbers up to `max_nat()`.
    spec fn from_nat(n: nat) -> Self;

    /// The largest number the type can hold.
    spec fn max_nat() -> nat;

    /// Every value lies within the range of its type, every supported type
    /// fits in 64 bits, and a value is recovered from its number.
    proof fn lemma_in_range(self)
        ensures
            self.as_nat() <= Self::max_nat(),
            Self::max_nat() <= u64::MAX,
            Self::from_nat(self.as_nat()) == self,
    ;

    /// Every number within the range of the type is the number of a value.
    proof fn lemma_from_nat(n: nat)
        requires
            n <= Self::max_nat(),
        ensures
            Self::from_nat(n).as_nat() == n,
    ;

    /// Widens to `u64`. This never fails for the supported types; the
    /// `Option` is kept so that the method reads like its `num` counterpart.
    fn to_u64(self) -> (r: Option<u64>)
        ensures
            r is Some,
            r.unwrap() as nat == self.as_nat(),
    ;

    /// Narrows a `u64` to this type, failing exactly when the number does
    /// not fit.
    fn from_u64(n: u64) -> (r: Option<Self>)
        ensures
            r == (if n as nat <= Self::max_nat() {
                Some(Self::from_nat(n as nat))
            } else {
                None
            }),
    ;
}

/// `num::ToPrimitive::to_u64` on a `u8`: always `Some`, holding the same number.
#[verifier::external_body]
fn u8_to_u64(n: u8) -> (r: Option<u64>)
    ensures
        r == Some(n as u64),
{
    num::ToPrimitive::to_u64(&n)
}

/// `num::ToPrimitive::to_u64` on a `u16`: always `Some`, holding the same number.
#[verifier::external_body]
fn u16_to_u64(n: u16) -> (r: Option<u64>)
    ensures
        r == Some(n as u64),
{
    num::ToPrimitive::to_u64(&n)
}

/// `num::ToPrimitive::to_u64` on a `u32`: always `Some`, holding the same number.
#[verifier::external_body]
fn u32_to_u64(n: u32) -> (r: Option<u64>)
    ensures
        r == Some(n as u64),
{
    num::ToPrimitive::to_u64(&n)
}

/// `num::ToPrimitive::to_u64` on a `u64`: always `Some`, holding the number itself.
#[verifier::external_body]
fn u64_to_u64(n: u64) -> (r: Option<u64>)
    ensures
        r == Some(n),
{
    num::ToPrimitive::to_u64(&n)
}

/// `<u8 as num::NumCast>::from` on a `u64`: `Some` of the same number when it
/// is at most `u8::MAX`, `None` otherwise.
#[verifier::external_body]
fn u8_from_u64(n: u64) -> (r: Option<u8>)
    ensures
        r == (if n <= u8::MAX { Some(n as u8) } else { None }),
{
    <u8 as num::NumCast>::from(n)
}

/// `<u16 as num::NumCast>::from` on a `u64`: `Some` of the same number when it
/// is at most `u16::MAX`, `None` otherwise.
#[verifier::external_body]
fn u16_from_u64(n: u64) -> (r: Option<u16>)
    ensures
        r == (if n <= u16::MAX { Some(n as u16) } else { None }),
{
    <u16 as num::NumCast>::from(n)
}

/// `<u32 as num::NumCast>::from` on a `u64`: `Some` of the same number when it
/// is at most `u32::MAX`, `None` otherwise.
#[verifier::external_body]
fn u32_from_u64(n: u64) -> (r: Option<u32>)
    ensures
        r == (if n <= u32::MAX { Some(n as u32) } else { None }),
{
    <u32 as num::NumCast>::from(n)
}

/// `<u64 as num::NumCast>::from` on a `u64`: always `Some` of the number itself.
#[verifier::external_body]
fn u64_from_u64(n: u64) -> (r: Option<u64>)
    ensures
        r == Some(n),
{
    <u64 as num::NumCast>::from(n)
}

/// `num::ToPrimitive::to_i64` on a `u64`: `Some` of the same number when it
/// is at most `i64::MAX`, `None` otherwise.
#[verifier::external_body]
pub(crate) fn u64_to_i64(n: u64) -> (r: Option<i64>)
    ensures
        r == (if n <= i64::MAX as u64 { Some(n as i64) } else { None }),
{
    num::ToPrimitive::to_i64(&n)
}

impl UnsignedUnified for u8 {
    open spec fn as_nat(self) -> nat {
        self as nat
    }

    open spec fn from_nat(n: nat) -> Self {
        n as u8
    }

    open spec fn max_nat() -> nat {
        u8::MAX as nat
    }

    proof fn lemma_in_range(self) {
    }

    proof fn lemma_from_nat(n: nat) {
    }

    fn to_u64(self) -> (r: Option<u64>) {
        u8_to_u64(self)
    }

    fn from_u64(n: u64) -> (r: Option<Self>) {
        u8_from_u64(n)
    }
}

impl UnsignedUnified for u16 {
    open spec fn as_nat(self) -> nat {
        self as nat
    }

    open spec fn from_nat(n: nat) -> Self {
        n as u16
    }

    open spec fn max_nat() -> nat {
        u16::MAX as nat
    }

    proof fn lemma_in_range(self) {
    }

    proof fn lemma_from_nat(n: nat) {
    }

    fn to_u64(self) -> (r: Option<u64>) {
        u16_to_u64(self)
    }

    fn from_u64(n: u64) -> (r: Option<Self>) {
        u16_from_u64(n)
    }
}

impl UnsignedUnified for u32 {
    open spec fn as_nat(self) -> nat {
        self as nat
    }

    open spec fn from_nat(n: nat) -> Self {
        n as u32
    }

    open spec fn max_nat() -> nat {
        u32::MAX as nat
    }

    proof fn lemma_in_range(self) {
    }

    proof fn lemma_from_nat(n: nat) {
    }

    fn to_u64(self) -> (r: Option<u64>) {
        u32_to_u64(self)
    }

    fn from_u64(n: u64) -> (r: Option<Self>) {
        u32_from_u64(n)
    }
}

impl UnsignedUnified for u64 {
    open spec fn as_nat(self) -> nat {
        self as nat
    }

    open spec fn from_nat(n: nat) -> Self {
        n as u64
    }

    open spec fn max_nat() -> nat {
        u64::MAX as nat
    }

    proof fn lemma_in_range(self) {
    }

    proof fn lemma_from_nat(n: nat) {
    }

    fn to_u64(self) -> (r: Option<u64>) {
        u64_to_u64(self)
    }

    fn from_u64(n: u64) -> (r: Option<Self>) {
        u64_from_u64(n)
    }
}

/// Something that can stand on the right of an operator: a plain unsigned
/// integer, or a wrapped number, which then counts by its value alone.
pub trait Operand: Copy + Sized {
    /// The number the operand contributes to an operation.
    spec fn magnitude(self) -> nat;

    /// The magnitude as a `u64`.
    fn magnitude_u64(self) -> (r: u64)
        ensures
            r as nat == self.magnitude(),
    ;
}

impl<U: UnsignedUnified> Operand for U {
    open spec fn magnitude(self) -> nat {
        self.as_nat()
    }

    fn magnitude_u64(self) -> (r: u64) {
        self.to_u64().unwrap()
    }
}

/// Whether a number of the given magnitude can be stored in `T`.
pub open spec fn fits<T: UnsignedUnified>(n: nat) -> bool {
    n <= T::max_nat()
}

/// Casts an operand to the storage type `T`, failing exactly when its
/// magnitude does not fit.
pub fn cast<T: UnsignedUnified, U: Operand>(n: U) -> (r: Option<T>)
    ensures
        r == (if fits::<T>(n.magnitude()) {
            Some(T::from_nat(n.magnitude()))
        } else {
            None
        }),
{
    T::from_u64(n.magnitude_u64())
}

} // verus!
