//! The wrapped number itself: a value kept below a bound, and the operators
//! that combine it with a right-hand operand.
//!
//! Addition and multiplication reduce their result modulo the bound of the
//! left operand, so every wrapped number keeps its value below its bound.
//! Subtraction and remainder work on the plain values and refuse an operand
//! that would underflow or divide by zero. The right operand is first cast to
//! the storage type of the left one, and an operand that does not fit is
//! refused. `get_value` reduces the stored value by the bound; since the
//! stored value is always below the bound, that is the stored value.

use crate::modular::{add_mod, mul_mod};
use crate::unsigned::{cast, fits, u64_to_i64, Operand, UnsignedUnified};
use vstd::arithmetic::div_mod::{lemma_mod_decreases, lemma_small_mod};
use vstd::prelude::*;
use vstd::std_specs::cmp::PartialEqSpecImpl;

verus! {

/// Why a wrapped number could not be built or an operation not carried out.
#[derive(Debug, Clone, Copy, PartialEq, Eq, Structural)]
pub enum WrapError {
    /// The value offered at construction is not below the bound.
    OutOfBound,
    /// The right operand does not fit the storage type of the left one.
    CastOverflow,
    /// The right operand of a subtraction exceeds the value on the left.
    Underflow,
    /// The right operand of a remainder is zero.
    DivisionByZero,
}

/// What a wrapped number is, mathematically: a value and its bound.
pub struct Residue {
    pub value: nat,
    pub bound: nat,
}

impl Residue {
    /// The value lies below the bound.
    pub open spec fn wf(self) -> bool {
        self.value < self.bound
    }

    /// The value moved up by `n`, wrapping at the bound.
    pub open spec fn sum(self, n: nat) -> Residue {
        Residue { value: (self.value + n) % self.bound, bound: self.bound }
    }

    /// The value scaled by `n`, wrapping at the bound.
    pub open spec fn product(self, n: nat) -> Residue {
        Residue { value: (self.value * n) % self.bound, bound: self.bound }
    }

    /// The value moved down by `n`, which must not exceed it.
    pub open spec fn difference(self, n: nat) -> Residue
        recommends
            n <= self.value,
    {
        Residue { value: (self.value - n) as nat, bound: self.bound }
    }

    /// The value reduced modulo `n`, which must not be zero.
    pub open spec fn remainder(self, n: nat) -> Residue
        recommends
            n > 0,
    {
        Residue { value: self.value % n, bound: self.bound }
    }
}

/// An unsigned number that wraps back to zero when it reaches `wrap`. When
/// two wrapped numbers are combined, the bound of the left one is kept.
#[derive(Debug, Copy, Hash)]
pub struct WrapNum<T: UnsignedUnified> {
    value: T,
    wrap: T,
}

impl<T: UnsignedUnified> View for WrapNum<T> {
    type V = Residue;

    closed spec fn view(&self) -> Residue {
        Residue { value: self.value.as_nat(), bound: self.wrap.as_nat() }
    }
}

impl<T: UnsignedUnified> Clone for WrapNum<T> {
    fn clone(&self) -> (r: Self)
        ensures
            r == *self,
    {
        *self
    }
}

impl<T: UnsignedUnified> PartialEq for WrapNum<T> {
    /// Two wrapped numbers are equal when both their values and their
    /// bounds are.
    fn eq(&self, other: &Self) -> (r: bool) {
        self.value.to_u64().unwrap() == other.value.to_u64().unwrap() && self.wrap.to_u64().unwrap()
            == other.wrap.to_u64().unwrap()
    }
}

impl<T: UnsignedUnified> PartialEqSpecImpl for WrapNum<T> {
    open spec fn obeys_eq_spec() -> bool {
        true
    }

    open spec fn eq_spec(&self, other: &Self) -> bool {
        self@.value == other@.value && self@.bound == other@.bound
    }
}

impl<T: UnsignedUnified> Eq for WrapNum<T> {

}

impl<T: UnsignedUnified> Operand for WrapNum<T> {
    open spec fn magnitude(self) -> nat {
        self@.value
    }

    fn magnitude_u64(self) -> (r: u64) {
        self.value.to_u64().unwrap()
    }
}

impl<T: UnsignedUnified> WrapNum<T> {
    /// The stored value lies below the bound.
    pub open spec fn wf(self) -> bool {
        self@.wf()
    }

    /// The wrapped number with the given value and bound, both within the
    /// range of `T`.
    pub closed spec fn from_residue(v: Residue) -> Self {
        WrapNum { value: T::from_nat(v.value), wrap: T::from_nat(v.bound) }
    }

    /// A wrapped number is determined by its value and bound, both of which
    /// fit its storage type.
    pub proof fn lemma_view(self)
        ensures
            Self::from_residue(self@) == self,
            self@.value <= T::max_nat(),
            self@.bound <= T::max_nat(),
    {
        self.value.lemma_in_range();
        self.wrap.lemma_in_range();
    }

    /// Wrapped numbers with the same value and the same bound are the same.
    pub proof fn lemma_same_view(self, other: Self)
        ensures
            self@ == other@ <==> self == other,
    {
        self.lemma_view();
        other.lemma_view();
    }

    /// A value and a bound within the range of `T` are those of the wrapped
    /// number built from them.
    pub proof fn lemma_from_residue(v: Residue)
        requires
            v.value <= T::max_nat(),
            v.bound <= T::max_nat(),
        ensures
            Self::from_residue(v)@ == v,
    {
        T::lemma_from_nat(v.value);
        T::lemma_from_nat(v.bound);
    }

    /// Builds a wrapped number from a value below the bound.
    pub fn new(value: T, wrap: T) -> (r: WrapNum<T>)
        requires
            value.as_nat() < wrap.as_nat(),
        ensures
            r.wf(),
            r@ == (Residue { value: value.as_nat(), bound: wrap.as_nat() }),
    {
        WrapNum { value, wrap }
    }

    /// Builds a wrapped number, refusing a value that is not below the bound.
    pub fn try_new(value: T, wrap: T) -> (r: Result<WrapNum<T>, WrapError>)
        ensures
            value.as_nat() < wrap.as_nat() ==> r is Ok && r.unwrap().wf() && r.unwrap()@ == (Residue {
                value: value.as_nat(),
                bound: wrap.as_nat(),
            }),
            value.as_nat() >= wrap.as_nat() ==> r == Err::<WrapNum<T>, WrapError>(
                WrapError::OutOfBound,
            ),
    {
        if value.to_u64().unwrap() < wrap.to_u64().unwrap() {
            Ok(WrapNum { value, wrap })
        } else {
            Err(WrapError::OutOfBound)
        }
    }

    /// The value, reduced by the bound. For a well-formed number this is the
    /// stored value itself.
    pub fn get_value(self) -> (r: T)
        requires
            self.wf(),
        ensures
            r.as_nat() == self@.value % self@.bound,
            r.as_nat() == self@.value,
    {
        let v: u64 = self.value.to_u64().unwrap();
        let m: u64 = self.wrap.to_u64().unwrap();
        proof {
            self.value.lemma_in_range();
            lemma_small_mod(v as nat, m as nat);
        }
        T::from_u64(v % m).unwrap()
    }

    /// The bound, which no operation changes.
    pub fn get_bound(self) -> (r: T)
        ensures
            r.as_nat() == self@.bound,
    {
        self.wrap
    }

    /// The stored value as a `u64`, which always holds it.
    pub fn to_u64(&self) -> (r: Option<u64>)
        ensures
            r is Some,
            r.unwrap() as nat == self@.value,
    {
        self.value.to_u64()
    }

    /// The stored value as an `i64`, or `None` when it exceeds `i64::MAX`.
    pub fn to_i64(&self) -> (r: Option<i64>)
        ensures
            r is Some <==> self@.value <= i64::MAX as nat,
            r is Some ==> r.unwrap() as int == self@.value as int,
    {
        u64_to_i64(self.value.to_u64().unwrap())
    }

    /// This number with another value below the same bound.
    fn with_value(self, v: u64) -> (r: WrapNum<T>)
        requires
            self.wf(),
            (v as nat) < self@.bound,
        ensures
            r.wf(),
            r@ == (Residue { value: v as nat, bound: self@.bound }),
            r == Self::from_residue(Residue { value: v as nat, bound: self@.bound }),
    {
        proof {
            self.wrap.lemma_in_range();
            T::lemma_from_nat(v as nat);
        }
        WrapNum { value: T::from_u64(v).unwrap(), wrap: self.wrap }
    }

    /// The sum with an operand of the same storage type, wrapped at the bound.
    pub(crate) fn sum_with(self, b: T) -> (r: WrapNum<T>)
        requires
            self.wf(),
        ensures
            r.wf(),
            r@ == self@.sum(b.as_nat()),
            r == Self::from_residue(self@.sum(b.as_nat())),
    {
        let v: u64 = add_mod(
            self.value.to_u64().unwrap(),
            b.to_u64().unwrap(),
            self.wrap.to_u64().unwrap(),
        );
        self.with_value(v)
    }

    /// The product with an operand of the same storage type, wrapped at the
    /// bound.
    pub(crate) fn product_with(self, b: T) -> (r: WrapNum<T>)
        requires
            self.wf(),
        ensures
            r.wf(),
            r@ == self@.product(b.as_nat()),
            r == Self::from_residue(self@.product(b.as_nat())),
    {
        let v: u64 = mul_mod(
            self.value.to_u64().unwrap(),
            b.to_u64().unwrap(),
            self.wrap.to_u64().unwrap(),
        );
        self.with_value(v)
    }

    /// The difference with an operand of the same storage type that does
    /// not exceed the value.
    pub(crate) fn difference_with(self, b: T) -> (r: WrapNum<T>)
        requires
            self.wf(),
            b.as_nat() <= self@.value,
        ensures
            r.wf(),
            r@ == self@.difference(b.as_nat()),
            r == Self::from_residue(self@.difference(b.as_nat())),
    {
        let v: u64 = self.value.to_u64().unwrap() - b.to_u64().unwrap();
        self.with_value(v)
    }

    /// The remainder by an operand of the same storage type that is not
    /// zero.
    pub(crate) fn remainder_with(self, b: T) -> (r: WrapNum<T>)
        requires
            self.wf(),
            b.as_nat() > 0,
        ensures
            r.wf(),
            r@ == self@.remainder(b.as_nat()),
            r@.value < b.as_nat(),
            r == Self::from_residue(self@.remainder(b.as_nat())),
    {
        let v: u64 = self.value.to_u64().unwrap() % b.to_u64().unwrap();
        proof {
            lemma_mod_decreases(self@.value, b.as_nat());
        }
        self.with_value(v)
    }

    /// Adds the operand, wrapping at the bound. Fails when the operand does
    /// not fit `T`.
    pub fn checked_add<U: Operand>(self, rhs: U) -> (r: Result<WrapNum<T>, WrapError>)
        requires
            self.wf(),
        ensures
            r == (if fits::<T>(rhs.magnitude()) {
                Ok::<WrapNum<T>, WrapError>(Self::from_residue(self@.sum(rhs.magnitude())))
            } else {
                Err::<WrapNum<T>, WrapError>(WrapError::CastOverflow)
            }),
            r is Ok ==> r.unwrap().wf() && r.unwrap()@ == self@.sum(rhs.magnitude()),
    {
        match cast::<T, U>(rhs) {
            Some(b) => {
                proof {
                    T::lemma_from_nat(rhs.magnitude());
                }
                Ok(self.sum_with(b))
            },
            None => Err(WrapError::CastOverflow),
        }
    }

    /// Multiplies by the operand, wrapping at the bound. Fails when the
    /// operand does not fit `T`.
    pub fn checked_mul<U: Operand>(self, rhs: U) -> (r: Result<WrapNum<T>, WrapError>)
        requires
            self.wf(),
        ensures
            r == (if fits::<T>(rhs.magnitude()) {
                Ok::<WrapNum<T>, WrapError>(Self::from_residue(self@.product(rhs.magnitude())))
            } else {
                Err::<WrapNum<T>, WrapError>(WrapError::CastOverflow)
            }),
            r is Ok ==> r.unwrap().wf() && r.unwrap()@ == self@.product(rhs.magnitude()),
    {
        match cast::<T, U>(rhs) {
            Some(b) => {
                proof {
                    T::lemma_from_nat(rhs.magnitude());
                }
                Ok(self.product_with(b))
            },
            None => Err(WrapError::CastOverflow),
        }
    }

    /// Subtracts the operand from the value, without wrapping. Fails when
    /// the operand does not fit `T`, and when it exceeds the value.
    pub fn checked_sub<U: Operand>(self, rhs: U) -> (r: Result<WrapNum<T>, WrapError>)
        requires
            self.wf(),
        ensures
            r == (if !fits::<T>(rhs.magnitude()) {
                Err::<WrapNum<T>, WrapError>(WrapError::CastOverflow)
            } else if rhs.magnitude() > self@.value {
                Err::<WrapNum<T>, WrapError>(WrapError::Underflow)
            } else {
                Ok::<WrapNum<T>, WrapError>(Self::from_residue(self@.difference(rhs.magnitude())))
            }),
            r is Ok ==> r.unwrap().wf() && r.unwrap()@ == self@.difference(rhs.magnitude()),
    {
        match cast::<T, U>(rhs) {
            Some(b) => {
                proof {
                    T::lemma_from_nat(rhs.magnitude());
                }
                if b.to_u64().unwrap() > self.value.to_u64().unwrap() {
                    Err(WrapError::Underflow)
                } else {
                    Ok(self.difference_with(b))
                }
            },
            None => Err(WrapError::CastOverflow),
        }
    }

    /// Reduces the value modulo the operand; the bound plays no part. Fails
    /// when the operand does not fit `T`, and when it is zero.
    pub fn checked_rem<U: Operand>(self, rhs: U) -> (r: Result<WrapNum<T>, WrapError>)
        requires
            self.wf(),
        ensures
            r == (if !fits::<T>(rhs.magnitude()) {
                Err::<WrapNum<T>, WrapError>(WrapError::CastOverflow)
            } else if rhs.magnitude() == 0 {
                Err::<WrapNum<T>, WrapError>(WrapError::DivisionByZero)
            } else {
                Ok::<WrapNum<T>, WrapError>(Self::from_residue(self@.remainder(rhs.magnitude())))
            }),
            r is Ok ==> r.unwrap().wf() && r.unwrap()@ == self@.remainder(rhs.magnitude())
                && r.unwrap()@.value < rhs.magnitude(),
    {
        match cast::<T, U>(rhs) {
            Some(b) => {
                proof {
                    T::lemma_from_nat(rhs.magnitude());
                }
                if b.to_u64().unwrap() == 0 {
                    Err(WrapError::DivisionByZero)
                } else {
                    Ok(self.remainder_with(b))
                }
            },
            None => Err(WrapError::CastOverflow),
        }
    }
}

} // verus!
