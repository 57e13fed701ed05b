//! The operators `+`, `-`, `*`, `%` and their assigning forms on wrapped
//! numbers. Each computes what the checked method of the same name returns
//! on success, and asks of its caller that the operation cannot fail: the
//! left operand is well-formed, the right operand fits the storage type of
//! the left one, a subtraction does not underflow and a remainder does not
//! divide by zero.

use crate::unsigned::{cast, fits, Operand, UnsignedUnified};
use crate::wrap_num::WrapNum;
use vstd::prelude::*;
use vstd::std_specs::ops::{AddSpecImpl, MulSpecImpl, RemSpecImpl, SubSpecImpl};

verus! {

impl<T: UnsignedUnified, U: Operand> core::ops::Add<U> for WrapNum<T> {
    type Output = WrapNum<T>;

    /// The sum, wrapped at the bound of the left operand.
    fn add(self, rhs: U) -> (r: WrapNum<T>)
        ensures
            r.wf(),
            r@ == self@.sum(rhs.magnitude()),
    {
        proof {
            T::lemma_from_nat(rhs.magnitude());
        }
        self.sum_with(cast::<T, U>(rhs).unwrap())
    }
}

impl<T: UnsignedUnified, U: Operand> AddSpecImpl<U> for WrapNum<T> {
    open spec fn obeys_add_spec() -> bool {
        true
    }

    open spec fn add_req(self, rhs: U) -> bool {
        &&& self.wf()
        &&& fits::<T>(rhs.magnitude())
    }

    open spec fn add_spec(self, rhs: U) -> WrapNum<T> {
        Self::from_residue(self@.sum(rhs.magnitude()))
    }
}

impl<T: UnsignedUnified, U: Operand> core::ops::AddAssign<U> for WrapNum<T> {
    /// Replaces the number by its sum with the operand, wrapped at its bound.
    fn add_assign(&mut self, rhs: U)
        requires
            old(self).wf(),
            fits::<T>(rhs.magnitude()),
        ensures
            final(self).wf(),
            final(self)@ == old(self)@.sum(rhs.magnitude()),
            *final(self) == WrapNum::<T>::from_residue(old(self)@.sum(rhs.magnitude())),
    {
        *self = *self + rhs;
    }
}

impl<T: UnsignedUnified, U: Operand> core::ops::Sub<U> for WrapNum<T> {
    type Output = WrapNum<T>;

    /// The difference of the values; nothing wraps.
    fn sub(self, rhs: U) -> (r: WrapNum<T>)
        ensures
            r.wf(),
            r@ == self@.difference(rhs.magnitude()),
    {
        proof {
            T::lemma_from_nat(rhs.magnitude());
        }
        self.difference_with(cast::<T, U>(rhs).unwrap())
    }
}

impl<T: UnsignedUnified, U: Operand> SubSpecImpl<U> for WrapNum<T> {
    open spec fn obeys_sub_spec() -> bool {
        true
    }

    open spec fn sub_req(self, rhs: U) -> bool {
        &&& self.wf()
        &&& fits::<T>(rhs.magnitude())
        &&& rhs.magnitude() <= self@.value
    }

    open spec fn sub_spec(self, rhs: U) -> WrapNum<T> {
        Self::from_residue(self@.difference(rhs.magnitude()))
    }
}

impl<T: UnsignedUnified, U: Operand> core::ops::SubAssign<U> for WrapNum<T> {
    /// Replaces the number by its difference with the operand.
    fn sub_assign(&mut self, rhs: U)
        requires
            old(self).wf(),
            fits::<T>(rhs.magnitude()),
            rhs.magnitude() <= old(self)@.value,
        ensures
            final(self).wf(),
            final(self)@ == old(self)@.difference(rhs.magnitude()),
            *final(self) == WrapNum::<T>::from_residue(old(self)@.difference(rhs.magnitude())),
    {
        *self = *self - rhs;
    }
}

impl<T: UnsignedUnified, U: Operand> core::ops::Mul<U> for WrapNum<T> {
    type Output = WrapNum<T>;

    /// The product, wrapped at the bound of the left operand.
    fn mul(self, rhs: U) -> (r: WrapNum<T>)
        ensures
            r.wf(),
            r@ == self@.product(rhs.magnitude()),
    {
        proof {
            T::lemma_from_nat(rhs.magnitude());
        }
        self.product_with(cast::<T, U>(rhs).unwrap())
    }
}

impl<T: UnsignedUnified, U: Operand> MulSpecImpl<U> for WrapNum<T> {
    open spec fn obeys_mul_spec() -> bool {
        true
    }

    open spec fn mul_req(self, rhs: U) -> bool {
        &&& self.wf()
        &&& fits::<T>(rhs.magnitude())
    }

    open spec fn mul_spec(self, rhs: U) -> WrapNum<T> {
        Self::from_residue(self@.product(rhs.magnitude()))
    }
}

impl<T: UnsignedUnified, U: Operand> core::ops::MulAssign<U> for WrapNum<T> {
    /// Replaces the number by its product with the operand, wrapped at its bound.
    fn mul_assign(&mut self, rhs: U)
        requires
            old(self).wf(),
            fits::<T>(rhs.magnitude()),
        ensures
            final(self).wf(),
            final(self)@ == old(self)@.product(rhs.magnitude()),
            *final(self) == WrapNum::<T>::from_residue(old(self)@.product(rhs.magnitude())),
    {
        *self = *self * rhs;
    }
}

impl<T: UnsignedUnified, U: Operand> core::ops::Rem<U> for WrapNum<T> {
    type Output = WrapNum<T>;

    /// The value reduced modulo the operand; the bound plays no part.
    fn rem(self, rhs: U) -> (r: WrapNum<T>)
        ensures
            r.wf(),
            r@ == self@.remainder(rhs.magnitude()),
            r@.value < rhs.magnitude(),
    {
        proof {
            T::lemma_from_nat(rhs.magnitude());
        }
        self.remainder_with(cast::<T, U>(rhs).unwrap())
    }
}

impl<T: UnsignedUnified, U: Operand> RemSpecImpl<U> for WrapNum<T> {
    open spec fn obeys_rem_spec() -> bool {
        true
    }

    open spec fn rem_req(self, rhs: U) -> bool {
        &&& self.wf()
        &&& fits::<T>(rhs.magnitude())
        &&& rhs.magnitude() > 0
    }

    open spec fn rem_spec(self, rhs: U) -> WrapNum<T> {
        Self::from_residue(self@.remainder(rhs.magnitude()))
    }
}

impl<T: UnsignedUnified, U: Operand> core::ops::RemAssign<U> for WrapNum<T> {
    /// Replaces the number by its remainder modulo the operand.
    fn rem_assign(&mut self, rhs: U)
        requires
            old(self).wf(),
            fits::<T>(rhs.magnitude()),
            rhs.magnitude() > 0,
        ensures
            final(self).wf(),
            final(self)@ == old(self)@.remainder(rhs.magnitude()),
            final(self)@.value < rhs.magnitude(),
            *final(self) == WrapNum::<T>::from_residue(old(self)@.remainder(rhs.magnitude())),
    {
        *self = *self % rhs;
    }
}

} // verus!
