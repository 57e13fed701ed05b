//! What holds of the arithmetic of wrapped numbers as a whole: sums and
//! products of numbers under one bound are the sums and products of modular
//! arithmetic, and obey its laws.
//!
//! The laws are stated over `add_spec`, `mul_spec`, `sub_spec` and `rem_spec`,
//! which say what the operators return, and over `sub_req` and `rem_req`,
//! which say when `-` and `%` may be used.

use crate::unsigned::UnsignedUnified;
use crate::wrap_num::{Residue, WrapNum};
use vstd::arithmetic::div_mod::{
    lemma_add_mod_noop_right,
    lemma_mod_bound,
    lemma_mod_decreases,
    lemma_mul_mod_noop_left,
    lemma_mul_mod_noop_right,
};
use vstd::arithmetic::mul::{lemma_mul_is_associative, lemma_mul_is_commutative};
use vstd::prelude::*;
use vstd::std_specs::ops::{AddSpec, MulSpec, RemSpec, SubSpec};

verus! {

/// Reducing a partial sum early does not change the reduced sum, on either
/// side.
pub proof fn lemma_add_mod_associative(a: nat, b: nat, c: nat, m: nat)
    requires
        m > 0,
    ensures
        ((a + b) % m + c) % m == (a + b + c) % m,
        (a + (b + c) % m) % m == (a + b + c) % m,
{
    lemma_add_mod_noop_right(c as int, (a + b) as int, m as int);
    lemma_add_mod_noop_right(a as int, (b + c) as int, m as int);
}

/// Reducing a partial product early does not change the reduced product, on
/// either side.
pub proof fn lemma_mul_mod_associative(a: nat, b: nat, c: nat, m: nat)
    requires
        m > 0,
    ensures
        ((a * b) % m * c) % m == (a * b * c) % m,
        (a * ((b * c) % m)) % m == (a * b * c) % m,
{
    lemma_mul_mod_noop_left((a * b) as int, c as int, m as int);
    lemma_mul_mod_noop_right(a as int, (b * c) as int, m as int);
    lemma_mul_is_associative(a as int, b as int, c as int);
}

/// Adding two wrapped numbers with the values `a` and `b` under one bound
/// `m` is allowed, and gives `(a + b) mod m` under that bound.
pub proof fn law_add_is_modular<T: UnsignedUnified, U: UnsignedUnified>(
    x: WrapNum<T>,
    y: WrapNum<U>,
)
    requires
        x.wf(),
        y.wf(),
        x@.bound == y@.bound,
    ensures
        x.add_req(y),
        x.add_spec(y).wf(),
        x.add_spec(y)@ == (Residue { value: (x@.value + y@.value) % x@.bound, bound: x@.bound }),
{
    x.lemma_view();
    lemma_mod_bound((x@.value + y@.value) as int, x@.bound as int);
    WrapNum::<T>::lemma_from_residue(x@.sum(y@.value));
}

/// Multiplying two wrapped numbers with the values `a` and `b` under one
/// bound `m` is allowed, and gives `(a * b) mod m` under that bound.
pub proof fn law_mul_is_modular<T: UnsignedUnified, U: UnsignedUnified>(
    x: WrapNum<T>,
    y: WrapNum<U>,
)
    requires
        x.wf(),
        y.wf(),
        x@.bound == y@.bound,
    ensures
        x.mul_req(y),
        x.mul_spec(y).wf(),
        x.mul_spec(y)@ == (Residue { value: (x@.value * y@.value) % x@.bound, bound: x@.bound }),
{
    x.lemma_view();
    lemma_mod_bound((x@.value * y@.value) as int, x@.bound as int);
    WrapNum::<T>::lemma_from_residue(x@.product(y@.value));
}

/// Addition of wrapped numbers of one storage type under one bound is
/// commutative.
pub proof fn law_add_commutative<T: UnsignedUnified>(x: WrapNum<T>, y: WrapNum<T>)
    requires
        x.wf(),
        y.wf(),
        x@.bound == y@.bound,
    ensures
        x.add_spec(y) == y.add_spec(x),
{
}

/// Multiplication of wrapped numbers of one storage type under one bound is
/// commutative.
pub proof fn law_mul_commutative<T: UnsignedUnified>(x: WrapNum<T>, y: WrapNum<T>)
    requires
        x.wf(),
        y.wf(),
        x@.bound == y@.bound,
    ensures
        x.mul_spec(y) == y.mul_spec(x),
{
    lemma_mul_is_commutative(x@.value as int, y@.value as int);
}

/// Addition of wrapped numbers of one storage type under one bound is
/// associative.
pub proof fn law_add_associative<T: UnsignedUnified>(x: WrapNum<T>, y: WrapNum<T>, z: WrapNum<T>)
    requires
        x.wf(),
        y.wf(),
        z.wf(),
        x@.bound == y@.bound,
        y@.bound == z@.bound,
    ensures
        x.add_spec(y).add_spec(z) == x.add_spec(y.add_spec(z)),
{
    law_add_is_modular(x, y);
    law_add_is_modular(y, z);
    lemma_add_mod_associative(x@.value, y@.value, z@.value, x@.bound);
}

/// Multiplication of wrapped numbers of one storage type under one bound is
/// associative.
pub proof fn law_mul_associative<T: UnsignedUnified>(x: WrapNum<T>, y: WrapNum<T>, z: WrapNum<T>)
    requires
        x.wf(),
        y.wf(),
        z.wf(),
        x@.bound == y@.bound,
        y@.bound == z@.bound,
    ensures
        x.mul_spec(y).mul_spec(z) == x.mul_spec(y.mul_spec(z)),
{
    law_mul_is_modular(x, y);
    law_mul_is_modular(y, z);
    lemma_mul_mod_associative(x@.value, y@.value, z@.value, x@.bound);
}

/// Subtracting a wrapped number of the same storage type is allowed exactly
/// when its value does not exceed the value on the left, and then gives the
/// plain difference under the bound of the left operand.
pub proof fn law_sub_is_plain<T: UnsignedUnified>(x: WrapNum<T>, y: WrapNum<T>)
    requires
        x.wf(),
    ensures
        x.sub_req(y) <==> y@.value <= x@.value,
        x.sub_req(y) ==> x.sub_spec(y).wf() && x.sub_spec(y)@ == (Residue {
            value: (x@.value - y@.value) as nat,
            bound: x@.bound,
        }),
{
    x.lemma_view();
    y.lemma_view();
    if y@.value <= x@.value {
        WrapNum::<T>::lemma_from_residue(x@.difference(y@.value));
    }
}

/// Reducing by a wrapped number of the same storage type is allowed exactly
/// when its value is not zero, and then gives a value below it, under the
/// bound of the left operand.
pub proof fn law_rem_is_below_operand<T: UnsignedUnified>(x: WrapNum<T>, y: WrapNum<T>)
    requires
        x.wf(),
    ensures
        x.rem_req(y) <==> y@.value > 0,
        x.rem_req(y) ==> x.rem_spec(y).wf() && x.rem_spec(y)@.value == x@.value % y@.value
            && x.rem_spec(y)@.value < y@.value && x.rem_spec(y)@.bound == x@.bound,
{
    x.lemma_view();
    y.lemma_view();
    if y@.value > 0 {
        lemma_mod_bound(x@.value as int, y@.value as int);
        lemma_mod_decreases(x@.value, y@.value);
        WrapNum::<T>::lemma_from_residue(x@.remainder(y@.value));
    }
}

} // verus!
