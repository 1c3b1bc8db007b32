//! Numbers: prices, amounts and fractions.
//!
//! Everything that computes with a price or an amount is generic over the
//! number type, and what it computes is stated through the operators of that
//! type. A program picks `f64` for prices and amounts and `f32` for the short
//! fractions (stop factors, fill percentages, screen coordinates).

use core::ops::{Add, Div, Mul, Sub};
use vstd::prelude::*;
use vstd::std_specs::cmp::*;
use vstd::std_specs::convert::*;
use vstd::std_specs::ops::*;

verus! {

/// A number type: copied freely, compared, added, subtracted, multiplied and
/// divided, and able to hold every small whole number.
pub trait Number: Copy + PartialOrd + From<u16> + Add<Output = Self> + Sub<Output = Self> + Mul<
    Output = Self,
> + Div<Output = Self> {

}

impl<
    T: Copy + PartialOrd + From<u16> + Add<Output = T> + Sub<Output = T> + Mul<Output = T> + Div<
        Output = T,
    >,
> Number for T {

}

/// `==` and `<` on this type are functions of their two operands.
pub open spec fn ordered<T: Number>() -> bool {
    T::obeys_eq_spec() && T::obeys_partial_cmp_spec()
}

/// The number that the small whole number `n` stands for.
pub open spec fn lit<T: Number>(n: u16) -> T {
    <T as FromSpec<u16>>::from_spec(n)
}

/// The number closest to the fraction `a / b`.
pub open spec fn frac<T: Number>(a: u16, b: u16) -> T {
    lit::<T>(a).div_spec(lit::<T>(b))
}

/// The operators of this type are functions of their operands, and a whole
/// number can be divided by any other but zero.
///
/// It is a fact about the type, not about a value. It holds of the unsigned
/// integers, and of the floats up to the payload of a not-a-number.
pub open spec fn lawful<T: Number>() -> bool {
    &&& ordered::<T>()
    &&& <T as FromSpec<u16>>::obeys_from_spec()
    &&& T::obeys_add_spec()
    &&& T::obeys_sub_spec()
    &&& T::obeys_mul_spec()
    &&& T::obeys_div_spec()
    &&& forall|a: u16, b: u16| b != 0 ==> #[trigger] lit::<T>(a).div_req(lit::<T>(b))
}

/// The unsigned integers are lawful, and the short ones widen to the long ones.
pub proof fn unsigned_are_lawful()
    ensures
        lawful::<u32>(),
        lawful::<u64>(),
        widens::<u32, u64>(),
{
}

/// `a + b`.
pub open spec fn sum<T: Number>(a: T, b: T) -> T {
    a.add_spec(b)
}

/// `a - b`.
pub open spec fn difference<T: Number>(a: T, b: T) -> T {
    a.sub_spec(b)
}

/// `a * b`.
pub open spec fn product<T: Number>(a: T, b: T) -> T {
    a.mul_spec(b)
}

/// `a / b`.
pub open spec fn quotient<T: Number>(a: T, b: T) -> T {
    a.div_spec(b)
}

/// `a + b` is defined.
pub open spec fn sums<T: Number>(a: T, b: T) -> bool {
    a.add_req(b)
}

/// `a - b` is defined.
pub open spec fn subtracts<T: Number>(a: T, b: T) -> bool {
    a.sub_req(b)
}

/// `a * b` is defined.
pub open spec fn multiplies<T: Number>(a: T, b: T) -> bool {
    a.mul_req(b)
}

/// `a / b` is defined.
pub open spec fn divides<T: Number>(a: T, b: T) -> bool {
    a.div_req(b)
}

/// `a == b`.
pub open spec fn equal<T: Number>(a: T, b: T) -> bool {
    a.is_eq(&b)
}

/// `a < b`.
pub open spec fn less<T: Number>(a: T, b: T) -> bool {
    a.is_lt(&b)
}

/// `a <= b`.
pub open spec fn at_most<T: Number>(a: T, b: T) -> bool {
    a.is_le(&b)
}

/// `a > b`.
pub open spec fn greater<T: Number>(a: T, b: T) -> bool {
    a.is_gt(&b)
}

/// `a >= b`.
pub open spec fn at_least<T: Number>(a: T, b: T) -> bool {
    a.is_ge(&b)
}

/// Sums and differences of this type, and products with zero and one, keep the
/// rules of arithmetic.
///
/// It is a fact about the type. It holds of the unsigned integers. Floats round, so
/// that what follows from it holds of them up to rounding.
pub open spec fn exact<T: Number>() -> bool {
    let zero = lit::<T>(0);
    let one = lit::<T>(1);
    &&& forall|a: T, b: T| #[trigger] sum(a, b) == sum(b, a)
    &&& forall|a: T, b: T, c: T| #[trigger] sum(sum(a, b), c) == sum(a, sum(b, c))
    &&& forall|a: T| #[trigger] sum(a, zero) == a
    &&& forall|a: T, b: T| sum(#[trigger] difference(a, b), b) == a
    &&& forall|a: T| #[trigger] difference(a, a) == zero
    &&& forall|a: T| #[trigger] product(a, one) == a
    &&& forall|a: T| #[trigger] product(a, zero) == zero
}

proof fn wrapping_sums_64(a: u64, b: u64, c: u64)
    by (bit_vector)
    ensures
        ((((a + b) as u64) + c) as u64) == ((a + ((b + c) as u64)) as u64),
        ((((a - b) as u64) + b) as u64) == a,
{
}

proof fn wrapping_sums_32(a: u32, b: u32, c: u32)
    by (bit_vector)
    ensures
        ((((a + b) as u32) + c) as u32) == ((a + ((b + c) as u32)) as u32),
        ((((a - b) as u32) + b) as u32) == a,
{
}

/// The unsigned integers keep the rules of arithmetic.
pub proof fn unsigned_are_exact()
    ensures
        exact::<u32>(),
        exact::<u64>(),
{
    assert forall|a: u64, b: u64, c: u64| #[trigger] sum(sum(a, b), c) == sum(a, sum(b, c)) by {
        wrapping_sums_64(a, b, c);
    }
    assert forall|a: u64, b: u64| sum(#[trigger] difference(a, b), b) == a by {
        wrapping_sums_64(a, b, 0);
    }
    assert forall|a: u64| #[trigger] product(a, lit::<u64>(1)) == a by {
        assert(lit::<u64>(1) == 1);
        assert(a * 1 == a);
    }
    assert forall|a: u64| #[trigger] product(a, lit::<u64>(0)) == lit::<u64>(0) by {
        assert(lit::<u64>(0) == 0);
        assert(a * 0 == 0);
    }
    assert forall|a: u32| #[trigger] product(a, lit::<u32>(1)) == a by {
        assert(lit::<u32>(1) == 1);
        assert(a * 1 == a);
    }
    assert forall|a: u32| #[trigger] product(a, lit::<u32>(0)) == lit::<u32>(0) by {
        assert(lit::<u32>(0) == 0);
        assert(a * 0 == 0);
    }
    assert forall|a: u32, b: u32, c: u32| #[trigger] sum(sum(a, b), c) == sum(a, sum(b, c)) by {
        wrapping_sums_32(a, b, c);
    }
    assert forall|a: u32, b: u32| sum(#[trigger] difference(a, b), b) == a by {
        wrapping_sums_32(a, b, 0);
    }
}

/// Moving a part from one amount to another leaves their sum.
pub proof fn moving_keeps_the_sum<T: Number>(from: T, to: T, moved: T)
    requires
        exact::<T>(),
    ensures
        sum(sum(to, moved), difference(from, moved)) == sum(to, from),
{
    let rest = difference(from, moved);
    assert(sum(sum(to, moved), rest) == sum(to, sum(moved, rest)));
    assert(sum(moved, rest) == sum(rest, moved));
}

/// The conversion from `S` to `T` is a function of its argument.
pub open spec fn widens<S, T: From<S>>() -> bool {
    <T as FromSpec<S>>::obeys_from_spec()
}

/// What `value` becomes as a `T`.
pub open spec fn widened<S, T: From<S>>(value: S) -> T {
    <T as FromSpec<S>>::from_spec(value)
}

/// The whole number `n`.
pub fn whole<T: Number>(n: u16) -> (r: T)
    requires
        lawful::<T>(),
    ensures
        r == lit::<T>(n),
{
    T::from(n)
}

/// The fraction `a / b`, as close as the type comes to it.
pub fn fraction<T: Number>(a: u16, b: u16) -> (r: T)
    requires
        lawful::<T>(),
        b != 0,
    ensures
        r == frac::<T>(a, b),
{
    assert(lit::<T>(a).div_req(lit::<T>(b)));
    T::from(a) / T::from(b)
}

/// On the unsigned integers the operators are those of whole numbers, wherever the
/// result is one of the type, and they are defined exactly there.
pub proof fn unsigned_compute(a: u64, b: u64)
    ensures
        sums(a, b) <==> a + b <= u64::MAX,
        sums(a, b) ==> sum(a, b) == a + b,
        subtracts(a, b) <==> b <= a,
        subtracts(a, b) ==> difference(a, b) == a - b,
        multiplies(a, b) <==> a * b <= u64::MAX,
        multiplies(a, b) ==> product(a, b) == a * b,
        divides(a, b) <==> b != 0,
        divides(a, b) ==> quotient(a, b) == a / b,
{
}

/// On the unsigned integers the comparisons are those of whole numbers.
pub proof fn unsigned_compare(a: u64, b: u64)
    ensures
        equal(a, b) <==> a == b,
        less(a, b) <==> a < b,
        at_most(a, b) <==> a <= b,
        greater(a, b) <==> a > b,
        at_least(a, b) <==> a >= b,
{
}

/// A small whole number stands for itself, a fraction is its first number divided by
/// its second, and widening keeps the number.
pub proof fn unsigned_constants(n: u16, m: u16, short: u32)
    ensures
        lit::<u64>(n) == n,
        m != 0 ==> frac::<u64>(n, m) == n / m,
        widened::<u32, u64>(short) == short,
{
}

/// Every operation on this type is defined.
///
/// It is a fact about the type. It holds of the floats.
pub open spec fn total<T: Number>() -> bool {
    &&& forall|a: T, b: T| #[trigger] a.add_req(b)
    &&& forall|a: T, b: T| #[trigger] a.sub_req(b)
    &&& forall|a: T, b: T| #[trigger] a.mul_req(b)
    &&& forall|a: T, b: T| #[trigger] a.div_req(b)
}

} // verus!
