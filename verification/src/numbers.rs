//! The numbers that come from the `num` crates, and what is taken for granted
//! of them.
use num_bigint::BigInt;
use num_complex::Complex;
use num_traits::{One, Zero};
use vstd::prelude::*;

verus! {

/// `num_bigint::BigInt`, an integer of any size. Nothing is known of its
/// fields; `bigint_value` says which integer it holds.
#[verifier::external_type_specification]
#[verifier::external_body]
pub struct ExBigInt(BigInt);

/// `num_complex::Complex`, a pair of numbers that is only carried along.
#[verifier::external_type_specification]
#[verifier::external_body]
#[verifier::reject_recursive_types(T)]
pub struct ExComplex<T>(Complex<T>);

/// The integer that a `num_bigint::BigInt` holds.
pub uninterp spec fn bigint_value(n: BigInt) -> int;

/// `num_traits::One::one` for `num_bigint::BigInt` makes the integer 1.
pub assume_specification[ <BigInt as One>::one ]() -> (r: BigInt)
    ensures
        bigint_value(r) == 1,
;

/// `num_traits::Zero::zero` for `num_bigint::BigInt` makes the integer 0.
pub assume_specification[ <BigInt as Zero>::zero ]() -> (r: BigInt)
    ensures
        bigint_value(r) == 0,
;

/// `Clone::clone` for `num_bigint::BigInt` makes a copy that holds the same
/// integer.
pub assume_specification[ <BigInt as Clone>::clone ](n: &BigInt) -> (r: BigInt)
    ensures
        bigint_value(r) == bigint_value(*n),
;

/// `From::from` for `num_bigint::BigInt` and `i8` makes the integer that its
/// argument is. `PyInt::new` reaches it through `Into`.
pub assume_specification[ <BigInt as std::convert::From<i8>>::from ](n: i8) -> (r: BigInt)
    ensures
        bigint_value(r) == n,
;

/// `From::from` for `num_bigint::BigInt` and `i16` makes the integer that its
/// argument is. `PyInt::new` reaches it through `Into`.
pub assume_specification[ <BigInt as std::convert::From<i16>>::from ](n: i16) -> (r: BigInt)
    ensures
        bigint_value(r) == n,
;

/// `From::from` for `num_bigint::BigInt` and `i32` makes the integer that its
/// argument is. `PyInt::new` reaches it through `Into`.
pub assume_specification[ <BigInt as std::convert::From<i32>>::from ](n: i32) -> (r: BigInt)
    ensures
        bigint_value(r) == n,
;

/// `From::from` for `num_bigint::BigInt` and `i64` makes the integer that its
/// argument is. `PyInt::new` reaches it through `Into`.
pub assume_specification[ <BigInt as std::convert::From<i64>>::from ](n: i64) -> (r: BigInt)
    ensures
        bigint_value(r) == n,
;

/// `From::from` for `num_bigint::BigInt` and `i128` makes the integer that its
/// argument is. `PyInt::new` reaches it through `Into`.
pub assume_specification[ <BigInt as std::convert::From<i128>>::from ](n: i128) -> (r: BigInt)
    ensures
        bigint_value(r) == n,
;

/// `From::from` for `num_bigint::BigInt` and `isize` makes the integer that its
/// argument is. `PyInt::new` reaches it through `Into`.
pub assume_specification[ <BigInt as std::convert::From<isize>>::from ](n: isize) -> (r: BigInt)
    ensures
        bigint_value(r) == n,
;

/// `From::from` for `num_bigint::BigInt` and `u8` makes the integer that its
/// argument is. `PyInt::new` reaches it through `Into`.
pub assume_specification[ <BigInt as std::convert::From<u8>>::from ](n: u8) -> (r: BigInt)
    ensures
        bigint_value(r) == n,
;

/// `From::from` for `num_bigint::BigInt` and `u16` makes the integer that its
/// argument is. `PyInt::new` reaches it through `Into`.
pub assume_specification[ <BigInt as std::convert::From<u16>>::from ](n: u16) -> (r: BigInt)
    ensures
        bigint_value(r) == n,
;

/// `From::from` for `num_bigint::BigInt` and `u32` makes the integer that its
/// argument is. `PyInt::new` reaches it through `Into`.
pub assume_specification[ <BigInt as std::convert::From<u32>>::from ](n: u32) -> (r: BigInt)
    ensures
        bigint_value(r) == n,
;

/// `From::from` for `num_bigint::BigInt` and `u64` makes the integer that its
/// argument is. `PyInt::new` reaches it through `Into`.
pub assume_specification[ <BigInt as std::convert::From<u64>>::from ](n: u64) -> (r: BigInt)
    ensures
        bigint_value(r) == n,
;

/// `From::from` for `num_bigint::BigInt` and `u128` makes the integer that its
/// argument is. `PyInt::new` reaches it through `Into`.
pub assume_specification[ <BigInt as std::convert::From<u128>>::from ](n: u128) -> (r: BigInt)
    ensures
        bigint_value(r) == n,
;

/// `From::from` for `num_bigint::BigInt` and `usize` makes the integer that its
/// argument is. `PyInt::new` reaches it through `Into`.
pub assume_specification[ <BigInt as std::convert::From<usize>>::from ](n: usize) -> (r: BigInt)
    ensures
        bigint_value(r) == n,
;

/// `std::convert::From::from` from a type to itself hands its argument back.
pub assume_specification<Val>[ <Val as std::convert::From<Val>>::from ](t: Val) -> (r: Val)
    ensures
        r == t,
;

} // verus!
