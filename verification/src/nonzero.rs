//! Non-zero integer storage for the symbol types.
//!
//! Every symbol stores its index shifted up by one inside a `core::num::NonZero`
//! integer, so that the all-zero bit pattern stays free and `Option<Symbol>`
//! occupies no more space than the symbol itself (the niche optimization).
//!
//! `core::num::NonZero::<T>::{new, get}` are generic over the sealed trait
//! `ZeroablePrimitive`, whose super-trait is private to `core`, so neither
//! `assume_specification` nor a type declaration can reproduce their
//! signatures. Each width therefore gets a wrapper struct of its own holding
//! the std value in a hidden field, with `new` and `get` and the comparison
//! traits exposed as trusted items.

use core::num::NonZero;
use vstd::prelude::*;

verus! {

/// A `u16` that is never zero. Holds a `core::num::NonZero<u16>`,
/// keeping its niche for the layout of `Option` values.
#[verifier::external_body]
pub struct NonZeroU16 {
    inner: NonZero<u16>,
}

/// The integer stored in a [`NonZeroU16`].
pub uninterp spec fn nonzero_u16_value(v: NonZeroU16) -> u16;

/// The unique [`NonZeroU16`] holding a given non-zero integer.
pub uninterp spec fn nonzero_u16_with(n: u16) -> NonZeroU16;

/// Relies on `core::num::NonZero::<u16>::new`: returns a value exactly when
/// the argument is non-zero, and the value holds that argument. `NonZero` is a
/// transparent wrapper, so the result is determined by the argument alone.
#[verifier::external_body]
pub(crate) fn nonzero_u16_new(n: u16) -> (r: Option<NonZeroU16>)
    ensures
        r is Some <==> n != 0,
        r matches Some(v) ==> v == nonzero_u16_with(n) && nonzero_u16_value(v) == n,
{
    NonZero::<u16>::new(n).map(|inner| NonZeroU16 { inner })
}

/// Relies on `core::num::NonZero::<u16>::get`: returns the stored integer,
/// which is never zero.
#[verifier::external_body]
pub(crate) fn nonzero_u16_get(v: NonZeroU16) -> (r: u16)
    ensures
        r == nonzero_u16_value(v),
        r != 0,
{
    v.inner.get()
}

impl Clone for NonZeroU16 {
    /// Relies on `Clone` for `core::num::NonZero` being a plain copy.
    #[verifier::external_body]
    fn clone(&self) -> (r: Self)
        ensures
            r == *self,
    {
        NonZeroU16 { inner: self.inner }
    }
}

impl Copy for NonZeroU16 {

}

impl PartialEq for NonZeroU16 {
    /// Relies on `PartialEq` for `core::num::NonZero`: equal exactly when the
    /// stored integers are equal.
    #[verifier::external_body]
    fn eq(&self, other: &Self) -> (r: bool)
        ensures
            r == (nonzero_u16_value(*self) == nonzero_u16_value(*other)),
    {
        self.inner == other.inner
    }
}

impl Eq for NonZeroU16 {

}

impl PartialOrd for NonZeroU16 {
    /// Relies on `PartialOrd` for `core::num::NonZero`: orders by the stored
    /// integers, so symbol order is index order.
    #[verifier::external_body]
    fn partial_cmp(&self, other: &Self) -> (r: Option<core::cmp::Ordering>)
        ensures
            r is Some,
            r matches Some(o) ==> (o == core::cmp::Ordering::Less <==> nonzero_u16_value(*self)
                < nonzero_u16_value(*other)) && (o == core::cmp::Ordering::Equal
                <==> nonzero_u16_value(*self) == nonzero_u16_value(*other)),
    {
        self.inner.partial_cmp(&other.inner)
    }
}

impl core::hash::Hash for NonZeroU16 {
    /// Relies on `Hash` for `core::num::NonZero`: hashes the stored integer.
    #[verifier::external_body]
    fn hash<H2: core::hash::Hasher>(&self, state: &mut H2) {
        self.inner.hash(state)
    }
}

/// A `u32` that is never zero. Holds a `core::num::NonZero<u32>`,
/// keeping its niche for the layout of `Option` values.
#[verifier::external_body]
pub struct NonZeroU32 {
    inner: NonZero<u32>,
}

/// The integer stored in a [`NonZeroU32`].
pub uninterp spec fn nonzero_u32_value(v: NonZeroU32) -> u32;

/// The unique [`NonZeroU32`] holding a given non-zero integer.
pub uninterp spec fn nonzero_u32_with(n: u32) -> NonZeroU32;

/// Relies on `core::num::NonZero::<u32>::new`: returns a value exactly when
/// the argument is non-zero, and the value holds that argument. `NonZero` is a
/// transparent wrapper, so the result is determined by the argument alone.
#[verifier::external_body]
pub(crate) fn nonzero_u32_new(n: u32) -> (r: Option<NonZeroU32>)
    ensures
        r is Some <==> n != 0,
        r matches Some(v) ==> v == nonzero_u32_with(n) && nonzero_u32_value(v) == n,
{
    NonZero::<u32>::new(n).map(|inner| NonZeroU32 { inner })
}

/// Relies on `core::num::NonZero::<u32>::get`: returns the stored integer,
/// which is never zero.
#[verifier::external_body]
pub(crate) fn nonzero_u32_get(v: NonZeroU32) -> (r: u32)
    ensures
        r == nonzero_u32_value(v),
        r != 0,
{
    v.inner.get()
}

impl Clone for NonZeroU32 {
    /// Relies on `Clone` for `core::num::NonZero` being a plain copy.
    #[verifier::external_body]
    fn clone(&self) -> (r: Self)
        ensures
            r == *self,
    {
        NonZeroU32 { inner: self.inner }
    }
}

impl Copy for NonZeroU32 {

}

impl PartialEq for NonZeroU32 {
    /// Relies on `PartialEq` for `core::num::NonZero`: equal exactly when the
    /// stored integers are equal.
    #[verifier::external_body]
    fn eq(&self, other: &Self) -> (r: bool)
        ensures
            r == (nonzero_u32_value(*self) == nonzero_u32_value(*other)),
    {
        self.inner == other.inner
    }
}

impl Eq for NonZeroU32 {

}

impl PartialOrd for NonZeroU32 {
    /// Relies on `PartialOrd` for `core::num::NonZero`: orders by the stored
    /// integers, so symbol order is index order.
    #[verifier::external_body]
    fn partial_cmp(&self, other: &Self) -> (r: Option<core::cmp::Ordering>)
        ensures
            r is Some,
            r matches Some(o) ==> (o == core::cmp::Ordering::Less <==> nonzero_u32_value(*self)
                < nonzero_u32_value(*other)) && (o == core::cmp::Ordering::Equal
                <==> nonzero_u32_value(*self) == nonzero_u32_value(*other)),
    {
        self.inner.partial_cmp(&other.inner)
    }
}

impl core::hash::Hash for NonZeroU32 {
    /// Relies on `Hash` for `core::num::NonZero`: hashes the stored integer.
    #[verifier::external_body]
    fn hash<H2: core::hash::Hasher>(&self, state: &mut H2) {
        self.inner.hash(state)
    }
}

/// A `usize` that is never zero. Holds a `core::num::NonZero<usize>`,
/// keeping its niche for the layout of `Option` values.
#[verifier::external_body]
pub struct NonZeroUsize {
    inner: NonZero<usize>,
}

/// The integer stored in a [`NonZeroUsize`].
pub uninterp spec fn nonzero_usize_value(v: NonZeroUsize) -> usize;

/// The unique [`NonZeroUsize`] holding a given non-zero integer.
pub uninterp spec fn nonzero_usize_with(n: usize) -> NonZeroUsize;

/// Relies on `core::num::NonZero::<usize>::new`: returns a value exactly when
/// the argument is non-zero, and the value holds that argument. `NonZero` is a
/// transparent wrapper, so the result is determined by the argument alone.
#[verifier::external_body]
pub(crate) fn nonzero_usize_new(n: usize) -> (r: Option<NonZeroUsize>)
    ensures
        r is Some <==> n != 0,
        r matches Some(v) ==> v == nonzero_usize_with(n) && nonzero_usize_value(v) == n,
{
    NonZero::<usize>::new(n).map(|inner| NonZeroUsize { inner })
}

/// Relies on `core::num::NonZero::<usize>::get`: returns the stored integer,
/// which is never zero.
#[verifier::external_body]
pub(crate) fn nonzero_usize_get(v: NonZeroUsize) -> (r: usize)
    ensures
        r == nonzero_usize_value(v),
        r != 0,
{
    v.inner.get()
}

impl Clone for NonZeroUsize {
    /// Relies on `Clone` for `core::num::NonZero` being a plain copy.
    #[verifier::external_body]
    fn clone(&self) -> (r: Self)
        ensures
            r == *self,
    {
        NonZeroUsize { inner: self.inner }
    }
}

impl Copy for NonZeroUsize {

}

impl PartialEq for NonZeroUsize {
    /// Relies on `PartialEq` for `core::num::NonZero`: equal exactly when the
    /// stored integers are equal.
    #[verifier::external_body]
    fn eq(&self, other: &Self) -> (r: bool)
        ensures
            r == (nonzero_usize_value(*self) == nonzero_usize_value(*other)),
    {
        self.inner == other.inner
    }
}

impl Eq for NonZeroUsize {

}

impl PartialOrd for NonZeroUsize {
    /// Relies on `PartialOrd` for `core::num::NonZero`: orders by the stored
    /// integers, so symbol order is index order.
    #[verifier::external_body]
    fn partial_cmp(&self, other: &Self) -> (r: Option<core::cmp::Ordering>)
        ensures
            r is Some,
            r matches Some(o) ==> (o == core::cmp::Ordering::Less <==> nonzero_usize_value(*self)
                < nonzero_usize_value(*other)) && (o == core::cmp::Ordering::Equal
                <==> nonzero_usize_value(*self) == nonzero_usize_value(*other)),
    {
        self.inner.partial_cmp(&other.inner)
    }
}

impl core::hash::Hash for NonZeroUsize {
    /// Relies on `Hash` for `core::num::NonZero`: hashes the stored integer.
    #[verifier::external_body]
    fn hash<H2: core::hash::Hasher>(&self, state: &mut H2) {
        self.inner.hash(state)
    }
}

} // verus!
