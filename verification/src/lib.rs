//! A compile-time guard against leaking sensitive values.
//!
//! The crate has two pieces and no runtime logic:
//!
//! - [`NonSensitive`], a marker trait for types whose values are safe to hand
//!   to non-sensitive-only contexts (log lines, public messages, and the
//!   like). Ordinary data carries the marker; a composite type carries it
//!   only when every one of its parts does.
//! - [`SensitiveData`], a wrapper that declines the marker for whatever value
//!   it holds. A password stored as `SensitiveData<String>` cannot be passed
//!   where a `NonSensitive` argument is demanded, and neither can any type
//!   that embeds such a wrapper, because no `NonSensitive` impl exists for
//!   the wrapper and the structural impls below only propagate the marker
//!   through parts that themselves carry it. The rejection happens in the
//!   type checker; nothing is checked or paid for at run time.
//!
//! The wrapper itself is transparent for *use*: it is constructed from a
//! value, hands out shared and exclusive references to it, can be cloned or
//! copied when the inner type allows, and is consumed by [`SensitiveData::unwrap`],
//! which returns the very value that was put in. None of these operations
//! restores the marker: every value of the wrapper type lacks it.

use vstd::prelude::*;

verus! {

/// Marker for values that are safe to use where non-sensitive data is
/// expected.
///
/// The marker is purely structural: the impls below grant it to the ordinary
/// building blocks of data, and to composites exactly when all of their
/// parts carry it. [`SensitiveData`] has no impl, so a wrapper value — or any
/// composite holding one — never satisfies a `NonSensitive` bound. A type of
/// your own made only of marked parts can opt in with an empty impl.
pub trait NonSensitive {}

impl NonSensitive for bool {}

impl NonSensitive for char {}

impl NonSensitive for u8 {}

impl NonSensitive for u16 {}

impl NonSensitive for u32 {}

impl NonSensitive for u64 {}

impl NonSensitive for u128 {}

impl NonSensitive for usize {}

impl NonSensitive for i8 {}

impl NonSensitive for i16 {}

impl NonSensitive for i32 {}

impl NonSensitive for i64 {}

impl NonSensitive for i128 {}

impl NonSensitive for isize {}

impl NonSensitive for () {}

impl NonSensitive for String {}

impl<'a> NonSensitive for &'a str {}

impl<'a, T: NonSensitive> NonSensitive for &'a T {}

impl<T: NonSensitive> NonSensitive for Vec<T> {}

impl<T: NonSensitive> NonSensitive for Option<T> {}

impl<T: NonSensitive> NonSensitive for Box<T> {}

impl<A: NonSensitive, B: NonSensitive> NonSensitive for (A, B) {}

impl<A: NonSensitive, B: NonSensitive, C: NonSensitive> NonSensitive for (A, B, C) {}

/// A wrapper that marks the value it holds as sensitive.
///
/// `SensitiveData<T>` stores exactly one `T` and nothing else. It does not
/// implement [`NonSensitive`], whatever `T` is, so the type checker rejects
/// any attempt to use the wrapped value — or a composite containing it —
/// where that marker is required. The contained value is still fully usable
/// through [`SensitiveData::get`], [`SensitiveData::get_mut`] and
/// [`SensitiveData::unwrap`]; using it never restores the marker, since the
/// marker belongs to types, not to values.
pub struct SensitiveData<T> {
    value: T,
}

impl<T> View for SensitiveData<T> {
    type V = T;

    /// A wrapper is modelled by the one value it holds.
    closed spec fn view(&self) -> T {
        self.value
    }
}

impl<T> SensitiveData<T> {
    /// Wraps `value`, taking ownership of it.
    ///
    /// Always succeeds; the new wrapper holds exactly `value`.
    pub fn new(value: T) -> (result: Self)
        ensures
            result@ == value,
    {
        SensitiveData { value }
    }

    /// Consumes the wrapper and returns the contained value.
    ///
    /// Always succeeds; the result is exactly the value the wrapper held.
    pub fn unwrap(self) -> (result: T)
        ensures
            result == self@,
    {
        self.value
    }

    /// Borrows the contained value for reading.
    pub fn get(&self) -> (result: &T)
        ensures
            *result == self@,
    {
        &self.value
    }

    /// Borrows the contained value for mutation.
    ///
    /// Whatever the caller leaves behind the returned reference is what the
    /// wrapper holds afterwards.
    pub fn get_mut(&mut self) -> (result: &mut T)
        ensures
            *result == old(self)@,
            final(self)@ == *final(result),
    {
        &mut self.value
    }
}

impl<T: Clone> Clone for SensitiveData<T> {
    /// The duplicate is again a wrapper, holding a clone of the inner value:
    /// its contents are an input/output pair of `T::clone`.
    fn clone(&self) -> (result: Self)
        ensures
            cloned::<T>(self@, result@),
    {
        SensitiveData { value: self.value.clone() }
    }
}

impl<T: Copy> Copy for SensitiveData<T> {}

/// Stands for a non-sensitive-only context: the bound admits only types
/// carrying the [`NonSensitive`] marker, and the value passes through
/// unchanged. Calls with a wrapped value, or with any composite embedding
/// one, are rejected by the type checker.
pub fn require_non_sensitive<T: NonSensitive>(value: T) -> (result: T)
    ensures
        result == value,
{
    value
}

/// Round trip: wrapping a value and unwrapping the result yields that same
/// value, for every value of every type.
pub fn wrap_then_unwrap<T>(value: T) -> (result: T)
    ensures
        result == value,
{
    SensitiveData::new(value).unwrap()
}

} // verus!
