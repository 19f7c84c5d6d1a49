//! A value that must be set before commands can be generated.

use crate::command::{
    Failure, GnuCommandFactory, GnuCommandFactoryError, GnuCommandFactoryResult, Outcome,
};
use vstd::prelude::*;
use vstd::std_specs::convert::{FromSpec, FromSpecImpl, IntoSpec};

verus! {

/// A field that has to be filled in: generating commands while it is
/// `Missing` is an error, never a silent omission.
#[derive(Debug, PartialEq, Clone, Eq)]
pub enum Required<T> {
    Missing,
    Value(T),
}

/// The description carried by the failure of an unset required value.
pub open spec fn missing_value_text() -> Seq<char> {
    "A required value is missing, but needs a value when producing GnuCommands"@
}

impl<T> Required<T> {
    pub fn missing() -> (result: Self)
        ensures
            result == Required::<T>::Missing,
    {
        Required::Missing
    }

    pub fn value(value: T) -> (result: Self)
        ensures
            result == Required::Value(value),
    {
        Required::Value(value)
    }

    /// Replaces whatever is held by `value`, converted into `T`.
    pub fn update<S>(&mut self, value: S) where S: Into<T>
        ensures
            *final(self) is Value,
            call_ensures(S::into, (value,), final(self)->Value_0),
            S::obeys_into_spec() ==> *final(self) == Required::Value(value.into_spec()),
    {
        *self = Required::Value(value.into());
    }

    /// The value held. There must be one.
    pub fn unwrap(self) -> (result: T)
        requires
            self is Value,
        ensures
            self == Required::Value(result),
    {
        match self {
            Required::Missing => vstd::pervasive::unreached(),
            Required::Value(value) => value,
        }
    }

    /// Access to the value held, for changing it in place. There must be one.
    pub fn get_mut_ref(&mut self) -> (result: &mut T)
        requires
            *old(self) is Value,
        ensures
            Required::Value(*result) == *old(self),
            *final(self) == Required::Value(*final(result)),
    {
        match self {
            Required::Missing => vstd::pervasive::unreached(),
            Required::Value(value) => value,
        }
    }
}

impl<T> Default for Required<T> {
    fn default() -> (result: Self)
        ensures
            result == Required::<T>::Missing,
    {
        Required::Missing
    }
}

impl<T: GnuCommandFactory> GnuCommandFactory for Required<T> {
    open spec fn commands(&self) -> Outcome {
        match self {
            Required::Missing => Err(Failure::RequiredValueMissing(missing_value_text())),
            Required::Value(value) => value.commands(),
        }
    }

    fn as_commands(&self) -> (result: GnuCommandFactoryResult) {
        match self {
            Required::Missing => Err(
                GnuCommandFactoryError::required_value_missing(
                    "A required value is missing, but needs a value when producing GnuCommands",
                ),
            ),
            Required::Value(value) => value.as_commands(),
        }
    }
}

impl<'a, T> From<&'a str> for Required<T> where T: From<&'a str> {
    /// Holds what `T` makes of `value`.
    fn from(value: &'a str) -> (result: Self)
        ensures
            result is Value,
            call_ensures(T::from, (value,), result->Value_0),
    {
        Required::Value(T::from(value))
    }
}

impl<'a, T> FromSpecImpl<&'a str> for Required<T> where T: From<&'a str> {
    open spec fn obeys_from_spec() -> bool {
        T::obeys_from_spec()
    }

    open spec fn from_spec(v: &'a str) -> Self {
        Required::Value(T::from_spec(v))
    }
}

} // verus!
