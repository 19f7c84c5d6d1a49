//! A value that may be left out.

use crate::command::{
    nothing, texts, GnuCommand, GnuCommandFactory, GnuCommandFactoryResult, Outcome,
};
use std::collections::VecDeque;
use vstd::prelude::*;
use vstd::std_specs::convert::{FromSpec, FromSpecImpl, IntoSpec};

verus! {

/// A field that may stay empty: while it is `Nothing` it contributes no
/// command, and that is no error.
#[derive(Debug, Clone, Copy, PartialEq, Eq)]
pub enum Maybe<T> {
    Value(T),
    Nothing,
}

impl<T> Maybe<T> {
    pub fn value(value: T) -> (result: Self)
        ensures
            result == Maybe::Value(value),
    {
        Maybe::Value(value)
    }

    /// Replaces whatever is held by `value`, converted into `T`.
    pub fn update<S>(&mut self, value: S) where S: Into<T>
        ensures
            *final(self) is Value,
            call_ensures(S::into, (value,), final(self)->Value_0),
            S::obeys_into_spec() ==> *final(self) == Maybe::Value(value.into_spec()),
    {
        *self = Maybe::Value(value.into());
    }

    /// The value held. There must be one.
    pub fn unwrap(self) -> (result: T)
        requires
            self is Value,
        ensures
            self == Maybe::Value(result),
    {
        match self {
            Maybe::Value(value) => value,
            Maybe::Nothing => vstd::pervasive::unreached(),
        }
    }
}

impl<T> Default for Maybe<T> {
    fn default() -> (result: Self)
        ensures
            result == Maybe::<T>::Nothing,
    {
        Maybe::Nothing
    }
}

impl<T: GnuCommandFactory> GnuCommandFactory for Maybe<T> {
    open spec fn commands(&self) -> Outcome {
        match self {
            Maybe::Nothing => nothing(),
            Maybe::Value(value) => value.commands(),
        }
    }

    fn as_commands(&self) -> (result: GnuCommandFactoryResult) {
        match self {
            Maybe::Nothing => {
                let queue: VecDeque<GnuCommand> = VecDeque::new();
                assert(texts(queue@) =~= Seq::<Seq<char>>::empty());
                Ok(queue)
            },
            Maybe::Value(value) => value.as_commands(),
        }
    }
}

impl<'a, T> From<&'a str> for Maybe<T> where T: From<&'a str> {
    /// Holds what `T` makes of `value`.
    fn from(value: &'a str) -> (result: Self)
        ensures
            result is Value,
            call_ensures(T::from, (value,), result->Value_0),
    {
        Maybe::Value(T::from(value))
    }
}

impl<'a, T> FromSpecImpl<&'a str> for Maybe<T> where T: From<&'a str> {
    open spec fn obeys_from_spec() -> bool {
        T::obeys_from_spec()
    }

    open spec fn from_spec(v: &'a str) -> Self {
        Maybe::Value(T::from_spec(v))
    }
}

} // verus!
