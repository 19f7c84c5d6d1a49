//! The label along an axis.

use crate::command::{
    one_command, single, GnuCommand, GnuCommandFactory, GnuCommandFactoryResult, Outcome,
};
use crate::dimension::Dimension;
use crate::maybe::Maybe;
use crate::required::Required;
use std::marker::PhantomData;
use vstd::prelude::*;
use vstd::std_specs::convert::FromSpecImpl;
use vstd::string::*;

verus! {

/// A label for the axis that `D` marks.
#[derive(PartialEq, Eq, Debug)]
pub struct Label<D> where D: Dimension {
    text: String,
    dimension: PhantomData<D>,
}

impl<D: Dimension> View for Label<D> {
    type V = Seq<char>;

    closed spec fn view(&self) -> Seq<char> {
        self.text@
    }
}

impl<D: Dimension> Clone for Label<D> {
    fn clone(&self) -> (result: Self)
        ensures
            result@ == self@,
    {
        Label { text: self.text.clone(), dimension: PhantomData }
    }
}

/// The script line that labels the axis with keyword `axis` by `text`.
pub open spec fn label_line(axis: Seq<char>, text: Seq<char>) -> Seq<char> {
    "set "@ + axis + "label \""@ + text + "\""@
}

impl<D> Label<D> where D: Dimension {
    pub fn new(text: &str) -> (result: Self)
        ensures
            result@ == text@,
    {
        Label { text: text.to_owned(), dimension: PhantomData }
    }

    pub fn from(text: &str) -> (result: Self)
        ensures
            result@ == text@,
    {
        Label::new(text)
    }

    /// The text of the label.
    pub fn text(&self) -> (result: &str)
        ensures
            result@ == self@,
    {
        self.text.as_str()
    }
}

impl<'a, D> From<&'a str> for Label<D> where D: Dimension {
    fn from(value: &'a str) -> (result: Self)
        ensures
            result@ == value@,
    {
        Label::new(value)
    }
}

impl<'a, D> FromSpecImpl<&'a str> for Label<D> where D: Dimension {
    open spec fn obeys_from_spec() -> bool {
        false
    }

    open spec fn from_spec(v: &'a str) -> Self {
        arbitrary()
    }
}

impl<D> From<Label<D>> for Maybe<Label<D>> where D: Dimension {
    fn from(value: Label<D>) -> (result: Self) {
        Maybe::Value(value)
    }
}

impl<D> FromSpecImpl<Label<D>> for Maybe<Label<D>> where D: Dimension {
    open spec fn obeys_from_spec() -> bool {
        true
    }

    open spec fn from_spec(v: Label<D>) -> Self {
        Maybe::Value(v)
    }
}

impl<D> From<Label<D>> for Required<Label<D>> where D: Dimension {
    fn from(label: Label<D>) -> (result: Self) {
        Required::value(label)
    }
}

impl<D> FromSpecImpl<Label<D>> for Required<Label<D>> where D: Dimension {
    open spec fn obeys_from_spec() -> bool {
        true
    }

    open spec fn from_spec(v: Label<D>) -> Self {
        Required::Value(v)
    }
}

impl<D> GnuCommandFactory for Label<D> where D: Dimension {
    open spec fn commands(&self) -> Outcome {
        single(label_line(D::keyword(), self@))
    }

    fn as_commands(&self) -> (result: GnuCommandFactoryResult) {
        let mut line = String::from_str("set ");
        line.append(D::name());
        line.append("label \"");
        line.append(self.text.as_str());
        line.append("\"");
        Ok(one_command(GnuCommand::new(line.as_str())))
    }
}

} // verus!
