//! A label that is bound to the horizontal axis by its type.

use crate::command::{
    one_command, single, GnuCommand, GnuCommandFactory, GnuCommandFactoryResult, Outcome,
};
use crate::dimension::{Dimension, X};
use crate::label::label_line;
use vstd::prelude::*;
use vstd::std_specs::convert::FromSpecImpl;
use vstd::string::*;

verus! {

#[derive(PartialEq, Eq, Debug)]
pub struct XLabel(String);

impl View for XLabel {
    type V = Seq<char>;

    closed spec fn view(&self) -> Seq<char> {
        self.0@
    }
}

impl Clone for XLabel {
    fn clone(&self) -> (result: Self)
        ensures
            result@ == self@,
    {
        XLabel(self.0.clone())
    }
}

impl XLabel {
    pub fn new(value: &str) -> (result: Self)
        ensures
            result@ == value@,
    {
        XLabel(value.to_owned())
    }

    /// The text of the label.
    pub fn text(&self) -> (result: &str)
        ensures
            result@ == self@,
    {
        self.0.as_str()
    }

    /// The one command that sets this label.
    pub fn as_command(&self) -> (result: GnuCommand)
        ensures
            result@ == label_line(X::keyword(), self@),
    {
        let mut line = String::from_str("set ");
        line.append(X::name());
        line.append("label \"");
        line.append(self.0.as_str());
        line.append("\"");
        GnuCommand::new(line.as_str())
    }
}

impl GnuCommandFactory for XLabel {
    open spec fn commands(&self) -> Outcome {
        single(label_line(X::keyword(), self@))
    }

    fn as_commands(&self) -> (result: GnuCommandFactoryResult) {
        Ok(one_command(self.as_command()))
    }
}

impl<'a> From<&'a str> for XLabel {
    fn from(value: &'a str) -> (result: Self)
        ensures
            result@ == value@,
    {
        XLabel::new(value)
    }
}

impl<'a> FromSpecImpl<&'a str> for XLabel {
    open spec fn obeys_from_spec() -> bool {
        false
    }

    open spec fn from_spec(v: &'a str) -> Self {
        arbitrary()
    }
}

} // verus!
