//! A label that is bound to the vertical axis by its type.

use crate::command::{
    one_command, single, GnuCommand, GnuCommandFactory, GnuCommandFactoryResult, Outcome,
};
use crate::dimension::{Dimension, Y};
use crate::label::label_line;
use vstd::prelude::*;
use vstd::std_specs::convert::FromSpecImpl;
use vstd::string::*;

verus! {

#[derive(PartialEq, Eq, Debug)]
pub struct YLabel(String);

impl View for YLabel {
    type V = Seq<char>;

    closed spec fn view(&self) -> Seq<char> {
        self.0@
    }
}

impl Clone for YLabel {
    fn clone(&self) -> (result: Self)
        ensures
            result@ == self@,
    {
        YLabel(self.0.clone())
    }
}

impl YLabel {
    pub fn new(value: &str) -> (result: Self)
        ensures
            result@ == value@,
    {
        YLabel(value.to_owned())
    }

    /// The text of the label.
    pub fn text(&self) -> (result: &str)
        ensures
            result@ == self@,
    {
        self.0.as_str()
    }

    /// The one command that sets this label.
    pub fn as_command(&self) -> (result: GnuCommand)
        ensures
            result@ == label_line(Y::keyword(), self@),
    {
        let mut line = String::from_str("set ");
        line.append(Y::name());
        line.append("label \"");
        line.append(self.0.as_str());
        line.append("\"");
        GnuCommand::new(line.as_str())
    }
}

impl GnuCommandFactory for YLabel {
    open spec fn commands(&self) -> Outcome {
        single(label_line(Y::keyword(), self@))
    }

    fn as_commands(&self) -> (result: GnuCommandFactoryResult) {
        Ok(one_command(self.as_command()))
    }
}

impl<'a> From<&'a str> for YLabel {
    fn from(value: &'a str) -> (result: Self)
        ensures
            result@ == value@,
    {
        YLabel::new(value)
    }
}

impl<'a> FromSpecImpl<&'a str> for YLabel {
    open spec fn obeys_from_spec() -> bool {
        false
    }

    open spec fn from_spec(v: &'a str) -> Self {
        arbitrary()
    }
}

} // verus!
