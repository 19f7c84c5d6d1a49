//! The title above a plot.

use crate::command::{
    one_command, single, GnuCommand, GnuCommandFactory, GnuCommandFactoryResult, Outcome,
};
use vstd::prelude::*;
use vstd::std_specs::convert::FromSpecImpl;
use vstd::string::*;

verus! {

#[derive(PartialEq, Eq, Debug)]
pub struct Title(String);

impl View for Title {
    type V = Seq<char>;

    closed spec fn view(&self) -> Seq<char> {
        self.0@
    }
}

/// The script line that sets the title to `text`.
pub open spec fn title_line(text: Seq<char>) -> Seq<char> {
    "set title '"@ + text + "'"@
}

impl Clone for Title {
    fn clone(&self) -> (result: Self)
        ensures
            result@ == self@,
    {
        Title(self.0.clone())
    }
}

impl Title {
    pub fn new(value: &str) -> (result: Self)
        ensures
            result@ == value@,
    {
        Title(value.to_owned())
    }

    /// The text of the title.
    pub fn text(&self) -> (result: &str)
        ensures
            result@ == self@,
    {
        self.0.as_str()
    }
}

impl GnuCommandFactory for Title {
    open spec fn commands(&self) -> Outcome {
        single(title_line(self@))
    }

    fn as_commands(&self) -> (result: GnuCommandFactoryResult) {
        let mut line = String::from_str("set title '");
        line.append(self.0.as_str());
        line.append("'");
        Ok(one_command(GnuCommand::new(line.as_str())))
    }
}

impl<'a> From<&'a str> for Title {
    fn from(value: &'a str) -> (result: Self)
        ensures
            result@ == value@,
    {
        Title::new(value)
    }
}

impl<'a> FromSpecImpl<&'a str> for Title {
    open spec fn obeys_from_spec() -> bool {
        false
    }

    open spec fn from_spec(v: &'a str) -> Self {
        arbitrary()
    }
}

} // verus!
