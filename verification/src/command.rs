//! The command value, the failure taxonomy and the command-factory capability.

use std::collections::VecDeque;
use vstd::prelude::*;
use vstd::std_specs::cmp::PartialEqSpecImpl;
use vstd::string::*;

verus! {

/// One line of a gnuplot script. It is plain text: nothing about it is
/// validated, and two commands are the same when their texts are.
#[derive(Debug)]
pub struct GnuCommand(String);

impl View for GnuCommand {
    type V = Seq<char>;

    closed spec fn view(&self) -> Seq<char> {
        self.0@
    }
}

impl Clone for GnuCommand {
    fn clone(&self) -> (result: Self)
        ensures
            result@ == self@,
    {
        GnuCommand(self.0.clone())
    }
}

impl PartialEq for GnuCommand {
    fn eq(&self, other: &Self) -> (result: bool) {
        self.0 == other.0
    }
}

impl PartialEqSpecImpl for GnuCommand {
    open spec fn obeys_eq_spec() -> bool {
        true
    }

    /// Two commands are equal when their texts are.
    open spec fn eq_spec(&self, other: &Self) -> bool {
        self@ == other@
    }
}

impl GnuCommand {
    /// Wraps `command` as a script line.
    pub fn new(command: &str) -> (result: Self)
        ensures
            result@ == command@,
    {
        GnuCommand(command.to_owned())
    }

    /// The text of the line, as it is sent to gnuplot.
    pub fn to_string(&self) -> (text: String)
        ensures
            text@ == self@,
    {
        self.0.clone()
    }

    /// Gives up the command for its text.
    pub fn into_string(self) -> (text: String)
        ensures
            text@ == self@,
    {
        self.0
    }
}

/// Why a value could not be turned into commands.
#[derive(Debug, PartialEq)]
pub enum GnuCommandFactoryError {
    /// A required value was never set.
    RequiredValueMissing(String),
    /// Data could not be written for gnuplot to read.
    IOError(String),
    /// The value cannot be phrased as a well-formed command.
    Message(String),
}

/// The mathematical content of a [`GnuCommandFactoryError`]: its kind and the
/// characters of its description.
pub ghost enum Failure {
    RequiredValueMissing(Seq<char>),
    IOError(Seq<char>),
    Message(Seq<char>),
}

impl View for GnuCommandFactoryError {
    type V = Failure;

    open spec fn view(&self) -> Failure {
        match self {
            GnuCommandFactoryError::RequiredValueMissing(msg) => Failure::RequiredValueMissing(
                msg@,
            ),
            GnuCommandFactoryError::IOError(msg) => Failure::IOError(msg@),
            GnuCommandFactoryError::Message(msg) => Failure::Message(msg@),
        }
    }
}

impl Clone for GnuCommandFactoryError {
    fn clone(&self) -> (result: Self)
        ensures
            result@ == self@,
    {
        match self {
            GnuCommandFactoryError::RequiredValueMissing(msg) => {
                GnuCommandFactoryError::RequiredValueMissing(msg.clone())
            },
            GnuCommandFactoryError::IOError(msg) => GnuCommandFactoryError::IOError(msg.clone()),
            GnuCommandFactoryError::Message(msg) => GnuCommandFactoryError::Message(msg.clone()),
        }
    }
}

impl GnuCommandFactoryError {
    pub fn required_value_missing(msg: &str) -> (error: GnuCommandFactoryError)
        ensures
            error@ == Failure::RequiredValueMissing(msg@),
    {
        GnuCommandFactoryError::RequiredValueMissing(msg.to_owned())
    }

    pub fn io_error(msg: &str) -> (error: GnuCommandFactoryError)
        ensures
            error@ == Failure::IOError(msg@),
    {
        GnuCommandFactoryError::IOError(msg.to_owned())
    }

    pub fn message(msg: &str) -> (error: GnuCommandFactoryError)
        ensures
            error@ == Failure::Message(msg@),
    {
        GnuCommandFactoryError::Message(msg.to_owned())
    }

    /// The description that the error carries, whatever its kind, as held.
    pub open spec fn text(self) -> String {
        match self {
            GnuCommandFactoryError::RequiredValueMissing(msg) => msg,
            GnuCommandFactoryError::IOError(msg) => msg,
            GnuCommandFactoryError::Message(msg) => msg,
        }
    }

    /// Gives up the error for its description.
    pub fn into_string(self) -> (text: String)
        ensures
            text == self.text(),
            text@ == description(self@),
    {
        match self {
            GnuCommandFactoryError::RequiredValueMissing(msg) => msg,
            GnuCommandFactoryError::IOError(msg) => msg,
            GnuCommandFactoryError::Message(msg) => msg,
        }
    }

    /// The description that the error carries, whatever its kind.
    pub fn to_string(&self) -> (text: String)
        ensures
            text@ == description(self@),
    {
        match self {
            GnuCommandFactoryError::RequiredValueMissing(msg) => msg.clone(),
            GnuCommandFactoryError::IOError(msg) => msg.clone(),
            GnuCommandFactoryError::Message(msg) => msg.clone(),
        }
    }
}

/// The description inside a failure.
pub open spec fn description(failure: Failure) -> Seq<char> {
    match failure {
        Failure::RequiredValueMissing(msg) => msg,
        Failure::IOError(msg) => msg,
        Failure::Message(msg) => msg,
    }
}

/// What command generation yields, as mathematics: the command texts in
/// script order, or the failure.
pub type Outcome = Result<Seq<Seq<char>>, Failure>;

pub type GnuCommandFactoryResult = Result<VecDeque<GnuCommand>, GnuCommandFactoryError>;

/// The texts of a run of commands, in the same order.
pub open spec fn texts(commands: Seq<GnuCommand>) -> Seq<Seq<char>> {
    Seq::new(commands.len(), |i: int| commands[i]@)
}

/// The outcome that an executable result stands for.
pub open spec fn outcome(result: GnuCommandFactoryResult) -> Outcome {
    match result {
        Ok(commands) => Ok(texts(commands@)),
        Err(error) => Err(error@),
    }
}

/// The capability to derive script commands from a value.
///
/// `commands` is the value's meaning; `as_commands` computes it. Because the
/// meaning is a function of the value alone, generating twice from an
/// unchanged value gives the same commands twice.
pub trait GnuCommandFactory {
    /// The commands this value stands for, or the failure it reports. Every
    /// verified implementation says here what it generates; left as it is,
    /// it says nothing, and nothing can then be proved of `as_commands`.
    open spec fn commands(&self) -> Outcome {
        arbitrary()
    }

    fn as_commands(&self) -> (result: GnuCommandFactoryResult)
        ensures
            outcome(result) == self.commands(),
    ;
}

/// The outcome of a value with nothing to say.
pub open spec fn nothing() -> Outcome {
    Ok(Seq::empty())
}

/// The outcome of a value that yields the single command `text`.
pub open spec fn single(text: Seq<char>) -> Outcome {
    Ok(seq![text])
}

/// A queue that holds `command` and nothing else.
pub fn one_command(command: GnuCommand) -> (queue: VecDeque<GnuCommand>)
    ensures
        texts(queue@) == seq![command@],
{
    let mut queue: VecDeque<GnuCommand> = VecDeque::new();
    queue.push_back(command);
    assert(texts(queue@) =~= seq![command@]);
    queue
}

} // verus!
