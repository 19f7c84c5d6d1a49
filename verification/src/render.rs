//! Rendering: from commands to the script that gnuplot reads, and the course
//! of one run of gnuplot.
//!
//! Running gnuplot is the caller's part. What is decided here is what the
//! script says and what follows from each thing that can happen on the way:
//! [`Render::step`] takes the state of a run and the event that the caller
//! reports, and gives the next state and what to do next.

use crate::command::{
    description, outcome, texts, GnuCommand, GnuCommandFactory, GnuCommandFactoryError,
    GnuCommandFactoryResult, Outcome,
};
use std::collections::VecDeque;
use vstd::prelude::*;
use vstd::std_specs::convert::FromSpecImpl;
use vstd::string::*;

verus! {

/// The ways in which rendering can fail. They tell of the exchange with
/// gnuplot only: a script that gnuplot does not understand is no failure
/// here.
#[derive(Debug, PartialEq)]
pub enum RenderError {
    /// The commands could not be generated; the text says why.
    CommandGenerationFailed(String),
    /// The script could not be written to gnuplot's input.
    WritingCommandFailed,
    /// gnuplot could not be started.
    GnuSpawnFailed,
    /// gnuplot was started, but its input could not be reached.
    GnuSTDINNotAccessible,
    /// Waiting for gnuplot to finish failed.
    WaitingForGnuPlotFailed,
}

/// The mathematical content of a [`RenderError`].
pub ghost enum RenderFailure {
    CommandGenerationFailed(Seq<char>),
    WritingCommandFailed,
    GnuSpawnFailed,
    GnuSTDINNotAccessible,
    WaitingForGnuPlotFailed,
}

impl View for RenderError {
    type V = RenderFailure;

    open spec fn view(&self) -> RenderFailure {
        match self {
            RenderError::CommandGenerationFailed(msg) => RenderFailure::CommandGenerationFailed(
                msg@,
            ),
            RenderError::WritingCommandFailed => RenderFailure::WritingCommandFailed,
            RenderError::GnuSpawnFailed => RenderFailure::GnuSpawnFailed,
            RenderError::GnuSTDINNotAccessible => RenderFailure::GnuSTDINNotAccessible,
            RenderError::WaitingForGnuPlotFailed => RenderFailure::WaitingForGnuPlotFailed,
        }
    }
}

impl Clone for RenderError {
    fn clone(&self) -> (result: Self)
        ensures
            result@ == self@,
    {
        match self {
            RenderError::CommandGenerationFailed(msg) => RenderError::CommandGenerationFailed(
                msg.clone(),
            ),
            RenderError::WritingCommandFailed => RenderError::WritingCommandFailed,
            RenderError::GnuSpawnFailed => RenderError::GnuSpawnFailed,
            RenderError::GnuSTDINNotAccessible => RenderError::GnuSTDINNotAccessible,
            RenderError::WaitingForGnuPlotFailed => RenderError::WaitingForGnuPlotFailed,
        }
    }
}

/// What a render failure says of itself.
pub open spec fn failure_text(failure: RenderFailure) -> Seq<char> {
    match failure {
        RenderFailure::CommandGenerationFailed(msg) => "Command generation failed: "@ + msg,
        RenderFailure::WritingCommandFailed => "Failed to `write` command to GnuPlot"@,
        RenderFailure::GnuSpawnFailed => "Failed to spawn GnuPlot. Verify it is correctly installed and available"@,
        RenderFailure::GnuSTDINNotAccessible => "GnuPlot STDIN cannot be accessed"@,
        RenderFailure::WaitingForGnuPlotFailed => "Waiting for Gnu Plot failed. Check your command syntax for errors."@,
    }
}

impl RenderError {
    /// The failure in words.
    pub fn to_string(&self) -> (text: String)
        ensures
            text@ == failure_text(self@),
    {
        match self {
            RenderError::CommandGenerationFailed(msg) => {
                let mut text = String::from_str("Command generation failed: ");
                text.append(msg.as_str());
                text
            },
            RenderError::WritingCommandFailed => String::from_str(
                "Failed to `write` command to GnuPlot",
            ),
            RenderError::GnuSpawnFailed => String::from_str(
                "Failed to spawn GnuPlot. Verify it is correctly installed and available",
            ),
            RenderError::GnuSTDINNotAccessible => String::from_str(
                "GnuPlot STDIN cannot be accessed",
            ),
            RenderError::WaitingForGnuPlotFailed => String::from_str(
                "Waiting for Gnu Plot failed. Check your command syntax for errors.",
            ),
        }
    }
}

impl RenderError {
    /// A failed command generation, of whatever kind, with its description
    /// kept.
    pub fn generation_failed(error: GnuCommandFactoryError) -> (result: Self)
        ensures
            result == RenderError::CommandGenerationFailed(error.text()),
            result@ == RenderFailure::CommandGenerationFailed(description(error@)),
    {
        RenderError::CommandGenerationFailed(error.into_string())
    }
}

impl From<GnuCommandFactoryError> for RenderError {
    /// A failed command generation, of whatever kind, with its description
    /// kept.
    fn from(value: GnuCommandFactoryError) -> (result: Self)
        ensures
            result@ == RenderFailure::CommandGenerationFailed(description(value@)),
    {
        RenderError::generation_failed(value)
    }
}

impl FromSpecImpl<GnuCommandFactoryError> for RenderError {
    open spec fn obeys_from_spec() -> bool {
        true
    }

    open spec fn from_spec(v: GnuCommandFactoryError) -> Self {
        RenderError::CommandGenerationFailed(v.text())
    }
}

pub type RenderResult<T> = Result<T, RenderError>;

/// Lines of text, each closed by a line feed.
pub open spec fn lines_text(lines: Seq<Seq<char>>) -> Seq<char>
    decreases lines.len(),
{
    if lines.len() == 0 {
        Seq::empty()
    } else {
        lines_text(lines.drop_last()) + lines.last() + "\n"@
    }
}

/// The lines of the script for `commands`: gnuplot is told to clear, then
/// given the commands in their order, then told to exit.
pub open spec fn script_lines(commands: Seq<Seq<char>>) -> Seq<Seq<char>> {
    seq!["clear"@] + commands + seq!["exit"@]
}

/// The script for `commands`, as it is written to gnuplot's input.
pub open spec fn script_text(commands: Seq<Seq<char>>) -> Seq<char> {
    lines_text(script_lines(commands))
}

/// Where a run of gnuplot stands.
#[derive(Debug, Clone, PartialEq)]
pub enum RenderState {
    /// Nothing has happened yet.
    Idle,
    /// The commands were generated; the script is held.
    CommandsReady(String),
    /// gnuplot runs and its input is open; the script is held.
    ProcessSpawned(String),
    /// The script was written to gnuplot's input.
    ScriptWritten,
    /// The input was closed; gnuplot is working.
    Waiting,
    /// gnuplot has finished.
    Done,
    /// The run has failed.
    Failed(RenderError),
}

/// The mathematical content of a [`RenderState`].
pub ghost enum Stage {
    Idle,
    CommandsReady(Seq<char>),
    ProcessSpawned(Seq<char>),
    ScriptWritten,
    Waiting,
    Done,
    Failed(RenderFailure),
}

impl View for RenderState {
    type V = Stage;

    open spec fn view(&self) -> Stage {
        match self {
            RenderState::Idle => Stage::Idle,
            RenderState::CommandsReady(script) => Stage::CommandsReady(script@),
            RenderState::ProcessSpawned(script) => Stage::ProcessSpawned(script@),
            RenderState::ScriptWritten => Stage::ScriptWritten,
            RenderState::Waiting => Stage::Waiting,
            RenderState::Done => Stage::Done,
            RenderState::Failed(error) => Stage::Failed(error@),
        }
    }
}

/// What the caller reports of the world.
#[derive(Debug)]
pub enum RenderEvent {
    /// Command generation has ended, with this result.
    Generated(GnuCommandFactoryResult),
    /// gnuplot was started and its input is open.
    Spawned,
    /// gnuplot could not be started.
    SpawnFailed,
    /// gnuplot was started, but its input cannot be reached.
    InputNotAccessible,
    /// The text was written.
    Written,
    /// Writing or flushing failed.
    WriteFailed,
    /// The input was flushed and closed.
    InputClosed,
    /// gnuplot has finished; `true` where it reported success.
    Exited(bool),
    /// Waiting for gnuplot failed.
    WaitFailed,
}

/// The mathematical content of a [`RenderEvent`].
pub ghost enum Signal {
    Generated(Outcome),
    Spawned,
    SpawnFailed,
    InputNotAccessible,
    Written,
    WriteFailed,
    InputClosed,
    Exited(bool),
    WaitFailed,
}

impl View for RenderEvent {
    type V = Signal;

    open spec fn view(&self) -> Signal {
        match self {
            RenderEvent::Generated(result) => Signal::Generated(outcome(*result)),
            RenderEvent::Spawned => Signal::Spawned,
            RenderEvent::SpawnFailed => Signal::SpawnFailed,
            RenderEvent::InputNotAccessible => Signal::InputNotAccessible,
            RenderEvent::Written => Signal::Written,
            RenderEvent::WriteFailed => Signal::WriteFailed,
            RenderEvent::InputClosed => Signal::InputClosed,
            RenderEvent::Exited(success) => Signal::Exited(*success),
            RenderEvent::WaitFailed => Signal::WaitFailed,
        }
    }
}

/// What the caller is to do next.
#[derive(Debug, Clone, PartialEq)]
pub enum RenderAction {
    /// Start gnuplot with its input open for writing.
    Spawn,
    /// Write this text to gnuplot's input.
    Write(String),
    /// Flush and close gnuplot's input.
    CloseInput,
    /// Wait until gnuplot has finished.
    Wait,
    /// The run is over: the state says how it ended.
    Stop,
    /// The event does not belong to the state; nothing has changed.
    Ignore,
}

/// The mathematical content of a [`RenderAction`].
pub ghost enum Order {
    Spawn,
    Write(Seq<char>),
    CloseInput,
    Wait,
    Stop,
    Ignore,
}

impl View for RenderAction {
    type V = Order;

    open spec fn view(&self) -> Order {
        match self {
            RenderAction::Spawn => Order::Spawn,
            RenderAction::Write(text) => Order::Write(text@),
            RenderAction::CloseInput => Order::CloseInput,
            RenderAction::Wait => Order::Wait,
            RenderAction::Stop => Order::Stop,
            RenderAction::Ignore => Order::Ignore,
        }
    }
}

/// Whether a run at `stage` is over.
pub open spec fn is_over(stage: Stage) -> bool {
    stage is Done || stage is Failed
}

/// The course of a run: the stage that follows `stage` on `signal`, and what
/// is to be done then.
///
/// A run goes from idle over generated commands, a started gnuplot, a
/// written script and the wait for gnuplot to its end. Each step can fail,
/// each with a failure of its own, and a failed run is over: nothing is
/// tried again. What gnuplot thinks of the script shows only in how it
/// exits: an exit without success counts as a failed wait. A signal that the
/// stage does not wait for changes nothing.
pub open spec fn next(stage: Stage, signal: Signal) -> (Stage, Order) {
    match (stage, signal) {
        (Stage::Idle, Signal::Generated(Ok(commands))) => (
            Stage::CommandsReady(script_text(commands)),
            Order::Spawn,
        ),
        (Stage::Idle, Signal::Generated(Err(failure))) => (
            Stage::Failed(RenderFailure::CommandGenerationFailed(description(failure))),
            Order::Stop,
        ),
        (Stage::CommandsReady(script), Signal::Spawned) => (
            Stage::ProcessSpawned(script),
            Order::Write(script),
        ),
        (Stage::CommandsReady(_), Signal::SpawnFailed) => (
            Stage::Failed(RenderFailure::GnuSpawnFailed),
            Order::Stop,
        ),
        (Stage::CommandsReady(_), Signal::InputNotAccessible) => (
            Stage::Failed(RenderFailure::GnuSTDINNotAccessible),
            Order::Stop,
        ),
        (Stage::ProcessSpawned(_), Signal::Written) => (Stage::ScriptWritten, Order::CloseInput),
        (Stage::ProcessSpawned(_), Signal::WriteFailed) => (
            Stage::Failed(RenderFailure::WritingCommandFailed),
            Order::Stop,
        ),
        (Stage::ScriptWritten, Signal::InputClosed) => (Stage::Waiting, Order::Wait),
        (Stage::ScriptWritten, Signal::WriteFailed) => (
            Stage::Failed(RenderFailure::WritingCommandFailed),
            Order::Stop,
        ),
        (Stage::Waiting, Signal::Exited(true)) => (Stage::Done, Order::Stop),
        (Stage::Waiting, Signal::Exited(false)) => (
            Stage::Failed(RenderFailure::WaitingForGnuPlotFailed),
            Order::Stop,
        ),
        (Stage::Waiting, Signal::WaitFailed) => (
            Stage::Failed(RenderFailure::WaitingForGnuPlotFailed),
            Order::Stop,
        ),
        (Stage::Done, _) => (stage, Order::Stop),
        (Stage::Failed(_), _) => (stage, Order::Stop),
        _ => (stage, Order::Ignore),
    }
}

/// How a run that is over has ended.
pub open spec fn verdict(stage: Stage) -> Option<Result<(), RenderFailure>> {
    match stage {
        Stage::Done => Some(Ok(())),
        Stage::Failed(failure) => Some(Err(failure)),
        _ => None,
    }
}

/// The mathematical content of what [`Render::result`] gives.
pub open spec fn verdict_of(result: Option<RenderResult<()>>) -> Option<Result<(), RenderFailure>> {
    match result {
        Some(Ok(_)) => Some(Ok(())),
        Some(Err(error)) => Some(Err(error@)),
        None => None,
    }
}

/// The renderer.
pub struct Render;

impl Render {
    /// The script for `commands`, as it is written to gnuplot's input.
    pub fn script(commands: &VecDeque<GnuCommand>) -> (text: String)
        ensures
            text@ == script_text(texts(commands@)),
    {
        let mut text = String::from_str("clear");
        text.append("\n");
        let ghost first = seq!["clear"@];
        assert(lines_text(first) =~= "clear"@ + "\n"@) by {
            assert(first.drop_last() =~= Seq::<Seq<char>>::empty());
            assert(lines_text(first.drop_last()) =~= Seq::<char>::empty());
        }
        let mut i: usize = 0;
        while i < commands.len()
            invariant
                i <= commands.len(),
                first == seq!["clear"@],
                text@ == lines_text(first + texts(commands@.take(i as int))),
            decreases commands.len() - i,
        {
            let ghost before = first + texts(commands@.take(i as int));
            let ghost after = first + texts(commands@.take(i + 1));
            assert(after.drop_last() =~= before);
            assert(after.last() == commands@[i as int]@);
            text.append(commands[i].to_string().as_str());
            text.append("\n");
            i += 1;
        }
        assert(commands@.take(i as int) =~= commands@);
        let ghost body = first + texts(commands@);
        assert(script_lines(texts(commands@)).drop_last() =~= body);
        text.append("exit");
        text.append("\n");
        text
    }

    /// The start of a run.
    pub fn start() -> (state: RenderState)
        ensures
            state@ == Stage::Idle,
    {
        RenderState::Idle
    }

    /// Takes a run one step on: see [`next`].
    pub fn step(state: RenderState, event: RenderEvent) -> (result: (RenderState, RenderAction))
        ensures
            (result.0@, result.1@) == next(state@, event@),
    {
        match state {
            RenderState::Idle => match event {
                RenderEvent::Generated(Ok(commands)) => (
                    RenderState::CommandsReady(Render::script(&commands)),
                    RenderAction::Spawn,
                ),
                RenderEvent::Generated(Err(error)) => (
                    RenderState::Failed(RenderError::generation_failed(error)),
                    RenderAction::Stop,
                ),
                _ => (RenderState::Idle, RenderAction::Ignore),
            },
            RenderState::CommandsReady(script) => match event {
                RenderEvent::Spawned => {
                    let text = script.clone();
                    (RenderState::ProcessSpawned(script), RenderAction::Write(text))
                },
                RenderEvent::SpawnFailed => (
                    RenderState::Failed(RenderError::GnuSpawnFailed),
                    RenderAction::Stop,
                ),
                RenderEvent::InputNotAccessible => (
                    RenderState::Failed(RenderError::GnuSTDINNotAccessible),
                    RenderAction::Stop,
                ),
                _ => (RenderState::CommandsReady(script), RenderAction::Ignore),
            },
            RenderState::ProcessSpawned(script) => match event {
                RenderEvent::Written => (RenderState::ScriptWritten, RenderAction::CloseInput),
                RenderEvent::WriteFailed => (
                    RenderState::Failed(RenderError::WritingCommandFailed),
                    RenderAction::Stop,
                ),
                _ => (RenderState::ProcessSpawned(script), RenderAction::Ignore),
            },
            RenderState::ScriptWritten => match event {
                RenderEvent::InputClosed => (RenderState::Waiting, RenderAction::Wait),
                RenderEvent::WriteFailed => (
                    RenderState::Failed(RenderError::WritingCommandFailed),
                    RenderAction::Stop,
                ),
                _ => (RenderState::ScriptWritten, RenderAction::Ignore),
            },
            RenderState::Waiting => match event {
                RenderEvent::Exited(true) => (RenderState::Done, RenderAction::Stop),
                RenderEvent::Exited(false) => (
                    RenderState::Failed(RenderError::WaitingForGnuPlotFailed),
                    RenderAction::Stop,
                ),
                RenderEvent::WaitFailed => (
                    RenderState::Failed(RenderError::WaitingForGnuPlotFailed),
                    RenderAction::Stop,
                ),
                _ => (RenderState::Waiting, RenderAction::Ignore),
            },
            RenderState::Done => (RenderState::Done, RenderAction::Stop),
            RenderState::Failed(error) => (RenderState::Failed(error), RenderAction::Stop),
        }
    }

    /// How the run ended, once it is over.
    pub fn result(state: &RenderState) -> (result: Option<RenderResult<()>>)
        ensures
            verdict_of(result) == verdict(state@),
            result is Some <==> is_over(state@),
    {
        match state {
            RenderState::Done => Some(Ok(())),
            RenderState::Failed(error) => Some(Err(error.clone())),
            _ => None,
        }
    }
}

/// What can be rendered: whatever yields commands.
pub trait CanRender: GnuCommandFactory {
    /// The script that renders this value, or the failure to generate its
    /// commands.
    fn script(&self) -> (result: RenderResult<String>)
        ensures
            match self.commands() {
                Ok(commands) => result matches Ok(text) && text@ == script_text(commands),
                Err(failure) => result matches Err(error) && error@
                    == RenderFailure::CommandGenerationFailed(description(failure)),
            },
    {
        match self.as_commands() {
            Ok(commands) => Ok(Render::script(&commands)),
            Err(error) => Err(RenderError::generation_failed(error)),
        }
    }
}

/// gnuplot is started just when commands were generated: after a failure of
/// any kind, and at any later stage, no process is asked for.
pub proof fn lemma_spawn_only_after_generation(stage: Stage, signal: Signal)
    ensures
        next(stage, signal).1 is Spawn <==> (stage is Idle && signal matches Signal::Generated(
            Ok(_),
        )),
{
}

/// A run that is over stays as it is, whatever is reported.
pub proof fn lemma_over_is_final(stage: Stage, signal: Signal)
    requires
        is_over(stage),
    ensures
        next(stage, signal) == (stage, Order::Stop),
{
}

/// The caller is told to stop exactly when the run is over.
pub proof fn lemma_stop_means_over(stage: Stage, signal: Signal)
    ensures
        next(stage, signal).1 is Stop <==> is_over(next(stage, signal).0),
{
}

} // verus!
