//! The configuration of a plot's output.

use crate::aggregate::{lemma_merge_of_one, merge, Aggregator};
use crate::command::{GnuCommandFactory, GnuCommandFactoryResult, Outcome};
use crate::terminal::{PngCairo, PngCairoFont, PngCairoOutput, PngCairoSize};
use vstd::prelude::*;

verus! {

#[derive(Debug, Clone, PartialEq)]
pub struct Config {
    terminal: PngCairo,
}

impl Config {
    /// The terminal settings held.
    pub closed spec fn terminal_field(&self) -> PngCairo {
        self.terminal
    }

    pub fn terminal(&mut self) -> (result: &mut PngCairo)
        ensures
            *result == old(self).terminal_field(),
            final(self).terminal_field() == *final(result),
    {
        &mut self.terminal
    }
}

impl Default for Config {
    fn default() -> (result: Self)
        ensures
            result.terminal_field().size_field() == PngCairoSize::Missing,
            result.terminal_field().font_field() == PngCairoFont::Default,
            result.terminal_field().output_field() == PngCairoOutput::Missing,
    {
        Config { terminal: PngCairo::default() }
    }
}

impl GnuCommandFactory for Config {
    open spec fn commands(&self) -> Outcome {
        merge(seq![self.terminal_field().commands()])
    }

    fn as_commands(&self) -> (result: GnuCommandFactoryResult) {
        let mut fields = Aggregator::new();
        fields.visit(&self.terminal);
        proof {
            lemma_merge_of_one(self.terminal.commands());
        }
        fields.finish()
    }
}

} // verus!
