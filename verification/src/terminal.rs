//! The PNG terminal of gnuplot: where the picture goes, how large it is and
//! in which font it is lettered.

use crate::aggregate::join;
use crate::command::{
    one_command, single, texts, Failure, GnuCommand, GnuCommandFactory, GnuCommandFactoryError,
    GnuCommandFactoryResult, Outcome,
};
use crate::text::{decimal, decimal_string};
use vstd::prelude::*;
use vstd::string::*;

verus! {

/// The font of the lettering: gnuplot's own, or a named one at a given size.
#[derive(Debug, Clone, PartialEq)]
pub enum PngCairoFont {
    Default,
    Custom { name: String, size: u32 },
}

/// The option that selects `font`; empty for gnuplot's own font.
pub open spec fn font_clause(font: PngCairoFont) -> Seq<char> {
    match font {
        PngCairoFont::Default => Seq::empty(),
        PngCairoFont::Custom { name, size } => "font \""@ + name@ + ","@ + decimal(size as nat)
            + "\""@,
    }
}

impl PngCairoFont {
    /// The font `name` at `size`. Of a size beyond 32 bits the low 32 bits
    /// are kept.
    pub fn custom(name: &str, size: usize) -> (result: Self)
        ensures
            result matches PngCairoFont::Custom { name: held, size: kept } && held@ == name@
                && kept == size as u32,
    {
        PngCairoFont::Custom { name: name.to_owned(), size: #[verifier::truncate] (size as u32) }
    }

    pub fn update(&mut self, name: &str, size: usize)
        ensures
            *final(self) matches PngCairoFont::Custom { name: held, size: kept } && held@ == name@
                && kept == size as u32,
    {
        *self = PngCairoFont::custom(name, size);
    }

    /// The option as it stands in the terminal command.
    pub fn to_string(&self) -> (text: String)
        ensures
            text@ == font_clause(*self),
    {
        match self {
            PngCairoFont::Default => String::new(),
            PngCairoFont::Custom { name, size } => {
                let mut text = String::from_str("font \"");
                text.append(name.as_str());
                text.append(",");
                text.append(decimal_string(*size as u128).as_str());
                text.append("\"");
                text
            },
        }
    }
}

impl Default for PngCairoFont {
    fn default() -> (result: Self)
        ensures
            result == PngCairoFont::Default,
    {
        PngCairoFont::Default
    }
}

/// The size of the picture in pixels, where one is asked for.
#[derive(Debug, Clone, PartialEq)]
pub enum PngCairoSize {
    Missing,
    Value { width: usize, height: usize },
}

/// The option that selects `size`; empty where none is asked for.
pub open spec fn size_clause(size: PngCairoSize) -> Seq<char> {
    match size {
        PngCairoSize::Missing => Seq::empty(),
        PngCairoSize::Value { width, height } => "size "@ + decimal(width as nat) + ","@ + decimal(
            height as nat,
        ),
    }
}

impl PngCairoSize {
    pub fn update(&mut self, width: usize, height: usize)
        ensures
            *final(self) == (PngCairoSize::Value { width, height }),
    {
        *self = PngCairoSize::Value { width, height };
    }

    /// The option as it stands in the terminal command.
    pub fn to_string(&self) -> (text: String)
        ensures
            text@ == size_clause(*self),
    {
        match self {
            PngCairoSize::Missing => String::new(),
            PngCairoSize::Value { width, height } => {
                let mut text = String::from_str("size ");
                text.append(decimal_string(*width as u128).as_str());
                text.append(",");
                text.append(decimal_string(*height as u128).as_str());
                text
            },
        }
    }
}

impl Default for PngCairoSize {
    fn default() -> (result: Self)
        ensures
            result == PngCairoSize::Missing,
    {
        PngCairoSize::Missing
    }
}

/// The file that the picture is written to. Rendering needs one.
#[derive(Clone, Debug, PartialEq)]
pub enum PngCairoOutput {
    Missing,
    Filename(String),
}

/// The script line that sends the picture to the file `path`.
pub open spec fn output_line(path: Seq<char>) -> Seq<char> {
    "set output '"@ + path + "'"@
}

/// The description carried by the failure of a terminal without output file.
pub open spec fn missing_output_text() -> Seq<char> {
    "PNGCairo requires an output file: TERMINAL.output().update(\"./filename.png\")"@
}

impl PngCairoOutput {
    pub fn update(&mut self, filename: &str)
        ensures
            *final(self) matches PngCairoOutput::Filename(held) && held@ == filename@,
    {
        *self = PngCairoOutput::Filename(filename.to_owned());
    }
}

impl Default for PngCairoOutput {
    fn default() -> (result: Self)
        ensures
            result == PngCairoOutput::Missing,
    {
        PngCairoOutput::Missing
    }
}

impl GnuCommandFactory for PngCairoOutput {
    open spec fn commands(&self) -> Outcome {
        match self {
            PngCairoOutput::Missing => Err(Failure::RequiredValueMissing(missing_output_text())),
            PngCairoOutput::Filename(filename) => single(output_line(filename@)),
        }
    }

    fn as_commands(&self) -> (result: GnuCommandFactoryResult) {
        match self {
            PngCairoOutput::Missing => Err(
                GnuCommandFactoryError::required_value_missing(
                    "PNGCairo requires an output file: TERMINAL.output().update(\"./filename.png\")",
                ),
            ),
            PngCairoOutput::Filename(filename) => {
                let mut line = String::from_str("set output '");
                line.append(filename.as_str());
                line.append("'");
                Ok(one_command(GnuCommand::new(line.as_str())))
            },
        }
    }
}

/// The script line that declares the terminal: the options that are set
/// follow the terminal's name, each behind one space, and nothing trails.
pub open spec fn terminal_line(size: PngCairoSize, font: PngCairoFont) -> Seq<char> {
    "set term pngcairo enhanced"@ + (match size {
        PngCairoSize::Missing => Seq::empty(),
        PngCairoSize::Value { .. } => " "@ + size_clause(size),
    }) + (match font {
        PngCairoFont::Default => Seq::empty(),
        PngCairoFont::Custom { .. } => " "@ + font_clause(font),
    })
}

/// The settings of the PNG terminal.
#[derive(Debug, Clone, PartialEq)]
pub struct PngCairo {
    size: PngCairoSize,
    font: PngCairoFont,
    output: PngCairoOutput,
}

impl PngCairo {
    /// The size setting held.
    pub closed spec fn size_field(&self) -> PngCairoSize {
        self.size
    }

    /// The font setting held.
    pub closed spec fn font_field(&self) -> PngCairoFont {
        self.font
    }

    /// The output setting held.
    pub closed spec fn output_field(&self) -> PngCairoOutput {
        self.output
    }

    pub fn font(&mut self) -> (result: &mut PngCairoFont)
        ensures
            *result == old(self).font_field(),
            final(self).font_field() == *final(result),
            final(self).size_field() == old(self).size_field(),
            final(self).output_field() == old(self).output_field(),
    {
        &mut self.font
    }

    pub fn size(&mut self) -> (result: &mut PngCairoSize)
        ensures
            *result == old(self).size_field(),
            final(self).size_field() == *final(result),
            final(self).font_field() == old(self).font_field(),
            final(self).output_field() == old(self).output_field(),
    {
        &mut self.size
    }

    pub fn output(&mut self) -> (result: &mut PngCairoOutput)
        ensures
            *result == old(self).output_field(),
            final(self).output_field() == *final(result),
            final(self).size_field() == old(self).size_field(),
            final(self).font_field() == old(self).font_field(),
    {
        &mut self.output
    }
}

impl Default for PngCairo {
    fn default() -> (result: Self)
        ensures
            result.size_field() == PngCairoSize::Missing,
            result.font_field() == PngCairoFont::Default,
            result.output_field() == PngCairoOutput::Missing,
    {
        PngCairo {
            size: PngCairoSize::Missing,
            font: PngCairoFont::Default,
            output: PngCairoOutput::Missing,
        }
    }
}

impl GnuCommandFactory for PngCairo {
    /// The output command, then the terminal declaration; without an output
    /// file, the failure of the output setting and nothing else.
    open spec fn commands(&self) -> Outcome {
        join(
            self.output_field().commands(),
            single(terminal_line(self.size_field(), self.font_field())),
        )
    }

    fn as_commands(&self) -> (result: GnuCommandFactoryResult) {
        match self.output.as_commands() {
            Err(error) => Err(error),
            Ok(mut commands) => {
                let mut line = String::from_str("set term pngcairo enhanced");
                match &self.size {
                    PngCairoSize::Missing => {},
                    PngCairoSize::Value { .. } => {
                        line.append(" ");
                        line.append(self.size.to_string().as_str());
                    },
                }
                match &self.font {
                    PngCairoFont::Default => {},
                    PngCairoFont::Custom { .. } => {
                        line.append(" ");
                        line.append(self.font.to_string().as_str());
                    },
                }
                assert(line@ =~= terminal_line(self.size, self.font));
                let ghost before = commands@;
                let command = GnuCommand::new(line.as_str());
                commands.push_back(command);
                assert(texts(commands@) =~= texts(before) + seq![command@]);
                Ok(commands)
            },
        }
    }
}

} // verus!
