//! A plot in two dimensions, declared field by field.
//!
//! Each composite lists its fields once. For every field there is an accessor
//! that lends the field for mutation, and the composite's commands are those
//! of its fields in the order of the declaration.

use crate::aggregate::{
    lemma_first_failure_decides, lemma_merge_of_one, lemma_merge_push, merge, Aggregator,
};
use crate::command::{Failure, GnuCommandFactory, GnuCommandFactoryResult, Outcome};
use crate::config::Config;
use crate::dimension::{X, Y};
use crate::label::Label;
use crate::maybe::Maybe;
use crate::render::CanRender;
use crate::required::Required;
use crate::serie::Serie;
use crate::series::Series;
use crate::terminal::{missing_output_text, PngCairoFont, PngCairoOutput, PngCairoSize};
use crate::title::Title;
use std::fmt::Display;
use vstd::prelude::*;

verus! {

/// The horizontal axis. It must be labelled.
#[derive(Clone, PartialEq, Eq, Debug)]
pub struct XAxis {
    label: Required<Label<X>>,
}

impl XAxis {
    /// The label held.
    pub closed spec fn label_field(&self) -> Required<Label<X>> {
        self.label
    }

    pub fn label(&mut self) -> (result: &mut Required<Label<X>>)
        ensures
            *result == old(self).label_field(),
            final(self).label_field() == *final(result),
    {
        &mut self.label
    }
}

impl Default for XAxis {
    fn default() -> (result: Self)
        ensures
            result.label_field() == Required::<Label<X>>::Missing,
    {
        XAxis { label: Required::Missing }
    }
}

impl GnuCommandFactory for XAxis {
    open spec fn commands(&self) -> Outcome {
        merge(seq![self.label_field().commands()])
    }

    fn as_commands(&self) -> (result: GnuCommandFactoryResult) {
        let mut fields = Aggregator::new();
        fields.visit(&self.label);
        proof {
            lemma_merge_of_one(self.label.commands());
        }
        fields.finish()
    }
}

/// The vertical axis. Its label may be left out.
#[derive(Clone, PartialEq, Eq, Debug)]
pub struct YAxis {
    label: Maybe<Label<Y>>,
}

impl YAxis {
    /// The label held.
    pub closed spec fn label_field(&self) -> Maybe<Label<Y>> {
        self.label
    }

    pub fn label(&mut self) -> (result: &mut Maybe<Label<Y>>)
        ensures
            *result == old(self).label_field(),
            final(self).label_field() == *final(result),
    {
        &mut self.label
    }
}

impl Default for YAxis {
    fn default() -> (result: Self)
        ensures
            result.label_field() == Maybe::<Label<Y>>::Nothing,
    {
        YAxis { label: Maybe::Nothing }
    }
}

impl GnuCommandFactory for YAxis {
    open spec fn commands(&self) -> Outcome {
        merge(seq![self.label_field().commands()])
    }

    fn as_commands(&self) -> (result: GnuCommandFactoryResult) {
        let mut fields = Aggregator::new();
        fields.visit(&self.label);
        proof {
            lemma_merge_of_one(self.label.commands());
        }
        fields.finish()
    }
}

/// A plot of series over two labelled axes, written to a PNG file.
#[derive(Clone, PartialEq, Debug)]
pub struct Plot2D<T> where T: Default + Clone + Display {
    config: Config,
    title: Maybe<Title>,
    x: XAxis,
    y: YAxis,
    series: Series<T>,
}

impl<T> Plot2D<T> where T: Default + Clone + Display {
    /// The configuration held.
    pub closed spec fn config_field(&self) -> Config {
        self.config
    }

    /// The title held.
    pub closed spec fn title_field(&self) -> Maybe<Title> {
        self.title
    }

    /// The horizontal axis held.
    pub closed spec fn x_field(&self) -> XAxis {
        self.x
    }

    /// The vertical axis held.
    pub closed spec fn y_field(&self) -> YAxis {
        self.y
    }

    /// The series held.
    pub closed spec fn series_field(&self) -> Series<T> {
        self.series
    }

    /// The outcomes of the fields, in the order of their declaration.
    pub open spec fn parts(&self) -> Seq<Outcome> {
        seq![
            self.config_field().commands(),
            self.title_field().commands(),
            self.x_field().commands(),
            self.y_field().commands(),
            self.series_field().commands(),
        ]
    }

    /// A plot with nothing set and no series.
    pub fn new() -> (result: Self)
        ensures
            result.is_blank(),
    {
        Plot2D {
            config: Config::default(),
            title: Maybe::Nothing,
            x: XAxis::default(),
            y: YAxis::default(),
            series: Series::new(),
        }
    }

    /// Whether nothing is set and no series is held.
    pub open spec fn is_blank(&self) -> bool {
        &&& self.config_field().terminal_field().size_field() == PngCairoSize::Missing
        &&& self.config_field().terminal_field().font_field() == PngCairoFont::Default
        &&& self.config_field().terminal_field().output_field() == PngCairoOutput::Missing
        &&& self.title_field() == Maybe::<Title>::Nothing
        &&& self.x_field().label_field() == Required::<Label<X>>::Missing
        &&& self.y_field().label_field() == Maybe::<Label<Y>>::Nothing
        &&& self.series_field()@ == Seq::<Serie<T>>::empty()
    }

    pub fn config(&mut self) -> (result: &mut Config)
        ensures
            *result == old(self).config_field(),
            final(self).config_field() == *final(result),
            final(self).title_field() == old(self).title_field(),
            final(self).x_field() == old(self).x_field(),
            final(self).y_field() == old(self).y_field(),
            final(self).series_field() == old(self).series_field(),
    {
        &mut self.config
    }

    pub fn title(&mut self) -> (result: &mut Maybe<Title>)
        ensures
            *result == old(self).title_field(),
            final(self).title_field() == *final(result),
            final(self).config_field() == old(self).config_field(),
            final(self).x_field() == old(self).x_field(),
            final(self).y_field() == old(self).y_field(),
            final(self).series_field() == old(self).series_field(),
    {
        &mut self.title
    }

    pub fn x(&mut self) -> (result: &mut XAxis)
        ensures
            *result == old(self).x_field(),
            final(self).x_field() == *final(result),
            final(self).config_field() == old(self).config_field(),
            final(self).title_field() == old(self).title_field(),
            final(self).y_field() == old(self).y_field(),
            final(self).series_field() == old(self).series_field(),
    {
        &mut self.x
    }

    pub fn y(&mut self) -> (result: &mut YAxis)
        ensures
            *result == old(self).y_field(),
            final(self).y_field() == *final(result),
            final(self).config_field() == old(self).config_field(),
            final(self).title_field() == old(self).title_field(),
            final(self).x_field() == old(self).x_field(),
            final(self).series_field() == old(self).series_field(),
    {
        &mut self.y
    }

    pub fn series(&mut self) -> (result: &mut Series<T>)
        ensures
            *result == old(self).series_field(),
            final(self).series_field() == *final(result),
            final(self).config_field() == old(self).config_field(),
            final(self).title_field() == old(self).title_field(),
            final(self).x_field() == old(self).x_field(),
            final(self).y_field() == old(self).y_field(),
    {
        &mut self.series
    }

    /// The series held, for reading.
    pub fn data(&self) -> (result: &Series<T>)
        ensures
            *result == self.series_field(),
    {
        &self.series
    }
}

impl<T> Default for Plot2D<T> where T: Default + Clone + Display {
    fn default() -> (result: Self)
        ensures
            result.is_blank(),
    {
        Plot2D::new()
    }
}

impl<T> GnuCommandFactory for Plot2D<T> where T: Default + Clone + Display {
    /// Configuration, title, horizontal axis, vertical axis, series: the
    /// commands of each in this order, or the failure of the first that
    /// fails.
    open spec fn commands(&self) -> Outcome {
        merge(self.parts())
    }

    fn as_commands(&self) -> (result: GnuCommandFactoryResult) {
        let ghost mut seen = Seq::<Outcome>::empty();
        let mut fields = Aggregator::new();
        fields.visit(&self.config);
        proof {
            lemma_merge_push(seen, self.config.commands());
            seen = seen.push(self.config.commands());
        }
        fields.visit(&self.title);
        proof {
            lemma_merge_push(seen, self.title.commands());
            seen = seen.push(self.title.commands());
        }
        fields.visit(&self.x);
        proof {
            lemma_merge_push(seen, self.x.commands());
            seen = seen.push(self.x.commands());
        }
        fields.visit(&self.y);
        proof {
            lemma_merge_push(seen, self.y.commands());
            seen = seen.push(self.y.commands());
        }
        fields.visit(&self.series);
        proof {
            lemma_merge_push(seen, self.series.commands());
            seen = seen.push(self.series.commands());
            assert(seen =~= self.parts());
        }
        fields.finish()
    }
}

impl<T> CanRender for Plot2D<T> where T: Default + Clone + Display {

}

/// A plot without output file yields no command, whatever else is set: its
/// generation fails with `RequiredValueMissing`, since the configuration is
/// its first field and the output file the first thing that the
/// configuration asks for.
pub proof fn lemma_plot_needs_output_file<T: Default + Clone + Display>(plot: Plot2D<T>)
    requires
        plot.config_field().terminal_field().output_field() is Missing,
    ensures
        plot.commands() == Err::<Seq<Seq<char>>, Failure>(
            Failure::RequiredValueMissing(missing_output_text()),
        ),
{
    let terminal = plot.config_field().terminal_field().commands();
    lemma_merge_of_one(terminal);
    lemma_first_failure_decides(plot.parts(), 0);
}

/// A plot whose horizontal axis has no label yields no command: where the
/// fields before the axis succeed, its generation fails with
/// `RequiredValueMissing`.
pub proof fn lemma_plot_needs_x_label<T: Default + Clone + Display>(plot: Plot2D<T>)
    requires
        plot.x_field().label_field() is Missing,
        plot.config_field().commands() is Ok,
        plot.title_field().commands() is Ok,
    ensures
        plot.commands() == Err::<Seq<Seq<char>>, Failure>(
            Failure::RequiredValueMissing(crate::required::missing_value_text()),
        ),
{
    let label = plot.x_field().label_field().commands();
    lemma_merge_of_one(label);
    lemma_first_failure_decides(plot.parts(), 2);
}

/// Where every field of a plot succeeds, its commands are those of the
/// configuration, the title, the horizontal axis, the vertical axis and the
/// series, in this order and with nothing between them.
pub proof fn lemma_plot_commands_are_those_of_its_fields<T: Default + Clone + Display>(
    plot: Plot2D<T>,
)
    requires
        plot.config_field().commands() is Ok,
        plot.title_field().commands() is Ok,
        plot.x_field().commands() is Ok,
        plot.y_field().commands() is Ok,
        plot.series_field().commands() is Ok,
    ensures
        plot.commands() == Ok::<Seq<Seq<char>>, Failure>(
            plot.config_field().commands()->Ok_0 + plot.title_field().commands()->Ok_0
                + plot.x_field().commands()->Ok_0 + plot.y_field().commands()->Ok_0
                + plot.series_field().commands()->Ok_0,
        ),
{
    let c = plot.config_field().commands();
    let t = plot.title_field().commands();
    let x = plot.x_field().commands();
    let y = plot.y_field().commands();
    let s = plot.series_field().commands();
    let none = Seq::<Outcome>::empty();
    lemma_merge_push(none, c);
    lemma_merge_push(none.push(c), t);
    lemma_merge_push(none.push(c).push(t), x);
    lemma_merge_push(none.push(c).push(t).push(x), y);
    lemma_merge_push(none.push(c).push(t).push(x).push(y), s);
    assert(none.push(c).push(t).push(x).push(y).push(s) =~= plot.parts());
    assert(Seq::<Seq<char>>::empty() + c->Ok_0 =~= c->Ok_0);
}

/// A plot without series yields no command: where the fields before the
/// series succeed, its generation fails with `Message`, since there is
/// nothing for a plot command to draw.
pub proof fn lemma_plot_needs_series<T: Default + Clone + Display>(plot: Plot2D<T>)
    requires
        plot.series_field()@.len() == 0,
        plot.config_field().commands() is Ok,
        plot.title_field().commands() is Ok,
        plot.x_field().commands() is Ok,
        plot.y_field().commands() is Ok,
    ensures
        plot.commands() == Err::<Seq<Seq<char>>, Failure>(
            Failure::Message(crate::series::no_series_text()),
        ),
{
    lemma_first_failure_decides(plot.parts(), 4);
}

} // verus!
