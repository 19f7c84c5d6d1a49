//! An axis of a plot, marked by its dimension.

use crate::aggregate::{lemma_merge_of_one, merge, Aggregator};
use crate::command::{GnuCommandFactory, GnuCommandFactoryResult, Outcome};
use crate::dimension::Dimension;
use crate::label::Label;
use crate::required::Required;
use vstd::prelude::*;

verus! {

/// What can be labelled as the axis of dimension `D`.
pub trait AxisTrait<D> where D: Dimension {
    /// The text of the label, once there is one. Every verified
    /// implementation says here what it holds.
    open spec fn label_text(&self) -> Option<Seq<char>> {
        arbitrary()
    }

    /// Labels the axis with `text`, in place of any earlier label.
    fn label(&mut self, text: &str)
        ensures
            final(self).label_text() == Some(text@),
    ;
}

/// An axis: its dimension, and the label that it must be given before
/// commands can be generated for it.
#[derive(Debug, PartialEq, Eq, Clone)]
pub struct Axis<D> where D: Dimension {
    dimension: Required<D>,
    label: Required<Label<D>>,
}

impl<D> Axis<D> where D: Dimension {
    /// The dimension held.
    pub closed spec fn dimension_field(&self) -> Required<D> {
        self.dimension
    }

    /// The label held.
    pub closed spec fn label_field(&self) -> Required<Label<D>> {
        self.label
    }

    /// An axis that knows its dimension and has no label yet.
    pub fn new() -> (result: Self)
        ensures
            result.dimension_field() is Value,
            call_ensures(D::default, (), result.dimension_field()->Value_0),
            result.label_field() == Required::<Label<D>>::Missing,
    {
        Axis { dimension: Required::value(D::default()), label: Required::Missing }
    }

    /// The dimension held, for reading.
    pub fn dimension(&self) -> (result: &Required<D>)
        ensures
            *result == self.dimension_field(),
    {
        &self.dimension
    }
}

impl<D> Default for Axis<D> where D: Dimension {
    /// An axis with neither dimension nor label.
    fn default() -> (result: Self)
        ensures
            result.dimension_field() == Required::<D>::Missing,
            result.label_field() == Required::<Label<D>>::Missing,
    {
        Axis { dimension: Required::Missing, label: Required::Missing }
    }
}

impl<D> AxisTrait<D> for Axis<D> where D: Dimension {
    open spec fn label_text(&self) -> Option<Seq<char>> {
        match self.label_field() {
            Required::Value(label) => Some(label@),
            Required::Missing => None,
        }
    }

    fn label(&mut self, text: &str)
        ensures
            final(self).dimension_field() == old(self).dimension_field(),
    {
        self.label = Required::value(Label::new(text));
    }
}

impl<D> AxisTrait<D> for Required<Axis<D>> where D: Dimension {
    open spec fn label_text(&self) -> Option<Seq<char>> {
        match self {
            Required::Value(axis) => axis.label_text(),
            Required::Missing => None,
        }
    }

    /// Labels the axis held; where none is held, a default axis is made
    /// first.
    fn label(&mut self, text: &str)
        ensures
            *final(self) is Value,
            final(self)->Value_0.dimension_field() == (match *old(self) {
                Required::Value(axis) => axis.dimension_field(),
                Required::Missing => Required::Missing,
            }),
    {
        match self {
            Required::Missing => {
                let mut axis: Axis<D> = Axis::default();
                axis.label(text);
                *self = Required::Value(axis);
            },
            Required::Value(axis) => {
                axis.label(text);
            },
        }
    }
}

impl<D> GnuCommandFactory for Axis<D> where D: Dimension {
    open spec fn commands(&self) -> Outcome {
        merge(seq![self.label_field().commands()])
    }

    fn as_commands(&self) -> (result: GnuCommandFactoryResult) {
        let mut fields = Aggregator::new();
        fields.visit(&self.label);
        proof {
            lemma_merge_of_one(self.label.commands());
        }
        fields.finish()
    }
}

} // verus!
