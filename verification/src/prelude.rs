//! The names that code built on this library needs, in one place.

pub use crate::aggregate::Aggregator;
pub use crate::axis::{Axis, AxisTrait};
pub use crate::command::{
    GnuCommand, GnuCommandFactory, GnuCommandFactoryError, GnuCommandFactoryResult,
};
pub use crate::config::Config;
pub use crate::dimension::{Dimension, X, Y};
pub use crate::filename::Filename;
pub use crate::label::Label;
pub use crate::maybe::Maybe;
pub use crate::plot_2d::{Plot2D, XAxis, YAxis};
pub use crate::render::{
    CanRender, Render, RenderAction, RenderError, RenderEvent, RenderResult, RenderState,
};
pub use crate::required::Required;
pub use crate::serie::Serie;
pub use crate::series::{Series, SeriesIterator};
pub use crate::terminal::{PngCairo, PngCairoFont, PngCairoOutput, PngCairoSize};
pub use crate::title::Title;
pub use crate::x_label::XLabel;
pub use crate::y_label::YLabel;
