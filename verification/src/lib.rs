//! Typed plot configurations that turn, field by field and in declaration
//! order, into the command lines of a gnuplot script.
//!
//! Every value that can contribute to a script implements
//! [`command::GnuCommandFactory`]. Its specification function `commands` says
//! which command texts the value yields, or with which failure it refuses, and
//! the executable `as_commands` is proved to return exactly that.

pub mod aggregate;
pub mod axis;
pub mod command;
pub mod config;
pub mod dimension;
pub mod filename;
pub mod generator;
pub mod label;
pub mod laws;
pub mod maybe;
pub mod plot_2d;
pub mod prelude;
pub mod render;
pub mod required;
pub mod serie;
pub mod series;
pub mod table;
pub mod terminal;
pub mod text;
pub mod title;
pub mod x_label;
pub mod y_label;
