//! Markers that tell the axes of a plot apart.

use vstd::prelude::*;

verus! {

/// A marker for one axis. It holds no data: it only selects the keyword
/// under which gnuplot knows the axis.
pub trait Dimension: Default {
    /// The keyword of the axis, as mathematics. Every verified marker says
    /// here what `name` returns.
    open spec fn keyword() -> Seq<char> {
        arbitrary()
    }

    fn name() -> (result: &'static str)
        ensures
            result@ == Self::keyword(),
    ;
}

/// The horizontal axis.
#[derive(Clone, PartialEq, Eq, Debug)]
pub struct X {}

/// The vertical axis.
#[derive(Clone, PartialEq, Eq, Debug)]
pub struct Y {}

impl Default for X {
    fn default() -> (result: Self)
        ensures
            result == (X {  }),
    {
        X {  }
    }
}

impl Default for Y {
    fn default() -> (result: Self)
        ensures
            result == (Y {  }),
    {
        Y {  }
    }
}

impl Dimension for X {
    open spec fn keyword() -> Seq<char> {
        "x"@
    }

    fn name() -> (result: &'static str) {
        "x"
    }
}

impl Dimension for Y {
    open spec fn keyword() -> Seq<char> {
        "y"@
    }

    fn name() -> (result: &'static str) {
        "y"
    }
}

} // verus!
