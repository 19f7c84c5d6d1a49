//! The name of a file.

use vstd::prelude::*;

verus! {

pub struct Filename(String);

impl View for Filename {
    type V = Seq<char>;

    closed spec fn view(&self) -> Seq<char> {
        self.0@
    }
}

impl Filename {
    pub fn new(filename: &str) -> (result: Self)
        ensures
            result@ == filename@,
    {
        Filename(filename.to_owned())
    }

    /// The name as text.
    pub fn to_string(&self) -> (text: String)
        ensures
            text@ == self@,
    {
        self.0.clone()
    }
}

} // verus!
