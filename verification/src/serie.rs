//! One series of data: the values of one line in a plot.

use vstd::prelude::*;
use vstd::std_specs::slice::into_iter_elts;

verus! {

/// An ordered run of values with, if it has one, the title under which the
/// plot's key lists it.
#[derive(PartialEq, Debug)]
pub struct Serie<T> where T: Default {
    title: Option<String>,
    data: Vec<T>,
}

impl<T: Default> View for Serie<T> {
    type V = Seq<T>;

    /// The values, in the order in which they were added.
    closed spec fn view(&self) -> Seq<T> {
        self.data@
    }
}

impl<T: Default> Serie<T> {
    /// The title, if the series has one.
    pub closed spec fn title_text(&self) -> Option<Seq<char>> {
        match self.title {
            Some(title) => Some(title@),
            None => None,
        }
    }
}

/// Whether `copy` may be what cloning `model` gives: the same title, and
/// value for value a clone.
pub open spec fn is_copy_of<T: Default + Clone>(copy: Serie<T>, model: Serie<T>) -> bool {
    &&& copy.title_text() == model.title_text()
    &&& copy@.len() == model@.len()
    &&& forall|i: int| 0 <= i < model@.len() ==> cloned(#[trigger] model@[i], copy@[i])
}

impl<T: Default + Clone> Clone for Serie<T> {
    fn clone(&self) -> (result: Self)
        ensures
            is_copy_of(result, *self),
    {
        let title = match &self.title {
            Some(title) => Some(title.clone()),
            None => None,
        };
        Serie { title, data: self.data.clone() }
    }
}

impl<T: Default> Default for Serie<T> {
    fn default() -> (result: Self)
        ensures
            result@ == Seq::<T>::empty(),
            result.title_text() is None,
    {
        Serie { title: None, data: Vec::new() }
    }
}

impl<T> Serie<T> where T: Default + Clone {
    /// An empty series without a title.
    pub fn new() -> (result: Self)
        ensures
            result@ == Seq::<T>::empty(),
            result.title_text() is None,
    {
        Serie { title: None, data: Vec::new() }
    }

    /// An empty series with the title `title`.
    pub fn with_title(title: &str) -> (result: Self)
        ensures
            result@ == Seq::<T>::empty(),
            result.title_text() == Some(title@),
    {
        Serie { title: Some(title.to_owned()), data: Vec::new() }
    }

    /// Puts `value` behind the values held.
    pub fn add(&mut self, value: T)
        ensures
            final(self)@ == old(self)@.push(value),
            final(self).title_text() == old(self).title_text(),
    {
        self.data.push(value);
    }

    /// A clone of the value at `index`, where there is one.
    pub fn get(&self, index: usize) -> (result: Option<T>)
        ensures
            index < self@.len() ==> result is Some && cloned(self@[index as int], result->Some_0),
            index >= self@.len() ==> result is None,
    {
        if index < self.data.len() {
            Some(self.data[index].clone())
        } else {
            None
        }
    }

    /// The value at `index`, which must be there.
    pub fn at(&self, index: usize) -> (result: &T)
        requires
            index < self@.len(),
        ensures
            *result == self@[index as int],
    {
        &self.data[index]
    }

    pub fn len(&self) -> (result: usize)
        ensures
            result == self@.len(),
    {
        self.data.len()
    }

    pub fn is_empty(&self) -> (result: bool)
        ensures
            result == (self@.len() == 0),
    {
        self.len() == 0
    }

    /// An iterator over the values, first to last.
    pub fn iter(&self) -> (result: std::slice::Iter<'_, T>)
        ensures
            into_iter_elts(result) == self@,
    {
        let result = self.data.iter();
        assert(into_iter_elts(result) =~= self@);
        result
    }

    pub fn title(&self) -> (result: &Option<String>)
        ensures
            result is Some <==> self.title_text() is Some,
            result matches Some(title) ==> self.title_text() == Some(title@),
    {
        &self.title
    }
}

} // verus!
