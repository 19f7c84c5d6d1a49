//! The data of a plot: series side by side, one column each.

use crate::command::{
    one_command, single, Failure, GnuCommand, GnuCommandFactory, GnuCommandFactoryError,
    GnuCommandFactoryResult, Outcome,
};
use crate::serie::{is_copy_of, Serie};
use crate::table::{is_table_of, is_table_row, table_text, table_to_text};
use crate::text::{decimal, decimal_string};
use std::fmt::Display;
use vstd::prelude::*;
use vstd::string::*;

verus! {

/// The series of one plot, in the order in which they were registered.
#[derive(PartialEq, Debug)]
pub struct Series<T> where T: Default + Clone + Display {
    data: Vec<Serie<T>>,
}

impl<T: Default + Clone + Display> View for Series<T> {
    type V = Seq<Serie<T>>;

    closed spec fn view(&self) -> Seq<Serie<T>> {
        self.data@
    }
}

/// The length of the longest of `series`; 0 where there is none.
pub open spec fn longest<T: Default>(series: Seq<Serie<T>>) -> nat
    decreases series.len(),
{
    if series.len() == 0 {
        0
    } else if longest(series.drop_last()) >= series.last()@.len() {
        longest(series.drop_last())
    } else {
        series.last()@.len()
    }
}

/// Whether all of `series` have the same length, so that they fill a table
/// without gaps.
pub open spec fn rectangular<T: Default>(series: Seq<Serie<T>>) -> bool {
    forall|i: int| 0 <= i < series.len() ==> (#[trigger] series[i])@.len() == series[0]@.len()
}

/// Whether `copies` may be what cloning `models` gives, series by series.
pub open spec fn are_copies_of<T: Default + Clone>(
    copies: Seq<Serie<T>>,
    models: Seq<Serie<T>>,
) -> bool {
    &&& copies.len() == models.len()
    &&& forall|i: int| 0 <= i < models.len() ==> is_copy_of(copies[i], #[trigger] models[i])
}

/// No series is longer than the longest, and one is as long, if there is any.
pub proof fn lemma_longest_is_the_maximum<T: Default>(series: Seq<Serie<T>>)
    ensures
        forall|i: int| 0 <= i < series.len() ==> (#[trigger] series[i])@.len() <= longest(series),
        series.len() == 0 ==> longest(series) == 0,
        series.len() > 0 ==> exists|i: int|
            0 <= i < series.len() && (#[trigger] series[i])@.len() == longest(series),
    decreases series.len(),
{
    if series.len() > 0 {
        let front = series.drop_last();
        lemma_longest_is_the_maximum(front);
        assert forall|i: int| 0 <= i < series.len() implies (#[trigger] series[i])@.len()
            <= longest(series) by {
            if i < front.len() {
                assert(front[i] == series[i]);
            }
        }
        if longest(front) >= series.last()@.len() && front.len() > 0 {
            let i = choose|i: int| 0 <= i < front.len() && (#[trigger] front[i])@.len() == longest(
                front,
            );
            assert(series[i] == front[i]);
        } else {
            assert(series[series.len() - 1]@.len() == longest(series));
        }
    }
}

/// Series of equal length are all as long as the longest.
pub proof fn lemma_rectangular_lengths<T: Default>(series: Seq<Serie<T>>)
    requires
        rectangular(series),
    ensures
        forall|i: int| 0 <= i < series.len() ==> (#[trigger] series[i])@.len() == longest(series),
{
    lemma_longest_is_the_maximum(series);
    if series.len() > 0 {
        let k = choose|i: int|
            0 <= i < series.len() && (#[trigger] series[i])@.len() == longest(series);
        assert(series[k]@.len() == series[0]@.len());
    }
}

/// Copies are as long as their models, one by one and at the longest.
pub proof fn lemma_copies_keep_lengths<T: Default + Clone>(
    copies: Seq<Serie<T>>,
    models: Seq<Serie<T>>,
)
    requires
        are_copies_of(copies, models),
    ensures
        longest(copies) == longest(models),
        rectangular(copies) == rectangular(models),
    decreases models.len(),
{
    if models.len() > 0 {
        assert(is_copy_of(copies[0], models[0]));
        assert(is_copy_of(copies.last(), models[models.len() - 1]));
        assert forall|i: int| 0 <= i < models.len() - 1 implies is_copy_of(
            copies.drop_last()[i],
            #[trigger] models.drop_last()[i],
        ) by {
            assert(is_copy_of(copies[i], models[i]));
        }
        lemma_copies_keep_lengths(copies.drop_last(), models.drop_last());
        if rectangular(models) {
            assert forall|i: int| 0 <= i < copies.len() implies (#[trigger] copies[i])@.len()
                == copies[0]@.len() by {
                assert(is_copy_of(copies[i], models[i]));
            }
        }
        if rectangular(copies) {
            assert forall|i: int| 0 <= i < models.len() implies (#[trigger] models[i])@.len()
                == models[0]@.len() by {
                assert(is_copy_of(copies[i], models[i]));
                assert(copies[i]@.len() == copies[0]@.len());
            }
        }
    }
}

impl<T: Default + Clone + Display> Clone for Series<T> {
    fn clone(&self) -> (result: Self)
        ensures
            are_copies_of(result@, self@),
    {
        let mut data: Vec<Serie<T>> = Vec::new();
        let mut i: usize = 0;
        while i < self.data.len()
            invariant
                i <= self.data.len(),
                data@.len() == i,
                forall|k: int| 0 <= k < i ==> is_copy_of(data@[k], #[trigger] self.data@[k]),
            decreases self.data.len() - i,
        {
            data.push(self.data[i].clone());
            i += 1;
        }
        Series { data }
    }
}

impl<T: Default + Clone + Display> Default for Series<T> {
    fn default() -> (result: Self)
        ensures
            result@ == Seq::<Serie<T>>::empty(),
    {
        Series { data: Vec::new() }
    }
}

impl<T> Series<T> where T: Default + Clone + Display {
    /// A container without series.
    pub fn new() -> (result: Self)
        ensures
            result@ == Seq::<Serie<T>>::empty(),
    {
        Series { data: Vec::new() }
    }

    /// Registers `serie` behind the series held.
    pub fn add(&mut self, serie: Serie<T>)
        ensures
            final(self)@ == old(self)@.push(serie),
    {
        self.data.push(serie);
    }

    /// The number of series held.
    pub fn count(&self) -> (result: usize)
        ensures
            result == self@.len(),
    {
        self.data.len()
    }

    /// The length of the longest series held.
    pub fn len(&self) -> (result: usize)
        ensures
            result == longest(self@),
    {
        let mut len: usize = 0;
        let mut i: usize = 0;
        while i < self.data.len()
            invariant
                i <= self.data.len(),
                len == longest(self@.take(i as int)),
            decreases self.data.len() - i,
        {
            assert(self@.take(i + 1).drop_last() =~= self@.take(i as int));
            let next = self.data[i].len();
            if next > len {
                len = next;
            }
            i += 1;
        }
        assert(self@.take(i as int) =~= self@);
        len
    }

    pub fn is_empty(&self) -> (result: bool)
        ensures
            result == (longest(self@) == 0),
    {
        self.len() == 0
    }

    /// Whether all series held have the same length.
    pub fn is_rectangular(&self) -> (result: bool)
        ensures
            result == rectangular(self@),
    {
        let mut i: usize = 0;
        while i < self.data.len()
            invariant
                i <= self.data.len(),
                forall|k: int| 0 <= k < i ==> (#[trigger] self@[k])@.len() == self@[0]@.len(),
            decreases self.data.len() - i,
        {
            if self.data[i].len() != self.data[0].len() {
                assert(self@[i as int]@.len() != self@[0]@.len());
                return false;
            }
            i += 1;
        }
        true
    }

    /// An iterator over the rows of the table that the series form. It works
    /// on a copy of the series.
    pub fn iter(&self) -> (result: SeriesIterator<T>)
        ensures
            are_copies_of(result.source(), self@),
            rectangular(result.source()) == rectangular(self@),
            longest(result.source()) == longest(self@),
            result.position() == 0,
    {
        let result = SeriesIterator { data: self.clone(), index: 0 };
        proof {
            lemma_copies_keep_lengths(result.data@, self@);
        }
        result
    }
}

/// Walks the rows of a table of series: row `i` holds value `i` of every
/// series, in the order of the series.
#[derive(PartialEq, Debug)]
pub struct SeriesIterator<T> where T: Default + Clone + Display {
    data: Series<T>,
    index: usize,
}

impl<T: Default + Clone + Display> SeriesIterator<T> {
    /// The series that the iterator walks.
    pub closed spec fn source(&self) -> Seq<Serie<T>> {
        self.data@
    }

    /// The index of the row that comes next.
    pub closed spec fn position(&self) -> nat {
        self.index as nat
    }

    /// The next row with its index, or `None` behind the last row. The series
    /// must be of equal length: a table with gaps has no rows to give.
    pub fn next(&mut self) -> (result: Option<(usize, Vec<T>)>)
        requires
            rectangular(old(self).source()),
        ensures
            final(self).source() == old(self).source(),
            old(self).position() >= longest(old(self).source()) ==> {
                &&& result is None
                &&& final(self).position() == old(self).position()
            },
            old(self).position() < longest(old(self).source()) ==> {
                &&& final(self).position() == old(self).position() + 1
                &&& result is Some
                &&& result->Some_0.0 == old(self).position()
                &&& is_row_of(result->Some_0.1@, old(self).source(), old(self).position() as int)
            },
    {
        if self.data.len() <= self.index {
            return None;
        }
        proof {
            lemma_rectangular_lengths(self.data@);
        }
        let mut row: Vec<T> = Vec::new();
        let mut j: usize = 0;
        while j < self.data.data.len()
            invariant
                j <= self.data.data.len(),
                row@.len() == j,
                self.index < longest(self.data@),
                forall|k: int|
                    0 <= k < self.data@.len() ==> (#[trigger] self.data@[k])@.len() == longest(
                        self.data@,
                    ),
                forall|k: int|
                    0 <= k < j ==> cloned(
                        (#[trigger] self.data@[k])@[self.index as int],
                        row@[k],
                    ),
            decreases self.data.data.len() - j,
        {
            assert(self.data@[j as int]@.len() == longest(self.data@));
            row.push(self.data.data[j].at(self.index).clone());
            j += 1;
        }
        let index = self.index;
        self.index += 1;
        Some((index, row))
    }
}

/// Whether `row` holds, series by series, a clone of the value at `index`.
pub open spec fn is_row_of<T: Default + Clone>(
    row: Seq<T>,
    series: Seq<Serie<T>>,
    index: int,
) -> bool {
    &&& row.len() == series.len()
    &&& forall|k: int| 0 <= k < series.len() ==> cloned((#[trigger] series[k])@[index], row[k])
}

impl<T: Default + Clone + Display> Default for SeriesIterator<T> {
    fn default() -> (result: Self)
        ensures
            result.source() == Seq::<Serie<T>>::empty(),
            result.position() == 0,
    {
        SeriesIterator { data: Series::new(), index: 0 }
    }
}

/// The file from which gnuplot reads the series.
pub open spec fn data_file() -> Seq<char> {
    "./.tmp/series_data.txt"@
}

/// The description carried by the failure of a container without series:
/// a plot command without a clause cannot be closed.
pub open spec fn no_series_text() -> Seq<char> {
    "Unable to strip suffix"@
}

/// The description carried by the failure of series of unequal length.
pub open spec fn unequal_lengths_text() -> Seq<char> {
    "The series differ in length and cannot share one table of data"@
}

/// The part of the plot command that draws one series: the column of the
/// data file at `path` that holds it and, if it has one, its title.
pub open spec fn plot_clause(path: Seq<char>, column: nat, title: Option<Seq<char>>) -> Seq<char> {
    "\""@ + path + "\" using 1:"@ + decimal(column) + (match title {
        Some(text) => " title '"@ + text + "'"@,
        None => Seq::empty(),
    }) + " with linespoint"@
}

/// The clauses of all `series`, in their order. Column 1 of the data file
/// holds the row index, so the series at position `i` is read from column
/// `i + 2`. The clauses are separated by a comma and a space, and nothing
/// follows the last.
pub open spec fn plot_clauses<T: Default>(path: Seq<char>, series: Seq<Serie<T>>) -> Seq<char>
    decreases series.len(),
{
    if series.len() == 0 {
        Seq::empty()
    } else if series.len() == 1 {
        plot_clause(path, 2, series[0].title_text())
    } else {
        plot_clauses(path, series.drop_last()) + ", "@ + plot_clause(
            path,
            series.len() + 1,
            series.last().title_text(),
        )
    }
}

/// The command that plots `series` from the data file at `path`.
pub open spec fn plot_line<T: Default>(path: Seq<char>, series: Seq<Serie<T>>) -> Seq<char> {
    "plot "@ + plot_clauses(path, series)
}

/// The path of the file from which gnuplot reads the series.
pub fn data_file_path() -> (path: &'static str)
    ensures
        path@ == data_file(),
{
    "./.tmp/series_data.txt"
}

impl<T> Series<T> where T: Default + Clone + Display {
    /// The command that plots the series held from the data file at `path`.
    pub fn plot_command(&self, path: &str) -> (command: GnuCommand)
        ensures
            command@ == plot_line(path@, self@),
    {
        let mut line = String::from_str("plot ");
        let mut i: usize = 0;
        while i < self.data.len()
            invariant
                i <= self.data.len(),
                line@ == "plot "@ + plot_clauses(path@, self@.take(i as int)),
            decreases self.data.len() - i,
        {
            let ghost done = line@;
            let ghost upto = self@.take(i + 1);
            assert(upto.drop_last() =~= self@.take(i as int));
            assert(upto.last() == self@[i as int]);
            if i > 0 {
                line.append(", ");
            }
            line.append("\"");
            line.append(path);
            line.append("\" using 1:");
            line.append(decimal_string(i as u128 + 2).as_str());
            match self.data[i].title() {
                Some(title) => {
                    line.append(" title '");
                    line.append(title.as_str());
                    line.append("'");
                },
                None => {},
            }
            line.append(" with linespoint");
            assert(line@ =~= "plot "@ + plot_clauses(path@, upto)) by {
                let clause = plot_clause(path@, (i + 2) as nat, self@[i as int].title_text());
                if i > 0 {
                    assert(line@ =~= done + ", "@ + clause);
                } else {
                    assert(line@ =~= done + clause);
                    assert(plot_clauses(path@, self@.take(0)) =~= Seq::<char>::empty());
                }
            }
            i += 1;
        }
        assert(self@.take(i as int) =~= self@);
        GnuCommand::new(line.as_str())
    }
}

impl<T> GnuCommandFactory for Series<T> where T: Default + Clone + Display {
    /// One plot command for all series, which reads them from the data file
    /// at [`data_file`]; [`Series::file_contents`] is what that file has to
    /// hold, and writing it there is left to the caller. Series of unequal
    /// length are refused, and so is a container without series: a plot
    /// command needs at least one clause.
    open spec fn commands(&self) -> Outcome {
        if !rectangular(self@) {
            Err(Failure::Message(unequal_lengths_text()))
        } else if self@.len() == 0 {
            Err(Failure::Message(no_series_text()))
        } else {
            single(plot_line(data_file(), self@))
        }
    }

    fn as_commands(&self) -> (result: GnuCommandFactoryResult) {
        if !self.is_rectangular() {
            Err(
                GnuCommandFactoryError::message(
                    "The series differ in length and cannot share one table of data",
                ),
            )
        } else if self.data.len() == 0 {
            Err(GnuCommandFactoryError::message("Unable to strip suffix"))
        } else {
            Ok(one_command(self.plot_command(data_file_path())))
        }
    }
}

impl<T> Series<T> where T: Default + Clone + Display {
    /// The table that the data file holds: one row per index, each with the
    /// index first and then the value of every series at that index, as text.
    /// Series of unequal length form no table and are refused.
    pub fn rows(&self) -> (result: Result<Vec<Vec<String>>, GnuCommandFactoryError>)
        ensures
            result is Ok <==> rectangular(self@),
            result matches Ok(rows) ==> is_table_of(rows@, self@),
            result matches Err(error) ==> error@ == Failure::Message(unequal_lengths_text()),
    {
        if !self.is_rectangular() {
            return Err(
                GnuCommandFactoryError::message(
                    "The series differ in length and cannot share one table of data",
                ),
            );
        }
        proof {
            lemma_rectangular_lengths(self@);
        }
        let height = self.len();
        let mut rows: Vec<Vec<String>> = Vec::new();
        let mut i: usize = 0;
        while i < height
            invariant
                i <= height,
                height == longest(self@),
                rows@.len() == i,
                forall|k: int|
                    0 <= k < self@.len() ==> (#[trigger] self@[k])@.len() == longest(self@),
                forall|r: int| 0 <= r < i ==> is_table_row((#[trigger] rows@[r])@, self@, r),
            decreases height - i,
        {
            let mut cells: Vec<String> = Vec::new();
            cells.push(decimal_string(i as u128));
            let mut j: usize = 0;
            while j < self.data.len()
                invariant
                    j <= self.data.len(),
                    i < height,
                    height == longest(self@),
                    cells@.len() == j + 1,
                    cells@[0]@ == decimal(i as nat),
                    forall|k: int|
                        0 <= k < self@.len() ==> (#[trigger] self@[k])@.len() == longest(self@),
                    forall|k: int|
                        0 <= k < j ==> to_string_from_display_ensures::<T>(
                            &(#[trigger] self@[k])@[i as int],
                            cells@[k + 1],
                        ),
                decreases self.data.len() - j,
            {
                assert(self@[j as int]@.len() == longest(self@));
                let cell = self.data[j].at(i).to_string();
                cells.push(cell);
                j += 1;
            }
            rows.push(cells);
            i += 1;
        }
        Ok(rows)
    }

    /// The text of the data file: the rows of the table, each closed by a
    /// line feed, its cells separated by tabs.
    pub fn file_contents(&self) -> (result: Result<String, GnuCommandFactoryError>)
        ensures
            result is Ok <==> rectangular(self@),
            result matches Ok(text) ==> exists|rows: Seq<Vec<String>>|
                is_table_of(rows, self@) && text@ == #[trigger] table_text(rows),
            result matches Err(error) ==> error@ == Failure::Message(unequal_lengths_text()),
    {
        match self.rows() {
            Ok(rows) => Ok(table_to_text(&rows)),
            Err(error) => Err(error),
        }
    }
}

} // verus!
