//! The table of the data file: what it holds and how it is written down.

use crate::serie::Serie;
use crate::text::decimal;
use std::fmt::Display;
use vstd::prelude::*;
use vstd::string::*;

verus! {

/// Whether `cells` is row `index` of the table of `series`: the index in
/// decimal notation, then for each series the text of its value at that
/// index, in the order of the series.
pub open spec fn is_table_row<T: Default + Display>(
    cells: Seq<String>,
    series: Seq<Serie<T>>,
    index: int,
) -> bool {
    &&& cells.len() == 1 + series.len()
    &&& cells[0]@ == decimal(index as nat)
    &&& forall|k: int|
        0 <= k < series.len() ==> to_string_from_display_ensures::<T>(
            &(#[trigger] series[k])@[index],
            cells[k + 1],
        )
}

/// Whether `rows` is the table of `series`: one row for each index of the
/// longest series, in rising order.
pub open spec fn is_table_of<T: Default + Display>(
    rows: Seq<Vec<String>>,
    series: Seq<Serie<T>>,
) -> bool {
    &&& rows.len() == crate::series::longest(series)
    &&& forall|r: int| 0 <= r < rows.len() ==> is_table_row((#[trigger] rows[r])@, series, r)
}

/// The cells of one row, separated by tabs.
pub open spec fn row_text(cells: Seq<String>) -> Seq<char>
    decreases cells.len(),
{
    if cells.len() == 0 {
        Seq::empty()
    } else if cells.len() == 1 {
        cells[0]@
    } else {
        row_text(cells.drop_last()) + "\t"@ + cells.last()@
    }
}

/// The rows of a table, each closed by a line feed.
pub open spec fn table_text(rows: Seq<Vec<String>>) -> Seq<char>
    decreases rows.len(),
{
    if rows.len() == 0 {
        Seq::empty()
    } else {
        table_text(rows.drop_last()) + row_text(rows.last()@) + "\n"@
    }
}

/// Writes one row down.
pub fn row_to_text(cells: &Vec<String>) -> (text: String)
    ensures
        text@ == row_text(cells@),
{
    let mut text = String::new();
    let mut j: usize = 0;
    while j < cells.len()
        invariant
            j <= cells.len(),
            text@ == row_text(cells@.take(j as int)),
        decreases cells.len() - j,
    {
        let ghost done = text@;
        let ghost upto = cells@.take(j + 1);
        assert(upto.drop_last() =~= cells@.take(j as int));
        assert(upto.last() == cells@[j as int]);
        if j > 0 {
            text.append("\t");
        }
        text.append(cells[j].as_str());
        assert(text@ =~= row_text(upto)) by {
            if j > 0 {
                assert(text@ =~= done + "\t"@ + cells@[j as int]@);
            } else {
                assert(row_text(cells@.take(0)) =~= Seq::<char>::empty());
                assert(text@ =~= cells@[0]@);
                assert(upto[0] == cells@[0]);
            }
        }
        j += 1;
    }
    assert(cells@.take(j as int) =~= cells@);
    text
}

/// Writes a table down.
pub fn table_to_text(rows: &Vec<Vec<String>>) -> (text: String)
    ensures
        text@ == table_text(rows@),
{
    let mut text = String::new();
    let mut i: usize = 0;
    while i < rows.len()
        invariant
            i <= rows.len(),
            text@ == table_text(rows@.take(i as int)),
        decreases rows.len() - i,
    {
        let ghost upto = rows@.take(i + 1);
        assert(upto.drop_last() =~= rows@.take(i as int));
        assert(upto.last() == rows@[i as int]);
        text.append(row_to_text(&rows[i]).as_str());
        text.append("\n");
        i += 1;
    }
    assert(rows@.take(i as int) =~= rows@);
    text
}

/// Series of one common length `height` fill a table of exactly `height`
/// rows, and every row has one column for the index and one for each series.
pub proof fn lemma_table_shape<T: Default + Display>(
    rows: Seq<Vec<String>>,
    series: Seq<Serie<T>>,
    height: nat,
)
    requires
        series.len() > 0,
        forall|k: int| 0 <= k < series.len() ==> (#[trigger] series[k])@.len() == height,
        is_table_of(rows, series),
    ensures
        rows.len() == height,
        forall|r: int| 0 <= r < rows.len() ==> (#[trigger] rows[r])@.len() == 1 + series.len(),
{
    crate::series::lemma_longest_is_the_maximum(series);
    assert forall|r: int| 0 <= r < rows.len() implies (#[trigger] rows[r])@.len() == 1
        + series.len() by {
        assert(is_table_row(rows[r]@, series, r));
    }
}

} // verus!
