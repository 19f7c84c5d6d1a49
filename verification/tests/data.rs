use gnuplotter::command::{GnuCommand, GnuCommandFactory, GnuCommandFactoryError};
use gnuplotter::serie::Serie;
use gnuplotter::series::{data_file_path, Series, SeriesIterator};
use gnuplotter::table::{row_to_text, table_to_text};

#[test]
fn test_serie_creation() {
    let serie = Serie::<f64>::new();
    assert_eq!(serie.len(), 0);
    assert_eq!(serie.title(), &None);
}

#[test]
fn test_serie_creation_with_title() {
    let serie = Serie::<f64>::with_title("Serie A");
    assert_eq!(serie.len(), 0);
    assert_eq!(serie.title(), &Some("Serie A".into()));
}

#[test]
fn test_serie_add() {
    let mut serie = Serie::<f64>::new();
    serie.add(1.0);
    serie.add(2.0);
    serie.add(3.0);

    assert_eq!(serie.len(), 3);
}

#[test]
fn test_serie_get() {
    let mut serie = Serie::<f64>::new();
    serie.add(1.0);
    serie.add(2.0);
    serie.add(3.0);

    assert_eq!(serie.get(0), Some(1.0));
    assert_eq!(serie.get(1), Some(2.0));
    assert_eq!(serie.get(2), Some(3.0));
    assert_eq!(serie.get(3), None);
}

#[test]
fn test_len() {
    let mut serie = Serie::<f64>::new();

    assert_eq!(serie.len(), 0);

    serie.add(1.0);
    serie.add(2.0);
    serie.add(3.0);

    assert_eq!(serie.len(), 3);
}

#[test]
fn test_serie_is_empty_and_iterates_in_order() {
    let mut serie = Serie::<i32>::new();
    assert!(serie.is_empty());
    serie.add(4);
    serie.add(5);
    assert!(!serie.is_empty());
    assert_eq!(serie.at(1), &5);
    let seen: Vec<i32> = serie.iter().cloned().collect();
    assert_eq!(seen, vec![4, 5]);
    let copy = serie.clone();
    assert_eq!(copy, serie);
}

#[test]
fn test_series_len() {
    let mut serie_1 = Serie::new();
    serie_1.add(1.0);

    let mut serie_2 = Serie::new();
    serie_2.add(2.0);
    serie_2.add(4.0);
    serie_2.add(6.0);

    let mut series = Series::new();
    series.add(serie_1);
    series.add(serie_2);

    assert_eq!(series.len(), 3);
}

#[test]
fn test_is_empty() {
    let serie_1: Serie<f64> = Serie::new();
    let mut series = Series::new();
    series.add(serie_1);

    assert!(series.is_empty());

    let mut serie_1 = Serie::new();
    serie_1.add(1.0);
    let mut series = Series::new();
    series.add(serie_1);

    assert!(!series.is_empty());
}

#[test]
fn test_creating_series() {
    let mut serie_1 = Serie::new();
    serie_1.add(1.0);
    serie_1.add(2.0);
    serie_1.add(3.0);

    let mut serie_2 = Serie::new();
    serie_2.add(2.0);
    serie_2.add(4.0);
    serie_2.add(6.0);

    let mut series = Series::new();
    series.add(serie_1);
    series.add(serie_2);

    let mut it = series.iter();
    assert_eq!(it.next(), Some((0, vec![1.0, 2.0])));
    assert_eq!(it.next(), Some((1, vec![2.0, 4.0])));
    assert_eq!(it.next(), Some((2, vec![3.0, 6.0])));
}

#[test]
fn test_the_row_iterator_ends_behind_the_last_row() {
    let mut serie = Serie::new();
    serie.add(1);
    let mut series = Series::new();
    series.add(serie);
    let mut it = series.iter();
    assert_eq!(it.next(), Some((0, vec![1])));
    assert_eq!(it.next(), None);
    assert_eq!(it.next(), None);
    let mut none: SeriesIterator<i32> = SeriesIterator::default();
    assert_eq!(none.next(), None);
}

#[test]
fn test_series_command() {
    let mut serie_1 = Serie::with_title("A");
    serie_1.add(1.0);
    serie_1.add(2.0);
    serie_1.add(3.0);

    let mut serie_2 = Serie::with_title("B");
    serie_2.add(2.0);
    serie_2.add(4.0);
    serie_2.add(6.0);

    let mut series = Series::new();
    series.add(serie_1);
    series.add(serie_2);

    let mut command = series.as_commands().unwrap();

    assert_eq!(command.pop_front().unwrap(), GnuCommand::new("plot \"./.tmp/series_data.txt\" using 1:2 title 'A' with linespoint, \"./.tmp/series_data.txt\" using 1:3 title 'B' with linespoint"));
}

#[test]
fn test_series_command_without_titles() {
    let mut serie_1 = Serie::new();
    serie_1.add(1.0);
    serie_1.add(2.0);
    serie_1.add(3.0);

    let mut serie_2 = Serie::new();
    serie_2.add(2.0);
    serie_2.add(4.0);
    serie_2.add(6.0);

    let mut series = Series::new();
    series.add(serie_1);
    series.add(serie_2);

    let mut command = series.as_commands().unwrap();

    assert_eq!(command.pop_front().unwrap(), GnuCommand::new("plot \"./.tmp/series_data.txt\" using 1:2 with linespoint, \"./.tmp/series_data.txt\" using 1:3 with linespoint"));
}

#[test]
fn test_a_plot_command_for_another_file() {
    let mut serie = Serie::with_title("only");
    serie.add(1u8);
    let mut series = Series::new();
    series.add(serie);
    assert_eq!(
        series.plot_command("d.txt").to_string(),
        "plot \"d.txt\" using 1:2 title 'only' with linespoint"
    );
    assert_eq!(data_file_path(), "./.tmp/series_data.txt");
}

#[test]
fn test_a_container_without_series_is_refused() {
    let series: Series<f64> = Series::new();
    assert_eq!(series.count(), 0);
    assert_eq!(
        series.as_commands(),
        Err(GnuCommandFactoryError::Message(String::from("Unable to strip suffix")))
    );
    assert_eq!(series.plot_command("d.txt").to_string(), "plot ");
}

#[test]
fn test_a_container_without_series_has_an_empty_table() {
    let series: Series<f64> = Series::new();
    assert!(series.is_rectangular());
    assert_eq!(series.len(), 0);
    assert_eq!(series.rows(), Ok(vec![]));
    assert_eq!(series.file_contents(), Ok(String::new()));
}

fn ragged() -> Series<f64> {
    let mut short = Serie::new();
    short.add(1.0);
    let mut long = Serie::new();
    long.add(2.0);
    long.add(4.0);
    let mut series = Series::new();
    series.add(short);
    series.add(long);
    series
}

#[test]
fn test_series_of_unequal_length_are_refused() {
    let series = ragged();
    assert!(!series.is_rectangular());
    let expected = GnuCommandFactoryError::Message(String::from(
        "The series differ in length and cannot share one table of data",
    ));
    assert_eq!(series.as_commands(), Err(expected.clone()));
    assert_eq!(series.rows(), Err(expected.clone()));
    assert_eq!(series.file_contents(), Err(expected));
}

#[test]
fn test_the_table_has_a_row_per_index_and_a_column_per_series() {
    let mut series = Series::new();
    let count = 3;
    let height = 5;
    for s in 0..count {
        let mut serie = Serie::new();
        for i in 0..height {
            serie.add((s * 10 + i) as f64);
        }
        series.add(serie);
    }
    assert!(series.is_rectangular());
    let rows = series.rows().unwrap();
    assert_eq!(rows.len(), height);
    for (i, row) in rows.iter().enumerate() {
        assert_eq!(row.len(), 1 + count);
        assert_eq!(row[0], i.to_string());
    }
    let text = series.file_contents().unwrap();
    assert_eq!(text.lines().count(), height);
    for line in text.lines() {
        assert_eq!(line.split('\t').count(), 1 + count);
    }
}

#[test]
fn test_the_data_file_text() {
    let mut serie_1 = Serie::with_title("A");
    serie_1.add(1.0);
    serie_1.add(2.0);
    serie_1.add(3.0);
    let mut serie_2 = Serie::new();
    serie_2.add(2.0);
    serie_2.add(4.5);
    serie_2.add(6.0);
    let mut series = Series::new();
    series.add(serie_1);
    series.add(serie_2);

    assert_eq!(
        series.rows().unwrap(),
        vec![vec!["0", "1", "2"], vec!["1", "2", "4.5"], vec!["2", "3", "6"]]
    );
    assert_eq!(series.file_contents().unwrap(), "0\t1\t2\n1\t2\t4.5\n2\t3\t6\n");
}

#[test]
fn test_rows_and_tables_as_text() {
    assert_eq!(row_to_text(&vec![]), "");
    assert_eq!(row_to_text(&vec![String::from("a")]), "a");
    assert_eq!(row_to_text(&vec![String::from("a"), String::from("b")]), "a\tb");
    assert_eq!(table_to_text(&vec![]), "");
    assert_eq!(
        table_to_text(&vec![vec![String::from("0"), String::from("x")], vec![String::from("1")]]),
        "0\tx\n1\n"
    );
}

#[test]
fn test_a_copy_of_series_is_equal() {
    let mut serie = Serie::with_title("t");
    serie.add(1);
    serie.add(2);
    let mut series = Series::new();
    series.add(serie);
    assert_eq!(series.clone(), series);
}
