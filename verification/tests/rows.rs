use csv_preview::preview::first_rows;
use csv_preview::preview::leading_indices;
use csv_preview::strategy::Stage;
use polars::frame::column::Column;
use polars::frame::DataFrame;
use polars::prelude::Scalar;

fn numbered(rows: usize) -> DataFrame {
    let ids: Vec<i64> = (1..=rows as i64).collect();
    let names: Vec<String> = ids.iter().map(|i| format!("n{}", i)).collect();
    let columns = vec![Column::new("id".into(), ids), Column::new("name".into(), names)];
    DataFrame::new(rows, columns).unwrap()
}

fn ids(frame: &DataFrame) -> Vec<i64> {
    frame.column("id").unwrap().i64().unwrap().into_no_null_iter().collect()
}

fn names(frame: &DataFrame) -> Vec<String> {
    let column = frame.column("name").unwrap().str().unwrap();
    (0..column.len()).map(|i| String::from(column.get(i).unwrap())).collect()
}

fn headers(frame: &DataFrame) -> Vec<String> {
    frame.get_column_names().iter().map(|name| name.to_string()).collect()
}

#[test]
fn leading_indices_count_up_from_zero() {
    assert_eq!(leading_indices(0), Vec::<u32>::new());
    assert_eq!(leading_indices(1), vec![0]);
    assert_eq!(leading_indices(5), vec![0, 1, 2, 3, 4]);
}

#[test]
fn first_rows_are_the_first_five_in_order() {
    let table = numbered(8);
    let rows = first_rows(&table).unwrap();
    assert_eq!(rows.height(), 5);
    assert_eq!(ids(&rows), vec![1, 2, 3, 4, 5]);
    assert_eq!(names(&rows), vec!["n1", "n2", "n3", "n4", "n5"]);
}

#[test]
fn first_rows_keep_the_columns() {
    let table = numbered(6);
    let rows = first_rows(&table).unwrap();
    assert_eq!(headers(&rows), vec!["id", "name"]);
    assert_eq!(rows.width(), 2);
}

#[test]
fn first_rows_leave_the_table_as_it_was() {
    let table = numbered(7);
    let _ = first_rows(&table).unwrap();
    assert_eq!(table.height(), 7);
    assert_eq!(ids(&table), vec![1, 2, 3, 4, 5, 6, 7]);
}

#[test]
fn a_table_of_five_rows_is_its_own_preview() {
    let table = numbered(5);
    let rows = first_rows(&table).unwrap();
    assert_eq!(rows.height(), 5);
    assert_eq!(ids(&rows), ids(&table));
    assert_eq!(names(&rows), names(&table));
}

#[test]
fn four_rows_cannot_be_selected_from() {
    let table = numbered(4);
    let error = first_rows(&table).unwrap_err();
    assert_eq!(error.stage, Stage::Select);
    assert_eq!(error.detail, "4 of 5 rows");
}

#[test]
fn an_empty_table_cannot_be_selected_from() {
    let table = numbered(0);
    let error = first_rows(&table).unwrap_err();
    assert_eq!(error.stage, Stage::Select);
    assert_eq!(error.detail, "0 of 5 rows");
}

#[test]
fn a_table_too_tall_for_row_indices_is_previewed_by_its_head() {
    let height = (u32::MAX as usize) + 1;
    let column = Column::new_scalar("id".into(), Scalar::from(7i64), height);
    let table = DataFrame::new(height, vec![column]).unwrap();
    let rows = first_rows(&table).unwrap();
    assert_eq!(rows.height(), 5);
    assert_eq!(headers(&rows), vec!["id"]);
    assert_eq!(ids(&rows), vec![7, 7, 7, 7, 7]);
    assert_eq!(table.height(), height);
}
