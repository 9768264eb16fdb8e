use rust_odbc_csv::RowBatch;

fn text_cell(text: &str) -> Option<Vec<u8>> {
    Some(text.as_bytes().to_vec())
}

#[test]
fn new_batch_is_empty() {
    let batch = RowBatch::new(3, 2);
    assert_eq!(batch.capacity(), 3);
    assert_eq!(batch.num_cols(), 2);
    assert_eq!(batch.num_rows(), 0);
}

#[test]
fn pushed_rows_are_read_back_by_column_and_row() {
    let mut batch = RowBatch::new(3, 2);
    assert!(batch.push_row(vec![text_cell("1"), text_cell("alice")]));
    assert!(batch.push_row(vec![text_cell("2"), None]));
    assert_eq!(batch.num_rows(), 2);
    assert_eq!(batch.at(0, 0), Some(&b"1"[..]));
    assert_eq!(batch.at(1, 0), Some(&b"alice"[..]));
    assert_eq!(batch.at(0, 1), Some(&b"2"[..]));
    assert_eq!(batch.at(1, 1), None);
    assert_eq!(batch.row(1), &vec![text_cell("2"), None]);
}

#[test]
fn empty_cell_is_not_a_null_cell() {
    let mut batch = RowBatch::new(1, 2);
    assert!(batch.push_row(vec![Some(Vec::new()), None]));
    assert_eq!(batch.at(0, 0), Some(&b""[..]));
    assert_eq!(batch.at(1, 0), None);
}

#[test]
fn row_of_the_wrong_width_is_refused() {
    let mut batch = RowBatch::new(3, 2);
    assert!(!batch.push_row(vec![text_cell("only one")]));
    assert!(!batch.push_row(vec![text_cell("a"), text_cell("b"), text_cell("c")]));
    assert!(!batch.push_row(Vec::new()));
    assert_eq!(batch.num_rows(), 0);
    assert!(batch.push_row(vec![text_cell("a"), text_cell("b")]));
    assert_eq!(batch.num_rows(), 1);
}

#[test]
fn row_beyond_the_capacity_is_refused() {
    let mut batch = RowBatch::new(2, 1);
    assert!(batch.push_row(vec![text_cell("a")]));
    assert!(batch.push_row(vec![text_cell("b")]));
    assert!(!batch.push_row(vec![text_cell("c")]));
    assert_eq!(batch.num_rows(), 2);
    assert_eq!(batch.at(0, 1), Some(&b"b"[..]));
}

#[test]
fn batch_without_capacity_takes_no_row() {
    let mut batch = RowBatch::new(0, 1);
    assert!(!batch.push_row(vec![text_cell("a")]));
    assert_eq!(batch.num_rows(), 0);
}

#[test]
fn batch_without_columns_takes_empty_rows() {
    let mut batch = RowBatch::new(2, 0);
    assert!(batch.push_row(Vec::new()));
    assert!(!batch.push_row(vec![None]));
    assert_eq!(batch.num_rows(), 1);
    assert_eq!(batch.row(0).len(), 0);
}

#[test]
fn cleared_batch_is_refilled() {
    let mut batch = RowBatch::new(2, 1);
    assert!(batch.push_row(vec![text_cell("a")]));
    assert!(batch.push_row(vec![text_cell("b")]));
    batch.clear();
    assert_eq!(batch.num_rows(), 0);
    assert_eq!(batch.capacity(), 2);
    assert_eq!(batch.num_cols(), 1);
    assert!(batch.push_row(vec![text_cell("c")]));
    assert_eq!(batch.at(0, 0), Some(&b"c"[..]));
}
