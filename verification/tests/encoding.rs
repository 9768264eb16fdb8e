use rust_odbc_csv::encode::{
    append_record, decode_row, encode_batch, encode_record, encoded, row_fields,
};
use rust_odbc_csv::{ExportError, RowBatch};

fn bytes_cell(bytes: &[u8]) -> Option<Vec<u8>> {
    Some(bytes.to_vec())
}

fn texts(items: &[&str]) -> Vec<String> {
    items.iter().map(|s| s.to_string()).collect()
}

#[test]
fn null_cell_becomes_an_empty_field() {
    let row = vec![bytes_cell(b"1"), None, bytes_cell(b""), bytes_cell(b"x y")];
    let fields = row_fields(&row);
    assert_eq!(fields, vec![b"1".to_vec(), Vec::new(), Vec::new(), b"x y".to_vec()]);
}

#[test]
fn row_without_cells_has_no_fields() {
    assert_eq!(row_fields(&Vec::new()), Vec::<Vec<u8>>::new());
    assert_eq!(decode_row(&Vec::new()), Vec::<String>::new());
}

#[test]
fn valid_text_is_decoded_unchanged() {
    let row = vec![bytes_cell(b"quux"), bytes_cell("gr\u{00fc}n".as_bytes()), None];
    assert_eq!(decode_row(&row), texts(&["quux", "gr\u{00fc}n", ""]));
}

#[test]
fn invalid_bytes_are_replaced_not_refused() {
    let row = vec![bytes_cell(b"quux"), bytes_cell(b"foo\xFFbar"), bytes_cell(b"c")];
    assert_eq!(decode_row(&row), texts(&["quux", "foo\u{FFFD}bar", "c"]));
}

#[test]
fn each_field_is_decoded_on_its_own() {
    let broken = vec![bytes_cell(b"\xC3"), bytes_cell(b"\xA9")];
    assert_eq!(decode_row(&broken), texts(&["\u{FFFD}", "\u{FFFD}"]));
    let whole = vec![bytes_cell(b"\xC3\xA9")];
    assert_eq!(decode_row(&whole), texts(&["\u{00e9}"]));
}

#[test]
fn truncated_sequence_at_the_end_is_replaced() {
    let row = vec![bytes_cell(b"caf\xC3")];
    assert_eq!(decode_row(&row), texts(&["caf\u{FFFD}"]));
}

#[test]
fn record_is_fields_commas_and_a_line_feed() {
    assert_eq!(encode_record(&texts(&["a", "b", "c"])), Ok(b"a,b,c\n".to_vec()));
    assert_eq!(encode_record(&texts(&["id"])), Ok(b"id\n".to_vec()));
}

#[test]
fn fields_with_special_characters_are_quoted() {
    let record = encode_record(&texts(&["a,b", "say \"hi\"", "two\nlines", "plain"]));
    assert_eq!(record, Ok(b"\"a,b\",\"say \"\"hi\"\"\",\"two\nlines\",plain\n".to_vec()));
    assert_eq!(encode_record(&texts(&["cr\rhere"])), Ok(b"\"cr\rhere\"\n".to_vec()));
}

#[test]
fn empty_fields_keep_their_place() {
    assert_eq!(encode_record(&texts(&["", "x", ""])), Ok(b",x,\n".to_vec()));
    assert_eq!(encode_record(&texts(&["", ""])), Ok(b",\n".to_vec()));
}

#[test]
fn lone_empty_field_is_written_as_quotes() {
    assert_eq!(encode_record(&texts(&[""])), Ok(b"\"\"\n".to_vec()));
    assert_eq!(encode_record(&Vec::new()), Ok(b"\"\"\n".to_vec()));
}

#[test]
fn text_beyond_ascii_is_written_as_utf8() {
    assert_eq!(encode_record(&texts(&["gr\u{00fc}n", "\u{FFFD}"])), Ok("gr\u{00fc}n,\u{FFFD}\n".as_bytes().to_vec()));
}

#[test]
fn encoder_answer_with_bytes_is_passed_on() {
    assert_eq!(encoded(Ok(b"a,b\n".to_vec())), Ok(b"a,b\n".to_vec()));
    assert_eq!(encoded(Ok(Vec::new())), Ok(Vec::new()));
}

#[test]
fn encoder_error_becomes_an_io_error() {
    let cause = std::io::Error::new(std::io::ErrorKind::Other, "disk full");
    let failure = encoded(Err(csv::Error::from(cause)));
    assert_eq!(failure, Err(ExportError::Io("disk full".to_string())));
}

#[test]
fn record_is_appended_after_what_is_there() {
    let mut out = b"id,name\n".to_vec();
    append_record(&mut out, b"1,alice\n".to_vec());
    assert_eq!(out, b"id,name\n1,alice\n".to_vec());
    append_record(&mut out, Vec::new());
    assert_eq!(out, b"id,name\n1,alice\n".to_vec());
}

#[test]
fn batch_is_encoded_row_by_row_in_order() {
    let mut batch = RowBatch::new(4, 2);
    assert!(batch.push_row(vec![bytes_cell(b"1"), bytes_cell(b"alice")]));
    assert!(batch.push_row(vec![bytes_cell(b"2"), None]));
    assert!(batch.push_row(vec![bytes_cell(b"3"), bytes_cell(b"o'neil, \"red\"")]));
    assert_eq!(
        encode_batch(&batch),
        Ok(b"1,alice\n2,\n3,\"o'neil, \"\"red\"\"\"\n".to_vec())
    );
}

#[test]
fn empty_batch_has_no_bytes() {
    let batch = RowBatch::new(4, 2);
    assert_eq!(encode_batch(&batch), Ok(Vec::new()));
}

#[test]
fn batch_with_invalid_bytes_is_still_encoded() {
    let mut batch = RowBatch::new(2, 2);
    assert!(batch.push_row(vec![bytes_cell(b"1"), bytes_cell(b"\xFF\xFE")]));
    assert!(batch.push_row(vec![bytes_cell(b"2"), bytes_cell(b"ok")]));
    assert_eq!(
        encode_batch(&batch),
        Ok("1,\u{FFFD}\u{FFFD}\n2,ok\n".as_bytes().to_vec())
    );
}

#[test]
fn batch_of_all_null_single_column_rows_is_quoted_empties() {
    let mut batch = RowBatch::new(2, 1);
    assert!(batch.push_row(vec![None]));
    assert!(batch.push_row(vec![None]));
    assert_eq!(encode_batch(&batch), Ok(b"\"\"\n\"\"\n".to_vec()));
}
