//! From raw rows to CSV bytes.
//!
//! Two steps are done by the `csv` crate and are trusted: replacing invalid
//! UTF-8 in a field, and quoting and terminating one record. Everything
//! around them is verified: NULL cells become empty fields, fields keep
//! their column order, and the bytes of the rows follow each other in cursor
//! order.

use vstd::prelude::*;
use vstd::utf8::{decode_utf8, valid_utf8};

use crate::error::ExportError;
use crate::rows::{Cell, CellView, RowBatch, RowView};

verus! {

/// The text that `csv::StringRecord::from_byte_record_lossy` yields for a
/// field holding `bytes`: the bytes read as UTF-8, every invalid sequence
/// replaced by U+FFFD.
pub uninterp spec fn lossy_text(bytes: Seq<u8>) -> Seq<char>;

/// The bytes that a `csv::Writer` with the default configuration writes for
/// one record with the given fields: the fields, quoted where needed,
/// separated by the delimiter and followed by the record terminator.
pub uninterp spec fn csv_record(fields: Seq<Seq<char>>) -> Seq<u8>;

/// `csv::Error`, the writer's error type. Its values are carried through
/// unopened; all that is ever done with one is to format it.
#[verifier::external_type_specification]
#[verifier::external_body]
pub struct ExCsvError(csv::Error);

/// The bytes of a cell as they are handed to the encoder: NULL is empty.
pub open spec fn cell_bytes(cell: CellView) -> Seq<u8> {
    match cell {
        Some(bytes) => bytes,
        None => Seq::empty(),
    }
}

/// The fields of a row as bytes, in column order.
pub open spec fn row_bytes(row: RowView) -> Seq<Seq<u8>> {
    Seq::new(row.len(), |c: int| cell_bytes(row[c]))
}

/// The fields of a row as text, in column order.
pub open spec fn row_text(row: RowView) -> Seq<Seq<char>> {
    Seq::new(row.len(), |c: int| lossy_text(cell_bytes(row[c])))
}

/// The CSV record of one row.
pub open spec fn row_record(row: RowView) -> Seq<u8> {
    csv_record(row_text(row))
}

/// The CSV records of `rows`, one after the other in the given order.
pub open spec fn rows_records(rows: Seq<RowView>) -> Seq<u8>
    decreases rows.len(),
{
    if rows.len() == 0 {
        Seq::empty()
    } else {
        rows_records(rows.drop_last()) + row_record(rows.last())
    }
}

/// The whole CSV file for a result set: the header record, then the record
/// of every row.
pub open spec fn csv_document(header: Seq<Seq<char>>, rows: Seq<RowView>) -> Seq<u8> {
    csv_record(header) + rows_records(rows)
}

/// Calls `csv::StringRecord::from_byte_record_lossy` on a record made of
/// `fields`. Trusted: the result has one text per field, in the same order;
/// each is the lossy reading of that field alone; and a field that is valid
/// UTF-8 is read as the text it encodes.
#[verifier::external_body]
fn lossy_fields(fields: &Vec<Vec<u8>>) -> (text: Vec<String>)
    ensures
        text@.len() == fields@.len(),
        forall|c: int| 0 <= c < fields@.len() ==> (#[trigger] text@[c])@ == lossy_text(fields@[c]@),
        forall|c: int|
            0 <= c < fields@.len() && valid_utf8(fields@[c]@) ==> (#[trigger] text@[c])@
                == decode_utf8(fields@[c]@),
{
    let record = csv::StringRecord::from_byte_record_lossy(csv::ByteRecord::from(fields.as_slice()));
    record.iter().map(|field| field.to_owned()).collect()
}

/// Makes an in-memory writer with `csv::Writer::from_writer`, calls
/// `csv::Writer::write_record` on it once and takes the buffer back with
/// `csv::Writer::into_inner`. Trusted: the writer reports no error, and the
/// bytes are those of the one record, which depend on the fields alone. The
/// writer has two ways to fail and neither is open here: its sink is a
/// `Vec`, which takes every write, and the record is the writer's first, so
/// there is no earlier record whose field count it could differ from.
#[verifier::external_body]
fn write_record(fields: &Vec<String>) -> (outcome: Result<Vec<u8>, csv::Error>)
    ensures
        outcome is Ok,
        outcome matches Ok(bytes) ==> bytes@ == csv_record(fields.deep_view()),
{
    let mut writer = csv::Writer::from_writer(Vec::new());
    writer.write_record(fields)?;
    writer.into_inner().map_err(|e| csv::Error::from(e.into_error()))
}

/// Formats a `csv::Error` through its `Display` impl. Nothing is claimed of
/// the text.
#[verifier::external_body]
fn error_text(error: &csv::Error) -> (text: String) {
    error.to_string()
}

/// The records of two runs of rows, one after the other, are the records of
/// the runs joined: encoding keeps no state from one row to the next.
pub proof fn lemma_rows_records_concat(first: Seq<RowView>, second: Seq<RowView>)
    ensures
        rows_records(first + second) == rows_records(first) + rows_records(second),
    decreases second.len(),
{
    if second.len() > 0 {
        assert((first + second).drop_last() =~= first + second.drop_last());
        lemma_rows_records_concat(first, second.drop_last());
    }
}

/// The fields of `row` as bytes: each cell's bytes, and no bytes for NULL.
pub fn row_fields(row: &Vec<Cell>) -> (fields: Vec<Vec<u8>>)
    ensures
        fields.deep_view() == row_bytes(row.deep_view()),
{
    let mut fields: Vec<Vec<u8>> = Vec::new();
    let mut c: usize = 0;
    while c < row.len()
        invariant
            c <= row.len(),
            fields@.len() == c,
            forall|k: int| 0 <= k < c ==> (#[trigger] fields@[k])@ == cell_bytes(row.deep_view()[k]),
        decreases row.len() - c,
    {
        let field: Vec<u8> = match &row[c] {
            Some(bytes) => bytes.clone(),
            None => Vec::new(),
        };
        fields.push(field);
        c += 1;
    }
    assert(fields.deep_view() =~= row_bytes(row.deep_view())) by {
        assert forall|k: int| 0 <= k < fields@.len() implies fields.deep_view()[k] == row_bytes(
            row.deep_view(),
        )[k] by {
            assert(fields.deep_view()[k] =~= fields@[k]@);
        }
    }
    fields
}

/// The fields of `row` as text. Bytes that are not valid UTF-8 are replaced,
/// never refused: every row has a text. A cell that holds valid UTF-8 keeps
/// its text.
pub fn decode_row(row: &Vec<Cell>) -> (text: Vec<String>)
    ensures
        text.deep_view() == row_text(row.deep_view()),
        forall|c: int|
            0 <= c < row@.len() && valid_utf8(cell_bytes(row.deep_view()[c])) ==> (
            #[trigger] text@[c])@ == decode_utf8(cell_bytes(row.deep_view()[c])),
{
    let fields = row_fields(row);
    let text = lossy_fields(&fields);
    assert(fields.deep_view().len() == fields@.len());
    assert forall|c: int| 0 <= c < row@.len() implies fields@[c]@ == cell_bytes(
        row.deep_view()[c],
    ) by {
        assert(row_bytes(row.deep_view())[c] == cell_bytes(row.deep_view()[c]));
    }
    assert(text.deep_view() =~= row_text(row.deep_view()));
    text
}

/// What becomes of a writer's answer: its bytes unchanged, or its error as
/// an [`ExportError::Io`]. The function is total over the answers a writer
/// can give; the in-memory writer of this module only ever gives bytes.
pub fn encoded(outcome: Result<Vec<u8>, csv::Error>) -> (r: Result<Vec<u8>, ExportError>)
    ensures
        match outcome {
            Ok(bytes) => r matches Ok(b) && b@ == bytes@,
            Err(_) => r matches Err(ExportError::Io(_)),
        },
{
    match outcome {
        Ok(bytes) => Ok(bytes),
        Err(error) => Err(ExportError::Io(error_text(&error))),
    }
}

/// The CSV record for `fields`. Every list of fields has one: the result is
/// always `Ok`.
pub fn encode_record(fields: &Vec<String>) -> (r: Result<Vec<u8>, ExportError>)
    ensures
        r matches Ok(bytes) && bytes@ == csv_record(fields.deep_view()),
{
    encoded(write_record(fields))
}

/// Appends `record` to `out`.
pub fn append_record(out: &mut Vec<u8>, record: Vec<u8>)
    ensures
        final(out)@ == old(out)@ + record@,
{
    let mut record = record;
    out.append(&mut record);
}

/// The CSV records of all rows of `batch`, in order. Every batch has them,
/// whatever bytes its cells hold: the result is always `Ok`, and a batch
/// without rows has no bytes.
pub fn encode_batch(batch: &RowBatch) -> (r: Result<Vec<u8>, ExportError>)
    ensures
        r matches Ok(bytes) && bytes@ == rows_records(batch@.rows),
{
    let mut out: Vec<u8> = Vec::new();
    let n = batch.num_rows();
    let mut r: usize = 0;
    while r < n
        invariant
            r <= n,
            n == batch@.rows.len(),
            out@ == rows_records(batch@.rows.take(r as int)),
        decreases n - r,
    {
        let text = decode_row(batch.row(r));
        match encode_record(&text) {
            Ok(record) => {
                assert(batch@.rows.take(r as int + 1).drop_last() =~= batch@.rows.take(r as int));
                append_record(&mut out, record);
            },
            Err(e) => {
                return Err(e);
            },
        }
        r += 1;
    }
    assert(batch@.rows.take(n as int) =~= batch@.rows);
    Ok(out)
}

} // verus!
