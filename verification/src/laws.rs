//! What holds of every export, stated over the models and proved.

use vstd::prelude::*;

use crate::encode::{
    csv_document, csv_record, lemma_rows_records_concat, row_record, rows_records,
};
use crate::error::{empty_result_text, ErrorView};
use crate::export::{
    failure_of, lemma_step_preserves_wf, ActionView, EventView, ExportView, Phase,
};
use crate::path::path_of;
use crate::response::{response_of, ResponseView};
use crate::rows::RowView;

verus! {

/// The records of a CSV file one by one: the header record first, then one
/// record for each row.
pub open spec fn document_records(header: Seq<Seq<char>>, rows: Seq<RowView>) -> Seq<Seq<u8>> {
    Seq::new(
        1 + rows.len(),
        |i: int|
            if i == 0 {
                csv_record(header)
            } else {
                row_record(rows[i - 1])
            },
    )
}

/// How a cursor delivers `rows` through a buffer of `batch_size` rows: full
/// batches as long as that many rows are left, then the rest, if any, in one
/// last batch. No batch is empty.
pub open spec fn batches_of(rows: Seq<RowView>, batch_size: nat) -> Seq<Seq<RowView>>
    decreases rows.len(),
{
    if rows.len() == 0 || batch_size == 0 {
        Seq::empty()
    } else if rows.len() <= batch_size {
        seq![rows]
    } else {
        seq![rows.take(batch_size as int)] + batches_of(rows.skip(batch_size as int), batch_size)
    }
}

/// The state of an export that was fetching after the cursor has delivered
/// `batches` one by one and each has been written: a step for every batch,
/// and a step for the report that its records are in the file.
pub open spec fn after_batches(fetching: ExportView, batches: Seq<Seq<RowView>>) -> ExportView
    decreases batches.len(),
{
    if batches.len() == 0 {
        fetching
    } else {
        let fetched = fetching.after(EventView::Fetched { rows: Some(batches.first()) }).0;
        let written = fetched.after(EventView::Completed).0;
        after_batches(written, batches.drop_first())
    }
}

/// The state of a fresh export once the connection is open, the statement
/// has left a cursor, the file exists, the column names `header` have been
/// read and written, and the buffer is bound: six steps.
pub open spec fn after_header(connecting: ExportView, header: Seq<Seq<char>>) -> ExportView {
    let executing = connecting.after(EventView::Completed).0;
    let creating = executing.after(EventView::Executed { has_result_set: true }).0;
    let describing = creating.after(EventView::Completed).0;
    let writing = describing.after(EventView::Columns { names: header }).0;
    let binding = writing.after(EventView::Completed).0;
    binding.after(EventView::Completed).0
}

/// The end of an export that was fetching when the cursor ran dry: the file
/// is flushed and the outcome handed out.
pub open spec fn after_exhaustion(fetching: ExportView) -> (ExportView, ActionView) {
    let flushing = fetching.after(EventView::Fetched { rows: None }).0;
    flushing.after(EventView::Completed)
}

/// A whole export in which the driver and the file system report no
/// failure: the driver names the columns `header` and delivers `batches`,
/// and every step is the one that [`crate::export::Export::step`] takes.
pub open spec fn whole_export(
    connecting: ExportView,
    header: Seq<Seq<char>>,
    batches: Seq<Seq<RowView>>,
) -> (ExportView, ActionView) {
    after_exhaustion(after_batches(after_header(connecting, header), batches))
}

/// A CSV file has one record more than the result set has rows: the first
/// is the record of the column names, in the driver's order, the others are
/// the records of the rows, in cursor order, and the file is these records
/// one after the other with nothing between them.
pub proof fn lemma_document_is_header_then_rows(header: Seq<Seq<char>>, rows: Seq<RowView>)
    ensures
        document_records(header, rows).len() == 1 + rows.len(),
        document_records(header, rows)[0] == csv_record(header),
        forall|r: int|
            0 <= r < rows.len() ==> #[trigger] document_records(header, rows)[r + 1] == row_record(
                rows[r],
            ),
        document_records(header, rows).flatten() == csv_document(header, rows),
    decreases rows.len(),
{
    let records = document_records(header, rows);
    if rows.len() == 0 {
        records.lemma_flatten_one_element();
    } else {
        let shorter = document_records(header, rows.drop_last());
        lemma_document_is_header_then_rows(header, rows.drop_last());
        assert(records =~= shorter.push(row_record(rows.last())));
        shorter.lemma_flatten_push(row_record(rows.last()));
    }
}

/// Splitting a result set into batches loses nothing and repeats nothing:
/// whatever the batch size, the batches joined in order are the rows in
/// cursor order, no batch is empty, and none holds more than `batch_size`
/// rows.
pub proof fn lemma_batches_hold_every_row_once(rows: Seq<RowView>, batch_size: nat)
    requires
        batch_size > 0,
    ensures
        batches_of(rows, batch_size).flatten() == rows,
        forall|b: int|
            0 <= b < batches_of(rows, batch_size).len() ==> 0 < (#[trigger] batches_of(
                rows,
                batch_size,
            )[b]).len() <= batch_size,
    decreases rows.len(),
{
    let batches = batches_of(rows, batch_size);
    if rows.len() > batch_size {
        let tail = rows.skip(batch_size as int);
        lemma_batches_hold_every_row_once(tail, batch_size);
        assert(batches.drop_first() =~= batches_of(tail, batch_size));
        assert forall|b: int| 0 <= b < batches.len() implies 0 < (#[trigger] batches[b]).len()
            <= batch_size by {
            if b > 0 {
                assert(batches[b] == batches_of(tail, batch_size)[b - 1]);
            }
        }
    } else if rows.len() > 0 {
        batches.lemma_flatten_one_element();
    }
}

/// Every row in every batch of a split is a row of the result set, so the
/// batches are as wide as the rows were.
pub proof fn lemma_batches_keep_width(rows: Seq<RowView>, batch_size: nat, width: nat)
    requires
        batch_size > 0,
        forall|r: int| 0 <= r < rows.len() ==> (#[trigger] rows[r]).len() == width,
    ensures
        forall|b: int, r: int|
            0 <= b < batches_of(rows, batch_size).len() && 0 <= r < batches_of(
                rows,
                batch_size,
            )[b].len() ==> (#[trigger] batches_of(rows, batch_size)[b][r]).len() == width,
    decreases rows.len(),
{
    let batches = batches_of(rows, batch_size);
    if rows.len() > batch_size {
        let tail = rows.skip(batch_size as int);
        lemma_batches_keep_width(tail, batch_size, width);
        assert forall|b: int, r: int| 0 <= b < batches.len() && 0 <= r < batches[b].len() implies (
        #[trigger] batches[b][r]).len() == width by {
            if b > 0 {
                assert(batches[b] == batches_of(tail, batch_size)[b - 1]);
            } else {
                assert(batches[b][r] == rows[r]);
            }
        }
    }
}

/// Fetching batch after batch adds every row of every batch to the file,
/// once and in order, and leaves the export ready for the next fetch.
pub proof fn lemma_batches_are_appended(fetching: ExportView, batches: Seq<Seq<RowView>>)
    requires
        fetching.wf(),
        fetching.phase == Phase::Fetching,
        forall|b: int|
            0 <= b < batches.len() ==> 0 < (#[trigger] batches[b]).len() <= fetching.batch_size,
        forall|b: int, r: int|
            0 <= b < batches.len() && 0 <= r < batches[b].len() ==> (#[trigger] batches[b][r]).len()
                == fetching.header.len(),
    ensures
        after_batches(fetching, batches) == (ExportView {
            rows: fetching.rows + batches.flatten(),
            emitted: fetching.emitted + rows_records(batches.flatten()),
            ..fetching
        }),
        after_batches(fetching, batches).wf(),
    decreases batches.len(),
{
    if batches.len() > 0 {
        let first = batches.first();
        let rest = batches.drop_first();
        let event = EventView::Fetched { rows: Some(first) };
        assert(fetching.expects(event)) by {
            assert forall|r: int| 0 <= r < first.len() implies (#[trigger] first[r]).len()
                == fetching.header.len() by {
                assert(first[r] == batches[0][r]);
            }
        }
        lemma_step_preserves_wf(fetching, event);
        let fetched = fetching.after(event).0;
        let written = fetched.after(EventView::Completed).0;
        assert forall|b: int| 0 <= b < rest.len() implies 0 < (#[trigger] rest[b]).len()
            <= written.batch_size by {
            assert(rest[b] == batches[b + 1]);
        }
        assert forall|b: int, r: int| 0 <= b < rest.len() && 0 <= r < rest[b].len() implies (
        #[trigger] rest[b][r]).len() == written.header.len() by {
            assert(rest[b][r] == batches[b + 1][r]);
        }
        lemma_batches_are_appended(written, rest);
        lemma_rows_records_concat(first, rest.flatten());
        assert((fetching.rows + first) + rest.flatten() =~= fetching.rows + batches.flatten());
        assert((fetching.emitted + rows_records(first)) + rows_records(rest.flatten())
            =~= fetching.emitted + rows_records(batches.flatten()));
    }
}

/// An export in which the driver and the file system report no failure
/// writes the header and then every row exactly once, in cursor order,
/// whatever the batch size: be it smaller than the number of rows, equal to
/// it or larger, and whether or not it divides that number. It ends with
/// the path of the file.
pub proof fn lemma_export_writes_every_row_once(
    connecting: ExportView,
    header: Seq<Seq<char>>,
    rows: Seq<RowView>,
)
    requires
        connecting.wf(),
        connecting.phase == Phase::Connecting,
        forall|r: int| 0 <= r < rows.len() ==> (#[trigger] rows[r]).len() == header.len(),
    ensures
        whole_export(connecting, header, batches_of(rows, connecting.batch_size)) == (
            ExportView {
                phase: Phase::Finished,
                header,
                rows,
                emitted: csv_document(header, rows),
                ..connecting
            },
            ActionView::Done { result: Ok(connecting.path) },
        ),
{
    let batches = batches_of(rows, connecting.batch_size);
    let fetching = after_header(connecting, header);
    lemma_batches_hold_every_row_once(rows, connecting.batch_size);
    lemma_batches_keep_width(rows, connecting.batch_size, header.len());
    lemma_batches_are_appended(fetching, batches);
}

/// A query that produces no rows is no failure: its file holds the header
/// record and nothing else.
pub proof fn lemma_empty_result_set_gives_header_only(
    connecting: ExportView,
    header: Seq<Seq<char>>,
)
    requires
        connecting.wf(),
        connecting.phase == Phase::Connecting,
    ensures
        whole_export(connecting, header, Seq::empty()).0.emitted == csv_record(header),
        whole_export(connecting, header, Seq::empty()).1 == (ActionView::Done {
            result: Ok(connecting.path),
        }),
{
    lemma_export_writes_every_row_once(connecting, header, Seq::empty());
}

/// Success is reported only at the end of a complete file: when a step
/// hands out the path, the export was flushing, and the bytes handed out
/// before are the CSV file of the header and of every row fetched.
pub proof fn lemma_success_means_complete_file(pre: ExportView, event: EventView)
    requires
        pre.wf(),
        pre.expects(event),
        pre.after(event).1 is Done,
        pre.after(event).1->result is Ok,
    ensures
        pre.phase == Phase::Flushing,
        event == EventView::Completed,
        pre.after(event).1 == (ActionView::Done { result: Ok(pre.path) }),
        pre.after(event).0.emitted == csv_document(pre.header, pre.rows),
{
}

/// The first failure is the end: whatever the export was waiting for, a
/// reported failure is answered with the outcome, an error of the kind that
/// belongs to the phase with the reported message, and nothing is handed
/// out for writing any more.
pub proof fn lemma_failure_ends_the_export(pre: ExportView, message: Seq<char>)
    requires
        pre.phase != Phase::Finished,
    ensures
        pre.expects(EventView::Failed { message }),
        pre.after(EventView::Failed { message }) == (
            ExportView { phase: Phase::Finished, ..pre },
            ActionView::Done { result: Err(failure_of(pre.phase, message)) },
        ),
        failure_of(pre.phase, message).message() == message,
{
}

/// Nothing but a report from outside ends an export in failure: a step
/// hands out an error only for a reported failure or for a statement that
/// left no result set. No column name and no row, whatever bytes its cells
/// hold, makes a step fail.
pub proof fn lemma_only_reports_end_an_export(pre: ExportView, event: EventView)
    requires
        pre.expects(event),
        pre.after(event).1 is Done,
        pre.after(event).1->result is Err,
    ensures
        event is Failed || event == (EventView::Executed { has_result_set: false }),
{
}

/// Column names are answered with the header record, and a batch with rows
/// with the records of its rows, in order: these are the bytes to write.
pub proof fn lemma_payload_is_written(
    pre: ExportView,
    names: Seq<Seq<char>>,
    batch: Seq<RowView>,
)
    requires
        batch.len() > 0,
    ensures
        pre.after(EventView::Columns { names }).1 == (ActionView::Write {
            bytes: csv_record(names),
        }),
        pre.after(EventView::Fetched { rows: Some(batch) }).1 == (ActionView::Write {
            bytes: rows_records(batch),
        }),
{
}

/// A finished export waits for nothing: no report is expected, so no
/// further action is ever handed out.
pub proof fn lemma_finished_export_expects_nothing(finished: ExportView, event: EventView)
    requires
        finished.phase == Phase::Finished,
    ensures
        !finished.expects(event),
{
}

/// A statement that leaves no result set ends the export at once: nothing
/// is written, and the caller is told of a failure without a path, with a
/// message that says the query came back empty.
pub proof fn lemma_no_result_set_is_a_failure(executing: ExportView)
    requires
        executing.wf(),
        executing.phase == Phase::Executing,
    ensures
        executing.after(EventView::Executed { has_result_set: false }) == (
            ExportView { phase: Phase::Finished, ..executing },
            ActionView::Done { result: Err(ErrorView::EmptyResult) },
        ),
        executing.emitted.len() == 0,
        response_of(Err(ErrorView::EmptyResult)) == (ResponseView {
            success: false,
            msg: "Error: "@ + empty_result_text(),
            fname: None,
        }),
{
}

/// The output file lies in the given directory and its name is the stem
/// followed by `.csv`: a stem `report` gives a path that ends in
/// `report.csv`.
pub proof fn lemma_path_ends_with_stem_and_suffix(temp_dir: Seq<char>, stem: Seq<char>)
    ensures
        (temp_dir + "/"@).is_prefix_of(path_of(temp_dir, stem)),
        (stem + ".csv"@).is_suffix_of(path_of(temp_dir, stem)),
        path_of(temp_dir, stem) == (temp_dir + "/"@) + (stem + ".csv"@),
{
}

/// Too few arguments are answered with a failure that names no file.
pub proof fn lemma_argument_error_names_no_file(reason: Seq<char>)
    ensures
        response_of(Err(ErrorView::Argument(reason))) == (ResponseView {
            success: false,
            msg: "Problem parsing argumants: "@ + reason,
            fname: None,
        }),
{
}

} // verus!
