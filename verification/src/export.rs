//! One export, step by step.
//!
//! An [`Export`] decides what is done next; it does none of it. It hands out
//! an [`Action`], the embedding program performs it against the driver or
//! the file system and reports an [`Event`], and [`Export::step`] answers
//! with the next action, until [`Action::Done`] carries the outcome.
//!
//! A run without failures goes through the phases in this order:
//! connect, execute, create the file, read the column names, write the
//! header, bind the row buffer, then fetch and write in turn until the
//! cursor is exhausted, and flush. The first failure ends the run.

use vstd::prelude::*;

use crate::encode::{
    csv_document, csv_record, encode_batch, encode_record, lemma_rows_records_concat,
    rows_records,
};
use crate::error::{ErrorView, ExportError};
use crate::params::{params_of, Params, DEFAULT_BATCH_SIZE};
use crate::path::{file_stem, is_uuid_text, output_path, path_of};
use crate::response::{outcome_view, OutcomeView};
use crate::rows::{RowBatch, RowView};

verus! {

/// The upper bound, in bytes, on the text of one cell: the row buffer is
/// bound with columns no wider than this.
pub const MAX_TEXT_BYTES: usize = 4096;

/// What the export is waiting for.
#[derive(Debug, Clone, Copy, PartialEq, Eq, Structural)]
pub enum Phase {
    /// For the connection to open.
    Connecting,
    /// For the statement to run.
    Executing,
    /// For the output file to be created.
    Creating,
    /// For the cursor's column names.
    Describing,
    /// For the header record to be written.
    WritingHeader,
    /// For the row buffer to be bound to the cursor.
    Binding,
    /// For the next batch of rows.
    Fetching,
    /// For the records of a batch to be written.
    WritingRows,
    /// For the file to be flushed.
    Flushing,
    /// For nothing: the outcome has been handed out.
    Finished,
}

/// What the embedding program is asked to do next.
#[derive(Debug, PartialEq, Eq)]
pub enum Action {
    /// Open a connection from this connection string.
    Connect { connection_string: String },
    /// Run this statement, with no parameters bound.
    Execute { query: String },
    /// Create, or truncate, the file at this path.
    CreateFile { path: String },
    /// Read the column names of the open cursor, in the driver's order.
    ReadColumns,
    /// Append these bytes to the file.
    Write { bytes: Vec<u8> },
    /// Bind a text buffer of `batch_size` rows to the cursor, each column at
    /// most `max_text_bytes` wide.
    Bind { batch_size: usize, max_text_bytes: usize },
    /// Fetch the next batch into the bound buffer.
    Fetch,
    /// Flush the file.
    Flush,
    /// Nothing more: the export is over, with the path of the file or with
    /// the error that ended it.
    Done { result: Result<String, ExportError> },
}

/// Mathematical model of an [`Action`].
pub enum ActionView {
    Connect { connection_string: Seq<char> },
    Execute { query: Seq<char> },
    CreateFile { path: Seq<char> },
    ReadColumns,
    Write { bytes: Seq<u8> },
    Bind { batch_size: nat, max_text_bytes: nat },
    Fetch,
    Flush,
    Done { result: OutcomeView },
}

impl View for Action {
    type V = ActionView;

    open spec fn view(&self) -> ActionView {
        match self {
            Action::Connect { connection_string } => ActionView::Connect {
                connection_string: connection_string@,
            },
            Action::Execute { query } => ActionView::Execute { query: query@ },
            Action::CreateFile { path } => ActionView::CreateFile { path: path@ },
            Action::ReadColumns => ActionView::ReadColumns,
            Action::Write { bytes } => ActionView::Write { bytes: bytes@ },
            Action::Bind { batch_size, max_text_bytes } => ActionView::Bind {
                batch_size: *batch_size as nat,
                max_text_bytes: *max_text_bytes as nat,
            },
            Action::Fetch => ActionView::Fetch,
            Action::Flush => ActionView::Flush,
            Action::Done { result } => ActionView::Done { result: outcome_view(*result) },
        }
    }
}

/// How the last action went.
pub enum Event {
    /// It was done, and there is nothing to report: the connection is open,
    /// the file exists, the bytes are written, the buffer is bound, or the
    /// file is flushed.
    Completed,
    /// The statement ran; `has_result_set` tells whether it left a cursor.
    Executed { has_result_set: bool },
    /// The column names, in the driver's order.
    Columns { names: Vec<String> },
    /// The next batch, or `None` when the cursor is exhausted.
    Fetched { rows: Option<RowBatch> },
    /// It failed; `message` is what the driver or the system said.
    Failed { message: String },
}

/// Mathematical model of an [`Event`]. Of a fetched batch it keeps the rows
/// alone: a step looks at nothing else of it.
pub enum EventView {
    Completed,
    Executed { has_result_set: bool },
    Columns { names: Seq<Seq<char>> },
    Fetched { rows: Option<Seq<RowView>> },
    Failed { message: Seq<char> },
}

impl View for Event {
    type V = EventView;

    open spec fn view(&self) -> EventView {
        match self {
            Event::Completed => EventView::Completed,
            Event::Executed { has_result_set } => EventView::Executed {
                has_result_set: *has_result_set,
            },
            Event::Columns { names } => EventView::Columns { names: names.deep_view() },
            Event::Fetched { rows } => EventView::Fetched {
                rows: match rows {
                    Some(batch) => Some(batch@.rows),
                    None => None,
                },
            },
            Event::Failed { message } => EventView::Failed { message: message@ },
        }
    }
}

/// The batch size in effect: the one asked for if it is positive, else the
/// default.
pub open spec fn effective_batch_size(asked: Option<usize>) -> nat {
    match asked {
        Some(n) => if n > 0 {
            n as nat
        } else {
            DEFAULT_BATCH_SIZE as nat
        },
        None => DEFAULT_BATCH_SIZE as nat,
    }
}

/// A number of rows as the export counts it: exact up to `usize::MAX`, where
/// the count stops.
pub open spec fn counted(rows: nat) -> usize {
    if rows <= usize::MAX {
        rows as usize
    } else {
        usize::MAX
    }
}

/// The error for a failure reported while the export was in `phase`: the
/// connection's, the query's, or the file's.
pub open spec fn failure_of(phase: Phase, message: Seq<char>) -> ErrorView {
    match phase {
        Phase::Connecting => ErrorView::Connection(message),
        Phase::Executing | Phase::Describing | Phase::Binding | Phase::Fetching => ErrorView::Query(
            message,
        ),
        _ => ErrorView::Io(message),
    }
}

/// The bytes that an event gives rise to: the header record for the column
/// names, the records of its rows for a batch that is not empty, and none
/// for every other event.
pub open spec fn payload_of(event: EventView) -> Option<Seq<u8>> {
    match event {
        EventView::Columns { names } => Some(csv_record(names)),
        EventView::Fetched { rows: Some(batch) } => if batch.len() > 0 {
            Some(rows_records(batch))
        } else {
            None
        },
        _ => None,
    }
}

/// The bytes of an event's payload, and no bytes for an event without one.
pub open spec fn bytes_of(event: EventView) -> Seq<u8> {
    match payload_of(event) {
        Some(payload) => payload,
        None => Seq::empty(),
    }
}

/// The model of an answer to an event's payload.
pub open spec fn encoded_view(encoded: Result<Vec<u8>, ExportError>) -> Result<
    Seq<u8>,
    ErrorView,
> {
    match encoded {
        Ok(bytes) => Ok(bytes@),
        Err(error) => Err(error@),
    }
}

/// `encoded` may stand for the bytes of `event`: where it holds bytes, they
/// are the event's payload.
pub open spec fn admits(event: EventView, encoded: Result<Seq<u8>, ErrorView>) -> bool {
    match (payload_of(event), encoded) {
        (Some(payload), Ok(bytes)) => bytes == payload,
        _ => true,
    }
}

/// Mathematical model of an [`Export`]. The number of columns and the count
/// of rows that an export keeps are not fields of the model: they are the
/// length of `header` and the counted length of `rows`.
pub struct ExportView {
    /// What the export is waiting for.
    pub phase: Phase,
    /// The statement.
    pub query: Seq<char>,
    /// The path of the output file.
    pub path: Seq<char>,
    /// Rows per fetch.
    pub batch_size: nat,
    /// The column names, once they are known.
    pub header: Seq<Seq<char>>,
    /// Every row fetched so far, in cursor order.
    pub rows: Seq<RowView>,
    /// Every byte handed out for writing so far.
    pub emitted: Seq<u8>,
}

impl ExportView {
    /// No column names have arrived yet.
    pub open spec fn before_header(self) -> bool {
        self.phase == Phase::Connecting || self.phase == Phase::Executing || self.phase
            == Phase::Creating || self.phase == Phase::Describing
    }

    /// The header has been handed out and the export has not ended.
    pub open spec fn streaming(self) -> bool {
        self.phase == Phase::WritingHeader || self.phase == Phase::Binding || self.phase
            == Phase::Fetching || self.phase == Phase::WritingRows || self.phase
            == Phase::Flushing
    }

    /// What holds of every export: before the column names arrive nothing
    /// has been handed out; from then on the bytes handed out are exactly
    /// the CSV file for the header and the rows fetched so far; and every
    /// row is as wide as the header.
    pub open spec fn wf(self) -> bool {
        &&& self.batch_size > 0
        &&& self.before_header() ==> self.header.len() == 0 && self.rows.len() == 0
            && self.emitted.len() == 0
        &&& self.streaming() ==> self.emitted == csv_document(self.header, self.rows)
        &&& forall|r: int|
            0 <= r < self.rows.len() ==> (#[trigger] self.rows[r]).len() == self.header.len()
    }

    /// `event` answers the action that is outstanding: a failure at any time
    /// before the end, and otherwise the one kind of report that the phase
    /// waits for. A batch holds at most `batch_size` rows, each as wide as
    /// the header.
    pub open spec fn expects(self, event: EventView) -> bool {
        match event {
            EventView::Failed { .. } => self.phase != Phase::Finished,
            EventView::Completed => self.phase == Phase::Connecting || self.phase
                == Phase::Creating || self.phase == Phase::WritingHeader || self.phase
                == Phase::Binding || self.phase == Phase::WritingRows || self.phase
                == Phase::Flushing,
            EventView::Executed { .. } => self.phase == Phase::Executing,
            EventView::Columns { .. } => self.phase == Phase::Describing,
            EventView::Fetched { rows } => self.phase == Phase::Fetching && (rows matches Some(
                batch,
            ) ==> batch.len() <= self.batch_size && forall|r: int|
                0 <= r < batch.len() ==> (#[trigger] batch[r]).len() == self.header.len()),
        }
    }

    /// The export over, with `outcome`.
    pub open spec fn finish(self, outcome: OutcomeView) -> (ExportView, ActionView) {
        (ExportView { phase: Phase::Finished, ..self }, ActionView::Done { result: outcome })
    }

    /// The export in another phase, asking for `action`.
    pub open spec fn go(self, phase: Phase, action: ActionView) -> (ExportView, ActionView) {
        (ExportView { phase, ..self }, action)
    }

    /// The transition function: the state after `event` and the action to
    /// perform next. `encoded` stands for the event's payload, either as its
    /// bytes or as the error that kept them from being made; it is looked
    /// at only where the event has a payload.
    pub open spec fn next(self, event: EventView, encoded: Result<Seq<u8>, ErrorView>) -> (
        ExportView,
        ActionView,
    ) {
        match event {
            EventView::Failed { message } => self.finish(Err(failure_of(self.phase, message))),
            EventView::Completed => match self.phase {
                Phase::Connecting => self.go(
                    Phase::Executing,
                    ActionView::Execute { query: self.query },
                ),
                Phase::Creating => self.go(Phase::Describing, ActionView::ReadColumns),
                Phase::WritingHeader => self.go(
                    Phase::Binding,
                    ActionView::Bind {
                        batch_size: self.batch_size,
                        max_text_bytes: MAX_TEXT_BYTES as nat,
                    },
                ),
                Phase::Binding | Phase::WritingRows => self.go(Phase::Fetching, ActionView::Fetch),
                _ => self.finish(Ok(self.path)),
            },
            EventView::Executed { has_result_set } => if has_result_set {
                self.go(Phase::Creating, ActionView::CreateFile { path: self.path })
            } else {
                self.finish(Err(ErrorView::EmptyResult))
            },
            EventView::Columns { names } => match encoded {
                Ok(bytes) => (
                    ExportView {
                        phase: Phase::WritingHeader,
                        header: names,
                        emitted: bytes,
                        ..self
                    },
                    ActionView::Write { bytes },
                ),
                Err(error) => self.finish(Err(error)),
            },
            EventView::Fetched { rows } => match rows {
                Some(batch) => if batch.len() > 0 {
                    match encoded {
                        Ok(bytes) => (
                            ExportView {
                                phase: Phase::WritingRows,
                                rows: self.rows + batch,
                                emitted: self.emitted + bytes,
                                ..self
                            },
                            ActionView::Write { bytes },
                        ),
                        Err(error) => self.finish(Err(error)),
                    }
                } else {
                    self.go(Phase::Flushing, ActionView::Flush)
                },
                None => self.go(Phase::Flushing, ActionView::Flush),
            },
        }
    }

    /// What a step on `event` leads to: the state and the action that the
    /// transition function gives for the bytes of the event's payload.
    pub open spec fn after(self, event: EventView) -> (ExportView, ActionView) {
        self.next(event, Ok(bytes_of(event)))
    }
}

/// Every step keeps the invariant: from a well-formed state an expected
/// event leads to a well-formed state.
pub proof fn lemma_step_preserves_wf(pre: ExportView, event: EventView)
    requires
        pre.wf(),
        pre.expects(event),
    ensures
        pre.after(event).0.wf(),
{
    lemma_next_preserves_wf(pre, event, Ok(bytes_of(event)));
}

/// Every transition keeps the invariant: from a well-formed state, an
/// expected event and an admissible encoding lead to a well-formed state.
pub proof fn lemma_next_preserves_wf(
    pre: ExportView,
    event: EventView,
    encoded: Result<Seq<u8>, ErrorView>,
)
    requires
        pre.wf(),
        pre.expects(event),
        admits(event, encoded),
    ensures
        pre.next(event, encoded).0.wf(),
{
    if let EventView::Fetched { rows: Some(batch) } = event {
        if batch.len() > 0 && encoded is Ok {
            let post = pre.next(event, encoded).0;
            lemma_rows_records_concat(pre.rows, batch);
            assert(post.emitted =~= csv_document(post.header, post.rows));
        }
    }
}

/// The state of one export.
pub struct Export {
    phase: Phase,
    query: String,
    path: String,
    batch_size: usize,
    columns: usize,
    rows_written: usize,
    header: Ghost<Seq<Seq<char>>>,
    rows: Ghost<Seq<RowView>>,
    emitted: Ghost<Seq<u8>>,
}

impl View for Export {
    type V = ExportView;

    closed spec fn view(&self) -> ExportView {
        ExportView {
            phase: self.phase,
            query: self.query@,
            path: self.path@,
            batch_size: self.batch_size as nat,
            header: self.header@,
            rows: self.rows@,
            emitted: self.emitted@,
        }
    }
}

impl Export {
    #[verifier::type_invariant]
    spec fn inv(&self) -> bool {
        &&& self@.wf()
        &&& self.columns == self.header@.len()
        &&& self.rows_written == counted(self.rows@.len())
    }

    /// An export of `query` to the file at `path`, and its first action: to
    /// connect. A batch size that is absent or zero gives way to the
    /// default.
    pub fn begin(
        connection_string: String,
        query: String,
        requested: Option<usize>,
        path: String,
    ) -> (r: (Export, Action))
        ensures
            r.0@ == (ExportView {
                phase: Phase::Connecting,
                query: query@,
                path: path@,
                batch_size: effective_batch_size(requested),
                header: Seq::empty(),
                rows: Seq::empty(),
                emitted: Seq::empty(),
            }),
            r.0@.wf(),
            r.1@ == (ActionView::Connect { connection_string: connection_string@ }),
    {
        let batch_size = match requested {
            Some(n) => if n > 0 {
                n
            } else {
                DEFAULT_BATCH_SIZE
            },
            None => DEFAULT_BATCH_SIZE,
        };
        let export = Export {
            phase: Phase::Connecting,
            query,
            path,
            batch_size,
            columns: 0,
            rows_written: 0,
            header: Ghost(Seq::empty()),
            rows: Ghost(Seq::empty()),
            emitted: Ghost(Seq::empty()),
        };
        (export, Action::Connect { connection_string })
    }

    /// An export for `params`, writing into the directory `temp_dir`. The
    /// file is named after `params.fname`, or after a freshly drawn UUID
    /// where that is absent.
    pub fn new(params: Params, temp_dir: &str) -> (r: (Export, Action))
        ensures
            r.0@.wf(),
            r.0@.phase == Phase::Connecting,
            r.0@.query == params@.query,
            r.0@.batch_size == effective_batch_size(params@.bach_size),
            match params@.fname {
                Some(name) => r.0@.path == path_of(temp_dir@, name),
                None => exists|stem: Seq<char>|
                    is_uuid_text(stem) && r.0@.path == #[trigger] path_of(temp_dir@, stem),
            },
            r.0@.header.len() == 0,
            r.0@.rows.len() == 0,
            r.0@.emitted.len() == 0,
            r.1@ == (ActionView::Connect { connection_string: params@.conn }),
    {
        let Params { conn, query, bach_size, fname } = params;
        let stem = file_stem(fname);
        let path = output_path(temp_dir, stem.as_str());
        Export::begin(conn, query, bach_size, path)
    }

    /// An export for the positional arguments `args`. With fewer than two
    /// arguments the export is over before it began: the only action is
    /// [`Action::Done`] with an [`ExportError::Argument`], and no connection
    /// is ever asked for.
    pub fn start(args: &[String], temp_dir: &str) -> (r: (Export, Action))
        ensures
            r.0@.wf(),
            r.0@.emitted.len() == 0,
            args@.len() < 2 ==> r.0@.phase == Phase::Finished && r.1@ == (ActionView::Done {
                result: Err(ErrorView::Argument("Not enough arguments!"@)),
            }),
            args@.len() >= 2 ==> {
                let params = params_of(args.deep_view());
                &&& r.0@.phase == Phase::Connecting
                &&& r.0@.query == params.query
                &&& r.0@.batch_size == effective_batch_size(params.bach_size)
                &&& match params.fname {
                    Some(name) => r.0@.path == path_of(temp_dir@, name),
                    None => exists|stem: Seq<char>|
                        is_uuid_text(stem) && r.0@.path == #[trigger] path_of(temp_dir@, stem),
                }
                &&& r.1@ == (ActionView::Connect { connection_string: params.conn })
            },
    {
        match Params::new(args) {
            Ok(params) => Export::new(params, temp_dir),
            Err(reason) => {
                let export = Export {
                    phase: Phase::Finished,
                    query: String::new(),
                    path: String::new(),
                    batch_size: DEFAULT_BATCH_SIZE,
                    columns: 0,
                    rows_written: 0,
                    header: Ghost(Seq::empty()),
                    rows: Ghost(Seq::empty()),
                    emitted: Ghost(Seq::empty()),
                };
                (export, Action::Done { result: Err(ExportError::Argument(reason.to_owned())) })
            },
        }
    }

    /// What the export is waiting for.
    pub fn phase(&self) -> (phase: Phase)
        ensures
            phase == self@.phase,
            self@.wf(),
    {
        proof {
            use_type_invariant(self);
        }
        self.phase
    }

    /// The path of the output file.
    pub fn path(&self) -> (path: &str)
        ensures
            path@ == self@.path,
            self@.wf(),
    {
        proof {
            use_type_invariant(self);
        }
        self.path.as_str()
    }

    /// Rows per fetch.
    pub fn batch_size(&self) -> (n: usize)
        ensures
            n == self@.batch_size,
            n > 0,
            self@.wf(),
    {
        proof {
            use_type_invariant(self);
        }
        self.batch_size
    }

    /// The number of rows fetched so far; the count stops at `usize::MAX`.
    pub fn rows_written(&self) -> (n: usize)
        ensures
            n == counted(self@.rows.len()),
            self@.wf(),
    {
        proof {
            use_type_invariant(self);
        }
        self.rows_written
    }

    /// Whether `event` answers the action that is outstanding. The embedding
    /// program tests this before each call of [`Export::step`].
    pub fn accepts(&self, event: &Event) -> (ok: bool)
        ensures
            ok == self@.expects(event@),
    {
        proof {
            use_type_invariant(self);
        }
        match event {
            Event::Failed { .. } => self.phase != Phase::Finished,
            Event::Completed => self.phase == Phase::Connecting || self.phase == Phase::Creating
                || self.phase == Phase::WritingHeader || self.phase == Phase::Binding
                || self.phase == Phase::WritingRows || self.phase == Phase::Flushing,
            Event::Executed { .. } => self.phase == Phase::Executing,
            Event::Columns { .. } => self.phase == Phase::Describing,
            Event::Fetched { rows } => {
                if self.phase != Phase::Fetching {
                    return false;
                }
                match rows {
                    Some(batch) => {
                        let n = batch.num_rows();
                        let width = batch.num_cols();
                        if n > 0 {
                            assert(batch@.rows[0].len() == width);
                        }
                        n <= self.batch_size && (n == 0 || width == self.columns)
                    },
                    None => true,
                }
            },
        }
    }

    /// The export over, with `result`.
    fn finished(self, result: Result<String, ExportError>) -> (r: (Export, Action))
        ensures
            (r.0@, r.1@) == self@.finish(outcome_view(result)),
    {
        proof {
            use_type_invariant(&self);
        }
        (Export { phase: Phase::Finished, ..self }, Action::Done { result })
    }

    /// The export in another phase, asking for `action`.
    fn moved(self, phase: Phase, action: Action) -> (r: (Export, Action))
        requires
            (ExportView { phase, ..self@ }).wf(),
        ensures
            (r.0@, r.1@) == self@.go(phase, action@),
    {
        proof {
            use_type_invariant(&self);
        }
        (Export { phase, ..self }, action)
    }

    /// The transition for `event`, given what stands for the event's
    /// payload: its bytes, or an error, which ends the export. For an event
    /// without payload `encoded` is not looked at. [`Export::step`] is this
    /// function with the payload's bytes filled in.
    pub fn advance(self, event: &Event, encoded: Result<Vec<u8>, ExportError>) -> (r: (
        Export,
        Action,
    ))
        requires
            self@.expects(event@),
            admits(event@, encoded_view(encoded)),
        ensures
            (r.0@, r.1@) == self@.next(event@, encoded_view(encoded)),
            r.0@.wf(),
    {
        proof {
            use_type_invariant(&self);
            lemma_next_preserves_wf(self@, event@, encoded_view(encoded));
        }
        match event {
            Event::Failed { message } => {
                let message = message.clone();
                let error = match self.phase {
                    Phase::Connecting => ExportError::Connection(message),
                    Phase::Executing | Phase::Describing | Phase::Binding | Phase::Fetching => {
                        ExportError::Query(message)
                    },
                    _ => ExportError::Io(message),
                };
                self.finished(Err(error))
            },
            Event::Completed => match self.phase {
                Phase::Connecting => {
                    let query = self.query.clone();
                    self.moved(Phase::Executing, Action::Execute { query })
                },
                Phase::Creating => self.moved(Phase::Describing, Action::ReadColumns),
                Phase::WritingHeader => {
                    let batch_size = self.batch_size;
                    self.moved(
                        Phase::Binding,
                        Action::Bind { batch_size, max_text_bytes: MAX_TEXT_BYTES },
                    )
                },
                Phase::Binding | Phase::WritingRows => self.moved(Phase::Fetching, Action::Fetch),
                _ => {
                    let path = self.path.clone();
                    self.finished(Ok(path))
                },
            },
            Event::Executed { has_result_set } => {
                if *has_result_set {
                    let path = self.path.clone();
                    self.moved(Phase::Creating, Action::CreateFile { path })
                } else {
                    self.finished(Err(ExportError::EmptyResult))
                }
            },
            Event::Columns { names } => match encoded {
                Ok(bytes) => {
                    let export = Export {
                        phase: Phase::WritingHeader,
                        columns: names.len(),
                        header: Ghost(names.deep_view()),
                        emitted: Ghost(bytes@),
                        ..self
                    };
                    (export, Action::Write { bytes })
                },
                Err(error) => self.finished(Err(error)),
            },
            Event::Fetched { rows } => match rows {
                Some(batch) => {
                    if batch.num_rows() > 0 {
                        match encoded {
                            Ok(bytes) => {
                                let export = Export {
                                    phase: Phase::WritingRows,
                                    rows_written: self.rows_written.saturating_add(
                                        batch.num_rows(),
                                    ),
                                    rows: Ghost(self.rows@ + batch@.rows),
                                    emitted: Ghost(self.emitted@ + bytes@),
                                    ..self
                                };
                                (export, Action::Write { bytes })
                            },
                            Err(error) => self.finished(Err(error)),
                        }
                    } else {
                        self.moved(Phase::Flushing, Action::Flush)
                    }
                },
                None => self.moved(Phase::Flushing, Action::Flush),
            },
        }
    }

    /// The transition for `event`: encodes the event's payload, if it has
    /// one, and moves on. Column names are always answered with the header
    /// record to write, and a batch with rows with the records of its rows.
    pub fn step(self, event: &Event) -> (r: (Export, Action))
        requires
            self@.expects(event@),
        ensures
            (r.0@, r.1@) == self@.after(event@),
            r.0@.wf(),
    {
        let encoded = match event {
            Event::Columns { names } => encode_record(names),
            Event::Fetched { rows: Some(batch) } => {
                if batch.num_rows() > 0 {
                    encode_batch(batch)
                } else {
                    Ok(Vec::new())
                }
            },
            _ => Ok(Vec::new()),
        };
        self.advance(event, encoded)
    }

    /// [`Export::step`] for a caller that cannot be sure of its report: an
    /// event that answers the outstanding action is taken as `step` takes
    /// it; any other is refused with `None` and leaves the export as it was.
    pub fn handle(self, event: &Event) -> (r: (Export, Option<Action>))
        ensures
            r.0@.wf(),
            match r.1 {
                Some(action) => self@.expects(event@) && (r.0@, action@) == self@.after(event@),
                None => !self@.expects(event@) && r.0@ == self@,
            },
    {
        proof {
            use_type_invariant(&self);
        }
        if self.accepts(event) {
            let (export, action) = self.step(event);
            (export, Some(action))
        } else {
            (self, None)
        }
    }
}

} // verus!
