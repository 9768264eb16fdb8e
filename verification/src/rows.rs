//! A bounded batch of raw rows, as one fetch delivers them.

use vstd::prelude::*;

verus! {

/// One cell of a result set: its raw bytes, or `None` for SQL NULL.
pub type Cell = Option<Vec<u8>>;

/// Mathematical model of a cell.
pub type CellView = Option<Seq<u8>>;

/// Mathematical model of a row: its cells in column order.
pub type RowView = Seq<CellView>;

/// Mathematical model of a [`RowBatch`].
pub struct RowBatchView {
    /// The largest number of rows the batch may hold.
    pub capacity: nat,
    /// The number of cells in every row.
    pub columns: nat,
    /// The rows held, in the order in which the cursor delivered them.
    pub rows: Seq<RowView>,
}

impl RowBatchView {
    /// A batch never holds more rows than its capacity, and all its rows
    /// have the same width.
    pub open spec fn wf(self) -> bool {
        &&& self.rows.len() <= self.capacity
        &&& forall|r: int| 0 <= r < self.rows.len() ==> (#[trigger] self.rows[r]).len() == self.columns
    }
}

/// A rectangular buffer of raw cells: at most `capacity` rows of exactly
/// `columns` cells each.
pub struct RowBatch {
    capacity: usize,
    columns: usize,
    rows: Vec<Vec<Cell>>,
}

impl View for RowBatch {
    type V = RowBatchView;

    closed spec fn view(&self) -> RowBatchView {
        RowBatchView {
            capacity: self.capacity as nat,
            columns: self.columns as nat,
            rows: self.rows.deep_view(),
        }
    }
}

impl RowBatch {
    #[verifier::type_invariant]
    spec fn inv(&self) -> bool {
        self@.wf()
    }

    /// An empty batch for at most `capacity` rows of `columns` cells.
    pub fn new(capacity: usize, columns: usize) -> (batch: RowBatch)
        ensures
            batch@.wf(),
            batch@.capacity == capacity,
            batch@.columns == columns,
            batch@.rows.len() == 0,
    {
        RowBatch { capacity, columns, rows: Vec::new() }
    }

    /// The largest number of rows the batch may hold.
    pub fn capacity(&self) -> (n: usize)
        ensures
            n == self@.capacity,
            self@.wf(),
    {
        proof {
            use_type_invariant(self);
        }
        self.capacity
    }

    /// The number of rows held.
    pub fn num_rows(&self) -> (n: usize)
        ensures
            n == self@.rows.len(),
            self@.wf(),
    {
        proof {
            use_type_invariant(self);
        }
        self.rows.len()
    }

    /// The number of cells in every row.
    pub fn num_cols(&self) -> (n: usize)
        ensures
            n == self@.columns,
            self@.wf(),
    {
        proof {
            use_type_invariant(self);
        }
        self.columns
    }

    /// The row at index `row`.
    pub fn row(&self, row: usize) -> (cells: &Vec<Cell>)
        requires
            row < self@.rows.len(),
        ensures
            cells.deep_view() == self@.rows[row as int],
            cells@.len() == self@.columns,
            self@.wf(),
    {
        proof {
            use_type_invariant(self);
        }
        &self.rows[row]
    }

    /// The bytes of the cell in column `col` of row `row`, or `None` where
    /// the cell is NULL.
    pub fn at(&self, col: usize, row: usize) -> (cell: Option<&[u8]>)
        requires
            row < self@.rows.len(),
            col < self@.columns,
        ensures
            match cell {
                Some(bytes) => self@.rows[row as int][col as int] == Some(bytes@),
                None => self@.rows[row as int][col as int] is None,
            },
    {
        let cells = self.row(row);
        match &cells[col] {
            Some(bytes) => Some(bytes.as_slice()),
            None => None,
        }
    }

    /// Appends `cells` as the next row. A row of the wrong width, or one
    /// more row than the batch can hold, is refused and leaves the batch as
    /// it was.
    pub fn push_row(&mut self, cells: Vec<Cell>) -> (accepted: bool)
        ensures
            accepted == (old(self)@.rows.len() < old(self)@.capacity && cells@.len() == old(
                self,
            )@.columns),
            accepted ==> final(self)@ == (RowBatchView {
                rows: old(self)@.rows.push(cells.deep_view()),
                ..old(self)@
            }),
            !accepted ==> final(self)@ == old(self)@,
            final(self)@.wf(),
    {
        proof {
            use_type_invariant(&*self);
        }
        if self.rows.len() < self.capacity && cells.len() == self.columns {
            let ghost before = self.rows.deep_view();
            let ghost added = cells.deep_view();
            // The rows are taken out while they change, so that the batch is
            // well-formed at every moment.
            let mut rows: Vec<Vec<Cell>> = Vec::new();
            std::mem::swap(&mut self.rows, &mut rows);
            rows.push(cells);
            assert(rows.deep_view() =~= before.push(added));
            std::mem::swap(&mut self.rows, &mut rows);
            true
        } else {
            false
        }
    }

    /// Empties the batch for the next fetch; capacity and width stay.
    pub fn clear(&mut self)
        ensures
            final(self)@ == (RowBatchView { rows: Seq::empty(), ..old(self)@ }),
            final(self)@.wf(),
    {
        let mut rows: Vec<Vec<Cell>> = Vec::new();
        std::mem::swap(&mut self.rows, &mut rows);
        rows.clear();
        assert(rows.deep_view() =~= Seq::empty());
        std::mem::swap(&mut self.rows, &mut rows);
    }
}

} // verus!
