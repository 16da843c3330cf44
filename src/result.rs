use vstd::prelude::*;

use crate::error::BridgeError;
use crate::lifecycle::ConnHandle;
use crate::native;
use crate::native::{
    cell_readable, cursor_name, cursor_width, engine_message, name_readable, name_view, read_fails,
    read_gives,
    row_width,
};
use crate::value::DbValue;

verus! {

/// A fully buffered query result: the column names, one row of values per row
/// that the cursor produced, their count, and the connection's last insert id.
#[derive(Debug)]
pub struct ResultSet {
    pub columns: Vec<String>,
    pub last_insert_id: Option<i64>,
    pub num_rows: usize,
    pub rows: Vec<Vec<DbValue>>,
}

/// Every row of `rows` has one cell per column.
pub open spec fn rows_fit(rows: Seq<Vec<DbValue>>, width: nat) -> bool {
    forall|i: int| 0 <= i < rows.len() ==> (#[trigger] rows[i])@.len() == width
}

impl ResultSet {
    /// The shape every result has: as many rows as counted, each as wide as
    /// the list of columns.
    pub open spec fn wf(&self) -> bool {
        &&& self.rows@.len() == self.num_rows
        &&& rows_fit(self.rows@, self.columns@.len())
    }
}

/// The label of a column: its name, or the empty string where the engine has none.
pub open spec fn label_of(name: Option<Seq<char>>) -> Seq<char> {
    match name {
        Some(s) => s,
        None => Seq::empty(),
    }
}

/// Labels each column, in order, by its name or by the empty string.
pub fn column_labels(names: &Vec<Option<String>>) -> (r: Vec<String>)
    ensures
        r@.len() == names@.len(),
        forall|i: int| 0 <= i < names@.len() ==> (#[trigger] r@[i])@ == label_of(name_view(names@[i])),
{
    let mut r: Vec<String> = Vec::with_capacity(names.len());
    let mut i: usize = 0;
    while i < names.len()
        invariant
            i <= names@.len(),
            r@.len() == i,
            forall|j: int| 0 <= j < i ==> (#[trigger] r@[j])@ == label_of(name_view(names@[j])),
        decreases names.len() - i,
    {
        match &names[i] {
            Some(s) => r.push(s.clone()),
            None => r.push(String::new()),
        }
        i = i + 1;
    }
    r
}

/// What the caller does next with the cursor.
#[derive(Debug)]
pub enum Step {
    /// Pull the next row.
    Continue,
    /// The cursor is exhausted: finish the result.
    Finished,
    /// The query failed: drop everything gathered and report this.
    Abort(BridgeError),
}

/// A query error while keeping a row comes from a cell of the row whose read
/// failed with that message, or from a result too full to take the row.
pub open spec fn abort_explained(r: Step, row: libsql::Row, width: nat, full: bool) -> bool {
    match r {
        Step::Abort(BridgeError::Query(m)) => full || exists|i: int|
            0 <= i < width && #[trigger] read_fails(row, i, m@),
        _ => true,
    }
}

/// Gathers the rows of a cursor into a result, all or nothing.
pub struct Materializer {
    columns: Vec<String>,
    rows: Vec<Vec<DbValue>>,
}

impl Materializer {
    /// The labels of the columns, in order.
    pub closed spec fn columns(&self) -> Seq<String> {
        self.columns@
    }

    /// The rows gathered so far, in the order the cursor gave them.
    pub closed spec fn rows(&self) -> Seq<Vec<DbValue>> {
        self.rows@
    }

    /// Every row gathered is as wide as the list of columns, the columns can
    /// be indexed by the engine, and one more row still fits in the count.
    pub open spec fn wf(&self) -> bool {
        &&& self.columns().len() <= i32::MAX
        &&& self.rows().len() < usize::MAX
        &&& rows_fit(self.rows(), self.columns().len())
    }

    /// Starts a result with the given columns and no row yet.
    pub fn new(columns: Vec<String>) -> (r: Self)
        requires
            columns@.len() <= i32::MAX,
        ensures
            r.wf(),
            r.columns() == columns@,
            r.rows() == Seq::<Vec<DbValue>>::empty(),
    {
        Materializer { columns, rows: Vec::new() }
    }

    /// Reads the column count and the column names of a cursor before any row
    /// is pulled: one column per column of the cursor, labelled by its name.
    pub fn start(cursor: &libsql::Rows) -> (r: Self)
        requires
            forall|i: int| 0 <= i < cursor_width(*cursor) ==> #[trigger] name_readable(*cursor, i),
        ensures
            r.wf(),
            r.rows().len() == 0,
            r.columns().len() == cursor_width(*cursor),
            forall|i: int|
                0 <= i < r.columns().len() ==> (#[trigger] r.columns()[i])@ == label_of(
                    cursor_name(*cursor, i),
                ),
    {
        let count = native::column_count(cursor);
        let mut names: Vec<Option<String>> = Vec::with_capacity(count as usize);
        let mut i: i32 = 0;
        while i < count
            invariant
                0 <= i <= count,
                count == cursor_width(*cursor),
                forall|k: int| 0 <= k < cursor_width(*cursor) ==> #[trigger] name_readable(*cursor, k),
                names@.len() == i,
                forall|j: int| 0 <= j < i ==> name_view(#[trigger] names@[j]) == cursor_name(*cursor, j),
            decreases count - i,
        {
            names.push(native::column_name(cursor, i));
            i = i + 1;
        }
        let labels = column_labels(&names);
        assert forall|k: int| 0 <= k < labels@.len() implies (#[trigger] labels@[k])@ == label_of(
            cursor_name(*cursor, k),
        ) by {
            assert(name_view(names@[k]) == cursor_name(*cursor, k));
        }
        Materializer::new(labels)
    }

    /// Adds one row of values.
    pub fn push_row(&mut self, row: Vec<DbValue>)
        requires
            old(self).wf(),
            old(self).rows().len() + 1 < usize::MAX,
            row@.len() == old(self).columns().len(),
        ensures
            final(self).wf(),
            final(self).columns() == old(self).columns(),
            final(self).rows() == old(self).rows().push(row),
    {
        self.rows.push(row);
        assert forall|i: int| 0 <= i < self.rows@.len() implies (#[trigger] self.rows@[i])@.len()
            == self.columns@.len() by {
            if i < old(self).rows@.len() {
                assert(self.rows@[i] == old(self).rows@[i]);
            }
        }
    }

    /// Reads every cell of a row, in column order; the first cell that cannot
    /// be read fails the row, and a row narrower than the columns is refused.
    pub fn read_row(&self, row: &libsql::Row) -> (r: Result<Vec<DbValue>, BridgeError>)
        requires
            self.wf(),
            forall|i: int|
                0 <= i < self.columns().len() && i < row_width(*row) ==> #[trigger] cell_readable(
                    *row,
                    i,
                ),
        ensures
            self.columns().len() > row_width(*row) <==> r matches Err(BridgeError::ShortRow),
            self.columns().len() == 0 ==> (r matches Ok(cells) && cells@.len() == 0),
            r matches Ok(cells) ==> cells@.len() == self.columns().len() && forall|i: int|
                0 <= i < cells@.len() ==> read_gives(*row, i, (#[trigger] cells@[i])@),
            r matches Err(e) ==> e is ShortRow || e is Query,
            r matches Err(BridgeError::Query(m)) ==> exists|i: int|
                0 <= i < self.columns().len() && #[trigger] read_fails(*row, i, m@),
    {
        let width = self.columns.len();
        let have = native::row_column_count(row);
        if width > have as usize {
            return Err(BridgeError::ShortRow);
        }
        let mut cells: Vec<DbValue> = Vec::with_capacity(width);
        let mut i: usize = 0;
        while i < width
            invariant
                width == self.columns@.len(),
                width <= i32::MAX,
                width <= row_width(*row),
                forall|k: int| 0 <= k < width ==> #[trigger] cell_readable(*row, k),
                i <= width,
                cells@.len() == i,
                forall|k: int| 0 <= k < i ==> read_gives(*row, k, (#[trigger] cells@[k])@),
            decreases width - i,
        {
            let got = native::cell_value(row, i as i32);
            let ghost seen = got;
            match accept_cell(&mut cells, got) {
                Ok(()) => {},
                Err(e) => {
                    proof {
                        if let BridgeError::Query(ref m) = e {
                            assert(read_fails(*row, i as int, m@));
                        }
                    }
                    return Err(e);
                },
            }
            i = i + 1;
        }
        Ok(cells)
    }

    /// Keeps a row that was read in full; a failed read, or a row that would not
    /// fit in the count, aborts the result and leaves it as it was.
    pub fn keep_row(&mut self, read: Result<Vec<DbValue>, BridgeError>) -> (r: Step)
        requires
            old(self).wf(),
            read matches Ok(cells) ==> cells@.len() == old(self).columns().len(),
        ensures
            final(self).wf(),
            final(self).columns() == old(self).columns(),
            read matches Err(e) ==> r == Step::Abort(e) && final(self).rows() == old(self).rows(),
            read matches Ok(cells) ==> if old(self).rows().len() + 2 < usize::MAX {
                r is Continue && final(self).rows() == old(self).rows().push(cells)
            } else {
                r matches Step::Abort(BridgeError::Query(_)) && final(self).rows() == old(
                    self,
                ).rows()
            },
    {
        match read {
            Err(e) => Step::Abort(e),
            Ok(cells) => {
                if self.rows.len() >= usize::MAX - 2 {
                    return Step::Abort(BridgeError::Query("too many rows".to_string()));
                }
                self.push_row(cells);
                Step::Continue
            },
        }
    }

    /// Takes what one pull of the cursor gave: a row is read and kept, the end
    /// of the cursor finishes the result, and any failure aborts it.
    pub fn step(&mut self, pulled: Result<Option<libsql::Row>, libsql::Error>) -> (r: Step)
        requires
            old(self).wf(),
            pulled matches Ok(Some(row)) ==> forall|i: int|
                0 <= i < old(self).columns().len() && i < row_width(row) ==> #[trigger] cell_readable(
                    row,
                    i,
                ),
        ensures
            final(self).wf(),
            final(self).columns() == old(self).columns(),
            r is Abort ==> final(self).rows() == old(self).rows(),
            r matches Step::Abort(e) ==> e is Query || e is ShortRow,
            match pulled {
                Ok(None) => r is Finished && final(self).rows() == old(self).rows(),
                Err(e) => r matches Step::Abort(BridgeError::Query(m)) && m@ == engine_message(e),
                Ok(Some(row)) => {
                    &&& !(r is Finished)
                    &&& r is Continue ==> exists|cells: Vec<DbValue>|
                        {
                            &&& cells@.len() == old(self).columns().len()
                            &&& forall|i: int|
                                0 <= i < cells@.len() ==> read_gives(row, i, (#[trigger] cells@[i])@)
                            &&& final(self).rows() == old(self).rows().push(cells)
                        }
                    &&& (old(self).columns().len() == 0 && old(self).rows().len() + 2
                        < usize::MAX) ==> r is Continue
                    &&& (old(self).columns().len() > row_width(row) <==> r matches Step::Abort(
                        BridgeError::ShortRow,
                    ))
                    &&& abort_explained(
                        r,
                        row,
                        old(self).columns().len(),
                        old(self).rows().len() + 2 >= usize::MAX,
                    )
                },
            },
    {
        match pulled {
            Ok(None) => Step::Finished,
            Err(e) => Step::Abort(query_error(&e)),
            Ok(Some(row)) => {
                let read = self.read_row(&row);
                let ghost seen = read;
                let r = self.keep_row(read);
                proof {
                    if let Ok(c) = seen {
                        if r is Continue {
                            assert(self.rows() == old(self).rows().push(c));
                        }
                    }
                }
                r
            },
        }
    }

    /// Ends the result: the rows gathered, their count, and the last insert id
    /// of the connection the query ran on.
    pub fn finish(self, conn: &ConnHandle) -> (r: ResultSet)
        requires
            self.wf(),
        ensures
            r.wf(),
            r.columns@ == self.columns(),
            r.rows@ == self.rows(),
            r.num_rows == self.rows().len(),
            r.last_insert_id is Some,
    {
        let id = native::last_insert_rowid(conn.connection.resource());
        let n = self.rows.len();
        ResultSet { columns: self.columns, last_insert_id: Some(id), num_rows: n, rows: self.rows }
    }
}

/// Takes what reading one cell gave: a value is added to the cells, a failure
/// becomes a query error and leaves them as they were.
pub fn accept_cell(cells: &mut Vec<DbValue>, got: Result<DbValue, libsql::Error>) -> (r: Result<
    (),
    BridgeError,
>)
    ensures
        got matches Ok(v) ==> r is Ok && final(cells)@ == old(cells)@.push(v),
        got matches Err(e) ==> (r matches Err(BridgeError::Query(m)) && m@ == engine_message(e)
            && final(cells)@ == old(cells)@),
{
    match got {
        Ok(v) => {
            cells.push(v);
            Ok(())
        },
        Err(e) => Err(BridgeError::Query(native::error_message(&e))),
    }
}

/// The error for a statement that the engine would not run.
pub fn query_error(e: &libsql::Error) -> (r: BridgeError)
    ensures
        r matches BridgeError::Query(m) && m@ == engine_message(*e),
{
    BridgeError::Query(native::error_message(e))
}

} // verus!
