//! What a statement gave: rows, or the number of rows it changed.

use crate::data::row::{make_row, names_view, row_entries, row_of, values_view, Entry};
use crate::data::sqlite_value::SqliteValue;
use indexmap::IndexMap;
use vstd::prelude::*;

verus! {

/// The result of one statement. A read-only statement leaves its rows and no
/// count; a mutating one leaves the count of the rows it touched and no rows.
#[derive(Debug, PartialEq)]
pub struct SqliteQueryResult {
    pub rows: Vec<IndexMap<String, SqliteValue>>,
    pub rows_affected: Option<usize>,
}

/// The length of the window that starts at `offset` and asks for `max_length` rows.
pub open spec fn window_len(row_count: int, offset: int, max_length: int) -> int {
    if max_length < row_count - offset {
        max_length
    } else {
        row_count - offset
    }
}

impl SqliteQueryResult {
    /// The entries of each row.
    pub open spec fn rows_view(&self) -> Seq<Seq<Entry>> {
        Seq::new(self.rows@.len(), |i: int| row_entries(self.rows@[i]))
    }

    /// Rows and a count never stand together.
    pub open spec fn wf(&self) -> bool {
        self.rows_affected is Some ==> self.rows@.len() == 0
    }

    /// The result of a read-only statement: one row for each row of values,
    /// keyed by the column names.
    pub fn new(rows: Vec<Vec<SqliteValue>>, column_names: Vec<String>) -> (result: Self)
        requires
            forall|i: int|
                0 <= i < rows@.len() ==> (#[trigger] rows@[i])@.len() == column_names@.len(),
        ensures
            result.wf(),
            result.rows_affected is None,
            result.rows_view().len() == rows@.len(),
            forall|i: int|
                0 <= i < rows@.len() ==> (#[trigger] result.rows_view()[i]) == row_of(
                    names_view(column_names@),
                    values_view(rows@[i]@),
                ),
    {
        let mut result: Vec<IndexMap<String, SqliteValue>> = Vec::new();
        let mut at: usize = 0;
        while at < rows.len()
            invariant
                at <= rows@.len(),
                result@.len() == at,
                forall|i: int|
                    0 <= i < rows@.len() ==> (#[trigger] rows@[i])@.len() == column_names@.len(),
                forall|i: int|
                    0 <= i < at ==> row_entries(#[trigger] result@[i]) == row_of(
                        names_view(column_names@),
                        values_view(rows@[i]@),
                    ),
            decreases rows@.len() - at,
        {
            let row = make_row(&column_names, &rows[at]);
            result.push(row);
            at = at + 1;
        }
        SqliteQueryResult { rows: result, rows_affected: None }
    }

    /// The result of a mutating statement that touched `rows_affected` rows.
    pub fn mutated(rows_affected: usize) -> (result: Self)
        ensures
            result.wf(),
            result.rows_affected == Some(rows_affected),
            result.rows@.len() == 0,
    {
        SqliteQueryResult { rows: Vec::new(), rows_affected: Some(rows_affected) }
    }

    /// Whether the result carries rows rather than a count.
    pub fn is_readonly(&self) -> (readonly: bool)
        ensures
            readonly == (self.rows_affected is None),
    {
        self.rows_affected.is_none()
    }

    /// At most `max_length` rows from `offset` on; fewer only where the rows end.
    pub fn window(&self, offset: usize, max_length: u8) -> (rows: &[IndexMap<String, SqliteValue>])
        requires
            offset <= self.rows@.len(),
        ensures
            rows@ == self.rows@.subrange(
                offset as int,
                offset + window_len(self.rows@.len() as int, offset as int, max_length as int),
            ),
            rows@.len() == window_len(self.rows@.len() as int, offset as int, max_length as int),
    {
        let max_window_size: usize = self.rows.len() - offset;
        let all = self.rows.as_slice();
        if (max_length as usize) < max_window_size {
            &all[offset..offset + max_length as usize]
        } else {
            &all[offset..offset + max_window_size]
        }
    }
}

} // verus!
