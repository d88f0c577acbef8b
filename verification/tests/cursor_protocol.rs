//! The traversal protocol end to end: row-at-a-time fetching, block
//! fetching through a row-set buffer, and teardown.

use odbc_cursor::column::{ColumnInfo, Nullability};
use odbc_cursor::cursor::{Cursor, RowSetBuffer, RowSetCursor};
use odbc_cursor::error::Error;
use odbc_cursor::statement::Statement;

fn int_column(name: &str) -> ColumnInfo {
    ColumnInfo {
        name: String::from(name),
        nullability: Nullability::NoNulls,
        data_type: 4,
        column_size: 10,
        decimal_digits: 0,
        unsigned_or_not_numeric: false,
        octet_length: 4,
        display_size: 11,
    }
}

fn open_cursor(n_cols: usize, rows: u64) -> Cursor {
    let mut cols = Vec::new();
    for i in 0..n_cols {
        cols.push(int_column(&format!("c{}", i + 1)));
    }
    Cursor::new(Statement::new(cols, None, rows))
}

/// A columnar row-set buffer for up to ten rows of one integer column,
/// with a rows-fetched target. The storage addresses it registers stand in
/// for the addresses a real buffer would pass; the cursor only records
/// them.
struct TenRowBuffer {
    values_address: usize,
    indicators_address: usize,
}

impl TenRowBuffer {
    fn new() -> Self {
        TenRowBuffer { values_address: 0x1000, indicators_address: 0x2000 }
    }
}

impl RowSetBuffer for TenRowBuffer {
    fn bind_to_cursor(&mut self, cursor: &mut Cursor) -> Result<(), Error> {
        cursor.set_row_array_size(10)?;
        cursor.set_num_rows_fetched(true)?;
        cursor.set_row_bind_type(0)?;
        cursor.bind_col(1, 4, self.values_address, 4, self.indicators_address)
    }
}

#[test]
fn row_at_a_time_five_rows() {
    let mut cursor = open_cursor(3, 5);
    assert_eq!(cursor.bind_col(1, 4, 0x1000, 4, 0x2000), Ok(()));
    assert_eq!(cursor.bind_col(2, 4, 0x3000, 4, 0x4000), Ok(()));
    for _ in 0..5 {
        assert_eq!(cursor.fetch(), Ok(true));
    }
    assert_eq!(cursor.fetch(), Ok(false));
    assert_eq!(cursor.unbind_cols(), Ok(()));
    assert_eq!(cursor.bound_column_count(), 0);
    assert_eq!(cursor.unbind_cols(), Ok(()));
    assert_eq!(cursor.bound_column_count(), 0);
}

#[test]
fn fetch_at_exhaustion_keeps_reporting_no_row() {
    let mut cursor = open_cursor(1, 2);
    assert_eq!(cursor.fetch(), Ok(true));
    assert_eq!(cursor.fetch(), Ok(true));
    for _ in 0..4 {
        assert_eq!(cursor.fetch(), Ok(false));
    }
}

#[test]
fn empty_result_set_is_exhausted_from_the_start() {
    let mut cursor = open_cursor(0, 0);
    assert_eq!(cursor.fetch(), Ok(false));
    assert_eq!(cursor.fetch(), Ok(false));
    assert_eq!(cursor.num_result_cols(), Ok(0));
}

#[test]
fn block_fetch_reports_row_counts() {
    let cursor = open_cursor(1, 25);
    let mut row_set_cursor: RowSetCursor<TenRowBuffer> = match cursor
        .bind_row_set_buffer(TenRowBuffer::new())
    {
        Ok(rsc) => rsc,
        Err((_, _, e)) => panic!("binding failed: {:?}", e),
    };
    assert!(matches!(row_set_cursor.fetch(), Ok(Some(_))));
    assert_eq!(row_set_cursor.cursor().num_rows_fetched(), Some(10));
    assert!(matches!(row_set_cursor.fetch(), Ok(Some(_))));
    assert_eq!(row_set_cursor.cursor().num_rows_fetched(), Some(10));
    assert!(matches!(row_set_cursor.fetch(), Ok(Some(_))));
    assert_eq!(row_set_cursor.cursor().num_rows_fetched(), Some(5));
    assert!(matches!(row_set_cursor.fetch(), Ok(None)));
    let (cursor, _buffer) = row_set_cursor.unbind();
    assert_eq!(cursor.bound_column_count(), 0);
}

#[test]
fn teardown_without_fetch_leaves_cursor_usable() {
    let cursor = open_cursor(2, 7);
    let row_set_cursor = match cursor.bind_row_set_buffer(TenRowBuffer::new()) {
        Ok(rsc) => rsc,
        Err((_, _, e)) => panic!("binding failed: {:?}", e),
    };
    let (cursor, _buffer) = row_set_cursor.unbind();
    assert_eq!(cursor.bound_column_count(), 0);
    assert_eq!(cursor.num_result_cols(), Ok(2));
    assert_eq!(cursor.col_data_type(1), Ok(4));
    assert_eq!(cursor.col_data_type(2), Ok(4));
    assert_eq!(cursor.is_unsigned_column(1), Ok(false));
}

#[test]
fn rebinding_a_column_replaces_the_binding() {
    let mut cursor = open_cursor(3, 5);
    assert_eq!(cursor.bind_col(1, 4, 0x1000, 4, 0x2000), Ok(()));
    assert_eq!(cursor.bound_column_count(), 1);
    // Rebinding the same column replaces its binding instead of piling up
    // a second one, as a driver rebind does.
    assert_eq!(cursor.bind_col(1, 12, 0x3000, 255, 0x4000), Ok(()));
    assert_eq!(cursor.bound_column_count(), 1);
    assert_eq!(cursor.bind_col(2, 4, 0x5000, 4, 0x6000), Ok(()));
    assert_eq!(cursor.bound_column_count(), 2);
    assert_eq!(cursor.bind_col(2, 4, 0x7000, 4, 0x8000), Ok(()));
    assert_eq!(cursor.bound_column_count(), 2);
    assert_eq!(cursor.fetch(), Ok(true));
    assert_eq!(cursor.unbind_cols(), Ok(()));
    assert_eq!(cursor.bound_column_count(), 0);
}

#[test]
fn failed_fetch_from_bad_binding_consumes_nothing() {
    let mut cursor = open_cursor(3, 5);
    assert_eq!(cursor.bind_col(7, 4, 0x1000, 4, 0x2000), Ok(()));
    assert_eq!(cursor.fetch(), Err(Error::BoundColumnOutOfRange));
    assert_eq!(cursor.fetch(), Err(Error::BoundColumnOutOfRange));
    assert_eq!(cursor.unbind_cols(), Ok(()));
    // The failing fetches consumed no rows: all five are still there.
    for _ in 0..5 {
        assert_eq!(cursor.fetch(), Ok(true));
    }
    assert_eq!(cursor.fetch(), Ok(false));
}

#[test]
fn row_set_larger_than_result_set_is_drained_in_one_fetch() {
    let mut cursor = open_cursor(1, 3);
    assert_eq!(cursor.set_row_array_size(10), Ok(()));
    assert_eq!(cursor.set_num_rows_fetched(true), Ok(()));
    assert_eq!(cursor.fetch(), Ok(true));
    assert_eq!(cursor.num_rows_fetched(), Some(3));
    assert_eq!(cursor.fetch(), Ok(false));
    assert_eq!(cursor.num_rows_fetched(), Some(0));
}

#[test]
fn num_rows_fetched_needs_a_registered_target() {
    let mut cursor = open_cursor(1, 3);
    assert_eq!(cursor.fetch(), Ok(true));
    assert_eq!(cursor.num_rows_fetched(), None);
    assert_eq!(cursor.set_num_rows_fetched(true), Ok(()));
    assert_eq!(cursor.fetch(), Ok(true));
    assert_eq!(cursor.num_rows_fetched(), Some(1));
    assert_eq!(cursor.fetch(), Ok(true));
    assert_eq!(cursor.fetch(), Ok(false));
    assert_eq!(cursor.num_rows_fetched(), Some(0));
}
