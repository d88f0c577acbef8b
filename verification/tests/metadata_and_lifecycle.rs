//! Column metadata queries, the describe operation, the bookmark column,
//! and the cursor's end of life.

use odbc_cursor::column::{ColumnDescription, ColumnInfo, Nullability};
use odbc_cursor::cursor::Cursor;
use odbc_cursor::error::Error;
use odbc_cursor::statement::Statement;

fn sample_columns() -> Vec<ColumnInfo> {
    vec![
        ColumnInfo {
            name: String::from("id"),
            nullability: Nullability::NoNulls,
            data_type: 4,
            column_size: 10,
            decimal_digits: 0,
            unsigned_or_not_numeric: false,
            octet_length: 4,
            display_size: 11,
        },
        ColumnInfo {
            name: String::from("title"),
            nullability: Nullability::Nullable,
            data_type: 12,
            column_size: 255,
            decimal_digits: 0,
            unsigned_or_not_numeric: true,
            octet_length: 255,
            display_size: 255,
        },
        ColumnInfo {
            name: String::from("price"),
            nullability: Nullability::Unknown,
            data_type: 3,
            column_size: 18,
            decimal_digits: 2,
            unsigned_or_not_numeric: false,
            octet_length: 16,
            display_size: 20,
        },
    ]
}

fn bookmark_column() -> ColumnInfo {
    ColumnInfo {
        name: String::from("bookmark"),
        nullability: Nullability::NoNulls,
        data_type: 4,
        column_size: 10,
        decimal_digits: 0,
        unsigned_or_not_numeric: true,
        octet_length: 4,
        display_size: 11,
    }
}

#[test]
fn describe_col_reports_the_column() {
    let cursor = Cursor::new(Statement::new(sample_columns(), None, 9));
    let mut description = ColumnDescription::new();
    assert_eq!(cursor.describe_col(2, &mut description), Ok(()));
    assert_eq!(description.name, "title");
    assert_eq!(description.nullability, Nullability::Nullable);
    assert_eq!(description.data_type, 12);
    assert_eq!(description.column_size, 255);
    assert_eq!(description.decimal_digits, 0);
    assert_eq!(cursor.describe_col(3, &mut description), Ok(()));
    assert_eq!(description.name, "price");
    assert_eq!(description.decimal_digits, 2);
}

#[test]
fn describe_col_failure_only_the_error_counts() {
    let cursor = Cursor::new(Statement::new(sample_columns(), None, 9));
    let mut description = ColumnDescription::new();
    // Index beyond the column count: assert on the error alone — the
    // descriptor's contents are unspecified after a failing call.
    assert!(cursor.describe_col(9, &mut description).is_err());
    // Bookmark index on a result set without a bookmark column: the same.
    assert!(cursor.describe_col(0, &mut description).is_err());
}

#[test]
fn describe_col_bookmark_column() {
    let cursor = Cursor::new(Statement::new(sample_columns(), Some(bookmark_column()), 9));
    let mut description = ColumnDescription::new();
    assert_eq!(cursor.describe_col(0, &mut description), Ok(()));
    assert_eq!(description.name, "bookmark");
    assert_eq!(description.nullability, Nullability::NoNulls);
}

#[test]
fn metadata_queries_report_exact_values() {
    let cursor = Cursor::new(Statement::new(sample_columns(), None, 9));
    assert_eq!(cursor.num_result_cols(), Ok(3));
    assert_eq!(cursor.col_data_type(1), Ok(4));
    assert_eq!(cursor.col_data_type(3), Ok(3));
    assert_eq!(cursor.col_octet_length(2), Ok(255));
    assert_eq!(cursor.col_display_size(3), Ok(20));
    assert_eq!(cursor.is_unsigned_column(1), Ok(false));
    assert_eq!(cursor.is_unsigned_column(2), Ok(true));
}

#[test]
fn metadata_queries_reject_bad_indices() {
    let cursor = Cursor::new(Statement::new(sample_columns(), None, 9));
    assert_eq!(cursor.col_data_type(0), Err(Error::InvalidColumnIndex));
    assert_eq!(cursor.col_data_type(4), Err(Error::InvalidColumnIndex));
    assert_eq!(cursor.col_octet_length(99), Err(Error::InvalidColumnIndex));
    assert_eq!(cursor.col_display_size(0), Err(Error::InvalidColumnIndex));
    assert_eq!(cursor.is_unsigned_column(0), Err(Error::InvalidColumnIndex));
}

#[test]
fn bookmark_binding_survives_unbind() {
    let mut cursor = Cursor::new(Statement::new(sample_columns(), Some(bookmark_column()), 9));
    assert_eq!(cursor.bind_col(0, 4, 0x100, 4, 0x200), Ok(()));
    assert_eq!(cursor.bind_col(1, 4, 0x300, 4, 0x400), Ok(()));
    assert_eq!(cursor.bind_col(2, 12, 0x500, 255, 0x600), Ok(()));
    assert!(cursor.has_bookmark_binding());
    assert_eq!(cursor.bound_column_count(), 2);
    assert_eq!(cursor.unbind_cols(), Ok(()));
    assert_eq!(cursor.bound_column_count(), 0);
    assert!(cursor.has_bookmark_binding());
    assert_eq!(cursor.unbind_cols(), Ok(()));
    assert!(cursor.has_bookmark_binding());
}

#[test]
fn close_is_issued_exactly_once() {
    let cursor = Cursor::new(Statement::new(sample_columns(), None, 9));
    let mut statement = cursor.close();
    assert!(!statement.is_open());
    assert_eq!(statement.close_count(), 1);
    // The closed state is terminal: a repeated close is refused and
    // changes nothing.
    assert_eq!(statement.close_cursor(), Err(Error::CursorClosed));
    assert_eq!(statement.close_count(), 1);
}

#[test]
fn closed_statement_refuses_every_operation() {
    let cursor = Cursor::new(Statement::new(sample_columns(), None, 9));
    let mut statement = cursor.close();
    assert_eq!(statement.fetch(), Err(Error::CursorClosed));
    assert_eq!(statement.num_result_cols(), Err(Error::CursorClosed));
    assert_eq!(statement.unbind_cols(), Err(Error::CursorClosed));
    assert_eq!(statement.bind_col(1, 4, 0x100, 4, 0x200), Err(Error::CursorClosed));
    assert_eq!(statement.set_row_array_size(10), Err(Error::CursorClosed));
    assert_eq!(statement.set_num_rows_fetched(true), Err(Error::CursorClosed));
    assert_eq!(statement.set_row_bind_type(64), Err(Error::CursorClosed));
    assert_eq!(statement.col_data_type(1), Err(Error::CursorClosed));
    assert_eq!(statement.is_unsigned_column(1), Err(Error::CursorClosed));
    let mut description = ColumnDescription::new();
    assert_eq!(statement.describe_col(1, &mut description), Err(Error::CursorClosed));
}
