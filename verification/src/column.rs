//! Column metadata: what a result set reports about each of its columns.
//!
//! Column indices are driver-style: index `0` denotes the bookmark column
//! (absent from some result sets), ordinary columns are numbered from `1` in
//! left-to-right order.

use vstd::prelude::*;

verus! {

/// Whether a column can hold missing values.
#[derive(Clone, Copy, Debug, PartialEq, Eq, Structural)]
pub enum Nullability {
    /// The driver does not know whether the column can hold missing values.
    Unknown,
    /// The column can hold missing values.
    Nullable,
    /// The column never holds a missing value.
    NoNulls,
}

/// Everything a statement handle knows about one column of a result set.
///
/// The data type codes are the driver's plain integer codes; this crate
/// carries them through without interpreting them.
pub struct ColumnInfo {
    /// Column name as reported by the data source.
    pub name: String,
    /// Whether the column can hold missing values.
    pub nullability: Nullability,
    /// Driver code of the column's SQL data type.
    pub data_type: i16,
    /// Column size: length in characters for character types, precision for
    /// numeric types.
    pub column_size: u64,
    /// Number of decimal digits.
    pub decimal_digits: i16,
    /// `true` if the column's type is unsigned or not numeric at all.
    pub unsigned_or_not_numeric: bool,
    /// Maximum size in bytes of a value of the column, excluding any
    /// terminating zero.
    pub octet_length: isize,
    /// Maximum number of characters required to display a value of the
    /// column.
    pub display_size: isize,
}

/// Mathematical abstraction of [`ColumnInfo`]: the name as a character
/// sequence, the scalar fields as they are.
pub struct ColumnModel {
    /// Column name.
    pub name: Seq<char>,
    /// Whether the column can hold missing values.
    pub nullability: Nullability,
    /// Driver code of the column's SQL data type.
    pub data_type: i16,
    /// Column size.
    pub column_size: u64,
    /// Number of decimal digits.
    pub decimal_digits: i16,
    /// `true` if the column's type is unsigned or not numeric at all.
    pub unsigned_or_not_numeric: bool,
    /// Maximum size in bytes of a value of the column.
    pub octet_length: isize,
    /// Maximum character width needed to render a value of the column.
    pub display_size: isize,
}

impl View for ColumnInfo {
    type V = ColumnModel;

    open spec fn view(&self) -> ColumnModel {
        ColumnModel {
            name: self.name@,
            nullability: self.nullability,
            data_type: self.data_type,
            column_size: self.column_size,
            decimal_digits: self.decimal_digits,
            unsigned_or_not_numeric: self.unsigned_or_not_numeric,
            octet_length: self.octet_length,
            display_size: self.display_size,
        }
    }
}

/// Description of one column, populated by a describe operation.
///
/// Caller-allocated and library-populated. A failing describe operation
/// leaves the record it was handed in an unspecified state: after a failure
/// nothing may be assumed about its contents.
pub struct ColumnDescription {
    /// Column name as reported by the data source.
    pub name: String,
    /// Whether the column can hold missing values.
    pub nullability: Nullability,
    /// Driver code of the column's SQL data type.
    pub data_type: i16,
    /// Column size: length in characters for character types, precision for
    /// numeric types.
    pub column_size: u64,
    /// Number of decimal digits.
    pub decimal_digits: i16,
}

/// Mathematical abstraction of [`ColumnDescription`].
pub struct DescriptionModel {
    /// Column name.
    pub name: Seq<char>,
    /// Whether the column can hold missing values.
    pub nullability: Nullability,
    /// Driver code of the column's SQL data type.
    pub data_type: i16,
    /// Column size.
    pub column_size: u64,
    /// Number of decimal digits.
    pub decimal_digits: i16,
}

impl View for ColumnDescription {
    type V = DescriptionModel;

    open spec fn view(&self) -> DescriptionModel {
        DescriptionModel {
            name: self.name@,
            nullability: self.nullability,
            data_type: self.data_type,
            column_size: self.column_size,
            decimal_digits: self.decimal_digits,
        }
    }
}

/// The description a describe operation reports for a column with metadata
/// `c`: the descriptive fields of the column, nothing of its binding-related
/// ones.
pub open spec fn description_of(c: ColumnModel) -> DescriptionModel {
    DescriptionModel {
        name: c.name,
        nullability: c.nullability,
        data_type: c.data_type,
        column_size: c.column_size,
        decimal_digits: c.decimal_digits,
    }
}

impl ColumnDescription {
    /// An empty description, ready to be handed to a describe operation.
    pub fn new() -> (r: ColumnDescription)
        ensures
            r@.name == Seq::<char>::empty(),
            r@.nullability == Nullability::Unknown,
            r@.data_type == 0i16,
            r@.column_size == 0u64,
            r@.decimal_digits == 0i16,
    {
        ColumnDescription {
            name: String::new(),
            nullability: Nullability::Unknown,
            data_type: 0,
            column_size: 0,
            decimal_digits: 0,
        }
    }
}

} // verus!
