//! The statement handle: the narrow driver interface the cursor layer
//! orchestrates, realised over a described result set.
//!
//! A [`Statement`] stands for a prepared and executed query. Its observable
//! state is the ghost [`StatementModel`]; every operation is specified as a
//! transition on that model (`*_step` for the state after the call, and
//! `*_outcome` for the returned result), so that the cursor layer and its
//! laws can speak about whole sequences of calls.

use vstd::prelude::*;

use crate::column::{description_of, ColumnDescription, ColumnInfo, ColumnModel};
use crate::error::Error;

verus! {

/// One registered column binding: a caller-owned data buffer and indicator
/// buffer, referenced by address, bound to a column index.
///
/// The handle references these buffers, it never owns them; keeping them
/// valid and unmoved for as long as the binding exists rests with whoever
/// registered the binding.
#[derive(Clone, Copy, Debug, PartialEq, Eq, Structural)]
pub struct ColumnBinding {
    /// Index of the bound column: `0` is the bookmark column, ordinary
    /// columns start at `1`.
    pub column_number: u16,
    /// Driver code of the C data type the buffer holds.
    pub target_type: i16,
    /// Address of the data buffer.
    pub target_value: usize,
    /// Length in bytes of the data buffer, or of a single element of it when
    /// fetching row sets.
    pub target_length: isize,
    /// Address of the indicator buffer that receives per-value length or
    /// null information.
    pub indicator: usize,
}

/// The observable state of a statement handle.
#[verifier::ext_equal]
pub struct StatementModel {
    /// Whether the result set is still open. `false` is terminal: once the
    /// cursor is closed, no operation but a failing one is possible.
    pub open: bool,
    /// Metadata of the bookmark column, where the result set has one.
    pub bookmark: Option<ColumnModel>,
    /// Metadata of the ordinary columns, left to right; column index `n`
    /// (starting at `1`) denotes `columns[n - 1]`.
    pub columns: Seq<ColumnModel>,
    /// Number of rows the result set holds in total.
    pub rows_total: int,
    /// Number of rows already handed out by fetches.
    pub rows_consumed: int,
    /// Up to how many rows one fetch retrieves.
    pub row_array_size: int,
    /// Binding orientation: `0` is columnar, a positive value is row-major
    /// binding with that byte stride.
    pub row_bind_type: int,
    /// Whether a rows-fetched target is registered, into which the handle
    /// reports the number of rows of each retrieved row set.
    pub rows_fetched_bound: bool,
    /// The rows-fetched value most recently written to the registered
    /// target.
    pub last_rows_fetched: int,
    /// The bindings of ordinary columns, in the order they were registered.
    pub bindings: Seq<ColumnBinding>,
    /// The binding of the bookmark column, if one is registered.
    pub bookmark_binding: Option<ColumnBinding>,
    /// How many times the handle has closed a cursor.
    pub closes_performed: int,
}

/// Well-formedness of a statement handle's state: counters within machine
/// bounds, a column count a driver can report, binding indices on the side
/// of the index space they belong to, and a close performed exactly when the
/// cursor is no longer open.
pub open spec fn stmt_wf(m: StatementModel) -> bool {
    &&& 0 <= m.rows_consumed <= m.rows_total <= u64::MAX
    &&& 1 <= m.row_array_size <= u32::MAX
    &&& 0 <= m.row_bind_type <= u32::MAX
    &&& 0 <= m.last_rows_fetched <= u64::MAX
    &&& m.columns.len() <= 0x7fff
    &&& m.closes_performed == (if m.open { 0int } else { 1int })
    &&& (forall|i: int| 0 <= i < m.bindings.len() ==> (#[trigger] m.bindings[i]).column_number >= 1)
    &&& (forall|i: int, j: int| 0 <= i < j < m.bindings.len()
        ==> (#[trigger] m.bindings[i]).column_number != (#[trigger] m.bindings[j]).column_number)
    &&& (m.bookmark_binding matches Some(b) ==> b.column_number == 0)
}

/// Whether `n` is the index of an ordinary column of the result set.
pub open spec fn column_in_range(m: StatementModel, n: int) -> bool {
    1 <= n <= m.columns.len()
}

/// The metadata a describe operation reports for column index `n`: the
/// bookmark column for `0`, an ordinary column for `1` up to the column
/// count, nothing for any other index.
pub open spec fn described_column(m: StatementModel, n: int) -> Option<ColumnModel> {
    if n == 0 {
        m.bookmark
    } else if column_in_range(m, n) {
        Some(m.columns[n - 1])
    } else {
        None
    }
}

/// Whether every registered column binding lies within the result set's
/// column count. A binding beyond it is not detected when it is registered;
/// it surfaces as an error from the next fetch.
pub open spec fn bindings_in_range(m: StatementModel) -> bool {
    forall|i: int| 0 <= i < m.bindings.len()
        ==> (#[trigger] m.bindings[i]).column_number <= m.columns.len()
}

/// Whether a binding of the ordinary column `n` is registered.
pub open spec fn has_binding(s: Seq<ColumnBinding>, n: u16) -> bool {
    exists|j: int| 0 <= j < s.len() && (#[trigger] s[j]).column_number == n
}

/// The position of the registered binding of column `n`. Meaningful when
/// [`has_binding`] holds; with one binding per column — which
/// well-formedness guarantees — it is the one position holding that
/// column's binding.
pub open spec fn binding_slot(s: Seq<ColumnBinding>, n: u16) -> int {
    choose|j: int| 0 <= j < s.len() && (#[trigger] s[j]).column_number == n
}

/// Number of rows the result set still holds.
pub open spec fn rows_remaining(m: StatementModel) -> int {
    m.rows_total - m.rows_consumed
}

/// Number of rows the next successful fetch retrieves: a full row set, or
/// whatever is left of the result set.
pub open spec fn batch_rows(m: StatementModel) -> int {
    if m.row_array_size <= rows_remaining(m) {
        m.row_array_size
    } else {
        rows_remaining(m)
    }
}

/// What a fetch returns: an error on a closed cursor or an out-of-range
/// binding, otherwise whether a row set was retrieved. Exhaustion is no
/// error, and further fetches keep reporting it.
pub open spec fn fetch_outcome(m: StatementModel) -> Result<bool, Error> {
    if !m.open {
        Err(Error::CursorClosed)
    } else if !bindings_in_range(m) {
        Err(Error::BoundColumnOutOfRange)
    } else if rows_remaining(m) == 0 {
        Ok(false)
    } else {
        Ok(true)
    }
}

/// The state after a fetch: a failing fetch changes nothing; at exhaustion
/// only a registered rows-fetched target is written, with zero; otherwise
/// the next row set is consumed and its size reported.
pub open spec fn fetch_step(m: StatementModel) -> StatementModel {
    if !m.open || !bindings_in_range(m) {
        m
    } else if rows_remaining(m) == 0 {
        StatementModel {
            last_rows_fetched: if m.rows_fetched_bound { 0 } else { m.last_rows_fetched },
            ..m
        }
    } else {
        StatementModel {
            rows_consumed: m.rows_consumed + batch_rows(m),
            last_rows_fetched: if m.rows_fetched_bound { batch_rows(m) } else { m.last_rows_fetched },
            ..m
        }
    }
}

/// What registering a column binding returns: it succeeds whenever the
/// cursor is open, even for an index beyond the column count — that mistake
/// is reported by the next fetch, not here.
pub open spec fn bind_outcome(m: StatementModel) -> Result<(), Error> {
    if m.open {
        Ok(())
    } else {
        Err(Error::CursorClosed)
    }
}

/// The state after registering binding `b`: index `0` replaces the
/// bookmark binding; an ordinary column that is already bound has its
/// binding replaced in place — a column carries at most one binding, as a
/// driver rebind does — and a column bound for the first time has its
/// binding appended; a closed cursor stays as it is.
pub open spec fn bind_step(m: StatementModel, b: ColumnBinding) -> StatementModel {
    if !m.open {
        m
    } else if b.column_number == 0 {
        StatementModel { bookmark_binding: Some(b), ..m }
    } else if has_binding(m.bindings, b.column_number) {
        StatementModel {
            bindings: m.bindings.update(binding_slot(m.bindings, b.column_number), b),
            ..m
        }
    } else {
        StatementModel { bindings: m.bindings.push(b), ..m }
    }
}

/// What releasing the column bindings returns: success whenever the cursor
/// is open.
pub open spec fn unbind_outcome(m: StatementModel) -> Result<(), Error> {
    if m.open {
        Ok(())
    } else {
        Err(Error::CursorClosed)
    }
}

/// The state after releasing the column bindings: every ordinary column
/// binding is gone, the bookmark binding is left untouched, and nothing
/// else of the handle changes.
pub open spec fn unbind_step(m: StatementModel) -> StatementModel {
    if m.open {
        StatementModel { bindings: Seq::<ColumnBinding>::empty(), ..m }
    } else {
        m
    }
}

/// What closing the cursor returns: success on an open cursor, an error
/// once it is already closed.
pub open spec fn close_outcome(m: StatementModel) -> Result<(), Error> {
    if m.open {
        Ok(())
    } else {
        Err(Error::CursorClosed)
    }
}

/// The state after a close-cursor call: an open cursor performs the one and
/// only transition to closed; on an already closed one nothing happens.
pub open spec fn close_step(m: StatementModel) -> StatementModel {
    if m.open {
        StatementModel { open: false, closes_performed: m.closes_performed + 1, ..m }
    } else {
        m
    }
}

/// A statement handle over a described result set.
///
/// The handle is created open, with the cursor positioned before the first
/// row, no bindings registered, a row-set size of one row, columnar binding
/// orientation and no rows-fetched target.
pub struct Statement {
    open: bool,
    bookmark: Option<ColumnInfo>,
    columns: Vec<ColumnInfo>,
    rows_total: u64,
    rows_consumed: u64,
    row_array_size: u32,
    row_bind_type: u32,
    rows_fetched_bound: bool,
    last_rows_fetched: u64,
    bindings: Vec<ColumnBinding>,
    bookmark_binding: Option<ColumnBinding>,
    closes_performed: u64,
}

impl View for Statement {
    type V = StatementModel;

    closed spec fn view(&self) -> StatementModel {
        StatementModel {
            open: self.open,
            bookmark: match self.bookmark {
                Some(c) => Some(c@),
                None => None,
            },
            columns: self.columns@.map_values(|c: ColumnInfo| c@),
            rows_total: self.rows_total as int,
            rows_consumed: self.rows_consumed as int,
            row_array_size: self.row_array_size as int,
            row_bind_type: self.row_bind_type as int,
            rows_fetched_bound: self.rows_fetched_bound,
            last_rows_fetched: self.last_rows_fetched as int,
            bindings: self.bindings@,
            bookmark_binding: self.bookmark_binding,
            closes_performed: self.closes_performed as int,
        }
    }
}

impl Statement {
    /// A fresh handle over a result set with the given ordinary columns,
    /// optional bookmark column, and number of rows.
    pub fn new(columns: Vec<ColumnInfo>, bookmark: Option<ColumnInfo>, rows_total: u64) -> (r:
        Statement)
        requires
            columns@.len() <= 0x7fff,
        ensures
            r@ == (StatementModel {
                open: true,
                bookmark: match bookmark {
                    Some(c) => Some(c@),
                    None => None,
                },
                columns: columns@.map_values(|c: ColumnInfo| c@),
                rows_total: rows_total as int,
                rows_consumed: 0,
                row_array_size: 1,
                row_bind_type: 0,
                rows_fetched_bound: false,
                last_rows_fetched: 0,
                bindings: Seq::<ColumnBinding>::empty(),
                bookmark_binding: None,
                closes_performed: 0,
            }),
            stmt_wf(r@),
    {
        Statement {
            open: true,
            bookmark,
            columns,
            rows_total,
            rows_consumed: 0,
            row_array_size: 1,
            row_bind_type: 0,
            rows_fetched_bound: false,
            last_rows_fetched: 0,
            bindings: Vec::new(),
            bookmark_binding: None,
            closes_performed: 0,
        }
    }

    /// Close the cursor over the result set. The one transition from open
    /// to closed; on an already closed handle it fails and performs
    /// nothing.
    pub fn close_cursor(&mut self) -> (r: Result<(), Error>)
        requires
            stmt_wf(old(self)@),
        ensures
            r == close_outcome(old(self)@),
            final(self)@ == close_step(old(self)@),
            stmt_wf(final(self)@),
    {
        if !self.open {
            return Err(Error::CursorClosed);
        }
        self.open = false;
        self.closes_performed = self.closes_performed + 1;
        Ok(())
    }

    /// Populate `column_description` with the description of the column at
    /// `column_number`: `0` describes the bookmark column, ordinary columns
    /// start at `1`. On failure the contents of `column_description` are
    /// unspecified and must not be relied upon.
    pub fn describe_col(
        &self,
        column_number: u16,
        column_description: &mut ColumnDescription,
    ) -> (r: Result<(), Error>)
        requires
            stmt_wf(self@),
        ensures
            r == (if !self@.open {
                Err::<(), Error>(Error::CursorClosed)
            } else if described_column(self@, column_number as int) is Some {
                Ok::<(), Error>(())
            } else {
                Err::<(), Error>(Error::InvalidColumnIndex)
            }),
            self@.open ==> (described_column(self@, column_number as int) matches Some(c)
                ==> final(column_description)@ == description_of(c)),
    {
        if !self.open {
            return Err(Error::CursorClosed);
        }
        if column_number == 0 {
            match &self.bookmark {
                Some(c) => {
                    column_description.name = c.name.clone();
                    column_description.nullability = c.nullability;
                    column_description.data_type = c.data_type;
                    column_description.column_size = c.column_size;
                    column_description.decimal_digits = c.decimal_digits;
                    Ok(())
                },
                None => Err(Error::InvalidColumnIndex),
            }
        } else if column_number as usize <= self.columns.len() {
            let c = &self.columns[column_number as usize - 1];
            column_description.name = c.name.clone();
            column_description.nullability = c.nullability;
            column_description.data_type = c.data_type;
            column_description.column_size = c.column_size;
            column_description.decimal_digits = c.decimal_digits;
            Ok(())
        } else {
            Err(Error::InvalidColumnIndex)
        }
    }

    /// Number of ordinary columns in the result set.
    pub fn num_result_cols(&self) -> (r: Result<i16, Error>)
        requires
            stmt_wf(self@),
        ensures
            r == (if self@.open {
                Ok::<i16, Error>(self@.columns.len() as i16)
            } else {
                Err::<i16, Error>(Error::CursorClosed)
            }),
    {
        if !self.open {
            return Err(Error::CursorClosed);
        }
        Ok(self.columns.len() as i16)
    }

    /// Retrieve the next row set of the result set.
    ///
    /// Returns `Ok(true)` while rows are retrieved and `Ok(false)` once the
    /// result set is exhausted — exhaustion is not an error, and every
    /// further fetch keeps returning `Ok(false)`. A binding registered for
    /// a column index beyond the column count is reported here, as an
    /// error, without consuming rows.
    pub fn fetch(&mut self) -> (r: Result<bool, Error>)
        requires
            stmt_wf(old(self)@),
        ensures
            r == fetch_outcome(old(self)@),
            final(self)@ == fetch_step(old(self)@),
            stmt_wf(final(self)@),
    {
        if !self.open {
            return Err(Error::CursorClosed);
        }
        let n_cols = self.columns.len();
        let n_bindings = self.bindings.len();
        let mut i: usize = 0;
        while i < n_bindings
            invariant
                *self == *old(self),
                stmt_wf(self@),
                self@.open,
                n_cols == self.columns.len(),
                n_bindings == self.bindings.len(),
                i <= n_bindings,
                forall|j: int| 0 <= j < i
                    ==> (#[trigger] self.bindings@[j]).column_number <= n_cols,
            decreases n_bindings - i,
        {
            if self.bindings[i].column_number as usize > n_cols {
                proof {
                    assert(self@.bindings[i as int].column_number > self@.columns.len());
                    assert(!bindings_in_range(self@));
                }
                return Err(Error::BoundColumnOutOfRange);
            }
            i = i + 1;
        }
        proof {
            assert(self@.columns.len() == n_cols);
            assert(bindings_in_range(self@));
        }
        let remaining = self.rows_total - self.rows_consumed;
        if remaining == 0 {
            if self.rows_fetched_bound {
                self.last_rows_fetched = 0;
            }
            return Ok(false);
        }
        let batch = if (self.row_array_size as u64) <= remaining {
            self.row_array_size as u64
        } else {
            remaining
        };
        self.rows_consumed = self.rows_consumed + batch;
        if self.rows_fetched_bound {
            self.last_rows_fetched = batch;
        }
        Ok(true)
    }

    /// Configure block fetching: one fetch retrieves up to `size` rows.
    /// Whoever registers bindings afterwards must make sure the bound
    /// buffers can hold that many rows.
    pub fn set_row_array_size(&mut self, size: u32) -> (r: Result<(), Error>)
        requires
            stmt_wf(old(self)@),
            size >= 1,
        ensures
            r == (if old(self)@.open {
                Ok::<(), Error>(())
            } else {
                Err::<(), Error>(Error::CursorClosed)
            }),
            final(self)@ == (if old(self)@.open {
                StatementModel { row_array_size: size as int, ..old(self)@ }
            } else {
                old(self)@
            }),
            stmt_wf(final(self)@),
    {
        if !self.open {
            return Err(Error::CursorClosed);
        }
        self.row_array_size = size;
        Ok(())
    }

    /// Register (`bind` true) or release (`bind` false) the rows-fetched
    /// target: while registered, the handle reports the number of rows of
    /// each retrieved row set, readable through
    /// [`Statement::num_rows_fetched`].
    pub fn set_num_rows_fetched(&mut self, bind: bool) -> (r: Result<(), Error>)
        requires
            stmt_wf(old(self)@),
        ensures
            r == (if old(self)@.open {
                Ok::<(), Error>(())
            } else {
                Err::<(), Error>(Error::CursorClosed)
            }),
            final(self)@ == (if old(self)@.open {
                StatementModel { rows_fetched_bound: bind, ..old(self)@ }
            } else {
                old(self)@
            }),
            stmt_wf(final(self)@),
    {
        if !self.open {
            return Err(Error::CursorClosed);
        }
        self.rows_fetched_bound = bind;
        Ok(())
    }

    /// Select the binding orientation for subsequently bound buffers: `0`
    /// selects columnar binding, any positive value selects row-major
    /// binding with that byte stride. Buffers bound afterwards must match
    /// the selected layout.
    pub fn set_row_bind_type(&mut self, row_size: u32) -> (r: Result<(), Error>)
        requires
            stmt_wf(old(self)@),
        ensures
            r == (if old(self)@.open {
                Ok::<(), Error>(())
            } else {
                Err::<(), Error>(Error::CursorClosed)
            }),
            final(self)@ == (if old(self)@.open {
                StatementModel { row_bind_type: row_size as int, ..old(self)@ }
            } else {
                old(self)@
            }),
            stmt_wf(final(self)@),
    {
        if !self.open {
            return Err(Error::CursorClosed);
        }
        self.row_bind_type = row_size;
        Ok(())
    }

    /// Release every ordinary column binding. The bookmark binding, if any,
    /// is left untouched, and nothing else of the handle changes.
    pub fn unbind_cols(&mut self) -> (r: Result<(), Error>)
        requires
            stmt_wf(old(self)@),
        ensures
            r == unbind_outcome(old(self)@),
            final(self)@ == unbind_step(old(self)@),
            stmt_wf(final(self)@),
    {
        if !self.open {
            return Err(Error::CursorClosed);
        }
        self.bindings = Vec::new();
        Ok(())
    }

    /// Register a binding of the column at `column_number` (`0` is the
    /// bookmark column) to the caller-owned buffer at address
    /// `target_value` with the indicator buffer at address `indicator`.
    ///
    /// An index beyond the column count is accepted here and reported by
    /// the next fetch. The buffers must stay valid and unmoved for as long
    /// as the binding exists; the handle only references them by address.
    pub fn bind_col(
        &mut self,
        column_number: u16,
        target_type: i16,
        target_value: usize,
        target_length: isize,
        indicator: usize,
    ) -> (r: Result<(), Error>)
        requires
            stmt_wf(old(self)@),
        ensures
            r == bind_outcome(old(self)@),
            final(self)@ == bind_step(
                old(self)@,
                (ColumnBinding { column_number, target_type, target_value, target_length, indicator }),
            ),
            stmt_wf(final(self)@),
    {
        if !self.open {
            return Err(Error::CursorClosed);
        }
        let binding = ColumnBinding { column_number, target_type, target_value, target_length, indicator };
        if column_number == 0 {
            self.bookmark_binding = Some(binding);
            return Ok(());
        }
        let n_bindings = self.bindings.len();
        let mut i: usize = 0;
        while i < n_bindings
            invariant
                *self == *old(self),
                stmt_wf(self@),
                self@.open,
                column_number != 0,
                n_bindings == self.bindings.len(),
                i <= n_bindings,
                binding == (ColumnBinding {
                    column_number,
                    target_type,
                    target_value,
                    target_length,
                    indicator,
                }),
                forall|j: int| 0 <= j < i
                    ==> (#[trigger] self.bindings@[j]).column_number != column_number,
            decreases n_bindings - i,
        {
            if self.bindings[i].column_number == column_number {
                proof {
                    let m = old(self)@;
                    assert(m.bindings[i as int].column_number == column_number);
                    assert(has_binding(m.bindings, column_number));
                    let j = binding_slot(m.bindings, column_number);
                    assert(0 <= j < m.bindings.len() && m.bindings[j].column_number == column_number);
                    if j != i as int {
                        assert(m.bindings[j].column_number != m.bindings[i as int].column_number);
                    }
                    assert(j == i as int);
                }
                self.bindings[i] = binding;
                proof {
                    assert(self@ =~= bind_step(old(self)@, binding));
                    assert forall|p: int, q: int| 0 <= p < q < self@.bindings.len() implies (
                        #[trigger] self@.bindings[p]).column_number != (
                        #[trigger] self@.bindings[q]).column_number by {
                        assert(old(self)@.bindings[p].column_number
                            != old(self)@.bindings[q].column_number);
                    }
                }
                return Ok(());
            }
            i = i + 1;
        }
        self.bindings.push(binding);
        proof {
            assert(!has_binding(old(self)@.bindings, column_number));
            assert(self@ =~= bind_step(old(self)@, binding));
        }
        Ok(())
    }

    /// `true` if the column at `column_number` (ordinary columns only,
    /// starting at `1`) is of an unsigned type or of a type that is not
    /// numeric at all.
    pub fn is_unsigned_column(&self, column_number: u16) -> (r: Result<bool, Error>)
        requires
            stmt_wf(self@),
        ensures
            r == (if !self@.open {
                Err::<bool, Error>(Error::CursorClosed)
            } else if column_in_range(self@, column_number as int) {
                Ok::<bool, Error>(self@.columns[column_number as int - 1].unsigned_or_not_numeric)
            } else {
                Err::<bool, Error>(Error::InvalidColumnIndex)
            }),
    {
        if !self.open {
            return Err(Error::CursorClosed);
        }
        if 1 <= column_number && column_number as usize <= self.columns.len() {
            Ok(self.columns[column_number as usize - 1].unsigned_or_not_numeric)
        } else {
            Err(Error::InvalidColumnIndex)
        }
    }

    /// Driver code of the SQL data type of the column at `column_number`
    /// (ordinary columns only, starting at `1`).
    pub fn col_data_type(&self, column_number: u16) -> (r: Result<i16, Error>)
        requires
            stmt_wf(self@),
        ensures
            r == (if !self@.open {
                Err::<i16, Error>(Error::CursorClosed)
            } else if column_in_range(self@, column_number as int) {
                Ok::<i16, Error>(self@.columns[column_number as int - 1].data_type)
            } else {
                Err::<i16, Error>(Error::InvalidColumnIndex)
            }),
    {
        if !self.open {
            return Err(Error::CursorClosed);
        }
        if 1 <= column_number && column_number as usize <= self.columns.len() {
            Ok(self.columns[column_number as usize - 1].data_type)
        } else {
            Err(Error::InvalidColumnIndex)
        }
    }

    /// Maximum size in bytes of a value of the column at `column_number`
    /// (ordinary columns only, starting at `1`), excluding any terminating
    /// zero.
    pub fn col_octet_length(&self, column_number: u16) -> (r: Result<isize, Error>)
        requires
            stmt_wf(self@),
        ensures
            r == (if !self@.open {
                Err::<isize, Error>(Error::CursorClosed)
            } else if column_in_range(self@, column_number as int) {
                Ok::<isize, Error>(self@.columns[column_number as int - 1].octet_length)
            } else {
                Err::<isize, Error>(Error::InvalidColumnIndex)
            }),
    {
        if !self.open {
            return Err(Error::CursorClosed);
        }
        if 1 <= column_number && column_number as usize <= self.columns.len() {
            Ok(self.columns[column_number as usize - 1].octet_length)
        } else {
            Err(Error::InvalidColumnIndex)
        }
    }

    /// Maximum number of characters required to display a value of the
    /// column at `column_number` (ordinary columns only, starting at `1`).
    pub fn col_display_size(&self, column_number: u16) -> (r: Result<isize, Error>)
        requires
            stmt_wf(self@),
        ensures
            r == (if !self@.open {
                Err::<isize, Error>(Error::CursorClosed)
            } else if column_in_range(self@, column_number as int) {
                Ok::<isize, Error>(self@.columns[column_number as int - 1].display_size)
            } else {
                Err::<isize, Error>(Error::InvalidColumnIndex)
            }),
    {
        if !self.open {
            return Err(Error::CursorClosed);
        }
        if 1 <= column_number && column_number as usize <= self.columns.len() {
            Ok(self.columns[column_number as usize - 1].display_size)
        } else {
            Err(Error::InvalidColumnIndex)
        }
    }

    /// The number of rows the last fetch retrieved, as reported through the
    /// rows-fetched target — `None` while no target is registered.
    pub fn num_rows_fetched(&self) -> (r: Option<u64>)
        ensures
            r == (if self@.rows_fetched_bound {
                Some(self@.last_rows_fetched as u64)
            } else {
                None::<u64>
            }),
    {
        if self.rows_fetched_bound {
            Some(self.last_rows_fetched)
        } else {
            None
        }
    }

    /// Whether the cursor over the result set is still open.
    pub fn is_open(&self) -> (r: bool)
        ensures
            r == self@.open,
    {
        self.open
    }

    /// How many times this handle has closed a cursor.
    pub fn close_count(&self) -> (r: u64)
        ensures
            r as int == self@.closes_performed,
    {
        self.closes_performed
    }

    /// How many ordinary columns currently carry a binding — with one
    /// binding per column, one for each bound column.
    pub fn bound_column_count(&self) -> (r: usize)
        ensures
            r == self@.bindings.len(),
    {
        self.bindings.len()
    }

    /// Whether a binding of the bookmark column is registered.
    pub fn has_bookmark_binding(&self) -> (r: bool)
        ensures
            r == (self@.bookmark_binding is Some),
    {
        self.bookmark_binding.is_some()
    }
}

} // verus!
