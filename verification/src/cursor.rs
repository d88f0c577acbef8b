//! The cursor layer: ownership of one open result set, raw column binding,
//! and the scoped row-set fetch loop.

use vstd::prelude::*;

use crate::column::{description_of, ColumnDescription};
use crate::error::Error;
use crate::statement::{
    bind_step, close_step, column_in_range, described_column, fetch_outcome, fetch_step, stmt_wf,
    unbind_step, ColumnBinding, Statement, StatementModel,
};

verus! {

/// A cursor over an open result set.
///
/// A cursor owns its statement handle exclusively for as long as it exists,
/// and holds the handle's cursor open: the one way out of that state is
/// [`Cursor::close`], which consumes the cursor, closes the handle's cursor
/// exactly once and hands the handle back.
pub struct Cursor {
    statement: Statement,
}

impl View for Cursor {
    type V = StatementModel;

    closed spec fn view(&self) -> StatementModel {
        self.statement@
    }
}

impl Cursor {
    /// The cursor's invariant: its handle is well formed and its result set
    /// is open. Construction establishes it, every operation but
    /// [`Cursor::close`] preserves it.
    pub open spec fn inv(&self) -> bool {
        stmt_wf(self@) && self@.open
    }

    /// Wrap a statement handle whose result set is open.
    pub fn new(statement: Statement) -> (r: Cursor)
        requires
            stmt_wf(statement@),
            statement@.open,
        ensures
            r@ == statement@,
            r.inv(),
    {
        Cursor { statement }
    }

    /// Fetch a column description using the column index.
    ///
    /// `column_number` `0` denotes the bookmark column, which some result
    /// sets do not have; ordinary columns start at `1`. This method does not
    /// provide strong exception safety: on failure the contents of
    /// `column_description` are unspecified, and a caller must not rely on
    /// them.
    pub fn describe_col(
        &self,
        column_number: u16,
        column_description: &mut ColumnDescription,
    ) -> (r: Result<(), Error>)
        requires
            self.inv(),
        ensures
            r == (if described_column(self@, column_number as int) is Some {
                Ok::<(), Error>(())
            } else {
                Err::<(), Error>(Error::InvalidColumnIndex)
            }),
            described_column(self@, column_number as int) matches Some(c)
                ==> final(column_description)@ == description_of(c),
    {
        self.statement.describe_col(column_number, column_description)
    }

    /// Number of columns in the result set.
    pub fn num_result_cols(&self) -> (r: Result<i16, Error>)
        requires
            self.inv(),
        ensures
            r == Ok::<i16, Error>(self@.columns.len() as i16),
    {
        self.statement.num_result_cols()
    }

    /// Returns whether the next row — or, with a row-set size above one,
    /// the next row set — was retrieved into the bound buffers.
    ///
    /// `Ok(false)` signals the end of the result set, not an error, and
    /// every further fetch returns `Ok(false)` again. A binding registered
    /// beyond the result set's column count surfaces here as
    /// [`Error::BoundColumnOutOfRange`].
    pub fn fetch(&mut self) -> (r: Result<bool, Error>)
        requires
            old(self).inv(),
        ensures
            r == fetch_outcome(old(self)@),
            final(self)@ == fetch_step(old(self)@),
            final(self).inv(),
    {
        self.statement.fetch()
    }

    /// Sets the row-set size for block cursors: one fetch retrieves up to
    /// `size` rows. Buffers bound through [`Cursor::bind_col`] must be able
    /// to hold that many rows.
    pub fn set_row_array_size(&mut self, size: u32) -> (r: Result<(), Error>)
        requires
            old(self).inv(),
            size >= 1,
        ensures
            r == Ok::<(), Error>(()),
            final(self)@ == (StatementModel { row_array_size: size as int, ..old(self)@ }),
            final(self).inv(),
    {
        self.statement.set_row_array_size(size)
    }

    /// Register (`bind` true) or release (`bind` false) the rows-fetched
    /// target, into which the handle writes the number of rows each fetch
    /// retrieved; [`Cursor::num_rows_fetched`] reads it back.
    pub fn set_num_rows_fetched(&mut self, bind: bool) -> (r: Result<(), Error>)
        requires
            old(self).inv(),
        ensures
            r == Ok::<(), Error>(()),
            final(self)@ == (StatementModel { rows_fetched_bound: bind, ..old(self)@ }),
            final(self).inv(),
    {
        self.statement.set_num_rows_fetched(bind)
    }

    /// Sets the binding orientation for subsequently bound buffers: any
    /// positive number selects row-major binding with that byte stride, `0`
    /// selects columnar binding. Bound buffers must match the selected
    /// layout.
    pub fn set_row_bind_type(&mut self, row_size: u32) -> (r: Result<(), Error>)
        requires
            old(self).inv(),
        ensures
            r == Ok::<(), Error>(()),
            final(self)@ == (StatementModel { row_bind_type: row_size as int, ..old(self)@ }),
            final(self).inv(),
    {
        self.statement.set_row_bind_type(row_size)
    }

    /// Release every column buffer bound by [`Cursor::bind_col`], except a
    /// bookmark binding, which stays untouched. Nothing else of the cursor
    /// changes: metadata queries and fetches work as before.
    pub fn unbind_cols(&mut self) -> (r: Result<(), Error>)
        requires
            old(self).inv(),
        ensures
            r == Ok::<(), Error>(()),
            final(self)@ == unbind_step(old(self)@),
            final(self).inv(),
    {
        self.statement.unbind_cols()
    }

    /// Binds an application buffer, given by address, to a column of the
    /// result set.
    ///
    /// `column_number` `0` is the bookmark column; ordinary columns start at
    /// `1`. Binding an index beyond the column count is not detected here —
    /// the result set decides, so the error comes from a later
    /// [`Cursor::fetch`]. The buffers at `target_value` and `indicator`
    /// must stay valid and unmoved for as long as they remain bound; the
    /// cursor references them, it never owns them.
    pub fn bind_col(
        &mut self,
        column_number: u16,
        target_type: i16,
        target_value: usize,
        target_length: isize,
        indicator: usize,
    ) -> (r: Result<(), Error>)
        requires
            old(self).inv(),
        ensures
            r == Ok::<(), Error>(()),
            final(self)@ == bind_step(
                old(self)@,
                (ColumnBinding { column_number, target_type, target_value, target_length, indicator }),
            ),
            final(self).inv(),
    {
        self.statement.bind_col(column_number, target_type, target_value, target_length, indicator)
    }

    /// `true` if the given column of the result set is unsigned or not a
    /// numeric type, `false` otherwise.
    ///
    /// `column_number`: index of the column, starting at `1`.
    pub fn is_unsigned_column(&self, column_number: u16) -> (r: Result<bool, Error>)
        requires
            self.inv(),
        ensures
            r == (if column_in_range(self@, column_number as int) {
                Ok::<bool, Error>(self@.columns[column_number as int - 1].unsigned_or_not_numeric)
            } else {
                Err::<bool, Error>(Error::InvalidColumnIndex)
            }),
    {
        self.statement.is_unsigned_column(column_number)
    }

    /// Binds this cursor to a buffer holding a row set: the buffer
    /// registers its column bindings, and the pair is returned as a
    /// [`RowSetCursor`] that owns both for the duration of the fetch loop.
    ///
    /// If the buffer fails to bind itself, cursor and buffer are handed
    /// back beside the error.
    pub fn bind_row_set_buffer<B: RowSetBuffer>(self, row_set_buffer: B) -> (r: Result<
        RowSetCursor<B>,
        (Cursor, B, Error),
    >)
        requires
            self.inv(),
        ensures
            r matches Ok(rsc) ==> rsc.inv() && binding_preserves(self@, rsc.cursor_model()),
            r matches Err(t) ==> t.0.inv() && binding_preserves(self@, t.0@),
    {
        let mut cursor = self;
        let mut buffer = row_set_buffer;
        match buffer.bind_to_cursor(&mut cursor) {
            Ok(()) => Ok(RowSetCursor::new(buffer, cursor)),
            Err(e) => Err((cursor, buffer, e)),
        }
    }

    /// Driver code of the SQL data type of a column.
    ///
    /// `column_number`: index of the column, starting at `1`.
    pub fn col_data_type(&self, column_number: u16) -> (r: Result<i16, Error>)
        requires
            self.inv(),
        ensures
            r == (if column_in_range(self@, column_number as int) {
                Ok::<i16, Error>(self@.columns[column_number as int - 1].data_type)
            } else {
                Err::<i16, Error>(Error::InvalidColumnIndex)
            }),
    {
        self.statement.col_data_type(column_number)
    }

    /// Returns the size in bytes of a column's values. For variable sized
    /// types the maximum size is returned, excluding a terminating zero.
    ///
    /// `column_number`: index of the column, starting at `1`.
    pub fn col_octet_length(&self, column_number: u16) -> (r: Result<isize, Error>)
        requires
            self.inv(),
        ensures
            r == (if column_in_range(self@, column_number as int) {
                Ok::<isize, Error>(self@.columns[column_number as int - 1].octet_length)
            } else {
                Err::<isize, Error>(Error::InvalidColumnIndex)
            }),
    {
        self.statement.col_octet_length(column_number)
    }

    /// Maximum number of characters required to display data from the
    /// column.
    ///
    /// `column_number`: index of the column, starting at `1`.
    pub fn col_display_size(&self, column_number: u16) -> (r: Result<isize, Error>)
        requires
            self.inv(),
        ensures
            r == (if column_in_range(self@, column_number as int) {
                Ok::<isize, Error>(self@.columns[column_number as int - 1].display_size)
            } else {
                Err::<isize, Error>(Error::InvalidColumnIndex)
            }),
    {
        self.statement.col_display_size(column_number)
    }

    /// The number of rows the last fetch retrieved, read from the
    /// rows-fetched target — `None` while no target is registered.
    pub fn num_rows_fetched(&self) -> (r: Option<u64>)
        ensures
            r == (if self@.rows_fetched_bound {
                Some(self@.last_rows_fetched as u64)
            } else {
                None::<u64>
            }),
    {
        self.statement.num_rows_fetched()
    }

    /// How many ordinary column bindings are registered on this cursor.
    pub fn bound_column_count(&self) -> (r: usize)
        ensures
            r == self@.bindings.len(),
    {
        self.statement.bound_column_count()
    }

    /// Whether a binding of the bookmark column is registered.
    pub fn has_bookmark_binding(&self) -> (r: bool)
        ensures
            r == (self@.bookmark_binding is Some),
    {
        self.statement.has_bookmark_binding()
    }

    /// Close the result set and hand the statement handle back.
    ///
    /// This is the cursor's end of life: it performs the one transition
    /// from open to closed, issuing exactly one close-cursor call to the
    /// handle, which cannot fail on a cursor that still holds its
    /// invariant.
    pub fn close(self) -> (r: Statement)
        requires
            self.inv(),
        ensures
            r@ == close_step(self@),
            r@.closes_performed == self@.closes_performed + 1,
            !r@.open,
            stmt_wf(r@),
    {
        let mut statement = self.statement;
        let res = statement.close_cursor();
        proof {
            assert(res is Ok);
        }
        statement
    }
}

/// What binding a row-set buffer leaves of a cursor: whichever bindings and
/// fetch configuration the buffer registered, the result set itself — its
/// columns, its rows, its position and its open state — is not touched.
pub open spec fn binding_preserves(m0: StatementModel, m1: StatementModel) -> bool {
    &&& m1.open == m0.open
    &&& m1.bookmark == m0.bookmark
    &&& m1.columns == m0.columns
    &&& m1.rows_total == m0.rows_total
    &&& m1.rows_consumed == m0.rows_consumed
    &&& m1.closes_performed == m0.closes_performed
}

/// The capability a row-storage type needs so a cursor can fetch into it.
///
/// Implementors own their backing storage — columnar or row-major — and
/// register it with the cursor by address, through
/// [`Cursor::bind_col`] and the row-set configuration calls. They carry the
/// responsibility that comes with that: the storage must stay valid and
/// unmoved for as long as the bindings persist, and it must be large enough
/// for the row-set size they configure.
pub trait RowSetBuffer {
    /// Register all of this buffer's column bindings with the cursor.
    ///
    /// Whatever bindings the implementation registers, it must leave the
    /// result set itself alone: no fetching, no closing — that is what
    /// [`binding_preserves`] pins down.
    fn bind_to_cursor(&mut self, cursor: &mut Cursor) -> (r: Result<(), Error>)
        requires
            old(cursor).inv(),
        ensures
            final(cursor).inv(),
            binding_preserves(old(cursor)@, final(cursor)@),
    ;
}

/// A scoped pairing of a [`Cursor`] and a bound [`RowSetBuffer`]: it owns
/// both, so no second fetch loop can reach the cursor while it exists, and
/// its teardown — [`RowSetCursor::unbind`] — always releases the column
/// bindings before handing the parts back.
pub struct RowSetCursor<B> {
    buffer: B,
    cursor: Cursor,
}

impl<B> RowSetCursor<B> {
    /// The state of the underlying cursor's statement handle.
    pub closed spec fn cursor_model(&self) -> StatementModel {
        self.cursor@
    }

    /// The row-set buffer the cursor fetches into.
    pub closed spec fn spec_buffer(&self) -> B {
        self.buffer
    }

    /// The pairing's invariant: the underlying cursor holds its own.
    pub open spec fn inv(&self) -> bool {
        stmt_wf(self.cursor_model()) && self.cursor_model().open
    }

    /// Pair a bound buffer with the cursor it is bound to.
    pub fn new(buffer: B, cursor: Cursor) -> (r: Self)
        requires
            cursor.inv(),
        ensures
            r.cursor_model() == cursor@,
            r.spec_buffer() == buffer,
            r.inv(),
    {
        RowSetCursor { buffer, cursor }
    }

    /// Fetch the next row set into the buffer.
    ///
    /// Returns a reference to the freshly filled buffer, or `None` once the
    /// result set is exhausted. The same buffer is reused and overwritten
    /// by every call, so the reference must not be kept across the next
    /// fetch — the borrow checker enforces as much.
    pub fn fetch(&mut self) -> (r: Result<Option<&B>, Error>)
        requires
            old(self).inv(),
        ensures
            final(self).inv(),
            final(self).cursor_model() == fetch_step(old(self).cursor_model()),
            final(self).spec_buffer() == old(self).spec_buffer(),
            (match fetch_outcome(old(self).cursor_model()) {
                Ok(got_rows) => (if got_rows {
                    r matches Ok(Some(b)) && *b == final(self).spec_buffer()
                } else {
                    r matches Ok(None)
                }),
                Err(e) => r == Err::<Option<&B>, Error>(e),
            }),
    {
        match self.cursor.fetch() {
            Ok(true) => Ok(Some(&self.buffer)),
            Ok(false) => Ok(None),
            Err(e) => Err(e),
        }
    }

    /// A shared view of the underlying cursor, for metadata queries during
    /// the fetch loop.
    pub fn cursor(&self) -> (r: &Cursor)
        ensures
            r@ == self.cursor_model(),
    {
        &self.cursor
    }

    /// Tear the pairing down: release every ordinary column binding from
    /// the cursor — the teardown that must happen however the fetch loop
    /// ended — and hand cursor and buffer back. The cursor stays open and
    /// usable; only its column bindings are gone.
    pub fn unbind(self) -> (r: (Cursor, B))
        requires
            self.inv(),
        ensures
            r.0@ == unbind_step(self.cursor_model()),
            r.0.inv(),
            r.0@.bindings == Seq::<ColumnBinding>::empty(),
            r.1 == self.spec_buffer(),
    {
        let RowSetCursor { buffer, mut cursor } = self;
        let res = cursor.unbind_cols();
        proof {
            assert(res is Ok);
        }
        (cursor, buffer)
    }
}

} // verus!
