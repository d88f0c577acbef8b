//! Result-set traversal for a database-connectivity binding.
//!
//! This crate is the cursor core of a driver binding: it owns the lifecycle
//! of a query cursor over a statement handle, the registration of column
//! output buffers, and the fetch loop that pulls rows — one at a time or in
//! row sets — until the result set is exhausted.
//!
//! The statement handle itself is a collaborator with a narrow interface:
//! close the cursor, describe and count columns, fetch, and register column
//! bindings. [`statement::Statement`] realises that interface over a
//! described result set and a ghost model, [`statement::StatementModel`],
//! against which every operation of the crate is specified. The cursor layer
//! on top — [`cursor::Cursor`], the [`cursor::RowSetBuffer`] capability and
//! [`cursor::RowSetCursor`] — orchestrates the handle and is verified to
//! follow the protocol: bindings beyond the column count surface as fetch
//! errors, unbinding spares the bookmark column, exhaustion is stable, and a
//! cursor is closed exactly once.

pub mod column;
pub mod cursor;
pub mod error;
pub mod laws;
pub mod statement;
