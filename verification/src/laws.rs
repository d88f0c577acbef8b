//! The laws of the traversal protocol, proved over the statement model.
//!
//! Each law quantifies over every well-formed handle state, so it covers
//! every sequence of calls that can reach such a state; the `*_step` and
//! `*_outcome` functions it speaks of are the very ones the executable
//! operations are specified against.

use vstd::prelude::*;

use crate::cursor::binding_preserves;
use crate::error::Error;
use crate::statement::{
    bind_step, binding_slot, bindings_in_range, close_outcome, close_step, column_in_range,
    fetch_outcome, fetch_step, has_binding, rows_remaining, stmt_wf, unbind_outcome, unbind_step,
    ColumnBinding, StatementModel,
};

verus! {

/// Exhaustion is stable: on any open, well-formed handle whose bindings are
/// within range and whose result set is used up, a fetch reports "no row"
/// without error, and leaves the handle exhausted in the same way — so
/// every later fetch reports "no row" without error again.
pub proof fn lemma_fetch_exhausted_idempotent(m: StatementModel)
    requires
        stmt_wf(m),
        m.open,
        bindings_in_range(m),
        rows_remaining(m) == 0,
    ensures
        fetch_outcome(m) == Ok::<bool, Error>(false),
        stmt_wf(fetch_step(m)),
        fetch_step(m).open,
        bindings_in_range(fetch_step(m)),
        rows_remaining(fetch_step(m)) == 0,
        fetch_outcome(fetch_step(m)) == Ok::<bool, Error>(false),
        fetch_step(fetch_step(m)) == fetch_step(m),
{
    assert(fetch_step(fetch_step(m)) =~= fetch_step(m));
}

/// Binding a row-set buffer and tearing the pairing down again, with no
/// fetch in between, leaves the cursor where it started: open, without any
/// ordinary column binding, its columns and its position untouched — so
/// the column count and every other metadata query answer as before.
///
/// `m0` is the handle's state when the buffer was bound, `m1` the state the
/// buffer's binding step left behind.
pub proof fn lemma_teardown_leaves_cursor_usable(m0: StatementModel, m1: StatementModel)
    requires
        stmt_wf(m0),
        m0.open,
        stmt_wf(m1),
        binding_preserves(m0, m1),
    ensures
        unbind_outcome(m1) == Ok::<(), Error>(()),
        stmt_wf(unbind_step(m1)),
        unbind_step(m1).open,
        unbind_step(m1).bindings == Seq::<ColumnBinding>::empty(),
        unbind_step(m1).columns == m0.columns,
        unbind_step(m1).bookmark == m0.bookmark,
        unbind_step(m1).rows_consumed == m0.rows_consumed,
        forall|n: int| column_in_range(unbind_step(m1), n) == column_in_range(m0, n),
{
}

/// A bookmark binding never conflicts with releasing the column bindings:
/// binding column index `0` and then unbinding all columns removes every
/// ordinary binding and leaves the bookmark binding exactly as it was
/// registered; and on any state at all, unbinding keeps the bookmark
/// binding untouched.
pub proof fn lemma_unbind_spares_bookmark(m: StatementModel, b: ColumnBinding)
    requires
        m.open,
        b.column_number == 0,
    ensures
        bind_step(m, b).bookmark_binding == Some(b),
        unbind_step(bind_step(m, b)).bookmark_binding == Some(b),
        unbind_step(bind_step(m, b)).bindings == Seq::<ColumnBinding>::empty(),
        unbind_step(m).bookmark_binding == m.bookmark_binding,
{
}

/// Rebinding replaces: a column carries at most one binding. Registering a
/// binding for an ordinary column that is already bound leaves the number
/// of registered bindings unchanged and makes the new binding the one
/// registered for that column; binding a column for the first time adds
/// one.
pub proof fn lemma_rebind_replaces(m: StatementModel, b: ColumnBinding)
    requires
        stmt_wf(m),
        m.open,
        b.column_number >= 1,
    ensures
        has_binding(m.bindings, b.column_number)
            ==> bind_step(m, b).bindings.len() == m.bindings.len(),
        !has_binding(m.bindings, b.column_number)
            ==> bind_step(m, b).bindings.len() == m.bindings.len() + 1,
        has_binding(bind_step(m, b).bindings, b.column_number),
        bind_step(m, b).bindings[binding_slot(bind_step(m, b).bindings, b.column_number)] == b,
{
    let s2 = bind_step(m, b).bindings;
    if has_binding(m.bindings, b.column_number) {
        let j = binding_slot(m.bindings, b.column_number);
        assert(0 <= j < m.bindings.len() && m.bindings[j].column_number == b.column_number);
        assert(s2[j].column_number == b.column_number);
        let k = binding_slot(s2, b.column_number);
        assert(0 <= k < s2.len() && s2[k].column_number == b.column_number);
        if k != j {
            assert(m.bindings[k].column_number == b.column_number);
            assert(m.bindings[j].column_number != m.bindings[k].column_number);
        }
        assert(s2[k] == b);
    } else {
        let j = m.bindings.len() as int;
        assert(s2[j].column_number == b.column_number);
        let k = binding_slot(s2, b.column_number);
        assert(0 <= k < s2.len() && s2[k].column_number == b.column_number);
        if k != j {
            assert(m.bindings[k].column_number == b.column_number);
            assert(has_binding(m.bindings, b.column_number));
        }
        assert(s2[k] == b);
    }
}

/// Closing an open cursor succeeds and issues exactly one close to the
/// handle: the count of performed closes goes from zero to one, the closed
/// state is terminal, and a repeated close is refused without doing
/// anything.
pub proof fn lemma_close_exactly_once(m: StatementModel)
    requires
        stmt_wf(m),
        m.open,
    ensures
        close_outcome(m) == Ok::<(), Error>(()),
        m.closes_performed == 0,
        close_step(m).closes_performed == 1,
        !close_step(m).open,
        close_outcome(close_step(m)) == Err::<(), Error>(Error::CursorClosed),
        close_step(close_step(m)) == close_step(m),
{
}

} // verus!
