//! Cells that are written at most once.

use once_cell::sync::OnceCell;
use vstd::prelude::*;

verus! {

#[verifier::external_type_specification]
#[verifier::external_body]
#[verifier::reject_recursive_types(T)]
pub struct ExOnceCell<T>(once_cell::sync::OnceCell<T>);

/// What a cell holds over its whole life: nothing, or the one value that
/// was written to it. A cell is written at most once, so this does not
/// change when the cell is written; it is then known.
pub uninterp spec fn cell_contents(cell: OnceCell<u64>) -> Seq<u64>;

/// A cell that has not been written yet.
///
/// Trusted: `OnceCell::new` of once_cell, which creates an empty cell.
/// Nothing is claimed of it: whether it will be written is not known yet.
#[verifier::external_body]
pub(crate) fn cell_new() -> (cell: OnceCell<u64>) {
    OnceCell::new()
}

/// The value of a cell, if it has been written.
///
/// Trusted: `OnceCell::get` of once_cell, which returns the value of the
/// cell, or `None` while the cell is empty. A value that it returns is the
/// one value of the cell.
#[verifier::external_body]
pub(crate) fn cell_get(cell: &OnceCell<u64>) -> (value: Option<u64>)
    ensures
        value matches Some(v) ==> cell_contents(*cell) == seq![v],
{
    cell.get().copied()
}

/// Writes a cell, unless it has been written, and reads it.
///
/// Trusted: `OnceCell::try_insert` of once_cell, which writes the value if
/// the cell is empty, and returns the value that the cell holds after the
/// call: in `Ok` the one that was just written, in `Err` the one that the
/// cell held already. The result is that value, and whether this call wrote
/// it.
#[verifier::external_body]
pub(crate) fn cell_try_insert(cell: &OnceCell<u64>, value: u64) -> (r: (u64, bool))
    ensures
        cell_contents(*cell) == seq![r.0],
        r.1 ==> r.0 == value,
{
    match cell.try_insert(value) {
        Ok(held) => (*held, true),
        Err((held, _)) => (*held, false),
    }
}

} // verus!
