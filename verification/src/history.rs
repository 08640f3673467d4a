//! The operation log: which kind of run a history record came from, which
//! records an undo or a redo may pick from, and the hint printed after a
//! run.  The log itself lives on disk and is read and written by the
//! runtime.

use vstd::prelude::*;

verus! {

/// How a recorded run came about.
#[derive(Debug, Clone, Copy, PartialEq, Eq, Structural)]
pub enum Operation {
    /// The run undid an earlier one.
    Undo,
    /// The run redid an undone one.
    Redo,
    /// An ordinary run.
    Other,
}

/// Whether a record with operation `op` is offered for selection: undoing
/// picks from ordinary and redone runs, redoing picks from undone ones.
pub fn selectable(op: &Operation, is_undo: bool) -> (r: bool)
    ensures
        is_undo ==> r == (op is Other || op is Redo),
        !is_undo ==> r == (op is Undo),
{
    if is_undo {
        matches!(op, Operation::Other | Operation::Redo)
    } else {
        matches!(op, Operation::Undo)
    }
}

/// The action the user may take next, named after what was just logged:
/// an undone run can be redone, anything else can be undone.
pub fn undo_or_redo_hint(op: &Operation) -> (r: &'static str)
    ensures
        op is Undo ==> r@ == "redo"@,
        !(op is Undo) ==> r@ == "undo"@,
{
    match op {
        Operation::Undo => "redo",
        Operation::Redo => "undo",
        Operation::Other => "undo",
    }
}

} // verus!
