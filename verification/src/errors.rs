use vstd::prelude::*;

verus! {

/// The failures the library itself decides on.
#[derive(Clone, Copy, Debug, PartialEq, Eq, Structural)]
pub enum ReminderError {
    /// The recurrence engine rejected a schedule expression.
    ScheduleParse,
    /// A removal index that names no position in the store.
    IndexOutOfRange,
}

} // verus!
