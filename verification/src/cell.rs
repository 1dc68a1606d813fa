use vstd::prelude::*;

verus! {

/// A single persistent value, owned exclusively by the execution unit.
///
/// Its committed value changes only through [`StateCell::commit`], which only
/// the execution unit's commit path may call, so outside an in-flight call
/// the cell always holds the value established by the most recent
/// successfully committed operation.
pub struct StateCell {
    value: bool,
}

impl View for StateCell {
    type V = bool;

    closed spec fn view(&self) -> bool {
        self.value
    }
}

impl StateCell {
    /// Creates a cell whose first committed value is `init`.
    pub fn new(init: bool) -> (cell: StateCell)
        ensures
            cell@ == init,
    {
        StateCell { value: init }
    }

    /// Returns the current committed value; never fails and has no side
    /// effects.
    pub fn read(&self) -> (value: bool)
        ensures
            value == self@,
    {
        self.value
    }

    /// Replaces the committed value. This is the only way the cell's value
    /// may change.
    pub(crate) fn commit(&mut self, value: bool)
        ensures
            final(self)@ == value,
    {
        self.value = value;
    }
}

} // verus!
