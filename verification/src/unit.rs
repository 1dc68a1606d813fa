use vstd::prelude::*;

use crate::cell::StateCell;
use crate::outcome::FlipError;
use crate::outcome::Outcome;

verus! {

/// The execution unit: sole owner of a [`StateCell`], enforcing that a
/// call's mutation becomes durable if and only if that same call reports
/// success.
pub struct UnitTestBug {
    cell: StateCell,
}

impl View for UnitTestBug {
    type V = bool;

    closed spec fn view(&self) -> bool {
        self.cell@
    }
}

/// The all-or-nothing commit rule that relates one call's pieces: the
/// committed value before the call (`pre`), the candidate next value the
/// call computed, the outcome it decided on, the committed value after the
/// call (`post`), and the outcome returned to the caller.
///
/// On a success decision the candidate is committed and reported; on a
/// failure decision nothing is committed and the failure is returned as-is.
pub open spec fn commit_rule(
    pre: bool,
    candidate: bool,
    decided: Outcome,
    post: bool,
    returned: Outcome,
) -> bool {
    match decided {
        Outcome::Success(_) => post == candidate && returned == Outcome::Success(candidate),
        Outcome::Failure(e) => post == pre && returned == Outcome::Failure(e),
    }
}

/// Atomicity: whenever the commit rule relates a call's pre- and post-state
/// and the call returned a failure, the committed value after the call is
/// the committed value before it — a failed call is invisible to every later
/// read.
pub proof fn lemma_failure_rolls_back(
    pre: bool,
    candidate: bool,
    decided: Outcome,
    post: bool,
    returned: Outcome,
    e: FlipError,
)
    requires
        commit_rule(pre, candidate, decided, post, returned),
        returned == Outcome::Failure(e),
    ensures
        post == pre,
{
}

/// Commit: whenever the commit rule relates a call's pre- and post-state and
/// the call returned `Success(v)`, the committed value after the call is `v`,
/// so a read after the call returns `v`.
pub proof fn lemma_success_commits(
    pre: bool,
    candidate: bool,
    decided: Outcome,
    post: bool,
    returned: Outcome,
    v: bool,
)
    requires
        commit_rule(pre, candidate, decided, post, returned),
        returned == Outcome::Success(v),
    ensures
        post == v,
{
}

/// Idempotence of read: [`UnitTestBug::get`] returns the committed value and
/// takes the unit by shared reference, so two reads with no mutating call
/// between them return the same value.
pub proof fn lemma_read_idempotent(unit: UnitTestBug, first: bool, second: bool)
    requires
        first == unit@,
        second == unit@,
    ensures
        first == second,
{
}

impl UnitTestBug {
    /// Constructor that initializes the stored `bool` value to the given
    /// `init_value`.
    pub fn new(init_value: bool) -> (unit: UnitTestBug)
        ensures
            unit@ == init_value,
    {
        UnitTestBug { cell: StateCell::new(init_value) }
    }

    /// Constructor that initializes the stored `bool` value to `false`, the
    /// value type's default.
    pub fn default() -> (unit: UnitTestBug)
        ensures
            unit@ == false,
    {
        UnitTestBug::new(false)
    }

    /// Simply returns the current committed value; never fails and has no
    /// side effects.
    pub fn get(&self) -> (value: bool)
        ensures
            value == self@,
    {
        self.cell.read()
    }

    /// The atomicity primitive. `op` computes, from the current committed
    /// value, a candidate next value and the call's outcome. The candidate
    /// is committed if and only if the outcome is a success, in which case
    /// the committed candidate is reported back; on a failure the cell keeps
    /// its prior value and the failure is returned as-is.
    pub fn try_mutate<F: FnOnce(bool) -> (bool, Outcome)>(&mut self, op: F) -> (returned: Outcome)
        requires
            call_requires(op, (old(self)@,)),
        ensures
            exists|candidate: bool, decided: Outcome|
                #[trigger] call_ensures(op, (old(self)@,), (candidate, decided))
                    && commit_rule(old(self)@, candidate, decided, final(self)@, returned),
    {
        let current = self.cell.read();
        let (candidate, decided) = op(current);
        match decided {
            Outcome::Success(_) => {
                self.cell.commit(candidate);
                Outcome::Success(candidate)
            },
            Outcome::Failure(e) => Outcome::Failure(e),
        }
    }

    /// A message that computes the negation of the stored `bool` as its
    /// candidate next value but always decides on failure: the caller
    /// observes `Err(FlipError)` and the stored value stays unchanged, as if
    /// the call had never happened.
    pub fn flip_with_error(&mut self) -> (result: Result<(), FlipError>)
        ensures
            result == Err::<(), FlipError>(FlipError::FlipError),
            final(self)@ == old(self)@,
    {
        let op = |value: bool| -> (pair: (bool, Outcome))
            ensures
                pair == (!value, Outcome::Failure(FlipError::FlipError)),
            {
                (!value, Outcome::Failure(FlipError::FlipError))
            };
        let returned = self.try_mutate(op);
        match returned {
            Outcome::Success(_) => Ok(()),
            Outcome::Failure(e) => Err(e),
        }
    }
}

} // verus!
