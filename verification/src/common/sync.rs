//! One-time initialization that is safe under true parallelism.

use vstd::prelude::*;
use spin::Once;

verus! {

/// `spin::relax::Spin`, the way in which a waiting core passes its time.
/// It holds nothing.
#[verifier::external_type_specification]
#[verifier::external_body]
pub struct ExSpin(spin::relax::Spin);

/// `spin::once::Once`, a cell that is filled once. What it holds depends on
/// what the other cores have done, so nothing is claimed of it.
#[verifier::external_type_specification]
#[verifier::external_body]
#[verifier::reject_recursive_types(T)]
#[verifier::reject_recursive_types(R)]
pub struct ExOnce<T, R>(spin::once::Once<T, R>);

/// `Once::new`: a cell that holds nothing yet.
#[verifier::external_body]
fn once_new<T>() -> Once<T> {
    Once::new()
}

/// `Once::call_once`: runs `f` unless an initialization has completed or is
/// running on another core, waits for the one that runs, and hands out the
/// value that the cell then holds. Which closure made that value is not said.
/// The call panics if an earlier closure panicked; the closures that this
/// library hands in do not.
#[verifier::external_body]
fn once_call<T, F: FnOnce() -> T>(cell: &Once<T>, f: F) -> &T
    requires
        f.requires(()),
{
    cell.call_once(f)
}

/// `Once::try_call_once`: as `call_once`, but a closure that fails leaves the
/// cell as it was and its error comes back.
#[verifier::external_body]
fn once_try_call<T, F: FnOnce() -> Result<T, ()>>(cell: &Once<T>, f: F) -> Result<&T, ()>
    requires
        f.requires(()),
{
    cell.try_call_once(f)
}

/// `Once::get`: the value of a cell that some initialization has completed.
#[verifier::external_body]
fn once_get<T>(cell: &Once<T>) -> Option<&T> {
    cell.get()
}

/// `Once::is_completed`: whether some initialization has completed.
#[verifier::external_body]
fn once_is_completed<T>(cell: &Once<T>) -> bool {
    cell.is_completed()
}

/// A value that is made once, by whichever core comes first, and is read-only
/// from then on.
#[verifier::reject_recursive_types(T)]
pub struct InitOnce<T> {
    cell: Once<T>,
}

impl<T> InitOnce<T> {
    /// A cell that waits for its value.
    pub fn new() -> Self {
        InitOnce { cell: once_new() }
    }

    /// Makes the value with `f` unless it has been made or is being made;
    /// returns the value that the cell holds once that is done. `f` must not
    /// panic: a cell whose value could not be made is of no use any more.
    pub fn initialize<F: FnOnce() -> T>(&self, f: F) -> &T
        requires
            f.requires(()),
    {
        once_call(&self.cell, f)
    }

    /// Similar to `initialize` but allows the closure to fail, leaving the
    /// cell without a value for a later attempt.
    pub fn try_initialize<F: FnOnce() -> Result<T, ()>>(&self, f: F) -> Result<&T, ()>
        requires
            f.requires(()),
    {
        once_try_call(&self.cell, f)
    }

    /// The value, if it has been made.
    pub fn get(&self) -> Option<&T> {
        once_get(&self.cell)
    }

    /// Whether the value has been made.
    pub fn is_completed(&self) -> bool {
        once_is_completed(&self.cell)
    }
}

} // verus!
