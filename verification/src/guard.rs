//! The refresh guard: the one flag that tells whether a refresh is in
//! progress.

use vstd::prelude::*;

verus! {

/// Tells whether a refresh is in progress. The flag can be changed only
/// by [`RefreshGuard::try_begin`] and [`RefreshGuard::end`].
#[derive(Debug)]
pub struct RefreshGuard {
    in_progress: bool,
}

impl View for RefreshGuard {
    type V = bool;

    /// Whether a refresh is in progress.
    closed spec fn view(&self) -> bool {
        self.in_progress
    }
}

impl RefreshGuard {
    /// A guard with no refresh in progress.
    pub fn new() -> (r: RefreshGuard)
        ensures
            !r@,
    {
        RefreshGuard { in_progress: false }
    }

    /// Whether a refresh is in progress.
    pub fn is_in_progress(&self) -> (r: bool)
        ensures
            r == self@,
    {
        self.in_progress
    }

    /// Claims the guard, in one step: returns `true` and sets the flag
    /// where no refresh was in progress, returns `false` and changes
    /// nothing where one was.
    pub fn try_begin(&mut self) -> (r: bool)
        ensures
            r == !old(self)@,
            final(self)@,
    {
        if self.in_progress {
            false
        } else {
            self.in_progress = true;
            true
        }
    }

    /// Releases the guard.
    pub fn end(&mut self)
        ensures
            !final(self)@,
    {
        self.in_progress = false;
    }
}

} // verus!
