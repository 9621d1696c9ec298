//! Locks and scope guards.

use vstd::prelude::*;

verus! {

/// A lock that puts its waiters to sleep.
#[derive(Debug, Clone, Copy, PartialEq, Eq)]
pub struct SleepLock;

/// Runs one action when it is made and keeps another to be run when the
/// scope ends, unless the guard is dismissed before.
pub struct ScopeGuard<F> where F: FnOnce() {
    pub fini: Option<F>,
    pub active: bool,
}

impl<F> ScopeGuard<F> where F: FnOnce() {
    /// Runs `init` and keeps `fini` for the end of the scope.
    pub fn new<I>(init: I, fini: F) -> (guard: Self) where I: FnOnce()
        requires
            call_requires(init, ()),
        ensures
            call_ensures(init, (), ()),
            guard.active,
            guard.fini == Some(fini),
    {
        init();

        ScopeGuard { fini: Some(fini), active: true }
    }

    /// The action that is still to be run at the end of the scope.
    pub open spec fn pending(&self) -> Option<F> {
        if self.active {
            self.fini
        } else {
            None
        }
    }

    /// Gives the guard up: its action will not be run.
    pub fn dismiss(self) {
        let mut guard = self;
        guard.active = false;
        guard.fini = None;
    }

    /// Ends the scope: hands out the action that is to be run now, if
    /// the guard still holds one.
    pub fn finish(self) -> (action: Option<F>)
        ensures
            action == self.pending(),
    {
        let ScopeGuard { fini, active } = self;
        if active {
            fini
        } else {
            None
        }
    }
}

} // verus!
