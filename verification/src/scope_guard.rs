//! A guard that pairs an action at the start of a scope with one at its
//! end.

use vstd::prelude::*;

verus! {

/// Runs one action when it is made and keeps another to be run when the
/// scope ends.
pub struct ScopeGuard<F2> where F2: FnOnce() {
    pub func: Option<F2>,
}

impl<F2> ScopeGuard<F2> where F2: FnOnce() {
    /// Runs `f1` and keeps `f2` for the end of the scope.
    pub fn new<F1>(f1: F1, f2: F2) -> (guard: Self) where F1: FnOnce()
        requires
            call_requires(f1, ()),
        ensures
            call_ensures(f1, (), ()),
            guard.func == Some(f2),
    {
        f1();
        ScopeGuard::<F2> { func: Some(f2) }
    }

    /// Ends the scope: hands out the action that is to be run now.
    pub fn finish(self) -> (action: Option<F2>)
        ensures
            action == self.func,
    {
        let ScopeGuard { func } = self;
        func
    }
}

} // verus!
