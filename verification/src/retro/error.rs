//! Error values of the binding surface.

use vstd::prelude::*;

verus! {

/// Failure to load a game, carrying the core's initialization state back to
/// the caller so that it is not lost with the attempt.
#[derive(Clone)]
pub struct LoadGameError<C>(C);

impl<C> LoadGameError<C> {
    /// The carried initialization state.
    pub closed spec fn view(&self) -> C {
        self.0
    }

    /// Wraps the initialization state of the failed load.
    pub fn new(init_state: C) -> (r: LoadGameError<C>)
        ensures
            r@ == init_state,
    {
        LoadGameError(init_state)
    }

    /// Hands the initialization state back.
    pub fn into_inner(self) -> (r: C)
        ensures
            r == self@,
    {
        self.0
    }
}

/// Failure of the host-side initialization of a core.
#[derive(Clone, Copy, Debug, PartialEq, Eq, Hash, Structural)]
pub struct InitCoreError;

} // verus!
