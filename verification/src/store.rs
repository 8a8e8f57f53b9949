//! A minimal state store: one value, mutated by dispatched actions and read
//! through copies.

use vstd::prelude::*;

verus! {

/// Holds one state value of type `T`.
pub struct Store<T> {
    pub state: T,
}

impl<T> Store<T> {
    /// A store holding `initial_state`.
    pub fn new(initial_state: T) -> (r: Store<T>)
        ensures
            r.state == initial_state,
    {
        Store { state: initial_state }
    }

    /// Applies `mutation` to the current state; the new state is whatever the
    /// mutation returns for the old one.
    pub fn dispatch<F: FnOnce(&T) -> T>(&mut self, mutation: F)
        requires
            call_requires(mutation, (&old(self).state,)),
        ensures
            call_ensures(mutation, (&old(self).state,), final(self).state),
    {
        let next = mutation(&self.state);
        self.state = next;
    }
}

impl<T: Clone> Store<T> {
    /// A copy of the current state.
    pub fn get_state(&self) -> (r: T)
        ensures
            vstd::pervasive::cloned(self.state, r),
    {
        self.state.clone()
    }
}

} // verus!
