//! The ambient style values that every pass receives.

use vstd::prelude::*;

verus! {

/// An environment passed down through all widget traversals.
///
/// All values are fixed, so two environments never differ.
#[derive(Clone, Copy, Debug, PartialEq, Eq, Structural)]
pub struct Env();

impl Env {
    /// Returns `true` if this environment holds the same values as `env`.
    pub fn same(&self, env: &Env) -> (b: bool)
        ensures
            b,
    {
        true
    }
}

/// Either a concrete value or a key into the environment. Every key of this
/// library is resolved when it is made, so only the value is held.
#[derive(Clone, Copy, Debug, PartialEq, Eq, Structural)]
pub struct KeyOrValue<T>(pub T);

impl<T> KeyOrValue<T> {
    /// Resolve the concrete value.
    pub fn resolve(self, env: &Env) -> (v: T)
        ensures
            v == self.0,
    {
        self.0
    }
}

} // verus!
