//! Named callbacks that prepare a guest for host capabilities.

use std::sync::Arc;
use vstd::prelude::*;

verus! {

/// A reusable host context initializer. Copies share one callback.
pub struct HostInitializer<I> {
    name: String,
    callback: Arc<I>,
}

impl<I> View for HostInitializer<I> {
    type V = (Seq<char>, I);

    /// The name and the callback.
    closed spec fn view(&self) -> (Seq<char>, I) {
        (self.name@, *self.callback)
    }
}

impl<I> HostInitializer<I> {
    /// Creates a host context initializer.
    pub fn new(name: &str, initialize: I) -> (r: Self)
        ensures
            r@ == (name@, initialize),
    {
        HostInitializer { name: name.to_owned(), callback: Arc::new(initialize) }
    }

    /// Returns the initializer name.
    pub fn name(&self) -> (r: &str)
        ensures
            r@ == self@.0,
    {
        self.name.as_str()
    }

    pub(crate) fn shared_callback(&self) -> (r: Arc<I>)
        ensures
            *r == self@.1,
    {
        self.callback.clone()
    }

    /// Runs the callback in a guest scope and returns what it returns.
    pub fn initialize<C, E>(&self, scope: C) -> (r: Result<(), E>) where
        I: Fn(C) -> Result<(), E>,

        requires
            call_requires(self@.1, (scope,)),
        ensures
            call_ensures(self@.1, (scope,), r),
    {
        (self.callback)(scope)
    }
}

impl<I> Clone for HostInitializer<I> {
    fn clone(&self) -> (r: Self)
        ensures
            r@ == self@,
    {
        HostInitializer { name: self.name.clone(), callback: self.callback.clone() }
    }
}

} // verus!
