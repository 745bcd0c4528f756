//! Named callbacks that prepare a guest context.

use std::sync::Arc;
use vstd::prelude::*;

verus! {

/// A reusable native context initializer. Copies share one callback.
pub struct NativeInitializer<I> {
    name: String,
    callback: Arc<I>,
}

impl<I> View for NativeInitializer<I> {
    type V = (Seq<char>, I);

    /// The name and the callback.
    closed spec fn view(&self) -> (Seq<char>, I) {
        (self.name@, *self.callback)
    }
}

impl<I> NativeInitializer<I> {
    /// Creates a native context initializer.
    pub fn new(name: &str, initialize: I) -> (r: Self)
        ensures
            r@ == (name@, initialize),
    {
        NativeInitializer { name: name.to_owned(), callback: Arc::new(initialize) }
    }

    pub(crate) fn shared(name: &str, callback: Arc<I>) -> (r: Self)
        ensures
            r@ == (name@, *callback),
    {
        NativeInitializer { name: name.to_owned(), callback }
    }

    /// Returns the initializer name.
    pub fn name(&self) -> (r: &str)
        ensures
            r@ == self@.0,
    {
        self.name.as_str()
    }

    /// Returns the callback.
    pub fn callback(&self) -> (r: &I)
        ensures
            *r == self@.1,
    {
        &self.callback
    }

    /// Runs the callback on a guest context and returns what it returns.
    pub fn initialize<C, E>(&self, context: C) -> (r: Result<(), E>) where
        I: Fn(C) -> Result<(), E>,

        requires
            call_requires(self@.1, (context,)),
        ensures
            call_ensures(self@.1, (context,), r),
    {
        (self.callback)(context)
    }
}

impl<I> Clone for NativeInitializer<I> {
    fn clone(&self) -> (r: Self)
        ensures
            r@ == self@,
    {
        NativeInitializer { name: self.name.clone(), callback: self.callback.clone() }
    }
}

} // verus!
