//! Guest values that are made where they are needed.

use vstd::prelude::*;

use crate::errors::Error;

verus! {

/// A guest value that a callback makes once a scope is there.
pub struct Scoped<F> {
    callback: F,
}

impl<F> View for Scoped<F> {
    type V = F;

    closed spec fn view(&self) -> F {
        self.callback
    }
}

impl<F> Scoped<F> {
    /// Keeps a callback.
    pub fn new(callback: F) -> (r: Self)
        ensures
            r@ == callback,
    {
        Scoped { callback }
    }

    /// Makes the value in a scope and converts it for the guest.
    pub fn to_guest<S, T, V, G>(self, scope: S, convert: G) -> (r: Result<V, Error>) where
        F: FnOnce(S) -> Result<T, Error>,
        G: FnOnce(T) -> Result<V, Error>,

        requires
            call_requires(self@, (scope,)),
            forall|value: T| call_requires(convert, (value,)),
        ensures
            exists|made: Result<T, Error>|
                #![trigger call_ensures(self@, (scope,), made)]
                call_ensures(self@, (scope,), made) && match made {
                    Ok(value) => call_ensures(convert, (value,), r),
                    Err(error) => r == Err::<V, Error>(error),
                },
    {
        match (self.callback)(scope) {
            Ok(value) => convert(value),
            Err(error) => Err(error),
        }
    }
}

} // verus!
