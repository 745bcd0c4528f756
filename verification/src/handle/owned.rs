//! Handles that belong to a guest and handles that belong to a scope.

use std::rc::Rc;
use vstd::prelude::*;

use crate::errors::Error;
use crate::runtime::{is_detached, Scope};

verus! {

/// A guest value that can be used outside a scope: what the engine keeps of it, and the guest that
/// it belongs to.
pub struct Owned<S, G> {
    value: S,
    context: Rc<G>,
}

impl<S, G> View for Owned<S, G> {
    type V = (S, G);

    closed spec fn view(&self) -> (S, G) {
        (self.value, *self.context)
    }
}

/// A guest value within a scope.
pub struct Bound<V, X, G> {
    value: V,
    scope: Scope<X, G>,
}

impl<V, X, G> View for Bound<V, X, G> {
    type V = (V, (X, Option<G>));

    /// The value and what the scope stands for.
    closed spec fn view(&self) -> (V, (X, Option<G>)) {
        (self.value, self.scope@)
    }
}

/// Whether keeping a value beyond a scope ended as it did: it belongs to the guest of the scope,
/// and without one it cannot be kept.
pub open spec fn kept<V, X, G, S, F>(
    scope: (X, Option<G>),
    value: V,
    save: F,
    result: Result<Owned<S, G>, Error>,
) -> bool where F: FnOnce(&X, V) -> S {
    match scope.1 {
        Some(parent) => result matches Ok(owned) && owned@.1 == parent && call_ensures(
            save,
            (&scope.0, value),
            owned@.0,
        ),
        None => result matches Err(error) && is_detached(error),
    }
}

impl<S, G> Owned<S, G> {
    /// Creates a handle that belongs to a guest.
    pub fn new(value: S, context: Rc<G>) -> (r: Self)
        ensures
            r@ == (value, *context),
    {
        Owned { value, context }
    }

    /// Returns what the engine keeps of the value.
    pub fn value(&self) -> (r: &S)
        ensures
            *r == self@.0,
    {
        &self.value
    }

    /// Returns the guest that the value belongs to.
    pub fn context(&self) -> (r: &Rc<G>)
        ensures
            **r == self@.1,
    {
        &self.context
    }

    /// Returns what the engine keeps of the value and gives the handle up.
    pub fn into_value(self) -> (r: S)
        ensures
            r == self@.0,
    {
        self.value
    }

    /// Keeps a converted guest value beyond a scope. Where the conversion failed, nothing is kept.
    pub fn from_guest<V, X, F>(scope: &Scope<X, G>, converted: Result<V, Error>, save: F) -> (r:
        Result<Self, Error>) where F: FnOnce(&X, V) -> S
        requires
            forall|ctx: &X, value: V| call_requires(save, (ctx, value)),
        ensures
            match converted {
                Ok(value) => kept(scope@, value, save, r),
                Err(error) => r == Err::<Self, Error>(error),
            },
    {
        let value = match converted {
            Ok(value) => value,
            Err(error) => {
                return Err(error);
            }
        };
        let saved = save(scope.ctx(), value);
        match scope.owner() {
            Ok(context) => Ok(Owned { value: saved, context }),
            Err(error) => Err(error),
        }
    }

    /// Restores the value in a scope.
    pub fn bind<V, X, F>(&self, scope: Scope<X, G>, restore: F) -> (r: Result<
        Bound<V, X, G>,
        Error,
    >) where F: FnOnce(&X, &S) -> Result<V, Error>
        requires
            forall|ctx: &X| call_requires(restore, (ctx, &self@.0)),
        ensures
            match r {
                Ok(bound) => bound@.1 == scope@ && call_ensures(
                    restore,
                    (&scope@.0, &self@.0),
                    Ok::<V, Error>(bound@.0),
                ),
                Err(error) => call_ensures(
                    restore,
                    (&scope@.0, &self@.0),
                    Err::<V, Error>(error),
                ),
            },
    {
        let restored = restore(scope.ctx(), &self.value);
        match restored {
            Ok(value) => Ok(Bound { value, scope }),
            Err(error) => Err(error),
        }
    }
}

impl<V, X, G> Bound<V, X, G> {
    /// Creates a handle within a scope.
    pub fn new(value: V, scope: Scope<X, G>) -> (r: Self)
        ensures
            r@ == (value, scope@),
    {
        Bound { value, scope }
    }

    /// Returns the value.
    pub fn value(&self) -> (r: &V)
        ensures
            *r == self@.0,
    {
        &self.value
    }

    /// Returns the scope.
    pub fn scope(&self) -> (r: &Scope<X, G>)
        ensures
            r@ == self@.1,
    {
        &self.scope
    }

    /// Returns the value and gives the handle up.
    pub fn into_value(self) -> (r: V)
        ensures
            r == self@.0,
    {
        self.value
    }

    /// Keeps the value beyond the scope.
    pub fn into_owned<S, F>(self, save: F) -> (r: Result<Owned<S, G>, Error>) where
        F: FnOnce(&X, V) -> S,

        requires
            forall|ctx: &X, value: V| call_requires(save, (ctx, value)),
        ensures
            kept(self@.1, self@.0, save, r),
    {
        let Bound { value, scope } = self;
        Owned::from_guest(&scope, Ok(value), save)
    }
}

/// What the engine keeps of a value that was kept beyond a scope belongs to the guest of that
/// scope, so that a handle never changes its guest; and only an attached scope gives a handle.
pub proof fn law_handle_belongs_to_its_guest<V, X, G, S, F>(
    scope: (X, Option<G>),
    value: V,
    save: F,
    result: Result<Owned<S, G>, Error>,
) where F: FnOnce(&X, V) -> S
    requires
        kept(scope, value, save, result),
    ensures
        result is Ok <==> scope.1 is Some,
        result matches Ok(owned) ==> scope.1 == Some(owned@.1),
{
}

} // verus!
