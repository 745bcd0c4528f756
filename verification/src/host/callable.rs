//! Host functions exposed to guest code.

use vstd::prelude::*;

use crate::errors::Error;

verus! {

/// The body of a host function.
pub enum CallableBody<C> {
    /// Returns its value at once.
    Sync(C),
    /// Returns a promise of its value.
    Async(C),
}

/// How a host call ends for the guest.
pub enum Completion<V> {
    /// The call returns a value.
    Return(V),
    /// The call throws an `Error` with a message.
    Throw(String),
}

/// Whether a completion is what a host result asks for.
pub open spec fn completes<V>(result: Result<V, Error>, completion: Completion<V>) -> bool {
    match (result, completion) {
        (Ok(value), Completion::Return(returned)) => returned == value,
        (Err(error), Completion::Throw(message)) => error.reads_as(message@),
        _ => false,
    }
}

impl<V> Completion<V> {
    /// Ends a host call with its result: a value is returned, an error is thrown as its text.
    pub fn of(result: Result<V, Error>) -> (r: Self)
        ensures
            completes(result, r),
    {
        match result {
            Ok(value) => Completion::Return(value),
            Err(error) => Completion::Throw(error.text()),
        }
    }
}

impl<C> CallableBody<C> {
    /// Creates a synchronous body.
    pub fn sync(f: C) -> (r: Self)
        ensures
            r == CallableBody::Sync(f),
    {
        CallableBody::Sync(f)
    }

    /// Creates an asynchronous body.
    pub fn asynchronous(f: C) -> (r: Self)
        ensures
            r == CallableBody::Async(f),
    {
        CallableBody::Async(f)
    }

    /// The callback of the body.
    pub open spec fn callback(self) -> C {
        match self {
            CallableBody::Sync(f) => f,
            CallableBody::Async(f) => f,
        }
    }

    /// Calls the body with arguments and ends the call with its result. What an asynchronous body
    /// returns is still to be waited for; the call of one that fails at once ends with a throw.
    pub fn call<A, V, F>(&self, args: A, run: F) -> (r: Completion<V>) where
        F: FnOnce(&C, A) -> Result<V, Error>,

        requires
            call_requires(run, (&self.callback(), args)),
        ensures
            exists|result: Result<V, Error>|
                #![trigger call_ensures(run, (&self.callback(), args), result)]
                call_ensures(run, (&self.callback(), args), result) && completes(result, r),
    {
        let result = match self {
            CallableBody::Sync(f) => run(f, args),
            CallableBody::Async(f) => run(f, args),
        };
        Completion::of(result)
    }

    /// Returns whether a call gives the guest a promise.
    pub fn is_async(&self) -> (r: bool)
        ensures
            r == (self is Async),
    {
        match self {
            CallableBody::Sync(_) => false,
            CallableBody::Async(_) => true,
        }
    }
}

/// A Rust closure exposed as a guest function.
pub struct HostFn<C> {
    body: CallableBody<C>,
}

impl<C> View for HostFn<C> {
    type V = CallableBody<C>;

    closed spec fn view(&self) -> CallableBody<C> {
        self.body
    }
}

impl<C> HostFn<C> {
    /// Creates a synchronous host function.
    pub fn new(f: C) -> (r: Self)
        ensures
            r@ == CallableBody::Sync(f),
    {
        HostFn { body: CallableBody::sync(f) }
    }

    /// Creates an asynchronous host function.
    pub fn new_async(f: C) -> (r: Self)
        ensures
            r@ == CallableBody::Async(f),
    {
        HostFn { body: CallableBody::asynchronous(f) }
    }

    /// Returns the body, to make a guest function of it.
    pub fn into_body(self) -> (r: CallableBody<C>)
        ensures
            r == self@,
    {
        self.body
    }
}

} // verus!
