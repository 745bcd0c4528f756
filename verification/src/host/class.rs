//! Host classes exposed to guest code.

use vstd::prelude::*;

use crate::errors::{may_print, Error};
use crate::host::namespace::{planned, step_views, MemberView, Namespace, Step};
use crate::marshal::{fill_array, filling, GuestType};
use crate::sequences::reverse;
use crate::steps::in_order;

verus! {

/// A Rust class exposed to guest code.
pub trait HostClass: Sized + 'static {
    /// The guest-visible class name.
    const NAME: &'static str;
}

/// A host class that can be copied out of the guest is a guest type.
impl<C> GuestType for C where C: HostClass + Clone {
    type Owned = C;
}

/// A JavaScript well-known symbol.
#[derive(Clone, Copy, Debug, PartialEq, Eq, Structural)]
pub enum WellKnownSymbol {
    /// `Symbol.iterator`.
    Iterator,
    /// `Symbol.asyncIterator`.
    AsyncIterator,
    /// `Symbol.toPrimitive`.
    ToPrimitive,
    /// `Symbol.hasInstance`.
    HasInstance,
}

/// A method of a host class, by the borrow of its instance and by what a call gives the guest.
pub enum MethodSpec<M> {
    /// Borrows the instance and returns a value.
    Ref(M),
    /// Borrows the instance exclusively and returns a value.
    Mut(M),
    /// Borrows the instance and returns a promise.
    AsyncRef(M),
    /// Borrows the instance exclusively and returns a promise.
    AsyncMut(M),
}

/// How a call on an instance ends for the guest.
pub enum Called<V> {
    /// The call returns a value, or a promise of what the value becomes.
    Return(V),
    /// The call throws an `Error` with a message, or returns a promise that rejects with it.
    Throw(String),
    /// The call fails with the engine's own error.
    Fail(rquickjs::Error),
}

impl<M> MethodSpec<M> {
    /// The callback of the method.
    pub open spec fn body(&self) -> M {
        match self {
            MethodSpec::Ref(body) => *body,
            MethodSpec::Mut(body) => *body,
            MethodSpec::AsyncRef(body) => *body,
            MethodSpec::AsyncMut(body) => *body,
        }
    }

    /// Returns whether the method borrows its instance exclusively.
    pub fn is_exclusive(&self) -> (r: bool)
        ensures
            r == (self is Mut || self is AsyncMut),
    {
        match self {
            MethodSpec::Mut(_) | MethodSpec::AsyncMut(_) => true,
            MethodSpec::Ref(_) | MethodSpec::AsyncRef(_) => false,
        }
    }

    /// Returns whether a call gives the guest a promise.
    pub fn is_async(&self) -> (r: bool)
        ensures
            r == (self is AsyncRef || self is AsyncMut),
    {
        match self {
            MethodSpec::AsyncRef(_) | MethodSpec::AsyncMut(_) => true,
            MethodSpec::Ref(_) | MethodSpec::Mut(_) => false,
        }
    }

    /// Calls the method on a borrowed instance. An error of the callback is thrown as its text. An
    /// instance that cannot be borrowed fails a method that returns a value with the engine's
    /// error, and rejects the promise of any other with the text of that error.
    pub fn call<B, V, F>(&self, borrowed: Result<B, rquickjs::Error>, run: F) -> (r: Called<V>) where
        F: FnOnce(&M, B) -> Result<V, Error>,

        requires
            borrowed matches Ok(instance) ==> call_requires(run, (&self.body(), instance)),
        ensures
            borrowed matches Ok(instance) ==> exists|result: Result<V, Error>|
                call_ensures(run, (&self.body(), instance), result) && #[trigger] ended(result, r),
            borrowed matches Err(error) ==> if self is Ref || self is Mut {
                r == Called::<V>::Fail(error)
            } else {
                r matches Called::Throw(message) && exists|text: String| #[trigger]
                    may_print(error, text) && message@ == "engine error: "@ + text@
            },
    {
        let rejects = self.is_async();
        let body = match self {
            MethodSpec::Ref(body) => body,
            MethodSpec::Mut(body) => body,
            MethodSpec::AsyncRef(body) => body,
            MethodSpec::AsyncMut(body) => body,
        };
        match borrowed {
            Ok(instance) => {
                let result = run(body, instance);
                end(result)
            }
            Err(error) => {
                if rejects {
                    let reported = Error::from(error);
                    Called::Throw(reported.text())
                } else {
                    Called::Fail(error)
                }
            }
        }
    }
}

/// Whether a call ends as the result of its callback asks for.
pub open spec fn ended<V>(result: Result<V, Error>, called: Called<V>) -> bool {
    match (result, called) {
        (Ok(value), Called::Return(returned)) => returned == value,
        (Err(error), Called::Throw(message)) => error.reads_as(message@),
        _ => false,
    }
}

fn end<V>(result: Result<V, Error>) -> (r: Called<V>)
    ensures
        ended(result, r),
{
    match result {
        Ok(value) => Called::Return(value),
        Err(error) => Called::Throw(error.text()),
    }
}

/// Calls an accessor on a borrowed instance. An error of the accessor is thrown as its text, and an
/// instance that cannot be borrowed fails the call with the engine's error.
pub fn call_accessor<B, V, F>(borrowed: Result<B, rquickjs::Error>, run: F) -> (r: Called<V>) where
    F: FnOnce(B) -> Result<V, Error>,

    requires
        borrowed matches Ok(instance) ==> call_requires(run, (instance,)),
    ensures
        borrowed matches Ok(instance) ==> exists|result: Result<V, Error>|
            call_ensures(run, (instance,), result) && #[trigger] ended(result, r),
        borrowed matches Err(error) ==> r == Called::<V>::Fail(error),
{
    match borrowed {
        Ok(instance) => {
            let result = run(instance);
            end(result)
        }
        Err(error) => Called::Fail(error),
    }
}

/// A host class definition.
pub struct ClassSpec<M, G, W, N> {
    methods: Vec<(String, MethodSpec<M>)>,
    accessors: Vec<(String, Option<G>, Option<W>)>,
    symbols: Vec<(WellKnownSymbol, MethodSpec<M>)>,
    statics: N,
}

/// What a class definition stands for.
#[verifier::ext_equal]
pub struct ClassView<M, G, W, N> {
    pub methods: Seq<(Seq<char>, MethodSpec<M>)>,
    pub accessors: Seq<(Seq<char>, Option<G>, Option<W>)>,
    pub symbols: Seq<(WellKnownSymbol, MethodSpec<M>)>,
    pub statics: N,
}

/// One step of filling a prototype.
pub enum PrototypeStep<M, G, W> {
    /// Sets a property to a method.
    Method { name: String, method: MethodSpec<M> },
    /// Defines an accessor property.
    Accessor { name: String, get: Option<G>, set: Option<W> },
    /// Sets the property of a well-known symbol to a method.
    Symbol { symbol: WellKnownSymbol, method: MethodSpec<M> },
}

/// What a prototype step stands for.
pub enum PrototypeStepView<M, G, W> {
    Method { name: Seq<char>, method: MethodSpec<M> },
    Accessor { name: Seq<char>, get: Option<G>, set: Option<W> },
    Symbol { symbol: WellKnownSymbol, method: MethodSpec<M> },
}

impl<M, G, W> View for PrototypeStep<M, G, W> {
    type V = PrototypeStepView<M, G, W>;

    open spec fn view(&self) -> PrototypeStepView<M, G, W> {
        match self {
            PrototypeStep::Method { name, method } => PrototypeStepView::Method {
                name: name@,
                method: *method,
            },
            PrototypeStep::Accessor { name, get, set } => PrototypeStepView::Accessor {
                name: name@,
                get: *get,
                set: *set,
            },
            PrototypeStep::Symbol { symbol, method } => PrototypeStepView::Symbol {
                symbol: *symbol,
                method: *method,
            },
        }
    }
}

/// What a list of prototype steps stands for.
pub open spec fn prototype_views<M, G, W>(steps: Seq<PrototypeStep<M, G, W>>) -> Seq<
    PrototypeStepView<M, G, W>,
> {
    steps.map_values(|step: PrototypeStep<M, G, W>| step@)
}

spec fn method_views<M>(methods: Seq<(String, MethodSpec<M>)>) -> Seq<(Seq<char>, MethodSpec<M>)> {
    methods.map_values(|method: (String, MethodSpec<M>)| (method.0@, method.1))
}

spec fn accessor_views<G, W>(accessors: Seq<(String, Option<G>, Option<W>)>) -> Seq<
    (Seq<char>, Option<G>, Option<W>),
> {
    accessors.map_values(
        |accessor: (String, Option<G>, Option<W>)| (accessor.0@, accessor.1, accessor.2),
    )
}

impl<M, G, W, N> ClassView<M, G, W, N> {
    /// The steps that set the methods, in the order of their definition.
    pub open spec fn method_steps(self) -> Seq<PrototypeStepView<M, G, W>> {
        self.methods.map_values(
            |method: (Seq<char>, MethodSpec<M>)|
                PrototypeStepView::Method { name: method.0, method: method.1 },
        )
    }

    /// The steps that define the accessors, in the order of their definition. One without getter
    /// and setter defines nothing.
    pub open spec fn accessor_steps(self) -> Seq<PrototypeStepView<M, G, W>> {
        self.accessors.filter(
            |accessor: (Seq<char>, Option<G>, Option<W>)| accessor.1 is Some || accessor.2 is Some,
        ).map_values(
            |accessor: (Seq<char>, Option<G>, Option<W>)|
                PrototypeStepView::Accessor {
                    name: accessor.0,
                    get: accessor.1,
                    set: accessor.2,
                },
        )
    }

    /// The steps that set the symbol methods, in the order of their definition.
    pub open spec fn symbol_steps(self) -> Seq<PrototypeStepView<M, G, W>> {
        self.symbols.map_values(
            |symbol: (WellKnownSymbol, MethodSpec<M>)|
                PrototypeStepView::Symbol { symbol: symbol.0, method: symbol.1 },
        )
    }

    /// The steps that fill the prototype: methods, then accessors, then symbol methods.
    pub open spec fn prototype_steps(self) -> Seq<PrototypeStepView<M, G, W>> {
        self.method_steps() + self.accessor_steps() + self.symbol_steps()
    }
}

impl<M, G, W, N> View for ClassSpec<M, G, W, N> {
    type V = ClassView<M, G, W, N>;

    closed spec fn view(&self) -> ClassView<M, G, W, N> {
        ClassView {
            methods: method_views(self.methods@),
            accessors: accessor_views(self.accessors@),
            symbols: self.symbols@,
            statics: self.statics,
        }
    }
}

impl<M, G, W, C, V, S> ClassSpec<M, G, W, Namespace<C, V, S>> {
    /// Creates an empty definition.
    pub fn new() -> (r: Self)
        ensures
            r@.methods == Seq::<(Seq<char>, MethodSpec<M>)>::empty(),
            r@.accessors == Seq::<(Seq<char>, Option<G>, Option<W>)>::empty(),
            r@.symbols == Seq::<(WellKnownSymbol, MethodSpec<M>)>::empty(),
            r@.statics@ == Seq::<(Seq<char>, MemberView<C, V, S>)>::empty(),
    {
        let r = ClassSpec {
            methods: Vec::new(),
            accessors: Vec::new(),
            symbols: Vec::new(),
            statics: Namespace::new(),
        };
        assert(r@.methods =~= Seq::<(Seq<char>, MethodSpec<M>)>::empty());
        assert(r@.accessors =~= Seq::<(Seq<char>, Option<G>, Option<W>)>::empty());
        r
    }

    /// Lists the steps that put the static members on the constructor of the class. A class
    /// without a constructor cannot be exported.
    pub fn export<K>(self, constructor: Option<K>) -> (r: Result<(K, Vec<Step<C, V, S>>), Error>)
        ensures
            constructor matches Some(given) ==> r matches Ok((kept, steps)) && kept == given
                && step_views(steps@) == planned(self@.statics@),
            constructor is None ==> (r matches Err(error) && error is Unexpected
                && error.details() == Some(("host class has no constructor"@, None::<Seq<char>>))),
    {
        match constructor {
            Some(constructor) => Ok((constructor, self.statics.apply())),
            None => Err(Error::unexpected("host class has no constructor")),
        }
    }
}

impl<M, G, W, N> ClassSpec<M, G, W, N> {
    fn push_method(&mut self, name: &str, method: MethodSpec<M>) -> (r: &mut Self)
        ensures
            r@ == (ClassView { methods: old(self)@.methods.push((name@, method)), ..old(self)@ }),
            *final(self) == *final(r),
    {
        let ghost before = self.methods@;
        self.methods.push((name.to_owned(), method));
        assert(method_views(self.methods@) =~= method_views(before).push((name@, method)));
        self
    }

    fn push_accessor(&mut self, name: &str, get: Option<G>, set: Option<W>) -> (r: &mut Self)
        ensures
            r@ == (ClassView {
                accessors: old(self)@.accessors.push((name@, get, set)),
                ..old(self)@
            }),
            *final(self) == *final(r),
    {
        let ghost before = self.accessors@;
        self.accessors.push((name.to_owned(), get, set));
        assert(accessor_views(self.accessors@) =~= accessor_views(before).push((name@, get, set)));
        self
    }

    /// Defines a shared method.
    pub fn method(&mut self, name: &str, f: M) -> (r: &mut Self)
        ensures
            r@ == (ClassView {
                methods: old(self)@.methods.push((name@, MethodSpec::Ref(f))),
                ..old(self)@
            }),
            *final(self) == *final(r),
    {
        self.push_method(name, MethodSpec::Ref(f))
    }

    /// Defines an exclusive method.
    pub fn method_mut(&mut self, name: &str, f: M) -> (r: &mut Self)
        ensures
            r@ == (ClassView {
                methods: old(self)@.methods.push((name@, MethodSpec::Mut(f))),
                ..old(self)@
            }),
            *final(self) == *final(r),
    {
        self.push_method(name, MethodSpec::Mut(f))
    }

    /// Defines an asynchronous shared method.
    pub fn async_method(&mut self, name: &str, f: M) -> (r: &mut Self)
        ensures
            r@ == (ClassView {
                methods: old(self)@.methods.push((name@, MethodSpec::AsyncRef(f))),
                ..old(self)@
            }),
            *final(self) == *final(r),
    {
        self.push_method(name, MethodSpec::AsyncRef(f))
    }

    /// Defines an asynchronous exclusive method.
    pub fn async_method_mut(&mut self, name: &str, f: M) -> (r: &mut Self)
        ensures
            r@ == (ClassView {
                methods: old(self)@.methods.push((name@, MethodSpec::AsyncMut(f))),
                ..old(self)@
            }),
            *final(self) == *final(r),
    {
        self.push_method(name, MethodSpec::AsyncMut(f))
    }

    /// Defines a getter.
    pub fn getter(&mut self, name: &str, get: G) -> (r: &mut Self)
        ensures
            r@ == (ClassView {
                accessors: old(self)@.accessors.push((name@, Some(get), None)),
                ..old(self)@
            }),
            *final(self) == *final(r),
    {
        self.push_accessor(name, Some(get), None)
    }

    /// Defines a setter.
    pub fn setter(&mut self, name: &str, set: W) -> (r: &mut Self)
        ensures
            r@ == (ClassView {
                accessors: old(self)@.accessors.push((name@, None, Some(set))),
                ..old(self)@
            }),
            *final(self) == *final(r),
    {
        self.push_accessor(name, None, Some(set))
    }

    /// Defines a getter and setter.
    pub fn accessor(&mut self, name: &str, get: G, set: W) -> (r: &mut Self)
        ensures
            r@ == (ClassView {
                accessors: old(self)@.accessors.push((name@, Some(get), Some(set))),
                ..old(self)@
            }),
            *final(self) == *final(r),
    {
        self.push_accessor(name, Some(get), Some(set))
    }

    /// Defines a well-known symbol method.
    pub fn symbol_method(&mut self, symbol: WellKnownSymbol, f: M) -> (r: &mut Self)
        ensures
            r@ == (ClassView {
                symbols: old(self)@.symbols.push((symbol, MethodSpec::Ref(f))),
                ..old(self)@
            }),
            *final(self) == *final(r),
    {
        self.symbols.push((symbol, MethodSpec::Ref(f)));
        self
    }

    /// Defines `Symbol.iterator`.
    pub fn iterable(&mut self, make: M) -> (r: &mut Self)
        ensures
            r@ == (ClassView {
                symbols: old(self)@.symbols.push((WellKnownSymbol::Iterator, MethodSpec::Ref(make))),
                ..old(self)@
            }),
            *final(self) == *final(r),
    {
        self.symbol_method(WellKnownSymbol::Iterator, make)
    }

    /// Defines static members.
    pub fn statics<F>(&mut self, build: F) -> (r: &mut Self) where F: FnOnce(&mut N)
        requires
            forall|statics: &mut N| call_requires(build, (statics,)),
        ensures
            exists|statics: &mut N|
                #![trigger call_ensures(build, (statics,), ())]
                *statics == old(self)@.statics && call_ensures(build, (statics,), ()) && r@ == (
                ClassView { statics: *final(statics), ..old(self)@ }),
            *final(self) == *final(r),
    {
        let slot = &mut self.statics;
        build(slot);
        self
    }

    /// Lists the steps that fill the prototype of the class.
    pub fn prototype(self) -> (r: Vec<PrototypeStep<M, G, W>>)
        ensures
            prototype_views(r@) == self@.prototype_steps(),
    {
        let ClassSpec { methods, accessors, symbols, .. } = self;
        let ghost view = self@;
        let ghost all_methods = methods@;
        let ghost all_accessors = accessors@;
        let ghost all_symbols = symbols@;
        let mut steps: Vec<PrototypeStep<M, G, W>> = Vec::new();

        let mut pending = methods;
        let method_count: usize = pending.len();
        let mut done: usize = 0;
        reverse(&mut pending);
        while done < method_count
            invariant
                done <= method_count,
                method_count == all_methods.len(),
                view.methods == method_views(all_methods),
                pending@.len() == method_count - done,
                forall|i: int|
                    0 <= i < pending@.len() ==> #[trigger] pending@[i] == all_methods[method_count
                        - 1 - i],
                prototype_views(steps@) == view.method_steps().take(done as int),
            decreases method_count - done,
        {
            match pending.pop() {
                Some((name, method)) => {
                    assert((name, method) == all_methods[done as int]);
                    let ghost before = steps@;
                    steps.push(PrototypeStep::Method { name, method });
                    proof {
                        assert(prototype_views(steps@) =~= prototype_views(before).push(
                            PrototypeStepView::Method { name: name@, method },
                        ));
                        assert(view.method_steps().take(done + 1) =~= view.method_steps().take(
                            done as int,
                        ).push(view.method_steps()[done as int]));
                    }
                }
                None => {
                    assert(false);
                }
            }
            done += 1;
        }
        assert(view.method_steps().take(done as int) =~= view.method_steps());

        let mut pending = accessors;
        let accessor_count: usize = pending.len();
        let mut done: usize = 0;
        reverse(&mut pending);
        let ghost keep = |accessor: (Seq<char>, Option<G>, Option<W>)|
            accessor.1 is Some || accessor.2 is Some;
        let ghost as_step = |accessor: (Seq<char>, Option<G>, Option<W>)|
            PrototypeStepView::<M, G, W>::Accessor {
                name: accessor.0,
                get: accessor.1,
                set: accessor.2,
            };
        proof {
            reveal(Seq::filter);
            assert(view.accessors.take(0).filter(keep).map_values(as_step) =~= Seq::empty());
            assert(view.method_steps() + Seq::<PrototypeStepView<M, G, W>>::empty()
                =~= view.method_steps());
        }
        while done < accessor_count
            invariant
                done <= accessor_count,
                accessor_count == all_accessors.len(),
                view.accessors == accessor_views(all_accessors),
                pending@.len() == accessor_count - done,
                forall|i: int|
                    0 <= i < pending@.len() ==> #[trigger] pending@[i]
                        == all_accessors[accessor_count - 1 - i],
                keep == (|accessor: (Seq<char>, Option<G>, Option<W>)|
                    accessor.1 is Some || accessor.2 is Some),
                as_step == (|accessor: (Seq<char>, Option<G>, Option<W>)|
                    PrototypeStepView::<M, G, W>::Accessor {
                        name: accessor.0,
                        get: accessor.1,
                        set: accessor.2,
                    }),
                prototype_views(steps@) == view.method_steps() + view.accessors.take(
                    done as int,
                ).filter(keep).map_values(as_step),
            decreases accessor_count - done,
        {
            match pending.pop() {
                Some((name, get, set)) => {
                    assert((name, get, set) == all_accessors[done as int]);
                    let ghost before = steps@;
                    proof {
                        reveal(Seq::filter);
                        let next = view.accessors.take(done + 1);
                        assert(next.drop_last() =~= view.accessors.take(done as int));
                        assert(next.last() == (name@, get, set));
                        assert(next.filter(keep).map_values(as_step) =~= view.accessors.take(
                            done as int,
                        ).filter(keep).map_values(as_step) + (if keep((name@, get, set)) {
                            seq![as_step((name@, get, set))]
                        } else {
                            Seq::empty()
                        }));
                    }
                    if get.is_some() || set.is_some() {
                        steps.push(PrototypeStep::Accessor { name, get, set });
                        assert(prototype_views(steps@) =~= prototype_views(before).push(
                            PrototypeStepView::Accessor { name: name@, get, set },
                        ));
                    }
                    assert(prototype_views(steps@) =~= view.method_steps() + view.accessors.take(
                        done + 1,
                    ).filter(keep).map_values(as_step));
                }
                None => {
                    assert(false);
                }
            }
            done += 1;
        }
        assert(view.accessors.take(done as int) =~= view.accessors);
        assert(prototype_views(steps@) == view.method_steps() + view.accessor_steps());

        let ghost front = view.method_steps() + view.accessor_steps();
        let mut pending = symbols;
        let symbol_count: usize = pending.len();
        let mut done: usize = 0;
        reverse(&mut pending);
        proof {
            assert(front + view.symbol_steps().take(0) =~= front);
        }
        while done < symbol_count
            invariant
                done <= symbol_count,
                symbol_count == all_symbols.len(),
                view.symbols == all_symbols,
                pending@.len() == symbol_count - done,
                forall|i: int|
                    0 <= i < pending@.len() ==> #[trigger] pending@[i] == all_symbols[symbol_count
                        - 1 - i],
                prototype_views(steps@) == front + view.symbol_steps().take(done as int),
            decreases symbol_count - done,
        {
            match pending.pop() {
                Some((symbol, method)) => {
                    assert((symbol, method) == all_symbols[done as int]);
                    let ghost before = steps@;
                    steps.push(PrototypeStep::Symbol { symbol, method });
                    proof {
                        assert(prototype_views(steps@) =~= prototype_views(before).push(
                            PrototypeStepView::Symbol { symbol, method },
                        ));
                        assert(front + view.symbol_steps().take(done + 1) =~= (front
                            + view.symbol_steps().take(done as int)).push(
                            view.symbol_steps()[done as int],
                        ));
                    }
                }
                None => {
                    assert(false);
                }
            }
            done += 1;
        }
        assert(view.symbol_steps().take(done as int) =~= view.symbol_steps());
        steps
    }
}

/// Makes the iterator of an instance over items: the items fill a guest array, in order until one
/// fails, and the array is iterated.
pub fn iterate<T, V, R, W, F, G, J>(
    items: Vec<T>,
    state: W,
    convert: F,
    store: G,
    iterator: J,
) -> (r: (W, Result<R, Error>)) where
    F: Fn(W, T) -> (W, Result<V, Error>),
    G: Fn(W, usize, V) -> (W, Result<(), Error>),
    J: FnOnce(W) -> (W, Result<R, Error>),

    requires
        forall|state: W, item: T| call_requires(convert, (state, item)),
        forall|state: W, index: usize, value: V| call_requires(store, (state, index, value)),
        forall|state: W| call_requires(iterator, (state,)),
    ensures
        exists|filled: W, outcome: Result<(), Error>| #[trigger]
            in_order(
                filling::<T, V, W, F, G>(convert, store, items@),
                items@.len(),
                state,
                filled,
                outcome,
            ) && match outcome {
                Ok(_) => call_ensures(iterator, (filled,), r),
                Err(error) => r == (filled, Err::<R, Error>(error)),
            },
{
    let (filled, outcome) = fill_array(items, state, convert, store);
    match outcome {
        Ok(_) => iterator(filled),
        Err(error) => (filled, Err(error)),
    }
}

} // verus!
