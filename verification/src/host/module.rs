//! Host modules exposed to guest code.

use std::sync::Arc;
use vstd::prelude::*;

use crate::host::namespace::{
    member_view, names_of, planned, step_views, Export, MemberView, Namespace,
};
use crate::native::module::texts;
use crate::registry::state::{ContextKey, ModuleRegistry, RuntimeView};
use crate::sequences::reverse;
use crate::steps::{in_order, is_path, lemma_path_begins, lemma_path_goes_on};
use crate::text::{debug_quoted, joined, quoted};

verus! {

/// A Rust module exposed to guest code.
pub trait HostModule {
    /// The callback of a function.
    type Function;

    /// The source of a value.
    type Value;

    /// The callback of a setter.
    type Setter;

    /// The specifier under which guest code imports the module: what [`HostModule::name`] returns,
    /// every time. An implementation that is not itself verified leaves it open.
    open spec fn specifier(&self) -> Seq<char> {
        arbitrary()
    }

    /// Whether [`HostModule::build`] may turn some exports into others. An implementation that is
    /// not itself verified leaves it open.
    open spec fn builds(
        &self,
        before: Seq<(Seq<char>, MemberView<Self::Function, Self::Value, Self::Setter>)>,
        after: Seq<(Seq<char>, MemberView<Self::Function, Self::Value, Self::Setter>)>,
    ) -> bool {
        arbitrary()
    }

    /// Returns the module specifier.
    fn name(&self) -> (r: &str)
        ensures
            r@ == self.specifier(),
    ;

    /// Defines the module exports.
    fn build(&self, exports: &mut Exports<Self::Function, Self::Value, Self::Setter>)
        ensures
            self.builds(old(exports)@, final(exports)@),
    ;
}

/// The exports of a host module.
pub struct Exports<C, V, S> {
    namespace: Namespace<C, V, S>,
}

impl<C, V, S> View for Exports<C, V, S> {
    type V = Seq<(Seq<char>, MemberView<C, V, S>)>;

    closed spec fn view(&self) -> Seq<(Seq<char>, MemberView<C, V, S>)> {
        self.namespace@
    }
}

impl<C, V, S> Exports<C, V, S> {
    /// Creates exports without members.
    pub fn new() -> (r: Self)
        ensures
            r@ == Seq::<(Seq<char>, MemberView<C, V, S>)>::empty(),
    {
        Exports { namespace: Namespace::new() }
    }

    /// Returns the exported members.
    pub fn into_namespace(self) -> (r: Namespace<C, V, S>)
        ensures
            r@ == self@,
    {
        self.namespace
    }

    /// Gives access to the members for further definitions.
    pub fn members(&mut self) -> (r: &mut Namespace<C, V, S>)
        ensures
            r@ == old(self)@,
            final(self)@ == final(r)@,
    {
        &mut self.namespace
    }

    /// Defines the default export.
    pub fn default(&mut self, value: V) -> (r: &mut Self)
        ensures
            r@ == old(self)@.push(("default"@, MemberView::Constant(value))),
            *final(self) == *final(r),
    {
        self.namespace.constant("default", value);
        self
    }
}

/// Why a module could not be declared or evaluated.
pub enum AdapterError<E> {
    /// An `Error` with a message is thrown.
    Throw(String),
    /// The engine failed.
    Engine(E),
}

/// Whether an export is the value that a member stands for.
pub open spec fn exports_as<C, V, S>(member: MemberView<C, V, S>, export: Export<C, V, S>) -> bool {
    match member {
        MemberView::Callable(body) => export == Export::<C, V, S>::Function(body),
        MemberView::Constant(value) => export == Export::<C, V, S>::Value(value),
        MemberView::Property(value) => export == Export::<C, V, S>::Value(value),
        MemberView::Accessor { .. } => false,
        MemberView::Object(nested) => export matches Export::Object(steps) && step_views(steps@)
            == planned(nested),
    }
}

/// Whether declaring a name led from one state to another with an outcome.
pub open spec fn declared<E, W, F>(
    declare: F,
    name: Seq<char>,
    before: W,
    after: W,
    outcome: Result<(), E>,
) -> bool where F: Fn(W, String) -> (W, Result<(), E>) {
    exists|given: String|
        #![trigger call_ensures(declare, (before, given), (after, outcome))]
        given@ == name && call_ensures(declare, (before, given), (after, outcome))
}

/// The declaration of names, as steps.
pub open spec fn declaring<E, W, F>(declare: F, names: Seq<Seq<char>>) -> spec_fn(
    int,
    W,
    W,
    Result<(), E>,
) -> bool where F: Fn(W, String) -> (W, Result<(), E>) {
    |i: int, before: W, after: W, outcome: Result<(), E>|
        declared(declare, names[i], before, after, outcome)
}

/// Declares the name of every member, in the order of their definition, until one is refused.
pub fn declare_names<C, V, S, E, W, F>(namespace: &Namespace<C, V, S>, state: W, declare: F) -> (r: (
    W,
    Result<(), E>,
)) where F: Fn(W, String) -> (W, Result<(), E>)
    requires
        forall|state: W, name: String| call_requires(declare, (state, name)),
    ensures
        in_order(
            declaring(declare, names_of(namespace@)),
            namespace@.len(),
            state,
            r.0,
            r.1,
        ),
{
    let names = namespace.names();
    let ghost step = declaring(declare, names_of(namespace@));
    let ghost mut states: Seq<W> = seq![state];
    proof {
        lemma_path_begins(step, state);
        assert(texts(names@).len() == names_of(namespace@).len());
    }
    let mut current = state;
    let mut i: usize = 0;
    while i < names.len()
        invariant
            i <= names@.len(),
            names@.len() == namespace@.len(),
            texts(names@) == names_of(namespace@),
            forall|state: W, name: String| call_requires(declare, (state, name)),
            step == declaring(declare, names_of(namespace@)),
            is_path(step, state, states),
            states.len() == i + 1,
            states.last() == current,
        decreases names@.len() - i,
    {
        let name = names[i].clone();
        assert(texts(names@)[i as int] == name@);
        let (next, outcome) = declare(current, name);
        assert(declared(declare, name@, states.last(), next, outcome));
        assert(step(i as int, states.last(), next, outcome));
        match outcome {
            Ok(unit) => {
                proof {
                    assert(unit == ());
                    lemma_path_goes_on(step, state, states, next);
                    states = states.push(next);
                }
                current = next;
            }
            Err(error) => {
                return (next, Err(error));
            }
        }
        i += 1;
    }
    (current, Ok(()))
}

/// Whether exporting the value of a member under its name led from one state to another with an
/// outcome.
pub open spec fn exported<C, V, S, E, W, F>(
    export: F,
    member: (Seq<char>, MemberView<C, V, S>),
    before: W,
    after: W,
    outcome: Result<(), E>,
) -> bool where F: Fn(W, String, Export<C, V, S>) -> (W, Result<(), E>) {
    exists|name: String, value: Export<C, V, S>|
        #![trigger call_ensures(export, (before, name, value), (after, outcome))]
        name@ == member.0 && exports_as(member.1, value) && call_ensures(
            export,
            (before, name, value),
            (after, outcome),
        )
}

/// Whether a member was exported or refused: an accessor is refused before it comes to the engine,
/// and the engine may refuse any other.
pub open spec fn settled<C, V, S, E, W, F>(
    export: F,
    member: (Seq<char>, MemberView<C, V, S>),
    before: W,
    after: W,
    outcome: Result<(), AdapterError<E>>,
) -> bool where F: Fn(W, String, Export<C, V, S>) -> (W, Result<(), E>) {
    match outcome {
        Ok(_) => exported(export, member, before, after, Ok::<(), E>(())),
        Err(AdapterError::Engine(cause)) => exported(
            export,
            member,
            before,
            after,
            Err::<(), E>(cause),
        ),
        Err(AdapterError::Throw(message)) => after == before && member.1 is Accessor && message@
            == "unexpected error: "@ + "accessor members are not valid as module exports"@,
    }
}

/// The export of members, as steps.
pub open spec fn exporting<C, V, S, E, W, F>(
    export: F,
    members: Seq<(Seq<char>, MemberView<C, V, S>)>,
) -> spec_fn(int, W, W, Result<(), AdapterError<E>>) -> bool where
    F: Fn(W, String, Export<C, V, S>) -> (W, Result<(), E>),
 {
    |i: int, before: W, after: W, outcome: Result<(), AdapterError<E>>|
        settled(export, members[i], before, after, outcome)
}

/// Exports the value of every member, in the order of their definition, until one is refused.
pub fn export_members<C, V, S, E, W, F>(
    namespace: Namespace<C, V, S>,
    state: W,
    export: F,
) -> (r: (W, Result<(), AdapterError<E>>)) where
    F: Fn(W, String, Export<C, V, S>) -> (W, Result<(), E>),

    requires
        forall|state: W, name: String, value: Export<C, V, S>|
            call_requires(export, (state, name, value)),
    ensures
        in_order(exporting(export, namespace@), namespace@.len(), state, r.0, r.1),
{
    let ghost view = namespace@;
    let ghost step = exporting(export, view);
    let ghost mut states: Seq<W> = seq![state];
    let mut pending = namespace.into_members();
    let ghost members = pending@;
    let total: usize = pending.len();
    let mut done: usize = 0;
    let mut current = state;
    proof {
        lemma_path_begins(step, state);
        crate::host::namespace::lemma_members_view(members);
    }
    reverse(&mut pending);
    while done < total
        invariant
            done <= total,
            total == members.len(),
            view.len() == total,
            view == namespace@,
            forall|j: int|
                0 <= j < total ==> #[trigger] view[j] == (
                    members[j].0@,
                    member_view(members[j].1),
                ),
            pending@.len() == total - done,
            forall|i: int|
                0 <= i < pending@.len() ==> #[trigger] pending@[i] == members[total - 1 - i],
            forall|state: W, name: String, value: Export<C, V, S>|
                call_requires(export, (state, name, value)),
            step == exporting(export, view),
            is_path(step, state, states),
            states.len() == done + 1,
            states.last() == current,
        decreases total - done,
    {
        match pending.pop() {
            Some((name, member)) => {
                assert((name, member) == members[done as int]);
                assert(view[done as int] == (name@, member_view(member)));
                match member.into_export_value() {
                    Ok(value) => {
                        assert(exports_as(member_view(member), value));
                        let (next, outcome) = export(current, name, value);
                        assert(exported(export, view[done as int], states.last(), next, outcome));
                        match outcome {
                            Ok(unit) => {
                                proof {
                                    assert(unit == ());
                                    assert(step(done as int, states.last(), next, Ok(())));
                                    lemma_path_goes_on(step, state, states, next);
                                    states = states.push(next);
                                }
                                current = next;
                            }
                            Err(cause) => {
                                let error = AdapterError::Engine(cause);
                                assert(step(done as int, states.last(), next, Err(error)));
                                return (next, Err(error));
                            }
                        }
                    }
                    Err(error) => {
                        let error = AdapterError::Throw(error.text());
                        assert(step(done as int, states.last(), current, Err(error)));
                        return (current, Err(error));
                    }
                }
            }
            None => {
                assert(false);
                return (current, Ok(()));
            }
        }
        done += 1;
    }
    (current, Ok(()))
}

/// Whether declaring the names of a namespace in order ended as it did: all were accepted, or the
/// engine refused one after it had accepted those before it.
pub open spec fn names_declared<C, V, S, E, W, F>(
    namespace: Seq<(Seq<char>, MemberView<C, V, S>)>,
    declare: F,
    start: W,
    end: W,
    outcome: Result<(), AdapterError<E>>,
) -> bool where F: Fn(W, String) -> (W, Result<(), E>) {
    match outcome {
        Ok(_) => in_order(
            declaring(declare, names_of(namespace)),
            namespace.len(),
            start,
            end,
            Ok::<(), E>(()),
        ),
        Err(AdapterError::Engine(error)) => in_order(
            declaring(declare, names_of(namespace)),
            namespace.len(),
            start,
            end,
            Err::<(), E>(error),
        ),
        Err(AdapterError::Throw(_)) => false,
    }
}

/// Whether exporting the members of a namespace in order ended as it did: all were accepted, or one
/// was refused after those before it had been accepted.
pub open spec fn members_exported<C, V, S, E, W, F>(
    namespace: Seq<(Seq<char>, MemberView<C, V, S>)>,
    export: F,
    start: W,
    end: W,
    outcome: Result<(), AdapterError<E>>,
) -> bool where F: Fn(W, String, Export<C, V, S>) -> (W, Result<(), E>) {
    in_order(exporting(export, namespace), namespace.len(), start, end, outcome)
}

/// Whether an error throws a message.
pub open spec fn throws<E>(error: AdapterError<E>, message: Seq<char>) -> bool {
    error matches AdapterError::Throw(text) && text@ == message
}

/// The engine-side definition of the host modules of a runtime.
pub struct HostModuleAdapter;

impl HostModuleAdapter {
    /// Returns the module registry that is installed in an engine.
    pub fn registry<R, E>(installed: Option<R>) -> (r: Result<R, AdapterError<E>>)
        ensures
            match installed {
                Some(registry) => r == Ok::<R, AdapterError<E>>(registry),
                None => r matches Err(error) && throws(error, "module registry is not installed"@),
            },
    {
        match installed {
            Some(registry) => Ok(registry),
            None => Err(AdapterError::Throw("module registry is not installed".to_owned())),
        }
    }

    /// Returns the host module of a route. A route without one is an error.
    pub fn module<H: HostModule, D, I, N, E>(
        registry: &ModuleRegistry<H, D, I, N>,
        context: ContextKey,
        route: &str,
    ) -> (r: Result<Arc<H>, AdapterError<E>>)
        ensures
            match registry@.state.host_module_of(context, route@) {
                Some(module) => r matches Ok(found) && *found == module,
                None => r matches Err(error) && throws(
                    error,
                    "no host module registered for route "@ + debug_quoted(route@),
                ),
            },
    {
        match registry.host_module(context, route) {
            Some(module) => Ok(module),
            None => {
                let name = quoted(route);
                Err(
                    AdapterError::Throw(
                        joined("no host module registered for route ", name.as_str()),
                    ),
                )
            }
        }
    }

    /// Takes what is staged for the host module of a route. A route with nothing staged is an
    /// error.
    pub fn staged<H: HostModule, D, I, N, E>(
        registry: &mut ModuleRegistry<H, D, I, N>,
        context: ContextKey,
        route: &str,
    ) -> (r: Result<N, AdapterError<E>>)
        ensures
            match old(registry)@.state.staged_at(context, route@) {
                Some(namespace) => r == Ok::<N, AdapterError<E>>(namespace),
                None => r matches Err(error) && throws(
                    error,
                    "no staged exports for host module route "@ + debug_quoted(route@),
                ),
            },
            final(registry)@ == (RuntimeView {
                state: old(registry)@.state.without_staged(context, route@),
                ..old(registry)@
            }),
    {
        match registry.take_staged(context, route) {
            Some(namespace) => Ok(namespace),
            None => {
                let name = quoted(route);
                Err(
                    AdapterError::Throw(
                        joined("no staged exports for host module route ", name.as_str()),
                    ),
                )
            }
        }
    }

    /// Declares the exports that a host module has defined, and stages them for its evaluation once
    /// the engine has accepted every name.
    pub fn declare_exports<H, D, I, E, W, F>(
        registry: &mut ModuleRegistry<H, D, I, Namespace<H::Function, H::Value, H::Setter>>,
        context: ContextKey,
        route: String,
        namespace: Namespace<H::Function, H::Value, H::Setter>,
        state: W,
        declare: F,
    ) -> (r: (W, Result<(), AdapterError<E>>)) where
        H: HostModule,
        F: Fn(W, String) -> (W, Result<(), E>),

        requires
            forall|state: W, name: String| call_requires(declare, (state, name)),
        ensures
            names_declared(namespace@, declare, state, r.0, r.1),
            r.1 is Ok ==> final(registry)@ == (RuntimeView {
                state: old(registry)@.state.with_staged(context, route@, namespace),
                ..old(registry)@
            }),
            r.1 is Err ==> final(registry)@ == old(registry)@,
    {
        let (end, outcome) = declare_names(&namespace, state, declare);
        match outcome {
            Ok(_) => {
                registry.stage(context, route, namespace);
                (end, Ok(()))
            }
            Err(error) => (end, Err(AdapterError::Engine(error))),
        }
    }

    /// Declares the exports of the host module of a route. The module defines its exports anew for
    /// every declaration.
    pub fn declare<H, D, I, E, W, F>(
        registry: &mut ModuleRegistry<H, D, I, Namespace<H::Function, H::Value, H::Setter>>,
        context: ContextKey,
        route: String,
        state: W,
        declare: F,
    ) -> (r: (W, Result<(), AdapterError<E>>)) where
        H: HostModule,
        F: Fn(W, String) -> (W, Result<(), E>),

        requires
            forall|state: W, name: String| call_requires(declare, (state, name)),
        ensures
            old(registry)@.state.host_module_of(context, route@) is None ==> (r.0 == state && (
            r.1 matches Err(error) && throws(
                error,
                "no host module registered for route "@ + debug_quoted(route@),
            )) && final(registry)@ == old(registry)@),
            old(registry)@.state.host_module_of(context, route@) matches Some(module) ==> exists|
                namespace: Namespace<H::Function, H::Value, H::Setter>,
            |
                #![trigger names_declared(namespace@, declare, state, r.0, r.1)]
                module.builds(Seq::empty(), namespace@) && names_declared(
                    namespace@,
                    declare,
                    state,
                    r.0,
                    r.1,
                ) && final(registry)@ == (if r.1 is Ok {
                    RuntimeView {
                        state: old(registry)@.state.with_staged(context, route@, namespace),
                        ..old(registry)@
                    }
                } else {
                    old(registry)@
                }),
    {
        match Self::module(registry, context, route.as_str()) {
            Ok(module) => {
                let mut exports = Exports::new();
                module.build(&mut exports);
                let namespace = exports.into_namespace();
                Self::declare_exports(registry, context, route, namespace, state, declare)
            }
            Err(error) => (state, Err(error)),
        }
    }

    /// Exports what is staged for the host module of a route. It is staged no longer then, also
    /// where the engine refuses an export.
    pub fn evaluate<H, D, I, E, W, F>(
        registry: &mut ModuleRegistry<H, D, I, Namespace<H::Function, H::Value, H::Setter>>,
        context: ContextKey,
        route: &str,
        state: W,
        export: F,
    ) -> (r: (W, Result<(), AdapterError<E>>)) where
        H: HostModule,
        F: Fn(W, String, Export<H::Function, H::Value, H::Setter>) -> (W, Result<(), E>),

        requires
            forall|state: W, name: String, value: Export<H::Function, H::Value, H::Setter>|
                call_requires(export, (state, name, value)),
        ensures
            match old(registry)@.state.staged_at(context, route@) {
                Some(namespace) => members_exported(namespace@, export, state, r.0, r.1),
                None => r.0 == state && (r.1 matches Err(error) && throws(
                    error,
                    "no staged exports for host module route "@ + debug_quoted(route@),
                )),
            },
            final(registry)@ == (RuntimeView {
                state: old(registry)@.state.without_staged(context, route@),
                ..old(registry)@
            }),
    {
        match Self::staged(registry, context, route) {
            Ok(namespace) => export_members(namespace, state, export),
            Err(error) => (state, Err(error)),
        }
    }
}

} // verus!
