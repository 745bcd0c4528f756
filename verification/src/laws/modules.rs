//! Host modules on their way into the engine.

use std::sync::Arc;
use vstd::prelude::*;

use crate::host::loader::{HostModuleAdapter as LocalAdapter, HostResolver};
use crate::host::module::{
    declare_names, declaring, export_members, exporting, AdapterError, HostModule,
    HostModuleAdapter,
};
use crate::host::namespace::{names_of, step_views, Export, MemberView, Namespace, Step};
use crate::host::registry::HostRegistry;
use crate::laws::host::same_step;
use crate::registry::state::{unresolved, ContextKey, GuestId, ModuleRegistry};
use crate::steps::is_path;

verus! {

/// Whether declaring a name led from one state to another with an outcome.
pub open spec fn declares<E, W, F>(
    declare: F,
    name: Seq<char>,
    before: W,
    after: W,
    outcome: Result<(), E>,
) -> bool where F: Fn(W, String) -> (W, Result<(), E>) {
    exists|given: String|
        #![trigger call_ensures(declare, (before, given), (after, outcome))]
        given@ == name && call_ensures(declare, (before, given), (after, outcome))
}

/// Whether names are declared in order, each on what the one before it left, until one is refused:
/// a success has declared all of them, and none comes behind one that is refused.
pub open spec fn declares_in_order<E, W, F>(
    declare: F,
    names: Seq<Seq<char>>,
    start: W,
    end: W,
    outcome: Result<(), E>,
) -> bool where F: Fn(W, String) -> (W, Result<(), E>) {
    exists|states: Seq<W>|
        #![trigger states.len()]
        states.len() > 0 && states[0] == start && (forall|i: int|
            0 <= i < states.len() - 1 ==> #[trigger] declares(
                declare,
                names[i],
                states[i],
                states[i + 1],
                Ok::<(), E>(()),
            )) && match outcome {
            Ok(_) => states.len() == names.len() + 1 && states.last() == end,
            Err(error) => states.len() <= names.len() && declares(
                declare,
                names[states.len() - 1],
                states.last(),
                end,
                Err::<(), E>(error),
            ),
        }
}

/// Whether a value is what a member is exported as. An accessor is exported as nothing, and an
/// object as the steps that its members take in a namespace.
pub open spec fn is_value_of<C, V, S>(member: MemberView<C, V, S>, value: Export<C, V, S>) -> bool {
    match member {
        MemberView::Callable(body) => value == Export::<C, V, S>::Function(body),
        MemberView::Constant(kept) => value == Export::<C, V, S>::Value(kept),
        MemberView::Property(kept) => value == Export::<C, V, S>::Value(kept),
        MemberView::Accessor { .. } => false,
        MemberView::Object(nested) => value is Object && forall|
            inner: Namespace<C, V, S>,
            inner_steps: Vec<Step<C, V, S>>,
        |
            inner@ == nested && #[trigger] call_ensures(
                Namespace::<C, V, S>::apply,
                (inner,),
                inner_steps,
            ) ==> same_steps(value->Object_0@, inner_steps@),
    }
}

/// Whether two lists of steps do the same.
pub open spec fn same_steps<C, V, S>(one: Seq<Step<C, V, S>>, other: Seq<Step<C, V, S>>) -> bool {
    &&& one.len() == other.len()
    &&& forall|i: int| 0 <= i < one.len() ==> same_step(#[trigger] one[i], other[i])
}

/// Whether handing a member over under its name led from one state to another with an outcome.
pub open spec fn hands_over<C, V, S, E, W, F>(
    export: F,
    member: (Seq<char>, MemberView<C, V, S>),
    before: W,
    after: W,
    outcome: Result<(), E>,
) -> bool where F: Fn(W, String, Export<C, V, S>) -> (W, Result<(), E>) {
    exists|name: String, value: Export<C, V, S>|
        #![trigger call_ensures(export, (before, name, value), (after, outcome))]
        name@ == member.0 && is_value_of(member.1, value) && call_ensures(
            export,
            (before, name, value),
            (after, outcome),
        )
}

/// Whether members are exported in order, each on what the one before it left, until one is
/// refused: a success has exported all of them, an accessor is refused without the engine, and none
/// comes behind one that is refused.
pub open spec fn exports_in_order<C, V, S, E, W, F>(
    export: F,
    members: Seq<(Seq<char>, MemberView<C, V, S>)>,
    start: W,
    end: W,
    outcome: Result<(), AdapterError<E>>,
) -> bool where F: Fn(W, String, Export<C, V, S>) -> (W, Result<(), E>) {
    exists|states: Seq<W>|
        #![trigger states.len()]
        states.len() > 0 && states[0] == start && (forall|i: int|
            0 <= i < states.len() - 1 ==> #[trigger] hands_over(
                export,
                members[i],
                states[i],
                states[i + 1],
                Ok::<(), E>(()),
            )) && match outcome {
            Ok(_) => states.len() == members.len() + 1 && states.last() == end,
            Err(AdapterError::Engine(error)) => states.len() <= members.len() && hands_over(
                export,
                members[states.len() - 1],
                states.last(),
                end,
                Err::<(), E>(error),
            ),
            Err(AdapterError::Throw(_)) => states.len() <= members.len() && states.last() == end
                && members[states.len() - 1].1 is Accessor,
        }
}

proof fn lemma_declared_in_order<E, W, F>(
    declare: F,
    names: Seq<Seq<char>>,
    start: W,
    end: W,
    outcome: Result<(), E>,
) where F: Fn(W, String) -> (W, Result<(), E>)
    requires
        crate::steps::in_order(declaring(declare, names), names.len(), start, end, outcome),
    ensures
        declares_in_order(declare, names, start, end, outcome),
{
    let step = declaring(declare, names);
    let states = choose|states: Seq<W>| #[trigger]
        is_path(step, start, states) && match outcome {
            Ok(_) => states.len() == names.len() + 1 && states.last() == end,
            Err(error) => states.len() <= names.len() && step(
                states.len() - 1,
                states.last(),
                end,
                Err(error),
            ),
        };
    assert(states.len() > 0);
    assert forall|i: int| 0 <= i < states.len() - 1 implies #[trigger] declares(
        declare,
        names[i],
        states[i],
        states[i + 1],
        Ok::<(), E>(()),
    ) by {
        assert(step(i, states[i], states[i + 1], Ok(())));
    }
}

proof fn lemma_value_of<C, V, S>(member: MemberView<C, V, S>, value: Export<C, V, S>)
    requires
        crate::host::module::exports_as(member, value),
    ensures
        is_value_of(member, value),
{
    if member is Object {
        let nested = member->Object_0;
        let steps = value->Object_0;
        assert forall|inner: Namespace<C, V, S>, inner_steps: Vec<Step<C, V, S>>|
            inner@ == nested && #[trigger] call_ensures(
                Namespace::<C, V, S>::apply,
                (inner,),
                inner_steps,
            ) implies same_steps(value->Object_0@, inner_steps@) by {
            assert(step_views(steps@) == step_views(inner_steps@));
            assert(step_views(steps@).len() == steps@.len());
            assert(step_views(inner_steps@).len() == inner_steps@.len());
            assert forall|i: int| 0 <= i < steps@.len() implies same_step(
                #[trigger] steps@[i],
                inner_steps@[i],
            ) by {
                assert(step_views(steps@)[i] == steps@[i]@);
                assert(step_views(inner_steps@)[i] == inner_steps@[i]@);
            }
        }
    }
}

proof fn lemma_handed_over<C, V, S, E, W, F>(
    export: F,
    member: (Seq<char>, MemberView<C, V, S>),
    before: W,
    after: W,
    outcome: Result<(), E>,
) where F: Fn(W, String, Export<C, V, S>) -> (W, Result<(), E>)
    requires
        crate::host::module::exported(export, member, before, after, outcome),
    ensures
        hands_over(export, member, before, after, outcome),
{
    let (name, value) = choose|name: String, value: Export<C, V, S>|
        #![trigger call_ensures(export, (before, name, value), (after, outcome))]
        name@ == member.0 && crate::host::module::exports_as(member.1, value) && call_ensures(
            export,
            (before, name, value),
            (after, outcome),
        );
    lemma_value_of(member.1, value);
}

proof fn lemma_exported_in_order<C, V, S, E, W, F>(
    export: F,
    members: Seq<(Seq<char>, MemberView<C, V, S>)>,
    start: W,
    end: W,
    outcome: Result<(), AdapterError<E>>,
) where F: Fn(W, String, Export<C, V, S>) -> (W, Result<(), E>)
    requires
        crate::steps::in_order(exporting(export, members), members.len(), start, end, outcome),
    ensures
        exports_in_order(export, members, start, end, outcome),
{
    let step = exporting(export, members);
    let states = choose|states: Seq<W>| #[trigger]
        is_path(step, start, states) && match outcome {
            Ok(_) => states.len() == members.len() + 1 && states.last() == end,
            Err(error) => states.len() <= members.len() && step(
                states.len() - 1,
                states.last(),
                end,
                Err(error),
            ),
        };
    assert(states.len() > 0);
    assert forall|i: int| 0 <= i < states.len() - 1 implies #[trigger] hands_over(
        export,
        members[i],
        states[i],
        states[i + 1],
        Ok::<(), E>(()),
    ) by {
        assert(step(i, states[i], states[i + 1], Ok(())));
        lemma_handed_over(export, members[i], states[i], states[i + 1], Ok::<(), E>(()));
    }
    if let Err(AdapterError::Engine(error)) = outcome {
        lemma_handed_over(
            export,
            members[states.len() - 1],
            states.last(),
            end,
            Err::<(), E>(error),
        );
    }
}

/// The names of a host module are declared in order until one is refused.
pub proof fn law_names_are_declared_in_order<C, V, S, E, W, F>(
    namespace: &Namespace<C, V, S>,
    state: W,
    declare: F,
    end: W,
    outcome: Result<(), E>,
) where F: Fn(W, String) -> (W, Result<(), E>)
    requires
        call_ensures(
            declare_names::<C, V, S, E, W, F>,
            (namespace, state, declare),
            (end, outcome),
        ),
    ensures
        declares_in_order(
            declare,
            Seq::new(namespace@.len(), |i: int| namespace@[i].0),
            state,
            end,
            outcome,
        ),
{
    assert(names_of(namespace@) =~= Seq::new(namespace@.len(), |i: int| namespace@[i].0));
    lemma_declared_in_order(declare, names_of(namespace@), state, end, outcome);
}

/// The members of a host module are exported in order until one is refused.
pub proof fn law_members_are_exported_in_order<C, V, S, E, W, F>(
    namespace: Namespace<C, V, S>,
    state: W,
    export: F,
    end: W,
    outcome: Result<(), AdapterError<E>>,
) where F: Fn(W, String, Export<C, V, S>) -> (W, Result<(), E>)
    requires
        call_ensures(
            export_members::<C, V, S, E, W, F>,
            (namespace, state, export),
            (end, outcome),
        ),
    ensures
        exports_in_order(export, namespace@, state, end, outcome),
{
    lemma_exported_in_order(export, namespace@, state, end, outcome);
}

/// The module of a route is what the registry has there, and what is staged is what it hands out.
pub proof fn law_adapter_finds_what_the_registry_has<H: HostModule, D, I, N, E, R>(
    installed: Option<R>,
    handle: Result<R, AdapterError<E>>,
    registry: &ModuleRegistry<H, D, I, N>,
    context: ContextKey,
    route: &str,
    found: Result<Arc<H>, AdapterError<E>>,
    module: Option<Arc<H>>,
    first: &mut ModuleRegistry<H, D, I, N>,
    staged: Result<N, AdapterError<E>>,
    second: &mut ModuleRegistry<H, D, I, N>,
    taken: Option<N>,
)
    requires
        call_ensures(HostModuleAdapter::registry::<R, E>, (installed,), handle),
        call_ensures(
            HostModuleAdapter::module::<H, D, I, N, E>,
            (registry, context, route),
            found,
        ),
        call_ensures(
            ModuleRegistry::<H, D, I, N>::host_module,
            (registry, context, route),
            module,
        ),
        call_ensures(HostModuleAdapter::staged::<H, D, I, N, E>, (first, context, route), staged),
        *old(first) == *old(second),
        call_ensures(ModuleRegistry::<H, D, I, N>::take_staged, (second, context, route), taken),
    ensures
        installed matches Some(given) ==> handle == Ok::<R, AdapterError<E>>(given),
        installed is None ==> (handle matches Err(AdapterError::Throw(_))),
        found is Ok <==> module is Some,
        found matches Ok(given) ==> *given == *module.unwrap(),
        found matches Err(error) ==> error is Throw,
        staged is Ok <==> taken is Some,
        staged matches Ok(given) ==> given == taken.unwrap(),
        staged matches Err(error) ==> error is Throw,
        final(first)@ == final(second)@,
{
}

/// The exports of a host module are staged exactly where all of its names could be declared, and
/// are then handed out under its route. Where one is refused nothing changes.
pub proof fn law_declared_exports_are_staged<H, D, I, E, W, F>(
    registry: &mut ModuleRegistry<H, D, I, Namespace<H::Function, H::Value, H::Setter>>,
    context: ContextKey,
    route: String,
    namespace: Namespace<H::Function, H::Value, H::Setter>,
    state: W,
    declare: F,
    end: W,
    outcome: Result<(), AdapterError<E>>,
    next: &mut ModuleRegistry<H, D, I, Namespace<H::Function, H::Value, H::Setter>>,
    text: &str,
    taken: Option<Namespace<H::Function, H::Value, H::Setter>>,
) where H: HostModule, F: Fn(W, String) -> (W, Result<(), E>)
    requires
        call_ensures(
            HostModuleAdapter::declare_exports::<H, D, I, E, W, F>,
            (registry, context, route, namespace, state, declare),
            (end, outcome),
        ),
        old(registry)@.state.contexts.dom().contains(context.0),
        old(registry)@.state.guests.dom().contains(old(registry)@.state.contexts[context.0]),
        *old(next) == *final(registry),
        text@ == route@,
        call_ensures(
            ModuleRegistry::<
                H,
                D,
                I,
                Namespace<H::Function, H::Value, H::Setter>,
            >::take_staged,
            (next, context, text),
            taken,
        ),
    ensures
        outcome is Ok ==> taken == Some(namespace) && declares_in_order(
            declare,
            Seq::new(namespace@.len(), |i: int| namespace@[i].0),
            state,
            end,
            Ok::<(), E>(()),
        ),
        outcome matches Err(AdapterError::Engine(error)) ==> declares_in_order(
            declare,
            Seq::new(namespace@.len(), |i: int| namespace@[i].0),
            state,
            end,
            Err::<(), E>(error),
        ),
        outcome is Err ==> final(registry)@ == old(registry)@ && outcome->Err_0 is Engine,
{
    assert(names_of(namespace@) =~= Seq::new(namespace@.len(), |i: int| namespace@[i].0));
    match outcome {
        Ok(_) => {
            lemma_declared_in_order(
                declare,
                names_of(namespace@),
                state,
                end,
                Ok::<(), E>(()),
            );
        }
        Err(AdapterError::Engine(error)) => {
            lemma_declared_in_order(
                declare,
                names_of(namespace@),
                state,
                end,
                Err::<(), E>(error),
            );
        }
        Err(AdapterError::Throw(_)) => {}
    }
}

/// Declaring the module of a route declares what the module builds, and nothing where the route has
/// no module.
pub proof fn law_modules_declare_what_they_build<H, D, I, E, W, F>(
    registry: &mut ModuleRegistry<H, D, I, Namespace<H::Function, H::Value, H::Setter>>,
    context: ContextKey,
    route: String,
    text: &str,
    module: Option<Arc<H>>,
    state: W,
    declare: F,
    end: W,
    outcome: Result<(), AdapterError<E>>,
) where H: HostModule, F: Fn(W, String) -> (W, Result<(), E>)
    requires
        call_ensures(
            HostModuleAdapter::declare::<H, D, I, E, W, F>,
            (registry, context, route, state, declare),
            (end, outcome),
        ),
        text@ == route@,
        call_ensures(
            ModuleRegistry::<
                H,
                D,
                I,
                Namespace<H::Function, H::Value, H::Setter>,
            >::host_module,
            (&*old(registry), context, text),
            module,
        ),
    ensures
        module is None ==> end == state && (outcome matches Err(AdapterError::Throw(_)))
            && final(registry)@ == old(registry)@,
        module matches Some(given) ==> exists|
            namespace: Namespace<H::Function, H::Value, H::Setter>,
        | #[trigger]
            given.builds(Seq::empty(), namespace@) && match outcome {
                Ok(_) => declares_in_order(
                    declare,
                    Seq::new(namespace@.len(), |i: int| namespace@[i].0),
                    state,
                    end,
                    Ok::<(), E>(()),
                ),
                Err(AdapterError::Engine(error)) => declares_in_order(
                    declare,
                    Seq::new(namespace@.len(), |i: int| namespace@[i].0),
                    state,
                    end,
                    Err::<(), E>(error),
                ),
                Err(AdapterError::Throw(_)) => false,
            } && (outcome is Err ==> final(registry)@ == old(registry)@),
{
    if module is Some {
        let given = module.unwrap();
        let namespace = choose|namespace: Namespace<H::Function, H::Value, H::Setter>|
            #![trigger given.builds(Seq::empty(), namespace@)]
            given.builds(Seq::empty(), namespace@) && crate::host::module::names_declared(
                namespace@,
                declare,
                state,
                end,
                outcome,
            ) && (outcome is Err ==> final(registry)@ == old(registry)@);
        assert(names_of(namespace@) =~= Seq::new(namespace@.len(), |i: int| namespace@[i].0));
        match outcome {
            Ok(_) => {
                lemma_declared_in_order(
                    declare,
                    names_of(namespace@),
                    state,
                    end,
                    Ok::<(), E>(()),
                );
            }
            Err(AdapterError::Engine(error)) => {
                lemma_declared_in_order(
                    declare,
                    names_of(namespace@),
                    state,
                    end,
                    Err::<(), E>(error),
                );
            }
            Err(AdapterError::Throw(_)) => {}
        }
    }
}

/// Evaluating the module of a route exports what is staged there, in order, and takes it away in
/// any case. Where nothing is staged nothing is exported.
pub proof fn law_staged_exports_are_evaluated_once<H, D, I, E, W, F>(
    registry: &mut ModuleRegistry<H, D, I, Namespace<H::Function, H::Value, H::Setter>>,
    context: ContextKey,
    route: &str,
    state: W,
    export: F,
    end: W,
    outcome: Result<(), AdapterError<E>>,
    other: &mut ModuleRegistry<H, D, I, Namespace<H::Function, H::Value, H::Setter>>,
    taken: Option<Namespace<H::Function, H::Value, H::Setter>>,
) where
    H: HostModule,
    F: Fn(W, String, Export<H::Function, H::Value, H::Setter>) -> (W, Result<(), E>),

    requires
        call_ensures(
            HostModuleAdapter::evaluate::<H, D, I, E, W, F>,
            (registry, context, route, state, export),
            (end, outcome),
        ),
        *old(other) == *old(registry),
        call_ensures(
            ModuleRegistry::<
                H,
                D,
                I,
                Namespace<H::Function, H::Value, H::Setter>,
            >::take_staged,
            (other, context, route),
            taken,
        ),
    ensures
        taken matches Some(namespace) ==> exports_in_order(
            export,
            namespace@,
            state,
            end,
            outcome,
        ),
        taken is None ==> end == state && (outcome matches Err(AdapterError::Throw(_))),
        final(registry)@ == final(other)@,
{
    if taken is Some {
        lemma_exported_in_order(export, taken.unwrap()@, state, end, outcome);
    }
}

/// In a registry of host modules the exports of a module are staged for a guest exactly where all
/// of its names could be declared. Where one is refused nothing changes.
pub proof fn law_local_exports_are_staged<H, E, W, F>(
    registry: &mut HostRegistry<H, Namespace<H::Function, H::Value, H::Setter>>,
    guest: GuestId,
    name: String,
    namespace: Namespace<H::Function, H::Value, H::Setter>,
    state: W,
    declare: F,
    end: W,
    outcome: Result<(), AdapterError<E>>,
    next: &mut HostRegistry<H, Namespace<H::Function, H::Value, H::Setter>>,
    text: &str,
    taken: Option<Namespace<H::Function, H::Value, H::Setter>>,
) where H: HostModule, F: Fn(W, String) -> (W, Result<(), E>)
    requires
        call_ensures(
            LocalAdapter::declare_exports::<H, E, W, F>,
            (registry, guest, name, namespace, state, declare),
            (end, outcome),
        ),
        old(registry)@.guests.dom().contains(guest.0),
        *old(next) == *final(registry),
        text@ == name@,
        call_ensures(
            HostRegistry::<H, Namespace<H::Function, H::Value, H::Setter>>::take_staged,
            (next, guest, text),
            taken,
        ),
    ensures
        outcome is Ok ==> taken == Some(namespace) && declares_in_order(
            declare,
            Seq::new(namespace@.len(), |i: int| namespace@[i].0),
            state,
            end,
            Ok::<(), E>(()),
        ),
        outcome matches Err(AdapterError::Engine(error)) ==> declares_in_order(
            declare,
            Seq::new(namespace@.len(), |i: int| namespace@[i].0),
            state,
            end,
            Err::<(), E>(error),
        ),
        outcome is Err ==> final(registry)@ == old(registry)@ && outcome->Err_0 is Engine,
{
    assert(names_of(namespace@) =~= Seq::new(namespace@.len(), |i: int| namespace@[i].0));
    match outcome {
        Ok(_) => {
            lemma_declared_in_order(
                declare,
                names_of(namespace@),
                state,
                end,
                Ok::<(), E>(()),
            );
        }
        Err(AdapterError::Engine(error)) => {
            lemma_declared_in_order(
                declare,
                names_of(namespace@),
                state,
                end,
                Err::<(), E>(error),
            );
        }
        Err(AdapterError::Throw(_)) => {}
    }
}

/// In a registry of host modules a context declares what the module that its guest sees under a
/// name builds, and nothing where it has no guest or the guest sees none.
pub proof fn law_local_modules_declare_what_they_build<H, E, W, F>(
    registry: &mut HostRegistry<H, Namespace<H::Function, H::Value, H::Setter>>,
    context: ContextKey,
    name: String,
    text: &str,
    guest: Option<GuestId>,
    module: Option<Arc<H>>,
    state: W,
    declare: F,
    end: W,
    outcome: Result<(), AdapterError<E>>,
) where H: HostModule, F: Fn(W, String) -> (W, Result<(), E>)
    requires
        call_ensures(
            LocalAdapter::declare::<H, E, W, F>,
            (registry, context, name, state, declare),
            (end, outcome),
        ),
        text@ == name@,
        call_ensures(
            HostRegistry::<H, Namespace<H::Function, H::Value, H::Setter>>::resolve_context,
            (&*old(registry), context),
            guest,
        ),
        guest matches Some(id) ==> call_ensures(
            HostRegistry::<H, Namespace<H::Function, H::Value, H::Setter>>::lookup,
            (&*old(registry), id, text),
            module,
        ),
    ensures
        guest is None || module is None ==> end == state && (outcome matches Err(
            AdapterError::Throw(_),
        )) && final(registry)@ == old(registry)@,
        guest is Some && module is Some ==> exists|
            namespace: Namespace<H::Function, H::Value, H::Setter>,
        | #[trigger]
            module.unwrap().builds(Seq::empty(), namespace@) && match outcome {
                Ok(_) => declares_in_order(
                    declare,
                    Seq::new(namespace@.len(), |i: int| namespace@[i].0),
                    state,
                    end,
                    Ok::<(), E>(()),
                ),
                Err(AdapterError::Engine(error)) => declares_in_order(
                    declare,
                    Seq::new(namespace@.len(), |i: int| namespace@[i].0),
                    state,
                    end,
                    Err::<(), E>(error),
                ),
                Err(AdapterError::Throw(_)) => false,
            } && (outcome is Err ==> final(registry)@ == old(registry)@),
{
    if guest is Some && module is Some {
        let given = module.unwrap();
        let namespace = choose|namespace: Namespace<H::Function, H::Value, H::Setter>|
            #![trigger given.builds(Seq::empty(), namespace@)]
            given.builds(Seq::empty(), namespace@) && crate::host::module::names_declared(
                namespace@,
                declare,
                state,
                end,
                outcome,
            ) && (outcome is Err ==> final(registry)@ == old(registry)@);
        assert(names_of(namespace@) =~= Seq::new(namespace@.len(), |i: int| namespace@[i].0));
        match outcome {
            Ok(_) => {
                lemma_declared_in_order(
                    declare,
                    names_of(namespace@),
                    state,
                    end,
                    Ok::<(), E>(()),
                );
            }
            Err(AdapterError::Engine(error)) => {
                lemma_declared_in_order(
                    declare,
                    names_of(namespace@),
                    state,
                    end,
                    Err::<(), E>(error),
                );
            }
            Err(AdapterError::Throw(_)) => {}
        }
    }
}

/// In a registry of host modules evaluating a module exports what is staged for the guest of the
/// context, in order, and takes it away in any case.
pub proof fn law_local_exports_are_evaluated_once<H, E, W, F>(
    registry: &mut HostRegistry<H, Namespace<H::Function, H::Value, H::Setter>>,
    context: ContextKey,
    name: &str,
    state: W,
    export: F,
    end: W,
    outcome: Result<(), AdapterError<E>>,
    guest: Option<GuestId>,
    other: &mut HostRegistry<H, Namespace<H::Function, H::Value, H::Setter>>,
    taken: Option<Namespace<H::Function, H::Value, H::Setter>>,
) where
    H: HostModule,
    F: Fn(W, String, Export<H::Function, H::Value, H::Setter>) -> (W, Result<(), E>),

    requires
        call_ensures(
            LocalAdapter::evaluate::<H, E, W, F>,
            (registry, context, name, state, export),
            (end, outcome),
        ),
        call_ensures(
            HostRegistry::<H, Namespace<H::Function, H::Value, H::Setter>>::resolve_context,
            (&*old(registry), context),
            guest,
        ),
        *old(other) == *old(registry),
        guest matches Some(id) ==> call_ensures(
            HostRegistry::<H, Namespace<H::Function, H::Value, H::Setter>>::take_staged,
            (other, id, name),
            taken,
        ),
    ensures
        guest is None ==> end == state && (outcome matches Err(AdapterError::Throw(_)))
            && final(registry)@ == old(registry)@,
        guest is Some && taken is None ==> end == state && (outcome matches Err(
            AdapterError::Throw(_),
        )),
        guest is Some && taken is Some ==> exports_in_order(
            export,
            taken.unwrap()@,
            state,
            end,
            outcome,
        ),
        guest is Some ==> final(registry)@ == final(other)@,
{
    if guest is Some && taken is Some {
        lemma_exported_in_order(export, taken.unwrap()@, state, end, outcome);
    }
}

/// A specifier resolves to itself exactly where the guest of the context sees a module under it.
pub proof fn law_known_specifiers_resolve_to_themselves<H: HostModule, N>(
    registry: &HostRegistry<H, N>,
    context: ContextKey,
    base: &str,
    name: &str,
    resolved: Result<String, AdapterError<rquickjs::Error>>,
    guest: Option<GuestId>,
    known: bool,
)
    requires
        call_ensures(HostResolver::resolve::<H, N>, (registry, context, base, name), resolved),
        call_ensures(HostRegistry::<H, N>::resolve_context, (registry, context), guest),
        guest matches Some(id) ==> call_ensures(
            HostRegistry::<H, N>::is_known,
            (registry, id, name),
            known,
        ),
    ensures
        resolved is Ok <==> guest is Some && known,
        resolved matches Ok(path) ==> path@ == name@,
        guest is None ==> (resolved matches Err(AdapterError::Throw(_))),
        guest is Some && !known ==> resolved == Err::<String, AdapterError<rquickjs::Error>>(
            AdapterError::Engine(unresolved(base@, name@)),
        ),
{
}

/// The local adapter hands out the registry that is installed and the guest of a context, or throws
/// where there is none.
pub proof fn law_local_adapter_finds_its_guest<H: HostModule, N, E, R>(
    installed: Option<R>,
    handle: Result<R, AdapterError<E>>,
    registry: &HostRegistry<H, N>,
    context: ContextKey,
    found: Result<GuestId, AdapterError<E>>,
    guest: Option<GuestId>,
)
    requires
        call_ensures(LocalAdapter::registry::<R, E>, (installed,), handle),
        call_ensures(LocalAdapter::guest_id::<H, N, E>, (registry, context), found),
        call_ensures(HostRegistry::<H, N>::resolve_context, (registry, context), guest),
    ensures
        installed matches Some(given) ==> handle == Ok::<R, AdapterError<E>>(given),
        installed is None ==> (handle matches Err(AdapterError::Throw(_))),
        guest matches Some(id) ==> found == Ok::<GuestId, AdapterError<E>>(id),
        guest is None ==> (found matches Err(AdapterError::Throw(_))),
{
}

} // verus!
