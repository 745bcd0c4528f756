//! Runtimes, guests and scopes.

use std::rc::Rc;
use std::sync::Arc;
use std::time::Duration;
use vstd::prelude::*;

use crate::errors::Error;
use crate::execution::{fraction_of, seconds_of, CancelSignal};
use crate::host::library::{HostLibrary, HostLibraryEntry};
use crate::host::module::HostModule;
use crate::laws::errors::says_unexpected;
use crate::laws::handle::tells_detached;
use crate::native::initializer::NativeInitializer;
use crate::native::library::{NativeLibrary, NativeLibraryEntry};
use crate::registry::bindings::{BindingView, LibraryBinding};
use crate::registry::state::{ContextKey, ModuleRegistry};
use crate::runtime::{
    initializing, install_registry, interrupts, run_initializers, EngineSetting, GuestBuilder,
    GuestContext, RuntimeBuilder, RuntimeParts, Scope, TranspilerChoice,
};
use crate::steps::is_path;
use crate::transpiler::Transpiler;

verus! {

/// Each limit that was configured is set on the engine with its value, whatever else is configured,
/// and no other limit is.
pub proof fn law_every_configured_limit_is_set<H: HostModule, D, I, N, U, T: Transpiler>(
    builder: RuntimeBuilder<H, D, I, U, T>,
    typescript: bool,
    parts: RuntimeParts<H, D, I, N, U, T>,
    bytes: usize,
)
    requires
        call_ensures(
            RuntimeBuilder::<H, D, I, U, T>::build::<N>,
            (builder, typescript),
            parts,
        ),
    ensures
        parts.settings@.contains(EngineSetting::MemoryLimit(bytes)) <==> builder@.memory_limit
            == Some(bytes),
        parts.settings@.contains(EngineSetting::MaxStackSize(bytes)) <==> builder@.max_stack_size
            == Some(bytes),
        parts.settings@.contains(EngineSetting::GcThreshold(bytes)) <==> builder@.gc_threshold
            == Some(bytes),
{
    let settings = parts.settings@;
    if builder@.memory_limit == Some(bytes) {
        assert(settings[0] == EngineSetting::MemoryLimit(bytes));
    }
    if builder@.max_stack_size == Some(bytes) {
        let at: int = if builder@.memory_limit is Some { 1 } else { 0 };
        assert(settings[at] == EngineSetting::MaxStackSize(bytes));
    }
    if builder@.gc_threshold == Some(bytes) {
        assert(settings[settings.len() - 1] == EngineSetting::GcThreshold(bytes));
    }
}

/// Exactly as many limits are set on the engine as were configured.
pub proof fn law_no_limit_is_set_twice<H: HostModule, D, I, N, U, T: Transpiler>(
    builder: RuntimeBuilder<H, D, I, U, T>,
    typescript: bool,
    parts: RuntimeParts<H, D, I, N, U, T>,
)
    requires
        call_ensures(
            RuntimeBuilder::<H, D, I, U, T>::build::<N>,
            (builder, typescript),
            parts,
        ),
    ensures
        parts.settings@.no_duplicates(),
        parts.settings@.len() == (if builder@.memory_limit is Some {
            1int
        } else {
            0
        }) + (if builder@.max_stack_size is Some {
            1int
        } else {
            0
        }) + (if builder@.gc_threshold is Some {
            1int
        } else {
            0
        }),
{
}

/// A built runtime limits executions as configured, keeps the configured handler and bindings, and
/// has no guests yet.
pub proof fn law_built_runtime_is_what_was_configured<H: HostModule, D, I, N, U, T: Transpiler>(
    builder: RuntimeBuilder<H, D, I, U, T>,
    typescript: bool,
    parts: RuntimeParts<H, D, I, N, U, T>,
)
    requires
        call_ensures(
            RuntimeBuilder::<H, D, I, U, T>::build::<N>,
            (builder, typescript),
            parts,
        ),
    ensures
        parts.policy@.timeout is Some <==> builder@.timeout is Some,
        builder@.timeout matches Some(budget) ==> parts.policy@.timeout.unwrap() == seconds_of(
            budget,
        ) * 1_000_000_000 + fraction_of(budget),
        parts.policy@.signal == builder@.signal,
        parts.policy@.gc_after == builder@.gc_after,
        parts.policy@.since_gc == 0,
        parts.policy@.deadline == 0,
        parts.interrupt_handler == builder@.interrupt_handler,
        parts.registry@.bindings == builder@.bindings,
        parts.registry@.state.guests.dom() =~= Set::empty(),
        parts.registry@.state.contexts.dom() =~= Set::empty(),
{
}

/// The configured transpiler is taken where there is one; without one it depends on the support for
/// TypeScript alone whether sources are transpiled or kept.
pub proof fn law_configured_transpiler_is_taken<H: HostModule, D, I, N, U, T: Transpiler>(
    builder: RuntimeBuilder<H, D, I, U, T>,
    typescript: bool,
    parts: RuntimeParts<H, D, I, N, U, T>,
)
    requires
        call_ensures(
            RuntimeBuilder::<H, D, I, U, T>::build::<N>,
            (builder, typescript),
            parts,
        ),
    ensures
        builder@.transpiler matches Some(transpiler) ==> parts.transpiler
            == TranspilerChoice::Custom(transpiler),
        parts.transpiler is Custom ==> builder@.transpiler is Some,
        parts.transpiler is Oxc <==> builder@.transpiler is None && typescript,
        parts.transpiler is Absent <==> builder@.transpiler is None && !typescript,
{
}

/// A runtime that nothing was configured for has no limits, bindings, handler or transpiler.
pub proof fn law_default_runtime_has_no_limits<H, D, I, U, T>(builder: RuntimeBuilder<H, D, I, U, T>)
    requires
        call_ensures(<RuntimeBuilder<H, D, I, U, T> as Default>::default, (), builder),
    ensures
        builder@.bindings.len() == 0,
        builder@.memory_limit is None,
        builder@.max_stack_size is None,
        builder@.gc_threshold is None,
        builder@.timeout is None,
        builder@.signal is None,
        builder@.gc_after is None,
        builder@.interrupt_handler is None,
        builder@.transpiler is None,
{
}

/// Configuring a memory limit sets it and leaves everything else as it was.
pub proof fn law_memory_limit_is_configured<H: HostModule, D, I, U, T: Transpiler>(
    builder: RuntimeBuilder<H, D, I, U, T>,
    bytes: usize,
    next: RuntimeBuilder<H, D, I, U, T>,
)
    requires
        call_ensures(RuntimeBuilder::<H, D, I, U, T>::memory_limit, (builder, bytes), next),
    ensures
        next@.memory_limit == Some(bytes),
        next@.max_stack_size == builder@.max_stack_size,
        next@.gc_threshold == builder@.gc_threshold,
        next@.timeout == builder@.timeout,
        next@.signal == builder@.signal,
        next@.gc_after == builder@.gc_after,
        next@.interrupt_handler == builder@.interrupt_handler,
        next@.transpiler == builder@.transpiler,
        next@.bindings == builder@.bindings,
{
}

/// Configuring a stack size sets it and leaves everything else as it was.
pub proof fn law_stack_size_is_configured<H: HostModule, D, I, U, T: Transpiler>(
    builder: RuntimeBuilder<H, D, I, U, T>,
    bytes: usize,
    next: RuntimeBuilder<H, D, I, U, T>,
)
    requires
        call_ensures(RuntimeBuilder::<H, D, I, U, T>::max_stack_size, (builder, bytes), next),
    ensures
        next@.max_stack_size == Some(bytes),
        next@.memory_limit == builder@.memory_limit,
        next@.gc_threshold == builder@.gc_threshold,
        next@.timeout == builder@.timeout,
        next@.signal == builder@.signal,
        next@.gc_after == builder@.gc_after,
        next@.interrupt_handler == builder@.interrupt_handler,
        next@.transpiler == builder@.transpiler,
        next@.bindings == builder@.bindings,
{
}

/// Configuring a collection threshold sets it and leaves everything else as it was.
pub proof fn law_gc_threshold_is_configured<H: HostModule, D, I, U, T: Transpiler>(
    builder: RuntimeBuilder<H, D, I, U, T>,
    bytes: usize,
    next: RuntimeBuilder<H, D, I, U, T>,
)
    requires
        call_ensures(RuntimeBuilder::<H, D, I, U, T>::gc_threshold, (builder, bytes), next),
    ensures
        next@.gc_threshold == Some(bytes),
        next@.memory_limit == builder@.memory_limit,
        next@.max_stack_size == builder@.max_stack_size,
        next@.timeout == builder@.timeout,
        next@.signal == builder@.signal,
        next@.gc_after == builder@.gc_after,
        next@.interrupt_handler == builder@.interrupt_handler,
        next@.transpiler == builder@.transpiler,
        next@.bindings == builder@.bindings,
{
}

/// Configuring a time budget sets it and leaves everything else as it was.
pub proof fn law_timeout_is_configured<H: HostModule, D, I, U, T: Transpiler>(
    builder: RuntimeBuilder<H, D, I, U, T>,
    budget: Duration,
    next: RuntimeBuilder<H, D, I, U, T>,
)
    requires
        call_ensures(RuntimeBuilder::<H, D, I, U, T>::execution_timeout, (builder, budget), next),
    ensures
        next@.timeout == Some(budget),
        next@.memory_limit == builder@.memory_limit,
        next@.max_stack_size == builder@.max_stack_size,
        next@.gc_threshold == builder@.gc_threshold,
        next@.signal == builder@.signal,
        next@.gc_after == builder@.gc_after,
        next@.interrupt_handler == builder@.interrupt_handler,
        next@.transpiler == builder@.transpiler,
        next@.bindings == builder@.bindings,
{
}

/// Configuring a cancellation signal sets it and leaves everything else as it was.
pub proof fn law_cancellation_is_configured<H: HostModule, D, I, U, T: Transpiler>(
    builder: RuntimeBuilder<H, D, I, U, T>,
    signal: Option<Arc<dyn CancelSignal>>,
    next: RuntimeBuilder<H, D, I, U, T>,
)
    requires
        call_ensures(RuntimeBuilder::<H, D, I, U, T>::cancellation, (builder, signal), next),
    ensures
        next@.signal == signal,
        next@.memory_limit == builder@.memory_limit,
        next@.max_stack_size == builder@.max_stack_size,
        next@.gc_threshold == builder@.gc_threshold,
        next@.timeout == builder@.timeout,
        next@.gc_after == builder@.gc_after,
        next@.interrupt_handler == builder@.interrupt_handler,
        next@.transpiler == builder@.transpiler,
        next@.bindings == builder@.bindings,
{
}

/// Configuring the executions between collections sets them and leaves everything else as it was.
pub proof fn law_gc_after_is_configured<H: HostModule, D, I, U, T: Transpiler>(
    builder: RuntimeBuilder<H, D, I, U, T>,
    executions: u32,
    next: RuntimeBuilder<H, D, I, U, T>,
)
    requires
        call_ensures(RuntimeBuilder::<H, D, I, U, T>::gc_after, (builder, executions), next),
    ensures
        next@.gc_after == Some(executions),
        next@.memory_limit == builder@.memory_limit,
        next@.max_stack_size == builder@.max_stack_size,
        next@.gc_threshold == builder@.gc_threshold,
        next@.timeout == builder@.timeout,
        next@.signal == builder@.signal,
        next@.interrupt_handler == builder@.interrupt_handler,
        next@.transpiler == builder@.transpiler,
        next@.bindings == builder@.bindings,
{
}

/// Configuring an interrupt handler sets it and leaves everything else as it was.
pub proof fn law_interrupt_handler_is_configured<H: HostModule, D, I, U, T: Transpiler>(
    builder: RuntimeBuilder<H, D, I, U, T>,
    handler: U,
    next: RuntimeBuilder<H, D, I, U, T>,
)
    requires
        call_ensures(RuntimeBuilder::<H, D, I, U, T>::interrupt_handler, (builder, handler), next),
    ensures
        next@.interrupt_handler == Some(handler),
        next@.memory_limit == builder@.memory_limit,
        next@.max_stack_size == builder@.max_stack_size,
        next@.gc_threshold == builder@.gc_threshold,
        next@.timeout == builder@.timeout,
        next@.signal == builder@.signal,
        next@.gc_after == builder@.gc_after,
        next@.transpiler == builder@.transpiler,
        next@.bindings == builder@.bindings,
{
}

/// Configuring a transpiler sets it and leaves everything else as it was.
pub proof fn law_transpiler_is_configured<H: HostModule, D, I, U, T: Transpiler>(
    builder: RuntimeBuilder<H, D, I, U, T>,
    transpiler: T,
    next: RuntimeBuilder<H, D, I, U, T>,
)
    requires
        call_ensures(RuntimeBuilder::<H, D, I, U, T>::transpiler, (builder, transpiler), next),
    ensures
        next@.transpiler == Some(transpiler),
        next@.memory_limit == builder@.memory_limit,
        next@.max_stack_size == builder@.max_stack_size,
        next@.gc_threshold == builder@.gc_threshold,
        next@.timeout == builder@.timeout,
        next@.signal == builder@.signal,
        next@.gc_after == builder@.gc_after,
        next@.interrupt_handler == builder@.interrupt_handler,
        next@.bindings == builder@.bindings,
{
}

/// Binding a host library to a runtime adds each of its modules and initializers, in order, behind
/// what is bound already.
pub proof fn law_runtime_binds_every_host_entry<H: HostModule, D, I, U, T: Transpiler>(
    builder: RuntimeBuilder<H, D, I, U, T>,
    library: HostLibrary<H, I>,
    next: RuntimeBuilder<H, D, I, U, T>,
    i: int,
)
    requires
        call_ensures(RuntimeBuilder::<H, D, I, U, T>::bind, (builder, library), next),
    ensures
        next@.bindings.len() == builder@.bindings.len() + library@.len(),
        0 <= i < builder@.bindings.len() ==> next@.bindings[i] == builder@.bindings[i],
        0 <= i < library@.len() ==> match library@[i] {
            HostLibraryEntry::Module(module) => next@.bindings[builder@.bindings.len() + i]
                == BindingView::<H, D, I>::Host(*module),
            HostLibraryEntry::Initializer(initializer) => next@.bindings[builder@.bindings.len()
                + i] == BindingView::<H, D, I>::Initializer(initializer@),
        },
        next@.memory_limit == builder@.memory_limit,
        next@.max_stack_size == builder@.max_stack_size,
        next@.gc_threshold == builder@.gc_threshold,
        next@.timeout == builder@.timeout,
        next@.signal == builder@.signal,
        next@.gc_after == builder@.gc_after,
        next@.interrupt_handler == builder@.interrupt_handler,
        next@.transpiler == builder@.transpiler,
{
}

/// Binding a native library to a runtime adds each of its modules and initializers, in order,
/// behind what is bound already.
pub proof fn law_runtime_binds_every_native_entry<H: HostModule, D, I, U, T: Transpiler>(
    builder: RuntimeBuilder<H, D, I, U, T>,
    library: NativeLibrary<D, I>,
    next: RuntimeBuilder<H, D, I, U, T>,
    i: int,
)
    requires
        call_ensures(RuntimeBuilder::<H, D, I, U, T>::bind_native, (builder, library), next),
    ensures
        next@.bindings.len() == builder@.bindings.len() + library@.len(),
        0 <= i < builder@.bindings.len() ==> next@.bindings[i] == builder@.bindings[i],
        0 <= i < library@.len() ==> match library@[i] {
            NativeLibraryEntry::Module(module) => next@.bindings[builder@.bindings.len() + i]
                == BindingView::<H, D, I>::Native(module@),
            NativeLibraryEntry::Initializer(initializer) => next@.bindings[builder@.bindings.len()
                + i] == BindingView::<H, D, I>::Initializer(initializer@),
        },
        next@.memory_limit == builder@.memory_limit,
        next@.max_stack_size == builder@.max_stack_size,
        next@.gc_threshold == builder@.gc_threshold,
        next@.timeout == builder@.timeout,
        next@.signal == builder@.signal,
        next@.gc_after == builder@.gc_after,
        next@.interrupt_handler == builder@.interrupt_handler,
        next@.transpiler == builder@.transpiler,
{
}

/// Binding a host library to a guest adds each of its modules and initializers, in order, behind
/// what is bound already.
pub proof fn law_guest_binds_every_host_entry<H: HostModule, D, I>(
    builder: GuestBuilder<H, D, I>,
    library: HostLibrary<H, I>,
    next: GuestBuilder<H, D, I>,
    i: int,
)
    requires
        call_ensures(GuestBuilder::<H, D, I>::bind, (builder, library), next),
    ensures
        next@.len() == builder@.len() + library@.len(),
        0 <= i < builder@.len() ==> next@[i] == builder@[i],
        0 <= i < library@.len() ==> match library@[i] {
            HostLibraryEntry::Module(module) => next@[builder@.len() + i] == BindingView::<
                H,
                D,
                I,
            >::Host(*module),
            HostLibraryEntry::Initializer(initializer) => next@[builder@.len() + i]
                == BindingView::<H, D, I>::Initializer(initializer@),
        },
{
}

/// Binding a native library to a guest adds each of its modules and initializers, in order, behind
/// what is bound already.
pub proof fn law_guest_binds_every_native_entry<H: HostModule, D, I>(
    builder: GuestBuilder<H, D, I>,
    library: NativeLibrary<D, I>,
    next: GuestBuilder<H, D, I>,
    i: int,
)
    requires
        call_ensures(GuestBuilder::<H, D, I>::bind_native, (builder, library), next),
    ensures
        next@.len() == builder@.len() + library@.len(),
        0 <= i < builder@.len() ==> next@[i] == builder@[i],
        0 <= i < library@.len() ==> match library@[i] {
            NativeLibraryEntry::Module(module) => next@[builder@.len() + i] == BindingView::<
                H,
                D,
                I,
            >::Native(module@),
            NativeLibraryEntry::Initializer(initializer) => next@[builder@.len() + i]
                == BindingView::<H, D, I>::Initializer(initializer@),
        },
{
}

/// A guest without libraries has no bindings, and what is bound is handed out one for one.
pub proof fn law_guest_bindings_are_handed_out<H: HostModule, D, I>(
    fresh: GuestBuilder<H, D, I>,
    builder: GuestBuilder<H, D, I>,
    bindings: Vec<LibraryBinding<H, D, I>>,
    i: int,
)
    requires
        call_ensures(GuestBuilder::<H, D, I>::new, (), fresh),
        call_ensures(GuestBuilder::<H, D, I>::into_bindings, (builder,), bindings),
    ensures
        fresh@.len() == 0,
        bindings@.len() == builder@.len(),
        0 <= i < bindings@.len() ==> match bindings@[i] {
            LibraryBinding::Host(module) => builder@[i] == BindingView::<H, D, I>::Host(*module),
            LibraryBinding::Native(module) => builder@[i] == BindingView::<H, D, I>::Native(
                module@,
            ),
            LibraryBinding::Initializer(initializer) => builder@[i] == BindingView::<
                H,
                D,
                I,
            >::Initializer(initializer@),
        },
{
}

/// An interrupt stops the engine exactly where the limits or the configured handler say so.
pub proof fn law_interrupts_follow_limits_and_handler<F: FnOnce() -> bool>(
    aborted: bool,
    handler: Option<F>,
    stop: bool,
)
    requires
        call_ensures(interrupts::<F>, (aborted, handler), stop),
    ensures
        aborted ==> stop,
        !aborted && handler is None ==> !stop,
        !aborted ==> (handler matches Some(handler) ==> call_ensures(handler, (), stop)),
{
}

/// The registry is stored exactly once: where it is installed already nothing can fail, and else
/// the installation succeeds exactly where storing it does.
pub proof fn law_registry_is_installed_once<F: FnOnce() -> bool>(
    installed: bool,
    store: F,
    outcome: Result<(), Error>,
)
    requires
        call_ensures(install_registry::<F>, (installed, store), outcome),
    ensures
        installed ==> outcome is Ok,
        !installed && outcome is Ok ==> call_ensures(store, (), true),
        !installed && outcome is Err ==> call_ensures(store, (), false),
        outcome matches Err(error) ==> says_unexpected(
            error,
            "failed to store the module registry as userdata"@,
        ),
{
}

/// Initializers run in order, each on what the one before it left, until one fails: a success has
/// run all of them, and a failure is that of one behind which none has run.
pub proof fn law_initializers_run_in_order<I, W, F>(
    initializers: Vec<NativeInitializer<I>>,
    state: W,
    run: F,
    end: W,
    outcome: Result<(), Error>,
) where F: Fn(W, &NativeInitializer<I>) -> (W, Result<(), Error>)
    requires
        call_ensures(run_initializers::<I, W, F>, (initializers, state, run), (end, outcome)),
    ensures
        outcome is Ok ==> exists|states: Seq<W>|
            #![trigger states.len()]
            states.len() == initializers@.len() + 1 && states[0] == state && states.last() == end
                && forall|i: int|
                0 <= i < initializers@.len() ==> #[trigger] call_ensures(
                    run,
                    (states[i], &initializers@[i]),
                    (states[i + 1], Ok::<(), Error>(())),
                ),
        outcome matches Err(error) ==> exists|states: Seq<W>|
            #![trigger states.len()]
            0 < states.len() <= initializers@.len() && states[0] == state && call_ensures(
                run,
                (states.last(), &initializers@[states.len() - 1]),
                (end, Err::<(), Error>(error)),
            ) && forall|i: int|
                0 <= i < states.len() - 1 ==> #[trigger] call_ensures(
                    run,
                    (states[i], &initializers@[i]),
                    (states[i + 1], Ok::<(), Error>(())),
                ),
{
    let step = initializing(run, initializers@);
    let states = choose|states: Seq<W>| #[trigger]
        is_path(step, state, states) && match outcome {
            Ok(_) => states.len() == initializers@.len() + 1 && states.last() == end,
            Err(error) => states.len() <= initializers@.len() && step(
                states.len() - 1,
                states.last(),
                end,
                Err(error),
            ),
        };
    assert(states.len() > 0);
    assert forall|i: int| 0 <= i < states.len() - 1 implies #[trigger] call_ensures(
        run,
        (states[i], &initializers@[i]),
        (states[i + 1], Ok::<(), Error>(())),
    ) by {
        assert(step(i, states[i], states[i + 1], Ok(())));
    }
}

/// A scope keeps the engine's context and its owner; one without an owner has none to give.
pub proof fn law_scopes_keep_their_owner<X, G>(
    ctx: X,
    parent: Rc<G>,
    attached: Scope<X, G>,
    detached: Scope<X, G>,
    owner: Result<Rc<G>, Error>,
    missing: Result<Rc<G>, Error>,
    found: Option<&Rc<G>>,
    none: Option<&Rc<G>>,
    kept: &X,
)
    requires
        call_ensures(Scope::<X, G>::new, (ctx, parent), attached),
        call_ensures(Scope::<X, G>::detached, (ctx,), detached),
        call_ensures(Scope::<X, G>::owner, (&attached,), owner),
        call_ensures(Scope::<X, G>::owner, (&detached,), missing),
        call_ensures(Scope::<X, G>::parent, (&attached,), found),
        call_ensures(Scope::<X, G>::parent, (&detached,), none),
        call_ensures(Scope::<X, G>::ctx, (&attached,), kept),
    ensures
        owner matches Ok(given) && *given == *parent,
        missing matches Err(error) && tells_detached(error),
        found matches Some(given) && **given == *parent,
        none is None,
        *kept == ctx,
{
}

/// The source of a guest module is prepared by the transpiler of the guest: kept where there is
/// none, and otherwise what the configured one gives. A detached scope prepares nothing.
pub proof fn law_guest_sources_go_through_the_transpiler<X, E, T: Transpiler>(
    scope: &Scope<X, GuestContext<E, T>>,
    name: &str,
    source: &str,
    prepared: Result<String, Error>,
)
    requires
        call_ensures(
            Scope::<X, GuestContext<E, T>>::guest_source,
            (scope, name, source),
            prepared,
        ),
    ensures
        scope@.1 is None ==> (prepared matches Err(error) && tells_detached(error)),
        scope@.1 matches Some(parent) ==> (*parent.transpiler is Absent ==> (prepared matches Ok(
            text,
        ) && text@ == source@)),
        scope@.1 matches Some(parent) ==> (*parent.transpiler matches TranspilerChoice::Custom(
            transpiler,
        ) ==> call_ensures(T::transpile, (&transpiler, name, source), prepared)),
{
}

/// A scope leads a module name to the route that the registry has for it. A detached scope leads
/// nowhere, and neither does one without a registry.
pub proof fn law_scopes_find_host_routes<X, G, H: HostModule, D, I, N>(
    scope: &Scope<X, G>,
    registry: Option<&ModuleRegistry<H, D, I, N>>,
    context: ContextKey,
    name: &str,
    route: Result<String, Error>,
    direct: Result<String, Error>,
)
    requires
        call_ensures(
            Scope::<X, G>::host_route::<H, D, I, N>,
            (scope, registry, context, name),
            route,
        ),
        registry matches Some(own) ==> call_ensures(
            ModuleRegistry::<H, D, I, N>::host_route,
            (own, context, name),
            direct,
        ),
    ensures
        scope@.1 is None ==> (route matches Err(error) && tells_detached(error)),
        scope@.1 is Some && registry is None ==> (route matches Err(error) && says_unexpected(
            error,
            "module registry is not installed"@,
        )),
        scope@.1 is Some && registry is Some ==> (route is Ok <==> direct is Ok) && (
        route matches Ok(path) ==> direct->Ok_0@ == path@) && (route matches Err(error)
            ==> says_unexpected(error, "host module `"@ + name@ + "` is not registered"@)),
{
}

} // verus!
