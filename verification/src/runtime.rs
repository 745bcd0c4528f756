//! Runtimes, guests and the scopes in which guest code runs.

use std::rc::Rc;
use std::sync::Arc;
use std::time::{Duration, Instant};
use vstd::prelude::*;

use crate::errors::Error;
use crate::execution::{may_be_now, nanos_of, CancelSignal, ExecutionPolicy, PolicyView};
use crate::host::library::HostLibrary;
use crate::host::module::HostModule;
use crate::native::initializer::NativeInitializer;
use crate::native::library::NativeLibrary;
use crate::registry::bindings::{
    binding_views, host_bindings, native_bindings, BindingView, LibraryBinding,
};
use crate::registry::state::{
    ContextKey, GuestId, ModuleRegistry, RuntimeView, StateView,
};
use crate::steps::{in_order, is_path, lemma_path_begins, lemma_path_goes_on};
use crate::transpiler::{is_portable, staged, transpiled, OxcTranspiler, Transpiler};

verus! {

/// A limit that is set on a new engine.
#[derive(Clone, Copy, Debug, PartialEq, Eq, Structural)]
pub enum EngineSetting {
    /// The number of bytes that may be allocated.
    MemoryLimit(usize),
    /// The call-stack size in bytes.
    MaxStackSize(usize),
    /// The allocation threshold that triggers garbage collection.
    GcThreshold(usize),
}

/// The transpiler of a runtime.
pub enum TranspilerChoice<T> {
    /// One that was configured.
    Custom(T),
    /// The one for TypeScript.
    Oxc(OxcTranspiler),
    /// None: sources are JavaScript already.
    Absent,
}

impl<T: Transpiler> TranspilerChoice<T> {
    /// Whether transpiling the source of a named module gave a result.
    pub open spec fn gave(self, name: &str, source: &str, result: Result<String, Error>) -> bool {
        match self {
            TranspilerChoice::Custom(transpiler) => call_ensures(
                T::transpile,
                (&transpiler, name, source),
                result,
            ),
            TranspilerChoice::Oxc(_) => {
                &&& is_portable(name@) ==> transpiled(name@, source@, result)
                &&& staged(name, source, result)
            },
            TranspilerChoice::Absent => result matches Ok(text) && text@ == source@,
        }
    }

    /// Turns the source of a named module into JavaScript. Without a transpiler it is kept.
    pub fn transpile(&self, name: &str, source: &str) -> (r: Result<String, Error>)
        ensures
            self.gave(name, source, r),
    {
        match self {
            TranspilerChoice::Custom(transpiler) => transpiler.transpile(name, source),
            TranspilerChoice::Oxc(transpiler) => transpiler.transpile(name, source),
            TranspilerChoice::Absent => Ok(source.to_owned()),
        }
    }
}

/// What the configuration of a runtime stands for.
pub struct BuilderView<H, D, I, U, T> {
    pub bindings: Seq<BindingView<H, D, I>>,
    pub memory_limit: Option<usize>,
    pub max_stack_size: Option<usize>,
    pub gc_threshold: Option<usize>,
    pub timeout: Option<Duration>,
    pub signal: Option<Arc<dyn CancelSignal>>,
    pub gc_after: Option<u32>,
    pub interrupt_handler: Option<U>,
    pub transpiler: Option<T>,
}

/// The limits that a configuration sets on a new engine, in the order in which they are set.
pub open spec fn settings_of<H, D, I, U, T>(view: BuilderView<H, D, I, U, T>) -> Seq<
    EngineSetting,
> {
    let memory = match view.memory_limit {
        Some(bytes) => seq![EngineSetting::MemoryLimit(bytes)],
        None => Seq::empty(),
    };
    let stack = match view.max_stack_size {
        Some(bytes) => seq![EngineSetting::MaxStackSize(bytes)],
        None => Seq::empty(),
    };
    let threshold = match view.gc_threshold {
        Some(bytes) => seq![EngineSetting::GcThreshold(bytes)],
        None => Seq::empty(),
    };
    memory + stack + threshold
}

/// The limits on guest executions that a configuration sets, with times counted from an instant.
pub open spec fn policy_of<H, D, I, U, T>(
    view: BuilderView<H, D, I, U, T>,
    started: Instant,
) -> PolicyView {
    PolicyView {
        timeout: match view.timeout {
            Some(budget) => Some(nanos_of(budget) as u128),
            None => None,
        },
        signal: view.signal,
        started,
        deadline: 0,
        gc_after: view.gc_after,
        since_gc: 0,
    }
}

/// Configures a runtime. The type parameters stand for the host modules, the definitions of native
/// modules, the initializers, the interrupt handler and the transpiler.
pub struct RuntimeBuilder<H, D, I, U, T> {
    bindings: Vec<LibraryBinding<H, D, I>>,
    memory_limit: Option<usize>,
    max_stack_size: Option<usize>,
    gc_threshold: Option<usize>,
    timeout: Option<Duration>,
    cancellation: Option<Arc<dyn CancelSignal>>,
    gc_after: Option<u32>,
    interrupt_handler: Option<U>,
    transpiler: Option<T>,
}

/// What a runtime is made of, besides the engine.
pub struct RuntimeParts<H, D, I, N, U, T> {
    /// The limits that are set on the engine, in order.
    pub settings: Vec<EngineSetting>,
    /// The limits on guest executions.
    pub policy: ExecutionPolicy,
    /// The configured interrupt handler.
    pub interrupt_handler: Option<U>,
    /// The registry of guests and modules.
    pub registry: ModuleRegistry<H, D, I, N>,
    /// The transpiler.
    pub transpiler: TranspilerChoice<T>,
}

impl<H, D, I, U, T> View for RuntimeBuilder<H, D, I, U, T> {
    type V = BuilderView<H, D, I, U, T>;

    closed spec fn view(&self) -> BuilderView<H, D, I, U, T> {
        BuilderView {
            bindings: binding_views(self.bindings@),
            memory_limit: self.memory_limit,
            max_stack_size: self.max_stack_size,
            gc_threshold: self.gc_threshold,
            timeout: self.timeout,
            signal: self.cancellation,
            gc_after: self.gc_after,
            interrupt_handler: self.interrupt_handler,
            transpiler: self.transpiler,
        }
    }
}

impl<H, D, I, U, T> Default for RuntimeBuilder<H, D, I, U, T> {
    fn default() -> (r: Self)
        ensures
            r@ == (BuilderView::<H, D, I, U, T> {
                bindings: Seq::empty(),
                memory_limit: None,
                max_stack_size: None,
                gc_threshold: None,
                timeout: None,
                signal: None,
                gc_after: None,
                interrupt_handler: None,
                transpiler: None,
            }),
    {
        let r = RuntimeBuilder {
            bindings: Vec::new(),
            memory_limit: None,
            max_stack_size: None,
            gc_threshold: None,
            timeout: None,
            cancellation: None,
            gc_after: None,
            interrupt_handler: None,
            transpiler: None,
        };
        assert(r@.bindings =~= Seq::<BindingView<H, D, I>>::empty());
        r
    }
}

impl<H: HostModule, D, I, U, T: Transpiler> RuntimeBuilder<H, D, I, U, T> {
    /// Adds a [`HostLibrary`](crate::host::HostLibrary).
    pub fn bind(self, library: HostLibrary<H, I>) -> (r: Self)
        ensures
            r@ == (BuilderView {
                bindings: self@.bindings + host_bindings::<H, D, I>(library@),
                ..self@
            }),
    {
        let mut builder = self;
        let ghost before = builder.bindings@;
        let mut added = LibraryBinding::from_host(library);
        let ghost more = added@;
        builder.bindings.append(&mut added);
        assert(builder@.bindings =~= binding_views(before) + binding_views(more));
        builder
    }

    /// Adds a [`NativeLibrary`](crate::native::NativeLibrary).
    pub fn bind_native(self, library: NativeLibrary<D, I>) -> (r: Self)
        ensures
            r@ == (BuilderView {
                bindings: self@.bindings + native_bindings::<H, D, I>(library@),
                ..self@
            }),
    {
        let mut builder = self;
        let ghost before = builder.bindings@;
        let mut added = LibraryBinding::from_native(library);
        let ghost more = added@;
        builder.bindings.append(&mut added);
        assert(builder@.bindings =~= binding_views(before) + binding_views(more));
        builder
    }

    /// Limits the number of bytes the runtime may allocate.
    pub fn memory_limit(self, bytes: usize) -> (r: Self)
        ensures
            r@ == (BuilderView { memory_limit: Some(bytes), ..self@ }),
    {
        let mut builder = self;
        builder.memory_limit = Some(bytes);
        builder
    }

    /// Limits the engine call-stack size in bytes.
    pub fn max_stack_size(self, bytes: usize) -> (r: Self)
        ensures
            r@ == (BuilderView { max_stack_size: Some(bytes), ..self@ }),
    {
        let mut builder = self;
        builder.max_stack_size = Some(bytes);
        builder
    }

    /// Sets the allocation threshold that triggers garbage collection.
    pub fn gc_threshold(self, bytes: usize) -> (r: Self)
        ensures
            r@ == (BuilderView { gc_threshold: Some(bytes), ..self@ }),
    {
        let mut builder = self;
        builder.gc_threshold = Some(bytes);
        builder
    }

    /// Sets the time budget for each guest execution.
    pub fn execution_timeout(self, budget: Duration) -> (r: Self)
        ensures
            r@ == (BuilderView { timeout: Some(budget), ..self@ }),
    {
        let mut builder = self;
        builder.timeout = Some(budget);
        builder
    }

    /// Sets the cancellation signal for guest executions, or takes it away.
    pub fn cancellation(self, signal: Option<Arc<dyn CancelSignal>>) -> (r: Self)
        ensures
            r@ == (BuilderView { signal, ..self@ }),
    {
        let mut builder = self;
        builder.cancellation = signal;
        builder
    }

    /// Sets the number of guest executions between garbage collections.
    pub fn gc_after(self, executions: u32) -> (r: Self)
        ensures
            r@ == (BuilderView { gc_after: Some(executions), ..self@ }),
    {
        let mut builder = self;
        builder.gc_after = Some(executions);
        builder
    }

    /// Sets the engine interrupt handler.
    pub fn interrupt_handler(self, handler: U) -> (r: Self)
        ensures
            r@ == (BuilderView { interrupt_handler: Some(handler), ..self@ }),
    {
        let mut builder = self;
        builder.interrupt_handler = Some(handler);
        builder
    }

    /// Sets the transpiler applied to source before it is loaded.
    pub fn transpiler(self, transpiler: T) -> (r: Self)
        ensures
            r@ == (BuilderView { transpiler: Some(transpiler), ..self@ }),
    {
        let mut builder = self;
        builder.transpiler = Some(transpiler);
        builder
    }

    /// Lays out the configured runtime. Where no transpiler is configured, TypeScript is transpiled
    /// if it is supported, and otherwise sources are kept.
    pub fn build<N>(self, typescript: bool) -> (r: RuntimeParts<H, D, I, N, U, T>)
        ensures
            r.settings@ == settings_of(self@),
            r.policy@ == policy_of(self@, r.policy@.started),
            may_be_now(r.policy@.started),
            r.interrupt_handler == self@.interrupt_handler,
            r.registry@ == (RuntimeView {
                bindings: self@.bindings,
                state: StateView::<H, D, I, N>::empty(),
            }),
            match self@.transpiler {
                Some(transpiler) => r.transpiler == TranspilerChoice::Custom(transpiler),
                None => if typescript {
                    r.transpiler is Oxc
                } else {
                    r.transpiler is Absent
                },
            },
    {
        let RuntimeBuilder {
            bindings,
            memory_limit,
            max_stack_size,
            gc_threshold,
            timeout,
            cancellation,
            gc_after,
            interrupt_handler,
            transpiler,
        } = self;
        let mut settings: Vec<EngineSetting> = Vec::new();
        if let Some(bytes) = memory_limit {
            settings.push(EngineSetting::MemoryLimit(bytes));
        }
        if let Some(bytes) = max_stack_size {
            settings.push(EngineSetting::MaxStackSize(bytes));
        }
        if let Some(bytes) = gc_threshold {
            settings.push(EngineSetting::GcThreshold(bytes));
        }
        assert(settings@ =~= settings_of(self@));
        let policy = ExecutionPolicy::new(timeout, cancellation, gc_after);
        assert(policy@ == policy_of(self@, policy@.started));
        RuntimeParts {
            settings,
            policy,
            interrupt_handler,
            registry: ModuleRegistry::new(bindings),
            transpiler: match transpiler {
                Some(transpiler) => TranspilerChoice::Custom(transpiler),
                None => if typescript {
                    TranspilerChoice::Oxc(OxcTranspiler)
                } else {
                    TranspilerChoice::Absent
                },
            },
        }
    }
}

/// Decides an interrupt of the engine: the limits come first, and the configured handler is asked
/// only where they let the execution go on.
pub fn interrupts<F>(aborted: bool, handler: Option<F>) -> (r: bool) where F: FnOnce() -> bool
    requires
        !aborted ==> (handler matches Some(handler) ==> call_requires(handler, ())),
    ensures
        aborted ==> r,
        !aborted && handler is None ==> !r,
        !aborted ==> (handler matches Some(handler) ==> call_ensures(handler, (), r)),
{
    if aborted {
        return true;
    }
    match handler {
        Some(handler) => handler(),
        None => false,
    }
}

/// Configures a guest.
pub struct GuestBuilder<H, D, I> {
    bindings: Vec<LibraryBinding<H, D, I>>,
}

impl<H, D, I> View for GuestBuilder<H, D, I> {
    type V = Seq<BindingView<H, D, I>>;

    closed spec fn view(&self) -> Seq<BindingView<H, D, I>> {
        binding_views(self.bindings@)
    }
}

impl<H: HostModule, D, I> GuestBuilder<H, D, I> {
    /// Creates the configuration of a guest without bindings of its own.
    pub fn new() -> (r: Self)
        ensures
            r@ == Seq::<BindingView<H, D, I>>::empty(),
    {
        let r = GuestBuilder { bindings: Vec::new() };
        assert(r@ =~= Seq::<BindingView<H, D, I>>::empty());
        r
    }

    /// Adds a [`HostLibrary`](crate::host::HostLibrary).
    pub fn bind(self, library: HostLibrary<H, I>) -> (r: Self)
        ensures
            r@ == self@ + host_bindings::<H, D, I>(library@),
    {
        let mut builder = self;
        let ghost before = builder.bindings@;
        let mut added = LibraryBinding::from_host(library);
        let ghost more = added@;
        builder.bindings.append(&mut added);
        assert(builder@ =~= binding_views(before) + binding_views(more));
        builder
    }

    /// Adds a [`NativeLibrary`](crate::native::NativeLibrary).
    pub fn bind_native(self, library: NativeLibrary<D, I>) -> (r: Self)
        ensures
            r@ == self@ + native_bindings::<H, D, I>(library@),
    {
        let mut builder = self;
        let ghost before = builder.bindings@;
        let mut added = LibraryBinding::from_native(library);
        let ghost more = added@;
        builder.bindings.append(&mut added);
        assert(builder@ =~= binding_views(before) + binding_views(more));
        builder
    }

    /// Returns the bindings of the guest.
    pub fn into_bindings(self) -> (r: Vec<LibraryBinding<H, D, I>>)
        ensures
            binding_views(r@) == self@,
    {
        self.bindings
    }
}

/// Makes the registry reachable from the engine. It is stored once, by the first guest.
pub fn install_registry<F>(installed: bool, store: F) -> (r: Result<(), Error>) where
    F: FnOnce() -> bool,

    requires
        !installed ==> call_requires(store, ()),
    ensures
        installed ==> r is Ok,
        !installed ==> call_ensures(store, (), r is Ok),
        r matches Err(error) ==> error is Unexpected && error.details() == Some(
            ("failed to store the module registry as userdata"@, None::<Seq<char>>),
        ),
{
    if installed || store() {
        Ok(())
    } else {
        Err(Error::unexpected("failed to store the module registry as userdata"))
    }
}

/// The runs of initializers, as steps.
pub open spec fn initializing<I, W, F>(run: F, initializers: Seq<NativeInitializer<I>>) -> spec_fn(
    int,
    W,
    W,
    Result<(), Error>,
) -> bool where F: Fn(W, &NativeInitializer<I>) -> (W, Result<(), Error>) {
    |i: int, before: W, after: W, outcome: Result<(), Error>|
        call_ensures(run, (before, &initializers[i]), (after, outcome))
}

/// Runs the initializers of a guest, in order, until one fails. What they work on is passed from
/// one to the next.
pub fn run_initializers<I, W, F>(
    initializers: Vec<NativeInitializer<I>>,
    state: W,
    run: F,
) -> (r: (W, Result<(), Error>)) where
    F: Fn(W, &NativeInitializer<I>) -> (W, Result<(), Error>),

    requires
        forall|state: W, initializer: &NativeInitializer<I>|
            call_requires(run, (state, initializer)),
    ensures
        in_order(initializing(run, initializers@), initializers@.len(), state, r.0, r.1),
{
    let ghost step = initializing(run, initializers@);
    let ghost mut states: Seq<W> = seq![state];
    proof {
        lemma_path_begins(step, state);
    }
    let mut current = state;
    let mut i: usize = 0;
    while i < initializers.len()
        invariant
            i <= initializers@.len(),
            forall|state: W, initializer: &NativeInitializer<I>|
                call_requires(run, (state, initializer)),
            step == initializing(run, initializers@),
            is_path(step, state, states),
            states.len() == i + 1,
            states.last() == current,
        decreases initializers@.len() - i,
    {
        let (next, outcome) = run(current, &initializers[i]);
        assert(step(i as int, states.last(), next, outcome));
        match outcome {
            Ok(unit) => {
                proof {
                    assert(unit == ());
                    lemma_path_goes_on(step, state, states, next);
                    states = states.push(next);
                }
                current = next;
            }
            Err(error) => {
                return (next, Err(error));
            }
        }
        i += 1;
    }
    (current, Ok(()))
}

/// The owning context of a guest. The type parameters stand for what the engine keeps for the guest
/// and the configured transpiler.
pub struct GuestContext<E, T> {
    /// What the engine keeps for the guest.
    pub inner: E,
    /// The guest.
    pub id: GuestId,
    /// The transpiler of the runtime.
    pub transpiler: Rc<TranspilerChoice<T>>,
}

/// A live guest execution scope.
pub struct Scope<X, G> {
    ctx: X,
    parent: Option<Rc<G>>,
}

impl<X, G> View for Scope<X, G> {
    type V = (X, Option<G>);

    /// The engine's context and the owning context.
    closed spec fn view(&self) -> (X, Option<G>) {
        (
            self.ctx,
            match self.parent {
                Some(parent) => Some(*parent),
                None => None,
            },
        )
    }
}

/// Whether an error is that of a scope without an owning context.
pub open spec fn is_detached(error: Error) -> bool {
    error is Unexpected && error.details() == Some(
        ("cannot build an owned guest handle on detached scope"@, None::<Seq<char>>),
    )
}

impl<X, G> Scope<X, G> {
    /// Creates a scope of an owning context.
    pub fn new(ctx: X, parent: Rc<G>) -> (r: Self)
        ensures
            r@ == (ctx, Some(*parent)),
    {
        Scope { ctx, parent: Some(parent) }
    }

    /// Creates a scope that cannot be entered again.
    pub fn detached(ctx: X) -> (r: Self)
        ensures
            r@ == (ctx, None::<G>),
    {
        Scope { ctx, parent: None }
    }

    /// Returns the engine's context.
    pub fn ctx(&self) -> (r: &X)
        ensures
            *r == self@.0,
    {
        &self.ctx
    }

    /// Returns the owning context when the scope supports re-entry.
    pub fn parent(&self) -> (r: Option<&Rc<G>>)
        ensures
            match r {
                Some(parent) => self@.1 == Some(**parent),
                None => self@.1 is None,
            },
    {
        match &self.parent {
            Some(parent) => Some(parent),
            None => None,
        }
    }

    /// Returns the owning context. A scope without one is an error.
    pub fn owner(&self) -> (r: Result<Rc<G>, Error>)
        ensures
            match self@.1 {
                Some(parent) => r matches Ok(owner) && *owner == parent,
                None => r matches Err(error) && is_detached(error),
            },
    {
        match &self.parent {
            Some(parent) => Ok(parent.clone()),
            None => Err(Error::detached_scope()),
        }
    }
}

impl<X, E, T: Transpiler> Scope<X, GuestContext<E, T>> {
    /// Prepares the source of a guest module for the engine.
    pub fn guest_source(&self, name: &str, source: &str) -> (r: Result<String, Error>)
        ensures
            match self@.1 {
                Some(parent) => parent.transpiler.gave(name, source, r),
                None => r matches Err(error) && is_detached(error),
            },
    {
        let owner = match self.owner() {
            Ok(owner) => owner,
            Err(error) => {
                return Err(error);
            }
        };
        owner.transpiler.transpile(name, source)
    }
}

impl<X, G> Scope<X, G> {
    /// Finds the route under which a registered host module is loaded into this scope.
    pub fn host_route<H: HostModule, D, I, N>(
        &self,
        registry: Option<&ModuleRegistry<H, D, I, N>>,
        context: ContextKey,
        name: &str,
    ) -> (r: Result<String, Error>)
        ensures
            self@.1 is None ==> (r matches Err(error) && is_detached(error)),
            self@.1 is Some && registry is None ==> (r matches Err(error) && error is Unexpected
                && error.details() == Some(
                ("module registry is not installed"@, None::<Seq<char>>),
            )),
            self@.1 is Some ==> (registry matches Some(registry) ==> {
                match registry@.state.host_route_of(context, name@) {
                    Some(path) => r matches Ok(text) && text@ == path,
                    None => r matches Err(error) && error is Unexpected && error.details() == Some(
                        ("host module `"@ + name@ + "` is not registered"@, None::<Seq<char>>),
                    ),
                }
            }),
    {
        if let Err(error) = self.owner() {
            return Err(error);
        }
        match registry {
            Some(registry) => registry.host_route(context, name),
            None => Err(Error::unexpected("module registry is not installed")),
        }
    }
}

} // verus!
