//! Native modules, initializers and libraries.

use vstd::prelude::*;

use crate::host::initializer::HostInitializer;
use crate::host::library::{HostLibrary, HostLibraryEntry};
use crate::host::module::HostModule;
use crate::native::initializer::NativeInitializer;
use crate::native::library::{NativeLibrary, NativeLibraryEntry};
use crate::native::module::{initializer_views, texts, NativeModule};
use crate::registry::bindings::{LibraryBinding, ModuleRegistration};

verus! {

/// A new native module has its name and its definition, and neither aliases nor initializers.
pub proof fn law_new_module_has_only_its_name<D, I>(
    name: &str,
    definition: D,
    module: NativeModule<D, I>,
    given: &str,
    aliases: &Vec<String>,
    initializers: &Vec<NativeInitializer<I>>,
    kept: &D,
)
    requires
        call_ensures(NativeModule::<D, I>::new, (name, definition), module),
        call_ensures(NativeModule::<D, I>::name, (&module,), given),
        call_ensures(NativeModule::<D, I>::aliases, (&module,), aliases),
        call_ensures(NativeModule::<D, I>::initializers, (&module,), initializers),
        call_ensures(NativeModule::<D, I>::definition, (&module,), kept),
    ensures
        given@ == name@,
        aliases@.len() == 0,
        initializers@.len() == 0,
        *kept == definition,
{
    assert(texts(aliases@).len() == aliases@.len());
    assert(initializer_views(initializers@).len() == initializers@.len());
}

/// An alias is added behind the others unless the module answers to it already; its name, its
/// definition and its initializers stay.
pub proof fn law_alias_is_answered_to<D, I>(
    module: NativeModule<D, I>,
    alias: &str,
    next: NativeModule<D, I>,
    before: &Vec<String>,
    after: &Vec<String>,
    i: int,
)
    requires
        call_ensures(NativeModule::<D, I>::alias, (module, alias), next),
        call_ensures(NativeModule::<D, I>::aliases, (&module,), before),
        call_ensures(NativeModule::<D, I>::aliases, (&next,), after),
    ensures
        next@.name == module@.name,
        next@.definition == module@.definition,
        next@.initializers == module@.initializers,
        alias@ == next@.name || exists|k: int|
            0 <= k < after@.len() && (#[trigger] after@[k])@ == alias@,
        0 <= i < before@.len() ==> i < after@.len() && after@[i]@ == before@[i]@,
        before@.len() <= after@.len() <= before@.len() + 1,
        after@.len() == before@.len() <==> alias@ == module@.name || exists|k: int|
            0 <= k < before@.len() && (#[trigger] before@[k])@ == alias@,
        after@.len() > before@.len() ==> after@.last()@ == alias@,
{
    let old_aliases = texts(before@);
    let new_aliases = texts(after@);
    assert(old_aliases.len() == before@.len());
    assert(new_aliases.len() == after@.len());
    assert forall|k: int| 0 <= k < before@.len() implies old_aliases[k]
        == (#[trigger] before@[k])@ by {}
    assert forall|k: int| 0 <= k < after@.len() implies new_aliases[k]
        == (#[trigger] after@[k])@ by {}
    if old_aliases.contains(alias@) {
        let k = choose|k: int| 0 <= k < old_aliases.len() && old_aliases[k] == alias@;
        assert(before@[k]@ == alias@);
        assert(after@[k]@ == alias@);
    } else {
        assert forall|k: int| 0 <= k < before@.len() implies (#[trigger] before@[k])@ != alias@ by {
            assert(old_aliases[k] == before@[k]@);
        }
        if alias@ != module@.name {
            assert(after@[after@.len() - 1]@ == alias@);
        }
    }
    if 0 <= i < before@.len() {
        assert(new_aliases[i] == old_aliases[i]);
    }
}

/// An initializer is added behind the others, and nothing else changes.
pub proof fn law_module_keeps_every_initializer<D, I>(
    module: NativeModule<D, I>,
    initializer: NativeInitializer<I>,
    next: NativeModule<D, I>,
    before: &Vec<NativeInitializer<I>>,
    after: &Vec<NativeInitializer<I>>,
    i: int,
)
    requires
        call_ensures(NativeModule::<D, I>::initialize, (module, initializer), next),
        call_ensures(NativeModule::<D, I>::initializers, (&module,), before),
        call_ensures(NativeModule::<D, I>::initializers, (&next,), after),
    ensures
        next@.name == module@.name,
        next@.aliases == module@.aliases,
        next@.definition == module@.definition,
        after@.len() == before@.len() + 1,
        after@.last()@ == initializer@,
        0 <= i < before@.len() ==> after@[i]@ == before@[i]@,
{
    let old_views = initializer_views(before@);
    let new_views = initializer_views(after@);
    assert(old_views.len() == before@.len());
    assert(new_views.len() == after@.len());
    assert(new_views[after@.len() - 1] == after@.last()@);
    if 0 <= i < before@.len() {
        assert(new_views[i] == after@[i]@);
        assert(old_views[i] == before@[i]@);
    }
}

/// A native module is declared by its definition.
pub proof fn law_module_is_declared_by_its_definition<D, I, C, M, E>(
    module: &NativeModule<D, I>,
    context: C,
    route: Vec<u8>,
    declared: Result<M, E>,
    definition: &D,
) where D: Fn(C, Vec<u8>) -> Result<M, E>
    requires
        call_ensures(NativeModule::<D, I>::declare::<C, M, E>, (module, context, route), declared),
        call_ensures(NativeModule::<D, I>::definition, (module,), definition),
    ensures
        call_ensures(*definition, (context, route), declared),
{
}

/// An initializer keeps its name and its callback, and runs the callback.
pub proof fn law_initializer_runs_its_callback<I, C, E>(
    name: &str,
    callback: I,
    initializer: NativeInitializer<I>,
    given: &str,
    kept: &I,
    context: C,
    outcome: Result<(), E>,
) where I: Fn(C) -> Result<(), E>
    requires
        call_ensures(NativeInitializer::<I>::new, (name, callback), initializer),
        call_ensures(NativeInitializer::<I>::name, (&initializer,), given),
        call_ensures(NativeInitializer::<I>::callback, (&initializer,), kept),
        call_ensures(NativeInitializer::<I>::initialize::<C, E>, (&initializer, context), outcome),
    ensures
        given@ == name@,
        *kept == callback,
        call_ensures(callback, (context,), outcome),
{
}

/// A host initializer keeps its name and runs its callback.
pub proof fn law_host_initializer_runs_its_callback<I, C, E>(
    name: &str,
    callback: I,
    initializer: HostInitializer<I>,
    given: &str,
    scope: C,
    outcome: Result<(), E>,
) where I: Fn(C) -> Result<(), E>
    requires
        call_ensures(HostInitializer::<I>::new, (name, callback), initializer),
        call_ensures(HostInitializer::<I>::name, (&initializer,), given),
        call_ensures(HostInitializer::<I>::initialize::<C, E>, (&initializer, scope), outcome),
    ensures
        given@ == name@,
        call_ensures(callback, (scope,), outcome),
{
}

/// A native library keeps what is added to it, in order: nothing at first, a module or an
/// initializer at the end, and another library behind it.
pub proof fn law_native_library_keeps_its_entries<D, I>(
    fresh: NativeLibrary<D, I>,
    library: NativeLibrary<D, I>,
    module: NativeModule<D, I>,
    with_module: NativeLibrary<D, I>,
    initializer: NativeInitializer<I>,
    with_initializer: NativeLibrary<D, I>,
    more: NativeLibrary<D, I>,
    with_more: NativeLibrary<D, I>,
    entries: Vec<NativeLibraryEntry<D, I>>,
    i: int,
)
    requires
        call_ensures(NativeLibrary::<D, I>::new, (), fresh),
        call_ensures(NativeLibrary::<D, I>::with, (library, module), with_module),
        call_ensures(NativeLibrary::<D, I>::initialize, (library, initializer), with_initializer),
        call_ensures(NativeLibrary::<D, I>::extend, (library, more), with_more),
        call_ensures(NativeLibrary::<D, I>::into_entries, (library,), entries),
    ensures
        fresh@.len() == 0,
        with_module@.len() == library@.len() + 1,
        with_module@.last() == NativeLibraryEntry::<D, I>::Module(module),
        with_initializer@.len() == library@.len() + 1,
        with_initializer@.last() == NativeLibraryEntry::<D, I>::Initializer(initializer),
        with_more@.len() == library@.len() + more@.len(),
        0 <= i < library@.len() ==> with_module@[i] == library@[i] && with_initializer@[i]
            == library@[i] && with_more@[i] == library@[i],
        0 <= i < more@.len() ==> with_more@[library@.len() + i] == more@[i],
        entries@ == library@,
{
}

/// A host library keeps what is added to it, in order.
pub proof fn law_host_library_keeps_its_entries<H: HostModule, I>(
    fresh: HostLibrary<H, I>,
    library: HostLibrary<H, I>,
    module: H,
    with_module: HostLibrary<H, I>,
    initializer: HostInitializer<I>,
    with_initializer: HostLibrary<H, I>,
    entries: Vec<HostLibraryEntry<H, I>>,
    i: int,
)
    requires
        call_ensures(HostLibrary::<H, I>::new, (), fresh),
        call_ensures(HostLibrary::<H, I>::with, (library, module), with_module),
        call_ensures(HostLibrary::<H, I>::initialize, (library, initializer), with_initializer),
        call_ensures(HostLibrary::<H, I>::into_entries, (library,), entries),
    ensures
        fresh@.len() == 0,
        with_module@.len() == library@.len() + 1,
        with_module@.last() matches HostLibraryEntry::Module(kept) && *kept == module,
        with_initializer@.len() == library@.len() + 1,
        with_initializer@.last() == HostLibraryEntry::<H, I>::Initializer(initializer),
        0 <= i < library@.len() ==> with_module@[i] == library@[i] && with_initializer@[i]
            == library@[i],
        entries@ == library@,
{
}

/// Every entry of a library becomes one binding, in order.
pub proof fn law_libraries_become_bindings<H: HostModule, D, I>(
    host: HostLibrary<H, I>,
    from_host: Vec<LibraryBinding<H, D, I>>,
    native: NativeLibrary<D, I>,
    from_native: Vec<LibraryBinding<H, D, I>>,
    i: int,
)
    requires
        call_ensures(LibraryBinding::<H, D, I>::from_host, (host,), from_host),
        call_ensures(LibraryBinding::<H, D, I>::from_native, (native,), from_native),
    ensures
        from_host@.len() == host@.len(),
        from_native@.len() == native@.len(),
        0 <= i < host@.len() ==> match (host@[i], from_host@[i]) {
            (HostLibraryEntry::Module(module), LibraryBinding::Host(bound)) => *bound == *module,
            (HostLibraryEntry::Initializer(initializer), LibraryBinding::Initializer(bound)) =>
            bound@ == initializer@,
            _ => false,
        },
        0 <= i < native@.len() ==> match (native@[i], from_native@[i]) {
            (NativeLibraryEntry::Module(module), LibraryBinding::Native(bound)) => bound@
                == module@,
            (NativeLibraryEntry::Initializer(initializer), LibraryBinding::Initializer(bound)) =>
            bound@ == initializer@,
            _ => false,
        },
{
    let host_views = crate::registry::bindings::binding_views(from_host@);
    let native_views = crate::registry::bindings::binding_views(from_native@);
    assert(host_views.len() == from_host@.len());
    assert(native_views.len() == from_native@.len());
    if 0 <= i < host@.len() {
        assert(host_views[i] == from_host@[i]@);
    }
    if 0 <= i < native@.len() {
        assert(native_views[i] == from_native@[i]@);
    }
}

/// A library that is made of a module alone has that module and nothing else; a default library is
/// empty.
pub proof fn law_libraries_are_made_of_modules<H: HostModule, D, I>(
    native: NativeModule<D, I>,
    of_native: NativeLibrary<D, I>,
    no_native: NativeLibrary<D, I>,
    host: H,
    of_host: HostLibrary<H, I>,
    no_host: HostLibrary<H, I>,
)
    requires
        call_ensures(<NativeLibrary<D, I> as From<NativeModule<D, I>>>::from, (native,), of_native),
        call_ensures(<NativeLibrary<D, I> as Default>::default, (), no_native),
        call_ensures(<HostLibrary<H, I> as From<H>>::from, (host,), of_host),
        call_ensures(<HostLibrary<H, I> as Default>::default, (), no_host),
    ensures
        of_native@.len() == 1,
        of_native@[0] == NativeLibraryEntry::<D, I>::Module(native),
        no_native@.len() == 0,
        of_host@.len() == 1,
        of_host@[0] matches HostLibraryEntry::Module(kept) && *kept == host,
        no_host@.len() == 0,
{
}

/// Copies stand for what they were copied from.
pub proof fn law_copies_stand_for_the_same<H: HostModule, D, I>(
    module: NativeModule<D, I>,
    module_copy: NativeModule<D, I>,
    initializer: NativeInitializer<I>,
    initializer_copy: NativeInitializer<I>,
    host: HostInitializer<I>,
    host_copy: HostInitializer<I>,
    binding: LibraryBinding<H, D, I>,
    binding_copy: LibraryBinding<H, D, I>,
    registration: ModuleRegistration<H, D, I>,
    registration_copy: ModuleRegistration<H, D, I>,
)
    requires
        call_ensures(<NativeModule<D, I> as Clone>::clone, (&module,), module_copy),
        call_ensures(<NativeInitializer<I> as Clone>::clone, (&initializer,), initializer_copy),
        call_ensures(<HostInitializer<I> as Clone>::clone, (&host,), host_copy),
        call_ensures(<LibraryBinding<H, D, I> as Clone>::clone, (&binding,), binding_copy),
        call_ensures(
            <ModuleRegistration<H, D, I> as Clone>::clone,
            (&registration,),
            registration_copy,
        ),
    ensures
        module_copy@.name == module@.name,
        module_copy@.aliases == module@.aliases,
        module_copy@.definition == module@.definition,
        module_copy@.initializers == module@.initializers,
        initializer_copy@.0 == initializer@.0,
        initializer_copy@.1 == initializer@.1,
        host_copy@.0 == host@.0,
        host_copy@.1 == host@.1,
        binding_copy@ == binding@,
        registration_copy@ == registration@,
{
}

} // verus!
