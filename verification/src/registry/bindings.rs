//! The capabilities that guests receive.

use std::sync::Arc;
use vstd::prelude::*;

use crate::host::library::{HostLibrary, HostLibraryEntry};
use crate::host::module::HostModule;
use crate::native::initializer::NativeInitializer;
use crate::native::library::{NativeLibrary, NativeLibraryEntry};
use crate::native::module::{NativeModule, NativeModuleView};
use crate::sequences::reverse;

verus! {

/// A capability that a guest receives.
pub enum LibraryBinding<H, D, I> {
    Host(Arc<H>),
    Native(NativeModule<D, I>),
    Initializer(NativeInitializer<I>),
}

/// What a binding stands for.
pub enum BindingView<H, D, I> {
    Host(H),
    Native(NativeModuleView<D, I>),
    Initializer((Seq<char>, I)),
}

impl<H, D, I> View for LibraryBinding<H, D, I> {
    type V = BindingView<H, D, I>;

    open spec fn view(&self) -> BindingView<H, D, I> {
        match self {
            LibraryBinding::Host(module) => BindingView::Host(**module),
            LibraryBinding::Native(module) => BindingView::Native(module@),
            LibraryBinding::Initializer(initializer) => BindingView::Initializer(initializer@),
        }
    }
}

/// What a list of bindings stands for.
pub open spec fn binding_views<H, D, I>(bindings: Seq<LibraryBinding<H, D, I>>) -> Seq<
    BindingView<H, D, I>,
> {
    bindings.map_values(|binding: LibraryBinding<H, D, I>| binding@)
}

/// The binding of a host library entry.
pub open spec fn host_binding<H, D, I>(entry: HostLibraryEntry<H, I>) -> BindingView<H, D, I> {
    match entry {
        HostLibraryEntry::Module(module) => BindingView::Host(*module),
        HostLibraryEntry::Initializer(initializer) => BindingView::Initializer(initializer@),
    }
}

/// The binding of a native library entry.
pub open spec fn native_binding<H, D, I>(entry: NativeLibraryEntry<D, I>) -> BindingView<H, D, I> {
    match entry {
        NativeLibraryEntry::Module(module) => BindingView::Native(module@),
        NativeLibraryEntry::Initializer(initializer) => BindingView::Initializer(initializer@),
    }
}

/// The bindings of the entries of a host library.
pub open spec fn host_bindings<H, D, I>(entries: Seq<HostLibraryEntry<H, I>>) -> Seq<
    BindingView<H, D, I>,
> {
    entries.map_values(|entry: HostLibraryEntry<H, I>| host_binding::<H, D, I>(entry))
}

/// The bindings of the entries of a native library.
pub open spec fn native_bindings<H, D, I>(entries: Seq<NativeLibraryEntry<D, I>>) -> Seq<
    BindingView<H, D, I>,
> {
    entries.map_values(|entry: NativeLibraryEntry<D, I>| native_binding::<H, D, I>(entry))
}

impl<H, D, I> Clone for LibraryBinding<H, D, I> {
    fn clone(&self) -> (r: Self)
        ensures
            r@ == self@,
    {
        match self {
            LibraryBinding::Host(module) => LibraryBinding::Host(module.clone()),
            LibraryBinding::Native(module) => LibraryBinding::Native(module.clone()),
            LibraryBinding::Initializer(initializer) => LibraryBinding::Initializer(
                initializer.clone(),
            ),
        }
    }
}

impl<H: HostModule, D, I> LibraryBinding<H, D, I> {
    /// Lists the bindings of a host library, in the order of its entries.
    pub fn from_host(library: HostLibrary<H, I>) -> (r: Vec<Self>)
        ensures
            binding_views(r@) == host_bindings::<H, D, I>(library@),
    {
        let mut pending = library.into_entries();
        let ghost entries = pending@;
        let ghost wanted = host_bindings::<H, D, I>(library@);
        let total: usize = pending.len();
        let mut done: usize = 0;
        let mut bindings: Vec<Self> = Vec::new();
        reverse(&mut pending);
        while done < total
            invariant
                done <= total,
                total == entries.len(),
                entries == library@,
                wanted == host_bindings::<H, D, I>(library@),
                pending@.len() == total - done,
                forall|i: int|
                    0 <= i < pending@.len() ==> #[trigger] pending@[i] == entries[total - 1 - i],
                binding_views(bindings@) == wanted.take(done as int),
            decreases total - done,
        {
            let ghost before = bindings@;
            match pending.pop() {
                Some(HostLibraryEntry::Module(module)) => {
                    bindings.push(LibraryBinding::Host(module));
                }
                Some(HostLibraryEntry::Initializer(initializer)) => {
                    bindings.push(
                        LibraryBinding::Initializer(
                            NativeInitializer::shared(
                                initializer.name(),
                                initializer.shared_callback(),
                            ),
                        ),
                    );
                }
                None => {
                    assert(false);
                }
            }
            proof {
                assert(bindings@.last()@ == wanted[done as int]);
                assert(binding_views(bindings@) =~= binding_views(before).push(
                    wanted[done as int],
                ));
                assert(wanted.take(done + 1) =~= wanted.take(done as int).push(
                    wanted[done as int],
                ));
            }
            done += 1;
        }
        assert(wanted.take(done as int) =~= wanted);
        bindings
    }

    /// Lists the bindings of a native library, in the order of its entries.
    pub fn from_native(library: NativeLibrary<D, I>) -> (r: Vec<Self>)
        ensures
            binding_views(r@) == native_bindings::<H, D, I>(library@),
    {
        let mut pending = library.into_entries();
        let ghost entries = pending@;
        let ghost wanted = native_bindings::<H, D, I>(library@);
        let total: usize = pending.len();
        let mut done: usize = 0;
        let mut bindings: Vec<Self> = Vec::new();
        reverse(&mut pending);
        while done < total
            invariant
                done <= total,
                total == entries.len(),
                entries == library@,
                wanted == native_bindings::<H, D, I>(library@),
                pending@.len() == total - done,
                forall|i: int|
                    0 <= i < pending@.len() ==> #[trigger] pending@[i] == entries[total - 1 - i],
                binding_views(bindings@) == wanted.take(done as int),
            decreases total - done,
        {
            let ghost before = bindings@;
            match pending.pop() {
                Some(NativeLibraryEntry::Module(module)) => {
                    bindings.push(LibraryBinding::Native(module));
                }
                Some(NativeLibraryEntry::Initializer(initializer)) => {
                    bindings.push(LibraryBinding::Initializer(initializer));
                }
                None => {
                    assert(false);
                }
            }
            proof {
                assert(bindings@.last()@ == wanted[done as int]);
                assert(binding_views(bindings@) =~= binding_views(before).push(
                    wanted[done as int],
                ));
                assert(wanted.take(done + 1) =~= wanted.take(done as int).push(
                    wanted[done as int],
                ));
            }
            done += 1;
        }
        assert(wanted.take(done as int) =~= wanted);
        bindings
    }
}

/// The module that a route leads to.
pub enum ModuleRegistration<H, D, I> {
    Host(Arc<H>),
    Native(NativeModule<D, I>),
}

impl<H, D, I> View for ModuleRegistration<H, D, I> {
    type V = BindingView<H, D, I>;

    open spec fn view(&self) -> BindingView<H, D, I> {
        match self {
            ModuleRegistration::Host(module) => BindingView::Host(**module),
            ModuleRegistration::Native(module) => BindingView::Native(module@),
        }
    }
}

impl<H, D, I> Clone for ModuleRegistration<H, D, I> {
    fn clone(&self) -> (r: Self)
        ensures
            r@ == self@,
    {
        match self {
            ModuleRegistration::Host(module) => ModuleRegistration::Host(module.clone()),
            ModuleRegistration::Native(module) => ModuleRegistration::Native(module.clone()),
        }
    }
}

} // verus!
