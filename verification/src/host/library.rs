//! Collections of host guest capabilities.

use std::sync::Arc;
use vstd::prelude::*;

use crate::host::initializer::HostInitializer;
use crate::host::module::HostModule;

verus! {

/// One capability of a host library.
pub enum HostLibraryEntry<H, I> {
    Module(Arc<H>),
    Initializer(HostInitializer<I>),
}

/// A collection of host guest capabilities, in the order in which they were added.
pub struct HostLibrary<H, I> {
    entries: Vec<HostLibraryEntry<H, I>>,
}

impl<H, I> View for HostLibrary<H, I> {
    type V = Seq<HostLibraryEntry<H, I>>;

    closed spec fn view(&self) -> Seq<HostLibraryEntry<H, I>> {
        self.entries@
    }
}

impl<H, I> Default for HostLibrary<H, I> {
    fn default() -> (r: Self)
        ensures
            r@ == Seq::<HostLibraryEntry<H, I>>::empty(),
    {
        HostLibrary { entries: Vec::new() }
    }
}

impl<H: HostModule, I> HostLibrary<H, I> {
    /// Creates an empty host library.
    pub fn new() -> (r: Self)
        ensures
            r@ == Seq::<HostLibraryEntry<H, I>>::empty(),
    {
        HostLibrary { entries: Vec::new() }
    }

    /// Adds a host module.
    pub fn with(self, module: H) -> (r: Self)
        ensures
            r@ == self@.push(HostLibraryEntry::Module(Arc::new(module))),
    {
        let mut entries = self.entries;
        entries.push(HostLibraryEntry::Module(Arc::new(module)));
        HostLibrary { entries }
    }

    /// Adds a [`HostInitializer`](crate::host::HostInitializer).
    pub fn initialize(self, initializer: HostInitializer<I>) -> (r: Self)
        ensures
            r@ == self@.push(HostLibraryEntry::Initializer(initializer)),
    {
        let mut entries = self.entries;
        entries.push(HostLibraryEntry::Initializer(initializer));
        HostLibrary { entries }
    }

    /// Returns the entries in the order in which they were added.
    pub fn into_entries(self) -> (r: Vec<HostLibraryEntry<H, I>>)
        ensures
            r@ == self@,
    {
        self.entries
    }
}

impl<H: HostModule, I> vstd::std_specs::convert::FromSpecImpl<H> for HostLibrary<H, I> {
    open spec fn obeys_from_spec() -> bool {
        false
    }

    open spec fn from_spec(module: H) -> Self {
        arbitrary()
    }
}

impl<H: HostModule, I> From<H> for HostLibrary<H, I> {
    fn from(module: H) -> (r: Self)
        ensures
            r@ == seq![HostLibraryEntry::<H, I>::Module(Arc::new(module))],
    {
        let r = HostLibrary::new().with(module);
        assert(r@ =~= seq![HostLibraryEntry::<H, I>::Module(Arc::new(module))]);
        r
    }
}

} // verus!
