//! Collections of native guest capabilities.

use vstd::prelude::*;

use crate::native::initializer::NativeInitializer;
use crate::native::module::{NativeModule, NativeModuleView};

verus! {

/// One capability of a native library.
pub enum NativeLibraryEntry<D, I> {
    Module(NativeModule<D, I>),
    Initializer(NativeInitializer<I>),
}

/// What an entry of a native library stands for.
#[verifier::ext_equal]
pub enum EntryView<D, I> {
    Module(NativeModuleView<D, I>),
    Initializer((Seq<char>, I)),
}

/// What the entries of a native library stand for.
pub open spec fn entry_views<D, I>(entries: Seq<NativeLibraryEntry<D, I>>) -> Seq<
    EntryView<D, I>,
> {
    entries.map_values(
        |entry: NativeLibraryEntry<D, I>|
            match entry {
                NativeLibraryEntry::Module(module) => EntryView::Module(module@),
                NativeLibraryEntry::Initializer(initializer) => EntryView::Initializer(initializer@),
            },
    )
}

/// A collection of native guest capabilities, in the order in which they were added.
pub struct NativeLibrary<D, I> {
    entries: Vec<NativeLibraryEntry<D, I>>,
}

impl<D, I> View for NativeLibrary<D, I> {
    type V = Seq<NativeLibraryEntry<D, I>>;

    closed spec fn view(&self) -> Seq<NativeLibraryEntry<D, I>> {
        self.entries@
    }
}

impl<D, I> Default for NativeLibrary<D, I> {
    fn default() -> (r: Self)
        ensures
            r@ == Seq::<NativeLibraryEntry<D, I>>::empty(),
    {
        NativeLibrary { entries: Vec::new() }
    }
}

impl<D, I> NativeLibrary<D, I> {
    /// Creates an empty native library.
    pub fn new() -> (r: Self)
        ensures
            r@ == Seq::<NativeLibraryEntry<D, I>>::empty(),
    {
        NativeLibrary { entries: Vec::new() }
    }

    /// Adds a [`NativeModule`](crate::native::NativeModule).
    pub fn with(self, module: NativeModule<D, I>) -> (r: Self)
        ensures
            r@ == self@.push(NativeLibraryEntry::Module(module)),
    {
        let mut entries = self.entries;
        entries.push(NativeLibraryEntry::Module(module));
        NativeLibrary { entries }
    }

    /// Adds a [`NativeInitializer`](crate::native::NativeInitializer).
    pub fn initialize(self, initializer: NativeInitializer<I>) -> (r: Self)
        ensures
            r@ == self@.push(NativeLibraryEntry::Initializer(initializer)),
    {
        let mut entries = self.entries;
        entries.push(NativeLibraryEntry::Initializer(initializer));
        NativeLibrary { entries }
    }

    /// Adds the entries from another native library, behind those that are already there.
    pub fn extend(self, library: NativeLibrary<D, I>) -> (r: Self)
        ensures
            r@ == self@ + library@,
    {
        let mut entries = self.entries;
        let mut others = library.entries;
        entries.append(&mut others);
        NativeLibrary { entries }
    }

    /// Returns the entries in the order in which they were added.
    pub fn into_entries(self) -> (r: Vec<NativeLibraryEntry<D, I>>)
        ensures
            r@ == self@,
    {
        self.entries
    }
}

impl<D, I> vstd::std_specs::convert::FromSpecImpl<NativeModule<D, I>> for NativeLibrary<D, I> {
    open spec fn obeys_from_spec() -> bool {
        false
    }

    open spec fn from_spec(module: NativeModule<D, I>) -> Self {
        arbitrary()
    }
}

impl<D, I> From<NativeModule<D, I>> for NativeLibrary<D, I> {
    fn from(module: NativeModule<D, I>) -> (r: Self)
        ensures
            r@ == seq![NativeLibraryEntry::Module(module)],
    {
        let r = NativeLibrary::new().with(module);
        assert(r@ =~= seq![NativeLibraryEntry::Module(module)]);
        r
    }
}

} // verus!
