//! Host-defined objects.

use vstd::prelude::*;

use crate::host::namespace::{planned, step_views, MemberView, Namespace, Step};

verus! {

/// A Rust-defined object exposed to guest code.
pub struct HostObject<C, V, S> {
    namespace: Namespace<C, V, S>,
}

impl<C, V, S> View for HostObject<C, V, S> {
    type V = Seq<(Seq<char>, MemberView<C, V, S>)>;

    closed spec fn view(&self) -> Seq<(Seq<char>, MemberView<C, V, S>)> {
        self.namespace@
    }
}

impl<C, V, S> HostObject<C, V, S> {
    /// Creates a host object from a callback that defines its members.
    pub fn build<F>(build: F) -> (r: Self) where F: FnOnce(&mut Namespace<C, V, S>)
        requires
            forall|namespace: &mut Namespace<C, V, S>|
                namespace@ == Seq::<(Seq<char>, MemberView<C, V, S>)>::empty() ==> call_requires(
                    build,
                    (namespace,),
                ),
        ensures
            exists|namespace: &mut Namespace<C, V, S>| #[trigger]
                call_ensures(build, (namespace,), ()) && namespace@ == Seq::<
                    (Seq<char>, MemberView<C, V, S>),
                >::empty() && final(namespace)@ == r@,
    {
        let mut namespace = Namespace::new();
        build(&mut namespace);
        HostObject { namespace }
    }

    /// Returns the steps that define the members of the object on an empty guest object.
    pub fn to_guest(self) -> (r: Vec<Step<C, V, S>>)
        ensures
            step_views(r@) == planned(self@),
    {
        self.namespace.apply()
    }
}

} // verus!
