//! Named host members and the order in which they become properties of a guest object.

use vstd::prelude::*;

use crate::errors::Error;
use crate::host::callable::CallableBody;
use crate::host::class::HostClass;
use crate::native::module::texts;
use crate::sequences::reverse;
use crate::steps::{in_order, is_path, lemma_path_begins, lemma_path_goes_on};

verus! {

/// A member of a namespace.
pub enum Member<C, V, S> {
    /// A function.
    Callable(CallableBody<C>),
    /// A read-only value.
    Constant(V),
    /// A writable value.
    Property(V),
    /// A value behind a getter, a setter or both.
    Accessor {
        get: Option<V>,
        set: Option<S>,
    },
    /// A nested object.
    Object(Namespace<C, V, S>),
}

/// A collection of named host members, in the order in which they were defined.
pub struct Namespace<C, V, S> {
    members: Vec<(String, Member<C, V, S>)>,
}

/// What a member stands for.
pub enum MemberView<C, V, S> {
    Callable(CallableBody<C>),
    Constant(V),
    Property(V),
    Accessor { get: Option<V>, set: Option<S> },
    Object(Seq<(Seq<char>, MemberView<C, V, S>)>),
}

/// What a member stands for; [`lemma_member_view`] tells it for each kind of member.
pub closed spec fn member_view<C, V, S>(member: Member<C, V, S>) -> MemberView<C, V, S>
    decreases member,
{
    match member {
        Member::Callable(body) => MemberView::Callable(body),
        Member::Constant(value) => MemberView::Constant(value),
        Member::Property(value) => MemberView::Property(value),
        Member::Accessor { get, set } => MemberView::Accessor { get, set },
        Member::Object(nested) => MemberView::Object(members_view(nested.members@)),
    }
}

/// What the members of a namespace stand for, in order.
pub closed spec fn members_view<C, V, S>(members: Seq<(String, Member<C, V, S>)>) -> Seq<
    (Seq<char>, MemberView<C, V, S>),
>
    decreases members,
{
    if members.len() == 0 {
        Seq::empty()
    } else {
        members_view(members.drop_last()).push(
            (members.last().0@, member_view(members.last().1)),
        )
    }
}

/// One step of turning members into properties. Steps work on the innermost open object.
pub enum Step<C, V, S> {
    /// Sets a property to a function.
    Function { name: String, body: CallableBody<C> },
    /// Defines a value property.
    Value { name: String, value: V, writable: bool },
    /// Defines an accessor property.
    Accessor { name: String, get: Option<V>, set: Option<S> },
    /// Creates an object and opens it.
    Open,
    /// Closes the innermost object and sets it as a property of the one around it.
    Close { name: String },
}

/// What a step stands for.
pub enum StepView<C, V, S> {
    Function { name: Seq<char>, body: CallableBody<C> },
    Value { name: Seq<char>, value: V, writable: bool },
    Accessor { name: Seq<char>, get: Option<V>, set: Option<S> },
    Open,
    Close { name: Seq<char> },
}

impl<C, V, S> View for Step<C, V, S> {
    type V = StepView<C, V, S>;

    open spec fn view(&self) -> StepView<C, V, S> {
        match self {
            Step::Function { name, body } => StepView::Function { name: name@, body: *body },
            Step::Value { name, value, writable } => StepView::Value {
                name: name@,
                value: *value,
                writable: *writable,
            },
            Step::Accessor { name, get, set } => StepView::Accessor {
                name: name@,
                get: *get,
                set: *set,
            },
            Step::Open => StepView::Open,
            Step::Close { name } => StepView::Close { name: name@ },
        }
    }
}

/// The value of a module export.
pub enum Export<C, V, S> {
    /// A function.
    Function(CallableBody<C>),
    /// A value.
    Value(V),
    /// A fresh object on which the steps are carried out.
    Object(Vec<Step<C, V, S>>),
}

/// What a list of steps stands for.
pub open spec fn step_views<C, V, S>(steps: Seq<Step<C, V, S>>) -> Seq<StepView<C, V, S>> {
    steps.map_values(|step: Step<C, V, S>| step@)
}

/// The names of members, in order.
pub open spec fn names_of<C, V, S>(members: Seq<(Seq<char>, MemberView<C, V, S>)>) -> Seq<
    Seq<char>,
> {
    members.map_values(|member: (Seq<char>, MemberView<C, V, S>)| member.0)
}

/// The steps of one member: a function is set, a constant is defined read-only, a property is
/// defined writable, an accessor is defined with whatever of getter and setter there is, and a
/// nested object is created, filled and only then attached.
pub open spec fn planned_member<C, V, S>(name: Seq<char>, member: MemberView<C, V, S>) -> Seq<
    StepView<C, V, S>,
>
    decreases member,
{
    match member {
        MemberView::Callable(body) => seq![StepView::Function { name, body }],
        MemberView::Constant(value) => seq![StepView::Value { name, value, writable: false }],
        MemberView::Property(value) => seq![StepView::Value { name, value, writable: true }],
        MemberView::Accessor { get, set } => if get is Some || set is Some {
            seq![StepView::Accessor { name, get, set }]
        } else {
            Seq::empty()
        },
        MemberView::Object(nested) => seq![StepView::Open] + planned(nested)
            + seq![StepView::Close { name }],
    }
}

/// The steps of all members, member by member in the order of their definition.
pub open spec fn planned<C, V, S>(members: Seq<(Seq<char>, MemberView<C, V, S>)>) -> Seq<
    StepView<C, V, S>,
>
    decreases members,
{
    if members.len() == 0 {
        Seq::empty()
    } else {
        planned(members.drop_last()) + planned_member(members.last().0, members.last().1)
    }
}

impl<C, V, S> View for Namespace<C, V, S> {
    type V = Seq<(Seq<char>, MemberView<C, V, S>)>;

    closed spec fn view(&self) -> Seq<(Seq<char>, MemberView<C, V, S>)> {
        members_view(self.members@)
    }
}

impl<C, V, S> Namespace<C, V, S> {
    /// Creates an empty namespace.
    pub fn new() -> (r: Self)
        ensures
            r@ == Seq::<(Seq<char>, MemberView<C, V, S>)>::empty(),
    {
        Namespace { members: Vec::new() }
    }

    fn push(&mut self, name: &str, member: Member<C, V, S>) -> (r: &mut Self)
        ensures
            r@ == old(self)@.push((name@, member_view(member))),
            *final(self) == *final(r),
    {
        let ghost before = self.members@;
        self.members.push((name.to_owned(), member));
        assert(self.members@.drop_last() =~= before);
        self
    }

    /// Defines a synchronous function.
    pub fn function(&mut self, name: &str, f: C) -> (r: &mut Self)
        ensures
            r@ == old(self)@.push((name@, MemberView::Callable(CallableBody::Sync(f)))),
            *final(self) == *final(r),
    {
        self.push(name, Member::Callable(CallableBody::sync(f)))
    }

    /// Defines an asynchronous function.
    pub fn async_function(&mut self, name: &str, f: C) -> (r: &mut Self)
        ensures
            r@ == old(self)@.push((name@, MemberView::Callable(CallableBody::Async(f)))),
            *final(self) == *final(r),
    {
        self.push(name, Member::Callable(CallableBody::asynchronous(f)))
    }

    /// Defines a read-only value.
    pub fn constant(&mut self, name: &str, value: V) -> (r: &mut Self)
        ensures
            r@ == old(self)@.push((name@, MemberView::Constant(value))),
            *final(self) == *final(r),
    {
        self.push(name, Member::Constant(value))
    }

    /// Defines a writable value.
    pub fn property(&mut self, name: &str, value: V) -> (r: &mut Self)
        ensures
            r@ == old(self)@.push((name@, MemberView::Property(value))),
            *final(self) == *final(r),
    {
        self.push(name, Member::Property(value))
    }

    /// Defines a getter.
    pub fn getter(&mut self, name: &str, get: V) -> (r: &mut Self)
        ensures
            r@ == old(self)@.push((name@, MemberView::Accessor { get: Some(get), set: None })),
            *final(self) == *final(r),
    {
        self.push(name, Member::Accessor { get: Some(get), set: None })
    }

    /// Defines a setter.
    pub fn setter(&mut self, name: &str, set: S) -> (r: &mut Self)
        ensures
            r@ == old(self)@.push((name@, MemberView::Accessor { get: None, set: Some(set) })),
            *final(self) == *final(r),
    {
        self.push(name, Member::Accessor { get: None, set: Some(set) })
    }

    /// Defines a getter and setter.
    pub fn accessor(&mut self, name: &str, get: V, set: S) -> (r: &mut Self)
        ensures
            r@ == old(self)@.push(
                (name@, MemberView::Accessor { get: Some(get), set: Some(set) }),
            ),
            *final(self) == *final(r),
    {
        self.push(name, Member::Accessor { get: Some(get), set: Some(set) })
    }

    /// Defines a nested object, built from an empty namespace.
    pub fn object<F>(&mut self, name: &str, build: F) -> (r: &mut Self) where
        F: FnOnce(&mut Namespace<C, V, S>),

        requires
            forall|nested: &mut Namespace<C, V, S>| call_requires(build, (nested,)),
        ensures
            exists|nested: &mut Namespace<C, V, S>|
                #![trigger call_ensures(build, (nested,), ())]
                nested@ == Seq::<(Seq<char>, MemberView<C, V, S>)>::empty() && call_ensures(
                    build,
                    (nested,),
                    (),
                ) && r@ == old(self)@.push((name@, MemberView::Object(final(nested)@))),
            *final(self) == *final(r),
    {
        let mut nested = Namespace::new();
        let slot = &mut nested;
        build(slot);
        self.push(name, Member::Object(nested))
    }

    /// Defines a host class under its guest-visible name. Its constructor is a read-only value.
    pub fn class<K>(&mut self, export: V) -> (r: &mut Self) where K: HostClass
        ensures
            r@ == old(self)@.push((K::NAME@, MemberView::Constant(export))),
            *final(self) == *final(r),
    {
        self.push(K::NAME, Member::Constant(export))
    }

    /// Returns the names of the members, in the order in which they were defined.
    pub fn names(&self) -> (r: Vec<String>)
        ensures
            texts(r@) == names_of(self@),
    {
        let mut names: Vec<String> = Vec::new();
        let mut i: usize = 0;
        proof {
            lemma_members_view(self.members@);
        }
        while i < self.members.len()
            invariant
                i <= self.members@.len(),
                self@.len() == self.members@.len(),
                forall|j: int|
                    0 <= j < self.members@.len() ==> (#[trigger] self@[j]).0
                        == self.members@[j].0@,
                texts(names@) == names_of(self@).take(i as int),
            decreases self.members@.len() - i,
        {
            let ghost before = names@;
            names.push(self.members[i].0.clone());
            assert(self@[i as int].0 == self.members@[i as int].0@);
            assert(texts(names@) =~= texts(before).push(self.members@[i as int].0@));
            assert(names_of(self@).take(i + 1) =~= names_of(self@).take(i as int).push(
                names_of(self@)[i as int],
            ));
            i += 1;
        }
        assert(names_of(self@).take(i as int) =~= names_of(self@));
        names
    }

    /// Returns the members, in the order in which they were defined.
    pub fn into_members(self) -> (r: Vec<(String, Member<C, V, S>)>)
        ensures
            members_view(r@) == self@,
    {
        self.members
    }

    /// Lists the steps that turn the members into properties of a guest object.
    pub fn apply(self) -> (r: Vec<Step<C, V, S>>)
        ensures
            step_views(r@) == planned(self@),
        decreases self,
    {
        let ghost members = self.members@;
        let mut pending = self.members;
        let mut steps: Vec<Step<C, V, S>> = Vec::new();
        let mut done: usize = 0;
        let total: usize = pending.len();
        reverse(&mut pending);
        while done < total
            invariant
                done <= total,
                total == members.len(),
                pending@.len() == total - done,
                forall|i: int|
                    0 <= i < pending@.len() ==> #[trigger] pending@[i] == members[total - 1 - i],
                step_views(steps@) == planned(members_view(members.take(done as int))),
                self.members@ == members,
            decreases total - done,
        {
            let ghost front = members.take(done as int);
            let ghost entry = members[done as int];
            let taken = pending.pop();
            match taken {
                Some((name, member)) => {
                    assert((name, member) == entry);
                    proof {
                        assert(decreases_to!(self => self.members));
                        assert(decreases_to!(self.members@ => self.members@[done as int]));
                    }
                    let mut more = member.apply(name);
                    let ghost before = steps@;
                    let ghost added = more@;
                    steps.append(&mut more);
                    proof {
                        assert(step_views(steps@) =~= step_views(before) + step_views(added));
                        let next = members.take(done + 1);
                        assert(next.drop_last() =~= front);
                        assert(next.last() == entry);
                        lemma_planned_push(
                            members_view(front),
                            (entry.0@, member_view(entry.1)),
                        );
                    }
                }
                None => {
                    assert(false);
                }
            }
            done += 1;
        }
        assert(members.take(done as int) =~= members);
        steps
    }
}

impl<C, V, S> Member<C, V, S> {
    /// Lists the steps that turn the member into a property under a name.
    pub fn apply(self, name: String) -> (r: Vec<Step<C, V, S>>)
        ensures
            step_views(r@) == planned_member(name@, member_view(self)),
        decreases self,
    {
        let mut steps: Vec<Step<C, V, S>> = Vec::new();
        match self {
            Member::Callable(body) => {
                steps.push(Step::Function { name, body });
            }
            Member::Constant(value) => {
                steps.push(Step::Value { name, value, writable: false });
            }
            Member::Property(value) => {
                steps.push(Step::Value { name, value, writable: true });
            }
            Member::Accessor { get, set } => {
                return Self::apply_accessor(name, get, set);
            }
            Member::Object(nested) => {
                steps.push(Step::Open);
                let mut inner = nested.apply();
                let ghost middle = inner@;
                steps.append(&mut inner);
                steps.push(Step::Close { name });
                proof {
                    assert(step_views(steps@) =~= seq![StepView::Open] + step_views(middle)
                        + seq![StepView::Close { name: name@ }]);
                }
                return steps;
            }
        }
        assert(step_views(steps@) =~= planned_member(name@, member_view(self)));
        steps
    }

    fn apply_accessor(name: String, get: Option<V>, set: Option<S>) -> (r: Vec<Step<C, V, S>>)
        ensures
            step_views(r@) == planned_member(
                name@,
                MemberView::<C, V, S>::Accessor { get, set },
            ),
    {
        let mut steps: Vec<Step<C, V, S>> = Vec::new();
        if get.is_some() || set.is_some() {
            steps.push(Step::Accessor { name, get, set });
        }
        assert(step_views(steps@) =~= planned_member(
            name@,
            MemberView::<C, V, S>::Accessor { get, set },
        ));
        steps
    }

    /// Turns the member into the value of a module export. An accessor has none.
    pub fn into_export_value(self) -> (r: Result<Export<C, V, S>, Error>)
        ensures
            match member_view(self) {
                MemberView::Callable(body) => r matches Ok(Export::Function(given)) && given
                    == body,
                MemberView::Constant(value) => r matches Ok(Export::Value(given)) && given == value,
                MemberView::Property(value) => r matches Ok(Export::Value(given)) && given == value,
                MemberView::Accessor { .. } => r matches Err(error) && error is Unexpected
                    && error.details() == Some(
                    ("accessor members are not valid as module exports"@, None::<Seq<char>>),
                ),
                MemberView::Object(nested) => r matches Ok(Export::Object(steps)) && step_views(
                    steps@,
                ) == planned(nested),
            },
    {
        match self {
            Member::Callable(body) => Ok(Export::Function(body)),
            Member::Constant(value) => Ok(Export::Value(value)),
            Member::Property(value) => Ok(Export::Value(value)),
            Member::Accessor { .. } => Err(
                Error::unexpected("accessor members are not valid as module exports"),
            ),
            Member::Object(nested) => Ok(Export::Object(nested.apply())),
        }
    }
}

/// The steps of a plan in the hands of the engine.
pub open spec fn performing<C, V, S, E, W, F>(execute: F, steps: Seq<Step<C, V, S>>) -> spec_fn(
    int,
    W,
    W,
    Result<(), E>,
) -> bool where F: Fn(W, Step<C, V, S>) -> (W, Result<(), E>) {
    |i: int, before: W, after: W, outcome: Result<(), E>|
        call_ensures(execute, (before, steps[i]), (after, outcome))
}

/// Carries out steps in order until one of them fails. What they work on is passed from one to the
/// next.
pub fn perform<C, V, S, E, W, F>(steps: Vec<Step<C, V, S>>, state: W, execute: F) -> (r: (
    W,
    Result<(), E>,
)) where F: Fn(W, Step<C, V, S>) -> (W, Result<(), E>)
    requires
        forall|state: W, step: Step<C, V, S>| call_requires(execute, (state, step)),
    ensures
        in_order(performing(execute, steps@), steps@.len(), state, r.0, r.1),
{
    let ghost all = steps@;
    let ghost step = performing(execute, all);
    let ghost mut states: Seq<W> = seq![state];
    proof {
        lemma_path_begins(step, state);
    }
    let mut pending = steps;
    let total: usize = pending.len();
    let mut done: usize = 0;
    let mut current = state;
    reverse(&mut pending);
    while done < total
        invariant
            done <= total,
            total == all.len(),
            all == steps@,
            pending@.len() == total - done,
            forall|i: int| 0 <= i < pending@.len() ==> #[trigger] pending@[i] == all[total - 1 - i],
            forall|state: W, step: Step<C, V, S>| call_requires(execute, (state, step)),
            step == performing(execute, all),
            is_path(step, state, states),
            states.len() == done + 1,
            states.last() == current,
        decreases total - done,
    {
        match pending.pop() {
            Some(taken) => {
                assert(taken == all[done as int]);
                let (next, outcome) = execute(current, taken);
                assert(step(done as int, states.last(), next, outcome));
                match outcome {
                    Ok(unit) => {
                        proof {
                            assert(unit == ());
                            lemma_path_goes_on(step, state, states, next);
                            states = states.push(next);
                        }
                        current = next;
                    }
                    Err(error) => {
                        return (next, Err(error));
                    }
                }
            }
            None => {
                assert(false);
                return (current, Ok(()));
            }
        }
        done += 1;
    }
    (current, Ok(()))
}

/// What each member stands for.
pub proof fn lemma_member_view<C, V, S>(
    body: CallableBody<C>,
    value: V,
    get: Option<V>,
    set: Option<S>,
    nested: Namespace<C, V, S>,
)
    ensures
        member_view(Member::<C, V, S>::Callable(body)) == MemberView::<C, V, S>::Callable(body),
        member_view(Member::<C, V, S>::Constant(value)) == MemberView::<C, V, S>::Constant(value),
        member_view(Member::<C, V, S>::Property(value)) == MemberView::<C, V, S>::Property(value),
        member_view(Member::<C, V, S>::Accessor { get, set }) == (MemberView::<
            C,
            V,
            S,
        >::Accessor { get, set }),
        member_view(Member::Object(nested)) == MemberView::Object(nested@),
{
}

/// Members stand for themselves one by one, each under its name.
pub proof fn lemma_members_view<C, V, S>(members: Seq<(String, Member<C, V, S>)>)
    ensures
        members_view(members).len() == members.len(),
        forall|j: int|
            0 <= j < members.len() ==> #[trigger] members_view(members)[j] == (
                members[j].0@,
                member_view(members[j].1),
            ),
    decreases members.len(),
{
    if members.len() > 0 {
        let front = members.drop_last();
        lemma_members_view(front);
        assert forall|j: int| 0 <= j < members.len() implies #[trigger] members_view(members)[j]
            == (members[j].0@, member_view(members[j].1)) by {
            if j < front.len() {
                assert(members_view(members)[j] == members_view(front)[j]);
                assert(front[j] == members[j]);
            }
        }
    }
}

proof fn lemma_planned_push<C, V, S>(
    members: Seq<(Seq<char>, MemberView<C, V, S>)>,
    entry: (Seq<char>, MemberView<C, V, S>),
)
    ensures
        planned(members.push(entry)) == planned(members) + planned_member(entry.0, entry.1),
{
    assert(members.push(entry).drop_last() =~= members);
}

/// How many objects are open behind some steps.
pub open spec fn depth<C, V, S>(steps: Seq<StepView<C, V, S>>) -> int
    decreases steps.len(),
{
    if steps.len() == 0 {
        0
    } else {
        depth(steps.drop_last()) + match steps.last() {
            StepView::Open => 1int,
            StepView::Close { .. } => -1int,
            _ => 0int,
        }
    }
}

/// Whether every object that steps open is closed again, and nothing else is closed.
pub open spec fn balanced<C, V, S>(steps: Seq<StepView<C, V, S>>) -> bool {
    &&& depth(steps) == 0
    &&& forall|k: int| 0 <= k <= steps.len() ==> depth(#[trigger] steps.take(k)) >= 0
}

/// The names that steps give to properties of the outermost object, in order.
pub open spec fn outer_names<C, V, S>(steps: Seq<StepView<C, V, S>>) -> Seq<Seq<char>>
    decreases steps.len(),
{
    if steps.len() == 0 {
        Seq::empty()
    } else {
        let front = steps.drop_last();
        match steps.last() {
            StepView::Function { name, .. } if depth(front) == 0 => outer_names(front).push(name),
            StepView::Value { name, .. } if depth(front) == 0 => outer_names(front).push(name),
            StepView::Accessor { name, .. } if depth(front) == 0 => outer_names(front).push(name),
            StepView::Close { name } if depth(front) == 1 => outer_names(front).push(name),
            _ => outer_names(front),
        }
    }
}

/// Whether a member becomes a property: all do but an accessor without getter and setter.
pub open spec fn becomes_property<C, V, S>(member: (Seq<char>, MemberView<C, V, S>)) -> bool {
    !(member.1 matches MemberView::Accessor { get, set } && get is None && set is None)
}

proof fn lemma_depth_append<C, V, S>(left: Seq<StepView<C, V, S>>, right: Seq<StepView<C, V, S>>)
    ensures
        depth(left + right) == depth(left) + depth(right),
    decreases right.len(),
{
    if right.len() == 0 {
        assert(left + right =~= left);
    } else {
        assert((left + right).drop_last() =~= left + right.drop_last());
        lemma_depth_append(left, right.drop_last());
    }
}

proof fn lemma_balanced_append<C, V, S>(left: Seq<StepView<C, V, S>>, right: Seq<StepView<C, V, S>>)
    requires
        balanced(left),
        balanced(right),
    ensures
        balanced(left + right),
{
    lemma_depth_append(left, right);
    let all = left + right;
    assert forall|k: int| 0 <= k <= all.len() implies depth(#[trigger] all.take(k)) >= 0 by {
        if k <= left.len() {
            assert(all.take(k) =~= left.take(k));
        } else {
            let rest = right.take(k - left.len());
            assert(all.take(k) =~= left + rest);
            lemma_depth_append(left, rest);
        }
    }
}

proof fn lemma_balanced_nested<C, V, S>(inner: Seq<StepView<C, V, S>>, name: Seq<char>)
    requires
        balanced(inner),
    ensures
        balanced(seq![StepView::<C, V, S>::Open] + inner + seq![StepView::Close { name }]),
{
    let open = seq![StepView::<C, V, S>::Open];
    let close = seq![StepView::<C, V, S>::Close { name }];
    let all = open + inner + close;
    assert(open.drop_last() =~= Seq::empty());
    assert(close.drop_last() =~= Seq::empty());
    reveal_with_fuel(depth, 2);
    assert(depth(open) == 1);
    assert(depth(close) == -1);
    lemma_depth_append(open, inner);
    lemma_depth_append(open + inner, close);
    assert forall|k: int| 0 <= k <= all.len() implies depth(#[trigger] all.take(k)) >= 0 by {
        if k == 0 {
            assert(all.take(k) =~= Seq::empty());
        } else if k <= inner.len() + 1 {
            let rest = inner.take(k - 1);
            assert(all.take(k) =~= open + rest);
            lemma_depth_append(open, rest);
        } else {
            assert(all.take(k) =~= all);
        }
    }
}

proof fn lemma_balanced_single<C, V, S>(step: StepView<C, V, S>)
    requires
        !(step is Open),
        !(step is Close),
    ensures
        balanced(seq![step]),
{
    let all = seq![step];
    assert(all.drop_last() =~= Seq::empty());
    reveal_with_fuel(depth, 2);
    assert(depth(all) == 0);
    assert forall|k: int| 0 <= k <= all.len() implies depth(#[trigger] all.take(k)) >= 0 by {
        if k == 0 {
            assert(all.take(k) =~= Seq::empty());
        } else {
            assert(all.take(k) =~= all);
        }
    }
}

proof fn lemma_member_balanced<C, V, S>(name: Seq<char>, member: MemberView<C, V, S>)
    ensures
        balanced(planned_member(name, member)),
    decreases member,
{
    match member {
        MemberView::Callable(body) => {
            lemma_balanced_single(StepView::<C, V, S>::Function { name, body });
        }
        MemberView::Constant(value) => {
            lemma_balanced_single(StepView::<C, V, S>::Value { name, value, writable: false });
        }
        MemberView::Property(value) => {
            lemma_balanced_single(StepView::<C, V, S>::Value { name, value, writable: true });
        }
        MemberView::Accessor { get, set } => {
            if get is Some || set is Some {
                lemma_balanced_single(StepView::<C, V, S>::Accessor { name, get, set });
            } else {
                assert(planned_member(name, member) =~= Seq::empty());
            }
        }
        MemberView::Object(nested) => {
            law_plan_is_balanced(nested);
            lemma_balanced_nested(planned(nested), name);
        }
    }
}

/// Every nested object that a plan creates is attached again, and nothing else is closed.
pub proof fn law_plan_is_balanced<C, V, S>(members: Seq<(Seq<char>, MemberView<C, V, S>)>)
    ensures
        balanced(planned(members)),
    decreases members,
{
    if members.len() == 0 {
        assert(planned(members) =~= Seq::empty());
        assert forall|k: int| 0 <= k <= planned(members).len() implies depth(
            #[trigger] planned(members).take(k),
        ) >= 0 by {
            assert(planned(members).take(k) =~= Seq::empty());
        }
    } else {
        law_plan_is_balanced(members.drop_last());
        lemma_member_balanced(members.last().0, members.last().1);
        lemma_balanced_append(
            planned(members.drop_last()),
            planned_member(members.last().0, members.last().1),
        );
    }
}

proof fn lemma_outer_append<C, V, S>(left: Seq<StepView<C, V, S>>, right: Seq<StepView<C, V, S>>)
    requires
        depth(left) == 0,
    ensures
        outer_names(left + right) == outer_names(left) + outer_names(right),
    decreases right.len(),
{
    if right.len() == 0 {
        assert(left + right =~= left);
        assert(outer_names(left) + outer_names(right) =~= outer_names(left));
    } else {
        let front = right.drop_last();
        assert((left + right).drop_last() =~= left + front);
        assert((left + right).last() == right.last());
        lemma_outer_append(left, front);
        lemma_depth_append(left, front);
        assert(outer_names(left + right) =~= outer_names(left) + outer_names(right));
    }
}

proof fn lemma_outer_inside<C, V, S>(inner: Seq<StepView<C, V, S>>)
    requires
        forall|k: int| 0 <= k <= inner.len() ==> depth(#[trigger] inner.take(k)) >= 0,
    ensures
        outer_names(seq![StepView::<C, V, S>::Open] + inner) == Seq::<Seq<char>>::empty(),
    decreases inner.len(),
{
    let open = seq![StepView::<C, V, S>::Open];
    assert(open.drop_last() =~= Seq::empty());
    reveal_with_fuel(depth, 2);
    reveal_with_fuel(outer_names, 2);
    assert(depth(open) == 1);
    if inner.len() == 0 {
        assert(open + inner =~= open);
    } else {
        let front = inner.drop_last();
        assert(inner.take(inner.len() as int) =~= inner);
        assert(inner.take(inner.len() - 1) =~= front);
        assert forall|k: int| 0 <= k <= front.len() implies depth(#[trigger] front.take(k)) >= 0 by {
            assert(front.take(k) =~= inner.take(k));
        }
        lemma_outer_inside(front);
        assert((open + inner).drop_last() =~= open + front);
        assert((open + inner).last() == inner.last());
        lemma_depth_append(open, front);
        assert(depth(inner) >= 0);
    }
}

proof fn lemma_outer_member<C, V, S>(name: Seq<char>, member: MemberView<C, V, S>)
    ensures
        outer_names(planned_member(name, member)) == (if becomes_property((name, member)) {
            seq![name]
        } else {
            Seq::empty()
        }),
{
    let steps = planned_member(name, member);
    match member {
        MemberView::Object(nested) => {
            let open = seq![StepView::<C, V, S>::Open];
            let inner = planned(nested);
            law_plan_is_balanced(nested);
            lemma_outer_inside(inner);
            assert(open.drop_last() =~= Seq::empty());
            reveal_with_fuel(depth, 2);
            assert(depth(open) == 1);
            lemma_depth_append(open, inner);
            assert(steps.drop_last() =~= open + inner);
            assert(outer_names(steps) =~= seq![name]);
        }
        _ => {
            if becomes_property((name, member)) {
                reveal_with_fuel(depth, 2);
                reveal_with_fuel(outer_names, 2);
                assert(steps.len() == 1);
                assert(steps.drop_last() =~= Seq::empty());
                assert(outer_names(steps) =~= seq![name]);
            } else {
                assert(steps =~= Seq::empty());
            }
        }
    }
}

/// The members become the properties of the object in the order in which they were defined, each
/// under its own name, whatever is nested inside them.
pub proof fn law_plan_keeps_definition_order<C, V, S>(
    members: Seq<(Seq<char>, MemberView<C, V, S>)>,
)
    ensures
        outer_names(planned(members)) == names_of(
            members.filter(|member: (Seq<char>, MemberView<C, V, S>)| becomes_property(member)),
        ),
    decreases members.len(),
{
    reveal(Seq::filter);
    let keep = |member: (Seq<char>, MemberView<C, V, S>)| becomes_property(member);
    if members.len() == 0 {
        assert(planned(members) =~= Seq::empty());
        assert(names_of(members.filter(keep)) =~= Seq::empty());
    } else {
        let front = members.drop_last();
        let last = members.last();
        law_plan_keeps_definition_order(front);
        law_plan_is_balanced(front);
        lemma_outer_append(planned(front), planned_member(last.0, last.1));
        lemma_outer_member(last.0, last.1);
        assert(names_of(members.filter(keep)) =~= names_of(front.filter(keep)) + (
        if becomes_property(last) {
            seq![last.0]
        } else {
            Seq::empty()
        }));
    }
}

} // verus!
