//! Operations that are made of others.

use std::collections::VecDeque;
use std::marker::PhantomData;

use vstd::prelude::*;

use crate::operation::{completes, run, Operation, Progress, Turn};
use crate::request::{no_requests, Reply, ReplyView, Request, RequestView};
use crate::script::{add_item, listed, no_items};

verus! {

/// Operations of one kind, one after the other. The results are in the order of the operations;
/// the first failure ends them all.
#[derive(Debug)]
pub struct InSequence<O, T> {
    rest: VecDeque<O>,
    done: Vec<T>,
}

/// What [`InSequence`] stands for.
pub struct InSequenceView<S, R> {
    /// The operations that did not come to their results yet. The first of them runs.
    pub rest: Seq<S>,
    /// The results of the others.
    pub done: Seq<R>,
}

impl<O: DeepView, T: DeepView> DeepView for InSequence<O, T> {
    type V = InSequenceView<O::V, T::V>;

    closed spec fn deep_view(&self) -> InSequenceView<O::V, T::V> {
        InSequenceView { rest: self.rest.deep_view(), done: self.done.deep_view() }
    }
}

/// Operations of which none has run yet.
pub open spec fn in_sequence<S, R>(operations: Seq<S>) -> InSequenceView<S, R> {
    InSequenceView { rest: operations, done: Seq::empty() }
}

/// Whether all of some states are valid.
pub open spec fn all_valid<O: Operation>(states: Seq<<O as DeepView>::V>) -> bool {
    forall|i: int| 0 <= i < states.len() ==> O::valid(#[trigger] states[i])
}

impl<O: Operation> InSequence<O, O::Output> {
    /// No operations.
    pub fn new() -> (sequence: Self)
        ensures
            sequence.deep_view() == in_sequence::<
                <O as DeepView>::V,
                <O::Output as DeepView>::V,
            >(Seq::empty()),
    {
        let sequence = InSequence { rest: VecDeque::new(), done: no_items() };
        assert(sequence.deep_view().rest =~= Seq::empty());
        sequence
    }

    /// Another operation, after the others.
    pub fn push(&mut self, operation: O)
        ensures
            final(self).deep_view() == (InSequenceView {
                rest: old(self).deep_view().rest.push(operation.deep_view()),
                done: old(self).deep_view().done,
            }),
    {
        self.rest.push_back(operation);
        assert(self.deep_view().rest =~= old(self).deep_view().rest.push(operation.deep_view()));
    }
}

impl<O: Operation> Operation for InSequence<O, O::Output> {
    type Output = Vec<O::Output>;

    open spec fn valid(
        state: InSequenceView<<O as DeepView>::V, <O::Output as DeepView>::V>,
    ) -> bool {
        all_valid::<O>(state.rest)
    }

    open spec fn asked(
        state: InSequenceView<<O as DeepView>::V, <O::Output as DeepView>::V>,
    ) -> Seq<RequestView> {
        if state.rest.len() == 0 {
            seq![]
        } else {
            O::asked(state.rest[0])
        }
    }

    open spec fn turn(
        state: InSequenceView<<O as DeepView>::V, <O::Output as DeepView>::V>,
        replies: Seq<ReplyView>,
    ) -> Turn<
        InSequenceView<<O as DeepView>::V, <O::Output as DeepView>::V>,
        Seq<<O::Output as DeepView>::V>,
    > {
        if state.rest.len() == 0 {
            Turn::End(Ok(state.done))
        } else {
            match O::turn(state.rest[0], replies) {
                Turn::Next(first) => Turn::Next(
                    InSequenceView { rest: seq![first] + state.rest.drop_first(), ..state },
                ),
                Turn::End(Ok(value)) => Turn::Next(
                    InSequenceView { rest: state.rest.drop_first(), done: state.done.push(value) },
                ),
                Turn::End(Err(error)) => Turn::End(Err(error)),
            }
        }
    }

    open spec fn in_range(
        state: InSequenceView<<O as DeepView>::V, <O::Output as DeepView>::V>,
        replies: Seq<ReplyView>,
    ) -> bool {
        state.rest.len() > 0 ==> O::in_range(state.rest[0], replies)
    }

    fn requests(&self) -> Vec<Request> {
        if self.rest.len() == 0 {
            no_requests()
        } else {
            assert(O::valid(self.deep_view().rest[0]));
            self.rest[0].requests()
        }
    }

    fn is_in_range(&self, replies: &Vec<Reply>) -> bool {
        if self.rest.len() == 0 {
            true
        } else {
            assert(O::valid(self.deep_view().rest[0]));
            self.rest[0].is_in_range(replies)
        }
    }

    fn advance(self, replies: Vec<Reply>) -> Progress<InSequence<O, O::Output>, Vec<O::Output>> {
        let InSequence { mut rest, mut done } = self;
        match rest.pop_front() {
            None => Progress::End(Ok(done)),
            Some(first) => {
                assert(O::valid(self.deep_view().rest[0]));
                assert(rest.deep_view() =~= self.deep_view().rest.drop_first());
                match first.advance(replies) {
                    Progress::Next(first) => {
                        rest.push_front(first);
                        assert(rest.deep_view() =~= seq![first.deep_view()]
                            + self.deep_view().rest.drop_first());
                        Progress::Next(InSequence { rest, done })
                    },
                    Progress::End(Ok(value)) => {
                        add_item(&mut done, value);
                        Progress::Next(InSequence { rest, done })
                    },
                    Progress::End(Err(error)) => Progress::End(Err(error)),
                }
            },
        }
    }
}

/// Every operation of a sequence gets one result: as one more is done, one less is left, and the
/// results that were there stay.
pub proof fn each_operation_gets_one_result<O: Operation>(
    state: InSequenceView<<O as DeepView>::V, <O::Output as DeepView>::V>,
    replies: Seq<ReplyView>,
)
    ensures
        match InSequence::<O, O::Output>::turn(state, replies) {
            Turn::Next(next) => {
                &&& next.done.len() + next.rest.len() == state.done.len() + state.rest.len()
                &&& next.done.take(state.done.len() as int) == state.done
                &&& next.done.len() <= state.done.len() + 1
            },
            Turn::End(Ok(done)) => state.rest.len() == 0 && done == state.done,
            Turn::End(Err(error)) => state.rest.len() > 0 && O::turn(state.rest[0], replies)
                == Turn::<<O as DeepView>::V, <O::Output as DeepView>::V>::End(Err(error)),
        },
{
    match InSequence::<O, O::Output>::turn(state, replies) {
        Turn::Next(next) => {
            assert(next.done.take(state.done.len() as int) =~= state.done);
        },
        _ => {},
    }
}

/// Scripts, one after the other.
pub open spec fn joined(scripts: Seq<Seq<Seq<ReplyView>>>) -> Seq<Seq<ReplyView>>
    decreases scripts.len(),
{
    if scripts.len() == 0 {
        Seq::empty()
    } else {
        scripts[0] + joined(scripts.drop_first())
    }
}

/// The first operation of a sequence runs as it would by itself; the others wait for its result.
pub proof fn the_first_operation_runs_by_itself<O: Operation>(
    first: <O as DeepView>::V,
    others: Seq<<O as DeepView>::V>,
    done: Seq<<O::Output as DeepView>::V>,
    script: Seq<Seq<ReplyView>>,
    more: Seq<Seq<ReplyView>>,
    value: <O::Output as DeepView>::V,
)
    requires
        completes::<O>(first, script, value),
    ensures
        run::<InSequence<O, O::Output>>(
            InSequenceView { rest: seq![first] + others, done },
            script + more,
        ) == run::<InSequence<O, O::Output>>(
            InSequenceView { rest: others, done: done.push(value) },
            more,
        ),
    decreases script.len(),
{
    let state = InSequenceView { rest: seq![first] + others, done };
    assert(state.rest[0] == first);
    assert(state.rest.drop_first() =~= others);
    assert((script + more)[0] == script[0]);
    assert((script + more).drop_first() =~= script.drop_first() + more);
    match O::turn(first, script[0]) {
        Turn::Next(next) => {
            the_first_operation_runs_by_itself::<O>(
                next,
                others,
                done,
                script.drop_first(),
                more,
                value,
            );
        },
        _ => {
            assert(script.drop_first() + more =~= more);
        },
    }
}

/// A sequence comes to the results that its operations come to by themselves, in their order.
pub proof fn a_sequence_has_the_results_of_its_operations<O: Operation>(
    operations: Seq<<O as DeepView>::V>,
    done: Seq<<O::Output as DeepView>::V>,
    scripts: Seq<Seq<Seq<ReplyView>>>,
    values: Seq<<O::Output as DeepView>::V>,
)
    requires
        operations.len() == scripts.len() == values.len(),
        forall|i: int|
            0 <= i < operations.len() ==> completes::<O>(
                #[trigger] operations[i],
                scripts[i],
                values[i],
            ),
    ensures
        run::<InSequence<O, O::Output>>(
            InSequenceView { rest: operations, done },
            joined(scripts) + seq![seq![]],
        ) == Turn::<
            InSequenceView<<O as DeepView>::V, <O::Output as DeepView>::V>,
            Seq<<O::Output as DeepView>::V>,
        >::End(Ok(done + values)),
    decreases operations.len(),
{
    let last: Seq<Seq<ReplyView>> = seq![seq![]];
    if operations.len() == 0 {
        assert(joined(scripts) + last =~= last);
        assert(done + values =~= done);
    } else {
        let more = joined(scripts.drop_first()) + last;
        assert(completes::<O>(operations[0], scripts[0], values[0]));
        assert(joined(scripts) + last =~= scripts[0] + more);
        assert(operations =~= seq![operations[0]] + operations.drop_first());
        the_first_operation_runs_by_itself::<O>(
            operations[0],
            operations.drop_first(),
            done,
            scripts[0],
            more,
            values[0],
        );
        assert forall|i: int| 0 <= i < operations.drop_first().len() implies completes::<O>(
            #[trigger] operations.drop_first()[i],
            scripts.drop_first()[i],
            values.drop_first()[i],
        ) by {
            assert(completes::<O>(operations[i + 1], scripts[i + 1], values[i + 1]));
        }
        a_sequence_has_the_results_of_its_operations::<O>(
            operations.drop_first(),
            done.push(values[0]),
            scripts.drop_first(),
            values.drop_first(),
        );
        assert(done.push(values[0]) + values.drop_first() =~= done + values);
    }
}

/// An operation for each item, in the order of the items.
pub(crate) fn for_each<A: DeepView, O: Operation, F: Fn(&A) -> O>(
    items: &[A],
    make: F,
    Ghost(made): Ghost<spec_fn(A::V) -> <O as DeepView>::V>,
) -> (operations: InSequence<O, O::Output>)
    requires
        forall|i: int| 0 <= i < items@.len() ==> call_requires(make, (&#[trigger] items@[i],)),
        forall|item: &A, operation: O|
            #[trigger] call_ensures(make, (item,), operation) ==> operation.deep_view() == made(
                item.deep_view(),
            ) && O::valid(operation.deep_view()),
    ensures
        operations.deep_view() == in_sequence::<
            <O as DeepView>::V,
            <O::Output as DeepView>::V,
        >(items.deep_view().map_values(made)),
        InSequence::<O, O::Output>::valid(operations.deep_view()),
{
    let mut operations: InSequence<O, O::Output> = InSequence::new();
    assert(operations.deep_view().rest =~= items.deep_view().map_values(made).take(0));
    let mut i: usize = 0;
    while i < items.len()
        invariant
            i <= items.len(),
            operations.deep_view() == in_sequence::<
                <O as DeepView>::V,
                <O::Output as DeepView>::V,
            >(items.deep_view().map_values(made).take(i as int)),
            all_valid::<O>(operations.deep_view().rest),
            forall|i: int| 0 <= i < items@.len() ==> call_requires(make, (&#[trigger] items@[i],)),
            forall|item: &A, operation: O|
                #[trigger] call_ensures(make, (item,), operation) ==> operation.deep_view() == made(
                    item.deep_view(),
                ) && O::valid(operation.deep_view()),
        decreases items.len() - i,
    {
        operations.push(make(&items[i]));
        i = i + 1;
        assert(operations.deep_view().rest =~= items.deep_view().map_values(made).take(i as int));
    }
    assert(operations.deep_view().rest =~= items.deep_view().map_values(made));
    operations
}

/// An operation for each item of a list, none where there is no list.
pub(crate) fn for_each_listed<A: DeepView, O: Operation, F: Fn(&A) -> O>(
    items: &Option<Vec<A>>,
    make: F,
    Ghost(made): Ghost<spec_fn(A::V) -> <O as DeepView>::V>,
) -> (operations: InSequence<O, O::Output>)
    requires
        forall|item: &A| call_requires(make, (item,)),
        forall|item: &A, operation: O|
            #[trigger] call_ensures(make, (item,), operation) ==> operation.deep_view() == made(
                item.deep_view(),
            ) && O::valid(operation.deep_view()),
    ensures
        operations.deep_view() == in_sequence::<
            <O as DeepView>::V,
            <O::Output as DeepView>::V,
        >(listed(items.deep_view()).map_values(made)),
        InSequence::<O, O::Output>::valid(operations.deep_view()),
{
    match items {
        Some(items) => for_each(items, make, Ghost(made)),
        None => {
            let operations: InSequence<O, O::Output> = InSequence::new();
            assert(operations.deep_view().rest =~= Seq::<A::V>::empty().map_values(made));
            operations
        },
    }
}

/// A result that is made of a name and another result.
pub trait Labelled<T: DeepView>: DeepView + Sized {
    /// The result that a name and another result make.
    spec fn labelled(name: Seq<char>, value: T::V) -> <Self as DeepView>::V;

    /// The result that a name and another result make.
    fn label(name: String, value: T) -> (made: Self)
        ensures
            made.deep_view() == Self::labelled(name@, value.deep_view()),
    ;
}

/// An operation whose result goes under a name.
#[derive(Debug)]
pub struct Under<O, R> {
    name: String,
    operation: O,
    result: PhantomData<R>,
}

/// What [`Under`] stands for.
pub struct UnderView<S> {
    pub name: Seq<char>,
    pub operation: S,
}

impl<O: DeepView, R> DeepView for Under<O, R> {
    type V = UnderView<O::V>;

    closed spec fn deep_view(&self) -> UnderView<O::V> {
        UnderView { name: self.name@, operation: self.operation.deep_view() }
    }
}

impl<O: Operation, R> Under<O, R> {
    /// An operation, and the name for its result.
    pub fn new(name: String, operation: O) -> (made: Self)
        ensures
            made.deep_view() == (UnderView { name: name@, operation: operation.deep_view() }),
    {
        Under { name, operation, result: PhantomData }
    }
}

impl<O: Operation, R: Labelled<O::Output>> Operation for Under<O, R> {
    type Output = R;

    open spec fn valid(state: UnderView<<O as DeepView>::V>) -> bool {
        O::valid(state.operation)
    }

    open spec fn asked(state: UnderView<<O as DeepView>::V>) -> Seq<RequestView> {
        O::asked(state.operation)
    }

    open spec fn turn(state: UnderView<<O as DeepView>::V>, replies: Seq<ReplyView>) -> Turn<
        UnderView<<O as DeepView>::V>,
        <R as DeepView>::V,
    > {
        match O::turn(state.operation, replies) {
            Turn::Next(operation) => Turn::Next(UnderView { operation, ..state }),
            Turn::End(Ok(value)) => Turn::End(Ok(R::labelled(state.name, value))),
            Turn::End(Err(error)) => Turn::End(Err(error)),
        }
    }

    open spec fn in_range(state: UnderView<<O as DeepView>::V>, replies: Seq<ReplyView>) -> bool {
        O::in_range(state.operation, replies)
    }

    fn requests(&self) -> Vec<Request> {
        self.operation.requests()
    }

    fn is_in_range(&self, replies: &Vec<Reply>) -> bool {
        self.operation.is_in_range(replies)
    }

    fn advance(self, replies: Vec<Reply>) -> Progress<Under<O, R>, R> {
        let Under { name, operation, result } = self;
        match operation.advance(replies) {
            Progress::Next(operation) => Progress::Next(Under { name, operation, result }),
            Progress::End(Ok(value)) => Progress::End(Ok(R::label(name, value))),
            Progress::End(Err(error)) => Progress::End(Err(error)),
        }
    }
}

} // verus!
