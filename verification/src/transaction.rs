//! Operations on a connection, and in a transaction, of their own.

use vstd::prelude::*;

use crate::error::ErrorView;
use crate::operation::{completes, Operation, Progress, Turn};
use crate::request::{ask, no_requests, Reply, ReplyView, Request, RequestView};
use crate::script::{gather, in_turn};

verus! {

/// An operation with a connection of its own.
#[derive(Debug)]
pub enum Connected<O> {
    /// A connection is taken.
    Open(O),
    /// The operation runs.
    Within(O),
}

/// What [`Connected`] stands for.
pub enum ConnectedView<S> {
    Open(S),
    Within(S),
}

impl<O: DeepView> DeepView for Connected<O> {
    type V = ConnectedView<O::V>;

    open spec fn deep_view(&self) -> ConnectedView<O::V> {
        match self {
            Connected::Open(operation) => ConnectedView::Open(operation.deep_view()),
            Connected::Within(operation) => ConnectedView::Within(operation.deep_view()),
        }
    }
}

impl<O: Operation> Operation for Connected<O> {
    type Output = O::Output;

    open spec fn valid(state: ConnectedView<<O as DeepView>::V>) -> bool {
        match state {
            ConnectedView::Open(inner) => O::valid(inner),
            ConnectedView::Within(inner) => O::valid(inner),
        }
    }

    open spec fn asked(state: ConnectedView<<O as DeepView>::V>) -> Seq<RequestView> {
        match state {
            ConnectedView::Open(_) => seq![RequestView::Connect],
            ConnectedView::Within(inner) => O::asked(inner),
        }
    }

    open spec fn turn(state: ConnectedView<<O as DeepView>::V>, replies: Seq<ReplyView>) -> Turn<
        ConnectedView<<O as DeepView>::V>,
        <O::Output as DeepView>::V,
    > {
        match state {
            ConnectedView::Open(inner) => Turn::Next(ConnectedView::Within(inner)),
            ConnectedView::Within(inner) => match O::turn(inner, replies) {
                Turn::Next(inner) => Turn::Next(ConnectedView::Within(inner)),
                Turn::End(end) => Turn::End(end),
            },
        }
    }

    open spec fn in_range(
        state: ConnectedView<<O as DeepView>::V>,
        replies: Seq<ReplyView>,
    ) -> bool {
        state matches ConnectedView::Within(inner) ==> O::in_range(inner, replies)
    }

    fn requests(&self) -> Vec<Request> {
        match self {
            Connected::Open(_) => {
                let mut requests = no_requests();
                ask(&mut requests, Request::Connect);
                requests
            },
            Connected::Within(operation) => operation.requests(),
        }
    }

    fn is_in_range(&self, replies: &Vec<Reply>) -> bool {
        match self {
            Connected::Open(_) => true,
            Connected::Within(operation) => operation.is_in_range(replies),
        }
    }

    fn advance(self, replies: Vec<Reply>) -> Progress<Connected<O>, O::Output> {
        match self {
            Connected::Open(operation) => Progress::Next(Connected::Within(operation)),
            Connected::Within(operation) => match operation.advance(replies) {
                Progress::Next(operation) => Progress::Next(Connected::Within(operation)),
                Progress::End(end) => Progress::End(end),
            },
        }
    }
}

/// An operation with a connection and a transaction of its own. The transaction is committed once
/// the operation has succeeded; where it fails, the transaction is left to be rolled back.
#[derive(Debug)]
pub enum Transaction<O, T> {
    /// A connection is taken, and the transaction begun.
    Open(O),
    /// The operation runs.
    Within(O),
    /// The operation came to its result, and the transaction is committed.
    Commit(T),
}

/// What [`Transaction`] stands for.
pub enum TransactionView<S, R> {
    Open(S),
    Within(S),
    Commit(R),
}

impl<O: DeepView, T: DeepView> DeepView for Transaction<O, T> {
    type V = TransactionView<O::V, T::V>;

    open spec fn deep_view(&self) -> TransactionView<O::V, T::V> {
        match self {
            Transaction::Open(operation) => TransactionView::Open(operation.deep_view()),
            Transaction::Within(operation) => TransactionView::Within(operation.deep_view()),
            Transaction::Commit(value) => TransactionView::Commit(value.deep_view()),
        }
    }
}

impl<O: Operation> Operation for Transaction<O, O::Output> {
    type Output = O::Output;

    open spec fn valid(
        state: TransactionView<<O as DeepView>::V, <O::Output as DeepView>::V>,
    ) -> bool {
        match state {
            TransactionView::Open(inner) => O::valid(inner),
            TransactionView::Within(inner) => O::valid(inner),
            TransactionView::Commit(_) => true,
        }
    }

    open spec fn asked(
        state: TransactionView<<O as DeepView>::V, <O::Output as DeepView>::V>,
    ) -> Seq<RequestView> {
        match state {
            TransactionView::Open(_) => seq![RequestView::Connect, RequestView::Begin],
            TransactionView::Within(inner) => O::asked(inner),
            TransactionView::Commit(_) => seq![RequestView::Commit],
        }
    }

    open spec fn turn(
        state: TransactionView<<O as DeepView>::V, <O::Output as DeepView>::V>,
        replies: Seq<ReplyView>,
    ) -> Turn<
        TransactionView<<O as DeepView>::V, <O::Output as DeepView>::V>,
        <O::Output as DeepView>::V,
    > {
        match state {
            TransactionView::Open(inner) => Turn::Next(TransactionView::Within(inner)),
            TransactionView::Within(inner) => match O::turn(inner, replies) {
                Turn::Next(inner) => Turn::Next(TransactionView::Within(inner)),
                Turn::End(Ok(value)) => Turn::Next(TransactionView::Commit(value)),
                Turn::End(Err(error)) => Turn::End(Err(error)),
            },
            TransactionView::Commit(value) => Turn::End(Ok(value)),
        }
    }

    open spec fn in_range(
        state: TransactionView<<O as DeepView>::V, <O::Output as DeepView>::V>,
        replies: Seq<ReplyView>,
    ) -> bool {
        state matches TransactionView::Within(inner) ==> O::in_range(inner, replies)
    }

    fn requests(&self) -> Vec<Request> {
        match self {
            Transaction::Open(_) => {
                let mut requests = no_requests();
                ask(&mut requests, Request::Connect);
                ask(&mut requests, Request::Begin);
                requests
            },
            Transaction::Within(operation) => operation.requests(),
            Transaction::Commit(_) => {
                let mut requests = no_requests();
                ask(&mut requests, Request::Commit);
                requests
            },
        }
    }

    fn is_in_range(&self, replies: &Vec<Reply>) -> bool {
        match self {
            Transaction::Within(operation) => operation.is_in_range(replies),
            _ => true,
        }
    }

    fn advance(self, replies: Vec<Reply>) -> Progress<Transaction<O, O::Output>, O::Output> {
        match self {
            Transaction::Open(operation) => Progress::Next(Transaction::Within(operation)),
            Transaction::Within(operation) => match operation.advance(replies) {
                Progress::Next(operation) => Progress::Next(Transaction::Within(operation)),
                Progress::End(Ok(value)) => Progress::Next(Transaction::Commit(value)),
                Progress::End(Err(error)) => Progress::End(Err(error)),
            },
            Transaction::Commit(value) => Progress::End(Ok(value)),
        }
    }
}

/// Whether requests leave the connection and the transaction that they run in as they are.
pub open spec fn stays_within(requests: Seq<RequestView>) -> bool {
    forall|i: int| 0 <= i < requests.len() ==> is_inner(#[trigger] requests[i])
}

/// Whether a request neither takes a connection nor begins or commits a transaction.
pub open spec fn is_inner(request: RequestView) -> bool {
    !(request is Connect) && !(request is Begin) && !(request is Commit)
}

/// A transaction is committed where its operation has succeeded, and not otherwise.
pub proof fn only_success_is_committed<O: Operation>(
    state: TransactionView<<O as DeepView>::V, <O::Output as DeepView>::V>,
    replies: Seq<ReplyView>,
)
    ensures
        match Transaction::<O, O::Output>::turn(state, replies) {
            Turn::Next(TransactionView::Commit(value)) => state matches TransactionView::Within(
                inner,
            ) && O::turn(inner, replies) == Turn::<
                <O as DeepView>::V,
                <O::Output as DeepView>::V,
            >::End(Ok(value)),
            _ => state matches TransactionView::Within(inner) ==> !(O::turn(
                inner,
                replies,
            ) matches Turn::End(Ok(_))),
        },
{
}

/// A commit is the last that is asked for, and the operation has the result that it came to.
pub proof fn nothing_follows_a_commit<O: Operation>(
    value: <O::Output as DeepView>::V,
    replies: Seq<ReplyView>,
)
    ensures
        Transaction::<O, O::Output>::asked(TransactionView::Commit(value)) == seq![
            RequestView::Commit,
        ],
        Transaction::<O, O::Output>::turn(TransactionView::Commit(value), replies) == Turn::<
            TransactionView<<O as DeepView>::V, <O::Output as DeepView>::V>,
            <O::Output as DeepView>::V,
        >::End(Ok(value)),
{
}

/// An operation that fails in its transaction fails with the same error, and there is no commit.
pub proof fn failure_is_not_committed<O: Operation>(
    inner: <O as DeepView>::V,
    replies: Seq<ReplyView>,
    error: ErrorView,
)
    requires
        O::turn(inner, replies) == Turn::<
            <O as DeepView>::V,
            <O::Output as DeepView>::V,
        >::End(Err(error)),
    ensures
        Transaction::<O, O::Output>::turn(TransactionView::Within(inner), replies) == Turn::<
            TransactionView<<O as DeepView>::V, <O::Output as DeepView>::V>,
            <O::Output as DeepView>::V,
        >::End(Err(error)),
{
}

/// An operation on a connection of its own comes to the result that it comes to by itself.
pub proof fn a_connection_keeps_the_result<O: Operation>(
    inner: <O as DeepView>::V,
    script: Seq<Seq<ReplyView>>,
    value: <O::Output as DeepView>::V,
)
    requires
        completes::<O>(inner, script, value),
    ensures
        completes::<Connected<O>>(ConnectedView::Within(inner), script, value),
        completes::<Connected<O>>(
            ConnectedView::Open(inner),
            seq![seq![ReplyView::Done]] + script,
            value,
        ),
    decreases script.len(),
{
    assert((seq![seq![ReplyView::Done]] + script).drop_first() =~= script);
    match O::turn(inner, script[0]) {
        Turn::Next(next) => a_connection_keeps_the_result::<O>(next, script.drop_first(), value),
        _ => {},
    }
}

/// An operation in a transaction of its own comes to the result that it comes to by itself, once
/// the transaction was begun before it and is committed after it.
pub proof fn a_transaction_keeps_the_result<O: Operation>(
    inner: <O as DeepView>::V,
    script: Seq<Seq<ReplyView>>,
    value: <O::Output as DeepView>::V,
)
    requires
        completes::<O>(inner, script, value),
    ensures
        completes::<Transaction<O, O::Output>>(
            TransactionView::Within(inner),
            script + seq![seq![ReplyView::Done]],
            value,
        ),
        completes::<Transaction<O, O::Output>>(
            TransactionView::Open(inner),
            seq![seq![ReplyView::Done, ReplyView::Done]] + script + seq![seq![ReplyView::Done]],
            value,
        ),
    decreases script.len(),
{
    let commit: Seq<Seq<ReplyView>> = seq![seq![ReplyView::Done]];
    let whole = seq![seq![ReplyView::Done, ReplyView::Done]] + script + commit;
    assert((script + commit).drop_first() =~= script.drop_first() + commit);
    assert((script + commit)[0] == script[0]);
    match O::turn(inner, script[0]) {
        Turn::Next(next) => {
            a_transaction_keeps_the_result::<O>(next, script.drop_first(), value);
        },
        _ => {
            assert(script.drop_first() + commit =~= commit);
            assert(completes::<Transaction<O, O::Output>>(
                TransactionView::Commit(value),
                commit,
                value,
            ));
        },
    }
    assert(whole.drop_first() =~= script + commit);
    assert(completes::<Transaction<O, O::Output>>(
        TransactionView::Within(inner),
        whole.drop_first(),
        value,
    ));
    assert(Transaction::<O, O::Output>::turn(TransactionView::Open(inner), whole[0]) == Turn::<
        TransactionView<<O as DeepView>::V, <O::Output as DeepView>::V>,
        <O::Output as DeepView>::V,
    >::Next(TransactionView::Within(inner)));
}

/// Parts that stay within a transaction do so together.
pub(crate) proof fn gathered_stays_within(n: int, part: spec_fn(int) -> Seq<RequestView>)
    requires
        forall|k: int| 0 <= k < n ==> stays_within(#[trigger] part(k)),
    ensures
        stays_within(gather(n, part)),
    decreases n,
{
    if n > 0 {
        gathered_stays_within(n - 1, part);
        assert(stays_within(part(n - 1)));
    }
}

/// Items that give what stays within a transaction do so together.
pub(crate) proof fn given_stays_within<A>(items: Seq<A>, given: spec_fn(A) -> Seq<RequestView>)
    requires
        forall|item: A| stays_within(#[trigger] given(item)),
    ensures
        stays_within(in_turn(items, given)),
    decreases items.len(),
{
    if items.len() > 0 {
        given_stays_within(items.drop_last(), given);
        assert(stays_within(given(items.last())));
    }
}

} // verus!
