//! Whole talks: what an operation asks for, what is replied, and how it ends.

use vstd::prelude::*;

use crate::error::ErrorView;
use crate::operation::{Operation, Turn};
use crate::request::{all_fit, fits, ReplyView, RequestView, Shape};
use crate::sequence::{InSequence, InSequenceView, Labelled, Under, UnderView};
use crate::sql::Sql;
use crate::transaction::{Connected, ConnectedView, Transaction, TransactionView};
use crate::value::{StatementView, ValueView};

verus! {

/// What is asked for at one time, and what is replied to it.
pub type Exchange = (Seq<RequestView>, Seq<ReplyView>);

/// Whether an operation, with the replies of a talk, asks for what is asked for in the talk, at
/// each time for all of it and for nothing else, and ends as the talk does, and not before.
pub open spec fn talks<O: Operation>(
    state: <O as DeepView>::V,
    talk: Seq<Exchange>,
    end: Result<<O::Output as DeepView>::V, ErrorView>,
) -> bool
    decreases talk.len(),
{
    &&& talk.len() > 0
    &&& O::asked(state) == talk[0].0
    &&& all_fit(talk[0].0, talk[0].1)
    &&& O::in_range(state, talk[0].1)
    &&& match O::turn(state, talk[0].1) {
        Turn::Next(next) => talks::<O>(next, talk.drop_first(), end),
        Turn::End(found) => talk.len() == 1 && found == end,
    }
}

/// A statement is run.
pub open spec fn executes(sql: Sql, params: Seq<ValueView>) -> RequestView {
    RequestView::Execute(StatementView { sql, params })
}

/// A statement is run for its first row.
pub open spec fn looks_up(sql: Sql, params: Seq<ValueView>, shape: Shape) -> RequestView {
    RequestView::First(StatementView { sql, params }, shape)
}

/// A statement is run for its rows.
pub open spec fn queries(sql: Sql, params: Seq<ValueView>, shape: Shape) -> RequestView {
    RequestView::Query(StatementView { sql, params }, shape)
}

/// Whether replies tell of statements that were run, a number of them.
pub open spec fn all_affected(replies: Seq<ReplyView>, n: nat) -> bool {
    &&& replies.len() == n
    &&& forall|i: int| 0 <= i < n ==> (#[trigger] replies[i]) is Affected
}

/// Whether requests are statements to be run, all of them.
pub open spec fn all_execute(requests: Seq<RequestView>) -> bool {
    forall|i: int| 0 <= i < requests.len() ==> (#[trigger] requests[i]) is Execute
}

/// Statements that are run are answered by numbers of rows.
pub(crate) proof fn affected_fits(requests: Seq<RequestView>, replies: Seq<ReplyView>)
    requires
        all_execute(requests),
        all_affected(replies, requests.len()),
    ensures
        all_fit(requests, replies),
{
    assert forall|i: int| 0 <= i < replies.len() implies fits(
        requests[i],
        #[trigger] replies[i],
    ) by {
        assert(requests[i] is Execute);
    }
}

/// Parts that are statements to be run are so together.
pub(crate) proof fn flattened_execute(parts: Seq<Seq<RequestView>>)
    requires
        forall|k: int| 0 <= k < parts.len() ==> all_execute(#[trigger] parts[k]),
    ensures
        all_execute(parts.flatten()),
    decreases parts.len(),
{
    if parts.len() > 0 {
        assert(all_execute(parts[0]));
        assert forall|k: int| 0 <= k < parts.drop_first().len() implies all_execute(
            #[trigger] parts.drop_first()[k],
        ) by {
            assert(all_execute(parts[k + 1]));
        }
        flattened_execute(parts.drop_first());
        let first = parts[0];
        let rest = parts.drop_first().flatten();
        assert(parts.flatten() =~= first + rest);
        assert forall|i: int| 0 <= i < (first + rest).len() implies (#[trigger] (first + rest)[i])
            is Execute by {
            if i < first.len() {
                assert(first[i] is Execute);
            } else {
                assert(rest[i - first.len()] is Execute);
            }
        }
    }
}

/// A talk on a connection that is taken for it.
pub open spec fn on_a_connection(talk: Seq<Exchange>) -> Seq<Exchange> {
    seq![(seq![RequestView::Connect], seq![ReplyView::Done])] + talk
}

/// A talk in a transaction that is begun for it, and committed after it or not.
pub open spec fn in_a_transaction(talk: Seq<Exchange>, committed: bool) -> Seq<Exchange> {
    seq![
        (
            seq![RequestView::Connect, RequestView::Begin],
            seq![ReplyView::Done, ReplyView::Done],
        ),
    ] + (talk + (if committed {
        seq![(seq![RequestView::Commit], seq![ReplyView::Done])]
    } else {
        seq![]
    }))
}

/// An operation that ends with its replies.
pub(crate) proof fn talk_ends<O: Operation>(
    state: <O as DeepView>::V,
    asked: Seq<RequestView>,
    replies: Seq<ReplyView>,
    end: Result<<O::Output as DeepView>::V, ErrorView>,
)
    requires
        O::asked(state) == asked,
        all_fit(asked, replies),
        O::in_range(state, replies),
        O::turn(state, replies) matches Turn::End(found) && found == end,
    ensures
        talks::<O>(state, seq![(asked, replies)], end),
{
}

/// An operation that goes on with its replies.
pub(crate) proof fn talk_goes_on<O: Operation>(
    state: <O as DeepView>::V,
    asked: Seq<RequestView>,
    replies: Seq<ReplyView>,
    next: <O as DeepView>::V,
    rest: Seq<Exchange>,
    end: Result<<O::Output as DeepView>::V, ErrorView>,
)
    requires
        O::asked(state) == asked,
        all_fit(asked, replies),
        O::in_range(state, replies),
        O::turn(state, replies) matches Turn::Next(found) && found == next,
        talks::<O>(next, rest, end),
    ensures
        talks::<O>(state, seq![(asked, replies)] + rest, end),
{
    assert((seq![(asked, replies)] + rest).drop_first() =~= rest);
}

/// An operation with a connection of its own takes the connection, and then asks for what it asks
/// for by itself, and ends as it does by itself.
pub proof fn a_connection_is_taken_first<O: Operation>(
    inner: <O as DeepView>::V,
    talk: Seq<Exchange>,
    end: Result<<O::Output as DeepView>::V, ErrorView>,
)
    requires
        talks::<O>(inner, talk, end),
    ensures
        talks::<Connected<O>>(ConnectedView::Within(inner), talk, end),
        talks::<Connected<O>>(
            ConnectedView::Open(inner),
            seq![(seq![RequestView::Connect], seq![ReplyView::Done])] + talk,
            end,
        ),
    decreases talk.len(),
{
    match O::turn(inner, talk[0].1) {
        Turn::Next(next) => a_connection_is_taken_first::<O>(next, talk.drop_first(), end),
        _ => {},
    }
    talk_goes_on::<Connected<O>>(
        ConnectedView::Open(inner),
        seq![RequestView::Connect],
        seq![ReplyView::Done],
        ConnectedView::Within(inner),
        talk,
        end,
    );
}

/// An operation with a transaction of its own begins the transaction, asks for what it asks for by
/// itself, and where it succeeds commits the transaction. Where it fails, nothing is committed.
pub proof fn a_transaction_encloses_a_talk<O: Operation>(
    inner: <O as DeepView>::V,
    talk: Seq<Exchange>,
    end: Result<<O::Output as DeepView>::V, ErrorView>,
)
    requires
        talks::<O>(inner, talk, end),
    ensures
        talks::<Transaction<O, O::Output>>(
            TransactionView::Within(inner),
            talk + (if end is Ok {
                seq![(seq![RequestView::Commit], seq![ReplyView::Done])]
            } else {
                seq![]
            }),
            end,
        ),
        talks::<Transaction<O, O::Output>>(
            TransactionView::Open(inner),
            seq![
                (
                    seq![RequestView::Connect, RequestView::Begin],
                    seq![ReplyView::Done, ReplyView::Done],
                ),
            ] + (talk + (if end is Ok {
                seq![(seq![RequestView::Commit], seq![ReplyView::Done])]
            } else {
                seq![]
            })),
            end,
        ),
    decreases talk.len(),
{
    let commit: Seq<Exchange> = if end is Ok {
        seq![(seq![RequestView::Commit], seq![ReplyView::Done])]
    } else {
        seq![]
    };
    let whole = talk + commit;
    assert(whole[0] == talk[0]);
    assert(whole.drop_first() =~= talk.drop_first() + commit);
    match O::turn(inner, talk[0].1) {
        Turn::Next(next) => a_transaction_encloses_a_talk::<O>(next, talk.drop_first(), end),
        Turn::End(Ok(value)) => {
            talk_ends::<Transaction<O, O::Output>>(
                TransactionView::Commit(value),
                seq![RequestView::Commit],
                seq![ReplyView::Done],
                end,
            );
            assert(whole.drop_first() =~= commit);
        },
        Turn::End(Err(_)) => {
            assert(whole =~= talk);
        },
    }
    assert(talks::<Transaction<O, O::Output>>(TransactionView::Within(inner), whole, end));
    talk_goes_on::<Transaction<O, O::Output>>(
        TransactionView::Open(inner),
        seq![RequestView::Connect, RequestView::Begin],
        seq![ReplyView::Done, ReplyView::Done],
        TransactionView::Within(inner),
        whole,
        end,
    );
}

/// The first operation of a sequence talks as it does by itself. Where it succeeds, the others
/// follow with its result noted; where it fails, they do not.
pub proof fn the_first_of_a_sequence_talks<O: Operation>(
    first: <O as DeepView>::V,
    others: Seq<<O as DeepView>::V>,
    done: Seq<<O::Output as DeepView>::V>,
    talk: Seq<Exchange>,
    found: Result<<O::Output as DeepView>::V, ErrorView>,
    more: Seq<Exchange>,
    end: Result<Seq<<O::Output as DeepView>::V>, ErrorView>,
)
    requires
        talks::<O>(first, talk, found),
        match found {
            Ok(value) => talks::<InSequence<O, O::Output>>(
                InSequenceView { rest: others, done: done.push(value) },
                more,
                end,
            ),
            Err(error) => more.len() == 0 && end == Err::<
                Seq<<O::Output as DeepView>::V>,
                ErrorView,
            >(error),
        },
    ensures
        talks::<InSequence<O, O::Output>>(
            InSequenceView { rest: seq![first] + others, done },
            talk + more,
            end,
        ),
    decreases talk.len(),
{
    let state = InSequenceView { rest: seq![first] + others, done };
    let whole = talk + more;
    assert(state.rest[0] == first);
    assert(state.rest.drop_first() =~= others);
    assert(whole[0] == talk[0]);
    assert(whole.drop_first() =~= talk.drop_first() + more);
    match O::turn(first, talk[0].1) {
        Turn::Next(next) => {
            the_first_of_a_sequence_talks::<O>(
                next,
                others,
                done,
                talk.drop_first(),
                found,
                more,
                end,
            );
        },
        Turn::End(_) => {
            assert(whole.drop_first() =~= more);
        },
    }
}

/// The operations of a sequence talk one after the other, each as it does by itself, and the answer
/// holds their results in their order.
pub proof fn a_sequence_talks_in_order<O: Operation>(
    operations: Seq<<O as DeepView>::V>,
    done: Seq<<O::Output as DeepView>::V>,
    parts: Seq<Seq<Exchange>>,
    values: Seq<<O::Output as DeepView>::V>,
)
    requires
        operations.len() == parts.len() == values.len(),
        forall|i: int|
            0 <= i < operations.len() ==> talks::<O>(
                #[trigger] operations[i],
                parts[i],
                Ok(values[i]),
            ),
    ensures
        talks::<InSequence<O, O::Output>>(
            InSequenceView { rest: operations, done },
            parts.flatten() + seq![(seq![], seq![])],
            Ok(done + values),
        ),
    decreases operations.len(),
{
    let last: Seq<Exchange> = seq![(seq![], seq![])];
    if operations.len() == 0 {
        assert(parts.flatten() + last =~= last);
        assert(done + values =~= done);
    } else {
        let more = parts.drop_first().flatten() + last;
        assert(talks::<O>(operations[0], parts[0], Ok(values[0])));
        assert forall|i: int| 0 <= i < operations.drop_first().len() implies talks::<O>(
            #[trigger] operations.drop_first()[i],
            parts.drop_first()[i],
            Ok(values.drop_first()[i]),
        ) by {
            assert(talks::<O>(operations[i + 1], parts[i + 1], Ok(values[i + 1])));
        }
        a_sequence_talks_in_order::<O>(
            operations.drop_first(),
            done.push(values[0]),
            parts.drop_first(),
            values.drop_first(),
        );
        assert(done.push(values[0]) + values.drop_first() =~= done + values);
        assert(operations =~= seq![operations[0]] + operations.drop_first());
        assert(parts.flatten() + last =~= parts[0] + more);
        the_first_of_a_sequence_talks::<O>(
            operations[0],
            operations.drop_first(),
            done,
            parts[0],
            Ok(values[0]),
            more,
            Ok(done + values),
        );
    }
}

/// The first failure of an operation of a sequence ends the sequence with its error. Those before
/// it have talked, those after it do not.
pub proof fn a_failure_ends_a_sequence<O: Operation>(
    operations: Seq<<O as DeepView>::V>,
    done: Seq<<O::Output as DeepView>::V>,
    parts: Seq<Seq<Exchange>>,
    values: Seq<<O::Output as DeepView>::V>,
    failing: Seq<Exchange>,
    error: ErrorView,
)
    requires
        parts.len() == values.len() < operations.len(),
        forall|i: int|
            0 <= i < parts.len() ==> talks::<O>(
                #[trigger] operations[i],
                parts[i],
                Ok(values[i]),
            ),
        talks::<O>(operations[parts.len() as int], failing, Err(error)),
    ensures
        talks::<InSequence<O, O::Output>>(
            InSequenceView { rest: operations, done },
            parts.flatten() + failing,
            Err(error),
        ),
    decreases operations.len(),
{
    assert(operations =~= seq![operations[0]] + operations.drop_first());
    if parts.len() == 0 {
        assert(parts.flatten() + failing =~= failing + Seq::<Exchange>::empty());
        the_first_of_a_sequence_talks::<O>(
            operations[0],
            operations.drop_first(),
            done,
            failing,
            Err(error),
            Seq::empty(),
            Err(error),
        );
    } else {
        let more = parts.drop_first().flatten() + failing;
        assert(talks::<O>(operations[0], parts[0], Ok(values[0])));
        assert forall|i: int| 0 <= i < parts.drop_first().len() implies talks::<O>(
            #[trigger] operations.drop_first()[i],
            parts.drop_first()[i],
            Ok(values.drop_first()[i]),
        ) by {
            assert(talks::<O>(operations[i + 1], parts[i + 1], Ok(values[i + 1])));
        }
        a_failure_ends_a_sequence::<O>(
            operations.drop_first(),
            done.push(values[0]),
            parts.drop_first(),
            values.drop_first(),
            failing,
            error,
        );
        assert(parts.flatten() + failing =~= parts[0] + more);
        the_first_of_a_sequence_talks::<O>(
            operations[0],
            operations.drop_first(),
            done,
            parts[0],
            Ok(values[0]),
            more,
            Err(error),
        );
    }
}

/// An operation whose result goes under a name talks as it does by itself.
pub proof fn a_name_leaves_the_talk<O: Operation, R: Labelled<O::Output>>(
    name: Seq<char>,
    inner: <O as DeepView>::V,
    talk: Seq<Exchange>,
    end: Result<<O::Output as DeepView>::V, ErrorView>,
)
    requires
        talks::<O>(inner, talk, end),
    ensures
        talks::<Under<O, R>>(
            UnderView { name, operation: inner },
            talk,
            match end {
                Ok(value) => Ok(R::labelled(name, value)),
                Err(error) => Err(error),
            },
        ),
    decreases talk.len(),
{
    match O::turn(inner, talk[0].1) {
        Turn::Next(next) => a_name_leaves_the_talk::<O, R>(name, next, talk.drop_first(), end),
        _ => {},
    }
}

} // verus!
