//! Operations: what they ask for, and what they make of the replies.

use vstd::prelude::*;

use crate::error::{Error, ErrorCode, ErrorView};
use crate::request::{all_fit, Reply, ReplyView, Request, RequestView};

verus! {

/// Where an operation stands once its requests are answered: it goes on, or it has come to its
/// result.
#[derive(Debug)]
pub enum Progress<O, T> {
    Next(O),
    End(Result<T, Error>),
}

/// What [`Progress`] stands for.
pub enum Turn<S, R> {
    Next(S),
    End(Result<R, ErrorView>),
}

impl<O: DeepView, T: DeepView> DeepView for Progress<O, T> {
    type V = Turn<O::V, T::V>;

    open spec fn deep_view(&self) -> Turn<O::V, T::V> {
        match self {
            Progress::Next(operation) => Turn::Next(operation.deep_view()),
            Progress::End(Ok(value)) => Turn::End(Ok(value.deep_view())),
            Progress::End(Err(error)) => Turn::End(Err(error.deep_view())),
        }
    }
}

/// An operation that failed with a code of the protocol.
pub open spec fn refused<S, R>(code: ErrorCode) -> Turn<S, R> {
    Turn::End(Err(ErrorView::Api(code)))
}

/// The message of an operation that needs a row and gets none.
pub const NO_ROWS: &'static str = "No rows returned";

/// An operation that failed for want of a row.
pub open spec fn no_rows<S, R>() -> Turn<S, R> {
    Turn::End(Err(ErrorView::Message(NO_ROWS@)))
}

/// An operation of the engine. Its requests are done one after the other; where one of them fails,
/// the operation fails with that error, and nothing more of it is done. Where all are done, the
/// replies take it to its next requests or to its result.
pub trait Operation: DeepView + Sized {
    /// What the operation gives where it succeeds.
    type Output: DeepView;

    /// Whether the engine comes to a state.
    spec fn valid(state: <Self as DeepView>::V) -> bool;

    /// The requests of a state.
    spec fn asked(state: <Self as DeepView>::V) -> Seq<RequestView>;

    /// What the replies to the requests of a state lead to.
    spec fn turn(state: <Self as DeepView>::V, replies: Seq<ReplyView>) -> Turn<
        <Self as DeepView>::V,
        <Self::Output as DeepView>::V,
    >;

    /// Whether what has to be computed from the replies is in the range of its type.
    spec fn in_range(state: <Self as DeepView>::V, replies: Seq<ReplyView>) -> bool;

    /// The requests that are to be done now.
    fn requests(&self) -> (requests: Vec<Request>)
        requires
            Self::valid(self.deep_view()),
        ensures
            requests.deep_view() == Self::asked(self.deep_view()),
    ;

    /// Whether what has to be computed from the replies is in the range of its type.
    fn is_in_range(&self, replies: &Vec<Reply>) -> (within: bool)
        requires
            Self::valid(self.deep_view()),
            all_fit(Self::asked(self.deep_view()), replies.deep_view()),
        ensures
            within == Self::in_range(self.deep_view(), replies.deep_view()),
    ;

    /// Go on with the replies to the requests.
    fn advance(self, replies: Vec<Reply>) -> (progress: Progress<Self, Self::Output>)
        requires
            Self::valid(self.deep_view()),
            all_fit(Self::asked(self.deep_view()), replies.deep_view()),
            Self::in_range(self.deep_view(), replies.deep_view()),
        ensures
            progress.deep_view() == Self::turn(self.deep_view(), replies.deep_view()),
            progress matches Progress::Next(next) ==> Self::valid(next.deep_view()),
    ;
}

/// What an operation comes to with the replies to its requests, one lot of them after the other.
pub open spec fn run<O: Operation>(
    state: <O as DeepView>::V,
    script: Seq<Seq<ReplyView>>,
) -> Turn<<O as DeepView>::V, <O::Output as DeepView>::V>
    decreases script.len(),
{
    if script.len() == 0 {
        Turn::Next(state)
    } else {
        match O::turn(state, script[0]) {
            Turn::Next(next) => run::<O>(next, script.drop_first()),
            Turn::End(end) => Turn::End(end),
        }
    }
}

/// A run goes on from where its first turn leads.
pub proof fn a_run_goes_on<O: Operation>(
    state: <O as DeepView>::V,
    first: Seq<ReplyView>,
    rest: Seq<Seq<ReplyView>>,
)
    ensures
        run::<O>(state, seq![first] + rest) == match O::turn(state, first) {
            Turn::Next(next) => run::<O>(next, rest),
            Turn::End(end) => Turn::End(end),
        },
{
    assert((seq![first] + rest).drop_first() =~= rest);
}

/// Whether an operation comes to a result with the last of the replies that it is given, and not
/// before.
pub open spec fn completes<O: Operation>(
    state: <O as DeepView>::V,
    script: Seq<Seq<ReplyView>>,
    value: <O::Output as DeepView>::V,
) -> bool
    decreases script.len(),
{
    script.len() > 0 && match O::turn(state, script[0]) {
        Turn::Next(next) => completes::<O>(next, script.drop_first(), value),
        Turn::End(Ok(end)) => script.len() == 1 && end == value,
        Turn::End(Err(_)) => false,
    }
}

/// An operation that comes to a result has it.
pub proof fn a_complete_run_has_its_result<O: Operation>(
    state: <O as DeepView>::V,
    script: Seq<Seq<ReplyView>>,
    value: <O::Output as DeepView>::V,
)
    requires
        completes::<O>(state, script, value),
    ensures
        run::<O>(state, script) == Turn::<
            <O as DeepView>::V,
            <O::Output as DeepView>::V,
        >::End(Ok(value)),
    decreases script.len(),
{
    match O::turn(state, script[0]) {
        Turn::Next(next) => a_complete_run_has_its_result::<O>(next, script.drop_first(), value),
        _ => {},
    }
}

} // verus!
