//! Operations whose requests are done one at a time.

use vstd::prelude::*;

use crate::errand::{outcome_view, Errand, ErrandView};
use crate::error::{Error, ErrorView};
use crate::operation::{Operation, Progress, Turn};
use crate::request::{all_fit, fits, Reply, ReplyView, Request};

verus! {

/// An operation, and how far its requests are done.
#[derive(Debug)]
pub struct Session<O> {
    operation: O,
    errand: Errand,
}

/// What [`Session`] stands for.
pub struct SessionView<S> {
    pub operation: S,
    pub errand: ErrandView,
}

impl<O: DeepView> DeepView for Session<O> {
    type V = SessionView<O::V>;

    closed spec fn deep_view(&self) -> SessionView<O::V> {
        SessionView { operation: self.operation.deep_view(), errand: self.errand.deep_view() }
    }
}

/// An operation of whose requests none was done yet.
pub open spec fn session_of<O: Operation>(operation: <O as DeepView>::V) -> SessionView<
    <O as DeepView>::V,
> {
    SessionView {
        operation,
        errand: ErrandView {
            requests: O::asked(operation),
            replies: Seq::empty(),
            failure: None,
        },
    }
}

/// The errand is that of the operation.
pub open spec fn session_wf<O: Operation>(session: SessionView<<O as DeepView>::V>) -> bool {
    &&& O::valid(session.operation)
    &&& session.errand.wf()
    &&& session.errand.requests == O::asked(session.operation)
}

/// What a session comes to once its errand is over: the failure of a request is that of the
/// operation.
pub open spec fn session_turn<O: Operation>(session: SessionView<<O as DeepView>::V>) -> Turn<
    SessionView<<O as DeepView>::V>,
    <O::Output as DeepView>::V,
> {
    match session.errand.settled() {
        Err(error) => Turn::End(Err(error)),
        Ok(replies) => match O::turn(session.operation, replies) {
            Turn::Next(operation) => Turn::Next(session_of::<O>(operation)),
            Turn::End(end) => Turn::End(end),
        },
    }
}

/// Whether what has to be computed from the replies is in the range of its type.
pub open spec fn session_in_range<O: Operation>(session: SessionView<<O as DeepView>::V>) -> bool {
    session.errand.settled() matches Ok(replies) ==> O::in_range(session.operation, replies)
}

impl<O: Operation> Session<O> {
    /// An operation of whose requests none was done yet.
    pub fn new(operation: O) -> (session: Session<O>)
        requires
            O::valid(operation.deep_view()),
        ensures
            session.deep_view() == session_of::<O>(operation.deep_view()),
            session_wf::<O>(session.deep_view()),
    {
        let requests = operation.requests();
        Session { operation, errand: Errand::new(requests) }
    }

    /// The request to do next.
    pub fn pending(&self) -> (request: Option<&Request>)
        ensures
            request.deep_view() == self.deep_view().errand.pending(),
    {
        self.errand.pending()
    }

    /// Note what came of the pending request.
    pub fn answer(self, outcome: Result<Reply, Error>) -> (session: Session<O>)
        requires
            session_wf::<O>(self.deep_view()),
            self.deep_view().errand.pending() is Some,
            outcome matches Ok(reply) ==> fits(
                self.deep_view().errand.pending()->0,
                reply.deep_view(),
            ),
        ensures
            session_wf::<O>(session.deep_view()),
            session.deep_view() == (SessionView {
                operation: self.deep_view().operation,
                errand: self.deep_view().errand.answered(outcome_view(outcome)),
            }),
    {
        let mut errand = self.errand;
        errand.answer(outcome);
        Session { operation: self.operation, errand }
    }

    /// Whether what has to be computed from the replies is in the range of its type.
    pub fn is_in_range(&self) -> (within: bool)
        requires
            session_wf::<O>(self.deep_view()),
            self.deep_view().errand.pending() is None,
        ensures
            within == session_in_range::<O>(self.deep_view()),
    {
        match self.errand.replies() {
            Some(replies) => self.operation.is_in_range(replies),
            None => true,
        }
    }

    /// Go on once no request is pending.
    pub fn advance(self) -> (progress: Progress<Session<O>, O::Output>)
        requires
            session_wf::<O>(self.deep_view()),
            self.deep_view().errand.pending() is None,
            session_in_range::<O>(self.deep_view()),
        ensures
            progress.deep_view() == session_turn::<O>(self.deep_view()),
            progress matches Progress::Next(next) ==> session_wf::<O>(next.deep_view()),
    {
        match self.errand.settle() {
            Err(error) => Progress::End(Err(error)),
            Ok(replies) => match self.operation.advance(replies) {
                Progress::Next(operation) => Progress::Next(Session::new(operation)),
                Progress::End(end) => Progress::End(end),
            },
        }
    }
}

/// A request that fails makes its operation fail with the same error, and no request follows it.
pub proof fn a_failed_request_fails_the_operation<O: Operation>(
    session: SessionView<<O as DeepView>::V>,
    error: ErrorView,
)
    requires
        session_wf::<O>(session),
        session.errand.pending() is Some,
    ensures
        ({
            let failed = SessionView {
                operation: session.operation,
                errand: session.errand.answered(Err(error)),
            };
            &&& failed.errand.pending() is None
            &&& session_turn::<O>(failed) == Turn::<
                SessionView<<O as DeepView>::V>,
                <O::Output as DeepView>::V,
            >::End(Err(error))
        }),
{
}

/// A session that was told what came of its requests, one reply after the other.
pub open spec fn heard<O: Operation>(
    session: SessionView<<O as DeepView>::V>,
    replies: Seq<ReplyView>,
) -> SessionView<<O as DeepView>::V>
    decreases replies.len(),
{
    if replies.len() == 0 {
        session
    } else {
        let before = heard::<O>(session, replies.drop_last());
        SessionView {
            operation: before.operation,
            errand: before.errand.answered(Ok(replies.last())),
        }
    }
}

/// A session holds the replies that it heard, in their order.
proof fn replies_are_kept_in_order<O: Operation>(
    state: <O as DeepView>::V,
    replies: Seq<ReplyView>,
)
    ensures
        heard::<O>(session_of::<O>(state), replies) == (SessionView::<<O as DeepView>::V> {
            operation: state,
            errand: ErrandView { requests: O::asked(state), replies, failure: None },
        }),
    decreases replies.len(),
{
    if replies.len() > 0 {
        replies_are_kept_in_order::<O>(state, replies.drop_last());
        assert(replies.drop_last().push(replies.last()) =~= replies);
    } else {
        assert(replies =~= Seq::<ReplyView>::empty());
    }
}

/// A session asks for every request of its operation once, in their order. Once all of them are
/// answered, the operation has each reply at the place of its request, and a session on what
/// follows starts with nothing answered.
pub proof fn a_session_hears_every_reply_in_its_place<O: Operation>(
    state: <O as DeepView>::V,
    replies: Seq<ReplyView>,
    i: int,
)
    requires
        all_fit(O::asked(state), replies),
        0 <= i < replies.len(),
    ensures
        heard::<O>(session_of::<O>(state), replies.take(i)).errand.pending() == Some(
            O::asked(state)[i],
        ),
        heard::<O>(session_of::<O>(state), replies).errand.pending() is None,
        session_in_range::<O>(heard::<O>(session_of::<O>(state), replies)) == O::in_range(
            state,
            replies,
        ),
        match O::turn(state, replies) {
            Turn::Next(next) => session_turn::<O>(heard::<O>(session_of::<O>(state), replies))
                == Turn::<SessionView<<O as DeepView>::V>, <O::Output as DeepView>::V>::Next(
                SessionView {
                    operation: next,
                    errand: ErrandView {
                        requests: O::asked(next),
                        replies: Seq::empty(),
                        failure: None,
                    },
                },
            ),
            Turn::End(end) => session_turn::<O>(heard::<O>(session_of::<O>(state), replies))
                == Turn::<SessionView<<O as DeepView>::V>, <O::Output as DeepView>::V>::End(end),
        },
{
    replies_are_kept_in_order::<O>(state, replies.take(i));
    replies_are_kept_in_order::<O>(state, replies);
}

} // verus!
