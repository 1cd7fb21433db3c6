//! Requests that are done one after the other, up to the first failure.

use vstd::prelude::*;

use crate::error::{Error, ErrorView};
use crate::request::{all_fit, fits, Reply, ReplyView, Request, RequestView};

verus! {

/// Requests that are being done: those that were answered, and the failure that ended them.
#[derive(Debug)]
pub struct Errand {
    requests: Vec<Request>,
    replies: Vec<Reply>,
    failure: Option<Error>,
}

/// What [`Errand`] stands for.
pub struct ErrandView {
    pub requests: Seq<RequestView>,
    pub replies: Seq<ReplyView>,
    pub failure: Option<ErrorView>,
}

impl DeepView for Errand {
    type V = ErrandView;

    closed spec fn deep_view(&self) -> ErrandView {
        ErrandView {
            requests: self.requests.deep_view(),
            replies: self.replies.deep_view(),
            failure: self.failure.deep_view(),
        }
    }
}

impl ErrandView {
    /// Every reply is one to the request at its place.
    pub open spec fn wf(self) -> bool {
        &&& self.replies.len() <= self.requests.len()
        &&& forall|i: int|
            0 <= i < self.replies.len() ==> fits(self.requests[i], #[trigger] self.replies[i])
    }

    /// The request to do next: the first that was not answered, unless one failed.
    pub open spec fn pending(self) -> Option<RequestView> {
        if self.failure is None && self.replies.len() < self.requests.len() {
            Some(self.requests[self.replies.len() as int])
        } else {
            None
        }
    }

    /// What came of the pending request is known.
    pub open spec fn answered(self, outcome: Result<ReplyView, ErrorView>) -> ErrandView {
        match outcome {
            Ok(reply) => ErrandView { replies: self.replies.push(reply), ..self },
            Err(failure) => ErrandView { failure: Some(failure), ..self },
        }
    }

    /// What came of the whole errand.
    pub open spec fn settled(self) -> Result<Seq<ReplyView>, ErrorView> {
        match self.failure {
            Some(failure) => Err(failure),
            None => Ok(self.replies),
        }
    }
}

/// What came of a request.
pub open spec fn outcome_view(outcome: Result<Reply, Error>) -> Result<ReplyView, ErrorView> {
    match outcome {
        Ok(reply) => Ok(reply.deep_view()),
        Err(error) => Err(error.deep_view()),
    }
}

impl Errand {
    /// Requests of which none was done yet.
    pub fn new(requests: Vec<Request>) -> (errand: Errand)
        ensures
            errand.deep_view().wf(),
            errand.deep_view() == (ErrandView {
                requests: requests.deep_view(),
                replies: Seq::empty(),
                failure: None,
            }),
    {
        let errand = Errand { requests, replies: Vec::new(), failure: None };
        assert(errand.deep_view().replies =~= Seq::<ReplyView>::empty());
        errand
    }

    /// The request to do next.
    pub fn pending(&self) -> (request: Option<&Request>)
        ensures
            request.deep_view() == self.deep_view().pending(),
    {
        if self.failure.is_none() && self.replies.len() < self.requests.len() {
            Some(&self.requests[self.replies.len()])
        } else {
            None
        }
    }

    /// Note what came of the pending request.
    pub fn answer(&mut self, outcome: Result<Reply, Error>)
        requires
            old(self).deep_view().wf(),
            old(self).deep_view().pending() is Some,
            outcome matches Ok(reply) ==> fits(
                old(self).deep_view().pending()->0,
                reply.deep_view(),
            ),
        ensures
            final(self).deep_view().wf(),
            final(self).deep_view() == old(self).deep_view().answered(outcome_view(outcome)),
    {
        match outcome {
            Ok(reply) => {
                self.replies.push(reply);
                assert(self.deep_view().replies =~= old(self).deep_view().replies.push(
                    reply.deep_view(),
                ));
            },
            Err(error) => {
                self.failure = Some(error);
            },
        }
    }

    /// The replies to all the requests, where none failed.
    pub fn replies(&self) -> (replies: Option<&Vec<Reply>>)
        requires
            self.deep_view().wf(),
            self.deep_view().pending() is None,
        ensures
            match replies {
                Some(replies) => self.deep_view().settled() == Ok::<_, ErrorView>(
                    replies.deep_view(),
                ) && all_fit(self.deep_view().requests, replies.deep_view()),
                None => self.deep_view().settled() is Err,
            },
    {
        match &self.failure {
            Some(_) => None,
            None => Some(&self.replies),
        }
    }

    /// The replies to all the requests, or the failure that ended them.
    pub fn settle(self) -> (settled: Result<Vec<Reply>, Error>)
        requires
            self.deep_view().wf(),
            self.deep_view().pending() is None,
        ensures
            match settled {
                Ok(replies) => self.deep_view().settled() == Ok::<_, ErrorView>(
                    replies.deep_view(),
                ) && all_fit(self.deep_view().requests, replies.deep_view()),
                Err(error) => self.deep_view().settled() == Err::<Seq<ReplyView>, _>(
                    error.deep_view(),
                ),
            },
    {
        match self.failure {
            Some(failure) => Err(failure),
            None => Ok(self.replies),
        }
    }
}

/// Nothing is asked for after a failure, and the errand comes to that failure.
pub proof fn failure_ends_an_errand(errand: ErrandView, failure: ErrorView)
    requires
        errand.wf(),
        errand.pending() is Some,
    ensures
        errand.answered(Err(failure)).pending() is None,
        errand.answered(Err(failure)).settled() == Err::<Seq<ReplyView>, _>(failure),
        errand.answered(Err(failure)).replies == errand.replies,
{
}

/// A request is asked for once those before it were answered, and not before.
pub proof fn requests_are_done_in_order(errand: ErrandView, reply: ReplyView)
    requires
        errand.wf(),
        errand.pending() is Some,
        fits(errand.pending()->0, reply),
    ensures
        errand.pending() == Some(errand.requests[errand.replies.len() as int]),
        errand.answered(Ok(reply)).wf(),
        errand.answered(Ok(reply)).requests == errand.requests,
        errand.answered(Ok(reply)).pending() == if errand.replies.len() + 1
            < errand.requests.len() {
            Some(errand.requests[errand.replies.len() as int + 1])
        } else {
            None
        },
{
}

} // verus!
