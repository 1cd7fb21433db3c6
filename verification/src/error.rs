//! Errors of the engine.

use vstd::prelude::*;

verus! {

/// The protocol's error codes that the engine answers with.
#[derive(Clone, Copy, Debug, PartialEq, Eq, Structural)]
pub enum ErrorCode {
    /// Nothing went wrong.
    NoError,
    UnknownTopicOrPartition,
    TopicAlreadyExists,
    UnknownProducerId,
    InvalidProducerEpoch,
    GroupIdNotFound,
}

impl DeepView for ErrorCode {
    type V = ErrorCode;

    open spec fn deep_view(&self) -> ErrorCode {
        *self
    }
}

/// Why an operation did not succeed.
#[derive(Debug)]
pub enum Error {
    /// An error of the protocol, to be reported to the client under its code.
    Api(ErrorCode),
    /// Anything that is told in words alone.
    Message(String),
    /// A text that names no state of a transaction.
    UnknownTxnState(String),
    /// A record's timestamp, in milliseconds, that lies before the epoch.
    Timestamp(i64),
    /// A number that names no operation on a configuration entry.
    UnknownOpType(i8),
    /// A group was to be updated from a version that is not the current one: its current detail, as
    /// JSON, and its current version.
    Outdated(String, String),
    /// A text that is not JSON.
    Json(String),
    /// A URL that could not be parsed.
    Url(String),
    /// No statement is kept under this key.
    UnknownSql(String),
    /// A failure of what the engine works with: the pool, the driver, the codec, the schema
    /// registry or the lake.
    Outside(String),
}

/// What [`Error`] stands for.
pub enum ErrorView {
    Api(ErrorCode),
    Message(Seq<char>),
    UnknownTxnState(Seq<char>),
    Timestamp(i64),
    UnknownOpType(i8),
    Outdated(Seq<char>, Seq<char>),
    Json(Seq<char>),
    Url(Seq<char>),
    UnknownSql(Seq<char>),
    Outside(Seq<char>),
}

impl DeepView for Error {
    type V = ErrorView;

    open spec fn deep_view(&self) -> ErrorView {
        match self {
            Error::Api(code) => ErrorView::Api(*code),
            Error::Message(text) => ErrorView::Message(text@),
            Error::UnknownTxnState(text) => ErrorView::UnknownTxnState(text@),
            Error::Timestamp(millis) => ErrorView::Timestamp(*millis),
            Error::UnknownOpType(number) => ErrorView::UnknownOpType(*number),
            Error::Outdated(detail, version) => ErrorView::Outdated(detail@, version@),
            Error::Json(text) => ErrorView::Json(text@),
            Error::Url(text) => ErrorView::Url(text@),
            Error::UnknownSql(text) => ErrorView::UnknownSql(text@),
            Error::Outside(text) => ErrorView::Outside(text@),
        }
    }
}

} // verus!
