//! What operations ask to have done, and what comes of it.

use vstd::prelude::*;

use crate::batch::{
    BatchHeader, FetchedBatch, FetchedBatchView, InflatedBatch, InflatedBatchView, Marker,
};
use crate::clock::Civil;
use crate::error::ErrorCode;
use crate::script::in_turn;
use crate::value::{Statement, StatementView};
use crate::wire::{
    ConfigResource, DescribeConfigsResult, DescribeConfigsResultView, Topition, TopitionView,
};

verus! {

/// The text that a ping runs.
pub const PING: &'static str = "SELECT 1 + 1";

/// The form of the rows that a query gives.
#[derive(Clone, Copy, Debug, PartialEq, Eq, Structural)]
pub enum Shape {
    /// An epoch.
    Short,
    /// An identifier, a sequence or a mere sign of presence.
    Int,
    /// An offset.
    Long,
    /// A name.
    Text,
    /// The low and the high watermark.
    Watermark,
    /// The first and the last offset.
    Span,
    /// A producer and its epoch.
    Producer,
    /// The number of partitions and the identifier of a topic.
    Counted,
    /// The name of a topic and the number of its partitions.
    Named,
    /// The identifier of a topic, its name, whether it is internal, its partitions and its
    /// replication factor.
    Full,
    /// Two texts.
    Pair,
    /// Topics and partitions.
    Topitions,
    /// Transactions: name, producer, epoch and status.
    Txns,
    /// Records: offset, attributes, producer, epoch, time, key and value.
    Records,
    /// Headers: key and value.
    Headers,
    /// Topics, partitions and offsets.
    Offsets,
    /// Topics: name, partitions and identifier.
    Topics,
    /// Configuration entries.
    Configs,
    /// Names.
    Texts,
}

impl DeepView for Shape {
    type V = Shape;

    open spec fn deep_view(&self) -> Shape {
        *self
    }
}

/// One thing that an operation asks to have done.
#[derive(Debug)]
pub enum Request {
    /// Take a connection from the pool.
    Connect,
    /// Start a transaction on the connection.
    Begin,
    /// Commit the transaction.
    Commit,
    /// Run a statement for its effect.
    Execute(Statement),
    /// Run a statement for all its rows.
    Query(Statement, Shape),
    /// Run a statement for its first row, if it has one.
    First(Statement, Shape),
    /// Run [`PING`] for its first row.
    Ping,
    /// Hold a batch against the current epoch and the next sequence of its producer.
    CheckSequence(i16, i32, BatchHeader),
    /// Inflate the batch at hand.
    Inflate,
    /// Validate the inflated batch at hand against the schema of a topic.
    Validate(String),
    /// Describe the configuration of a topic, on a connection of its own.
    DescribeTopic(String),
    /// Store the inflated batch at hand in the lake, from an offset on.
    StoreLake(Topition, i64, DescribeConfigsResult),
    /// Encode a marker, which becomes the batch at hand.
    EncodeMarker(Marker),
    /// Encode a batch that was read back.
    Assemble(FetchedBatch),
    /// Encode the detail of the group at hand as JSON.
    EncodeGroup,
    /// Decode the detail of a group from its text.
    DecodeGroup(String),
    /// Decode the detail of a group from the JSON value that its text stands for.
    DecodeGroupValue(String),
}

/// What [`Request`] stands for.
pub enum RequestView {
    Connect,
    Begin,
    Commit,
    Execute(StatementView),
    Query(StatementView, Shape),
    First(StatementView, Shape),
    Ping,
    CheckSequence(i16, i32, BatchHeader),
    Inflate,
    Validate(Seq<char>),
    DescribeTopic(Seq<char>),
    StoreLake(TopitionView, i64, DescribeConfigsResultView),
    EncodeMarker(Marker),
    Assemble(FetchedBatchView),
    EncodeGroup,
    DecodeGroup(Seq<char>),
    DecodeGroupValue(Seq<char>),
}

impl DeepView for Request {
    type V = RequestView;

    open spec fn deep_view(&self) -> RequestView {
        match self {
            Request::Connect => RequestView::Connect,
            Request::Begin => RequestView::Begin,
            Request::Commit => RequestView::Commit,
            Request::Execute(a) => RequestView::Execute(a.deep_view()),
            Request::Query(a, b) => RequestView::Query(a.deep_view(), *b),
            Request::First(a, b) => RequestView::First(a.deep_view(), *b),
            Request::Ping => RequestView::Ping,
            Request::CheckSequence(a, b, c) => RequestView::CheckSequence(*a, *b, *c),
            Request::Inflate => RequestView::Inflate,
            Request::Validate(a) => RequestView::Validate(a@),
            Request::DescribeTopic(a) => RequestView::DescribeTopic(a@),
            Request::StoreLake(a, b, c) => RequestView::StoreLake(a.deep_view(), *b, c.deep_view()),
            Request::EncodeMarker(a) => RequestView::EncodeMarker(*a),
            Request::Assemble(a) => RequestView::Assemble(a.deep_view()),
            Request::EncodeGroup => RequestView::EncodeGroup,
            Request::DecodeGroup(a) => RequestView::DecodeGroup(a@),
            Request::DecodeGroupValue(a) => RequestView::DecodeGroupValue(a@),
        }
    }
}

/// What came of a [`Request`].
#[derive(Debug)]
pub enum Reply {
    /// It was done.
    Done,
    /// It was run, and changed this many rows.
    Affected(u64),
    /// An epoch.
    Short(Option<i16>),
    /// An identifier, a sequence or a mere sign of presence.
    Int(Option<i32>),
    /// An offset.
    Long(Option<i64>),
    /// A name.
    Text(Option<String>),
    /// The low and the high watermark.
    Watermark(Option<(Option<i64>, Option<i64>)>),
    /// The first and the last offset.
    Span(Option<(i64, i64)>),
    /// A producer and its epoch.
    Producer(Option<(Option<i64>, Option<i16>)>),
    /// The number of partitions and the identifier of a topic.
    Counted(Option<(i32, String)>),
    /// The name of a topic and the number of its partitions.
    Named(Option<(String, i32)>),
    /// The identifier of a topic, its name, whether it is internal, its partitions and its
    /// replication factor.
    Full(Option<(String, String, bool, i32, i32)>),
    /// Two texts.
    Pair(Option<(String, String)>),
    /// Topics and partitions.
    Topitions(Vec<(String, i32)>),
    /// Transactions: name, producer, epoch and status.
    Txns(Vec<(String, i64, i16, Option<String>)>),
    /// Records: offset, attributes, producer, epoch, time, key and value.
    Records(Vec<(i64, i16, i64, i16, Civil, Option<Vec<u8>>, Option<Vec<u8>>)>),
    /// Headers: key and value.
    Headers(Vec<(Option<Vec<u8>>, Option<Vec<u8>>)>),
    /// Topics, partitions and offsets.
    Offsets(Vec<(String, i32, i64)>),
    /// Topics: name, partitions and identifier.
    Topics(Vec<(String, i32, String)>),
    /// Configuration entries.
    Configs(Vec<(String, Option<String>)>),
    /// Names.
    Texts(Vec<String>),
    /// What the sequence of the producer grows by.
    Increment(i32),
    Inflated(InflatedBatch),
    Config(DescribeConfigsResult),
    Batch(BatchHeader),
    Json(String),
}

/// What [`Reply`] stands for.
pub enum ReplyView {
    Done,
    Affected(u64),
    Short(Option<i16>),
    Int(Option<i32>),
    Long(Option<i64>),
    Text(Option<Seq<char>>),
    Watermark(Option<(Option<i64>, Option<i64>)>),
    Span(Option<(i64, i64)>),
    Producer(Option<(Option<i64>, Option<i16>)>),
    Counted(Option<(i32, Seq<char>)>),
    Named(Option<(Seq<char>, i32)>),
    Full(Option<(Seq<char>, Seq<char>, bool, i32, i32)>),
    Pair(Option<(Seq<char>, Seq<char>)>),
    Topitions(Seq<(Seq<char>, i32)>),
    Txns(Seq<(Seq<char>, i64, i16, Option<Seq<char>>)>),
    Records(Seq<(i64, i16, i64, i16, Civil, Option<Seq<u8>>, Option<Seq<u8>>)>),
    Headers(Seq<(Option<Seq<u8>>, Option<Seq<u8>>)>),
    Offsets(Seq<(Seq<char>, i32, i64)>),
    Topics(Seq<(Seq<char>, i32, Seq<char>)>),
    Configs(Seq<(Seq<char>, Option<Seq<char>>)>),
    Texts(Seq<Seq<char>>),
    Increment(i32),
    Inflated(InflatedBatchView),
    Config(DescribeConfigsResultView),
    Batch(BatchHeader),
    Json(Seq<char>),
}

impl DeepView for Reply {
    type V = ReplyView;

    open spec fn deep_view(&self) -> ReplyView {
        match self {
            Reply::Done => ReplyView::Done,
            Reply::Affected(a) => ReplyView::Affected(*a),
            Reply::Short(a) => ReplyView::Short(*a),
            Reply::Int(a) => ReplyView::Int(*a),
            Reply::Long(a) => ReplyView::Long(*a),
            Reply::Text(a) => ReplyView::Text(a.deep_view()),
            Reply::Watermark(a) => ReplyView::Watermark(*a),
            Reply::Span(a) => ReplyView::Span(*a),
            Reply::Producer(a) => ReplyView::Producer(*a),
            Reply::Counted(a) => ReplyView::Counted(a.deep_view()),
            Reply::Named(a) => ReplyView::Named(a.deep_view()),
            Reply::Full(a) => ReplyView::Full(a.deep_view()),
            Reply::Pair(a) => ReplyView::Pair(a.deep_view()),
            Reply::Topitions(a) => ReplyView::Topitions(a.deep_view()),
            Reply::Txns(a) => ReplyView::Txns(a.deep_view()),
            Reply::Records(a) => ReplyView::Records(a.deep_view()),
            Reply::Headers(a) => ReplyView::Headers(a.deep_view()),
            Reply::Offsets(a) => ReplyView::Offsets(a.deep_view()),
            Reply::Topics(a) => ReplyView::Topics(a.deep_view()),
            Reply::Configs(a) => ReplyView::Configs(a.deep_view()),
            Reply::Texts(a) => ReplyView::Texts(a.deep_view()),
            Reply::Increment(a) => ReplyView::Increment(*a),
            Reply::Inflated(a) => ReplyView::Inflated(a.deep_view()),
            Reply::Config(a) => ReplyView::Config(a.deep_view()),
            Reply::Batch(a) => ReplyView::Batch(*a),
            Reply::Json(a) => ReplyView::Json(a@),
        }
    }
}

/// Whether the times of records exist.
pub open spec fn times_exist(
    rows: Seq<(i64, i16, i64, i16, Civil, Option<Seq<u8>>, Option<Seq<u8>>)>,
) -> bool {
    forall|i: int| 0 <= i < rows.len() ==> (#[trigger] rows[i]).4.valid()
}

/// Whether a reply has the form of the rows that were asked for. The times of records exist.
pub open spec fn has_shape(shape: Shape, reply: ReplyView) -> bool {
    match (shape, reply) {
        (Shape::Short, ReplyView::Short(_)) => true,
        (Shape::Int, ReplyView::Int(_)) => true,
        (Shape::Long, ReplyView::Long(_)) => true,
        (Shape::Text, ReplyView::Text(_)) => true,
        (Shape::Watermark, ReplyView::Watermark(_)) => true,
        (Shape::Span, ReplyView::Span(_)) => true,
        (Shape::Producer, ReplyView::Producer(_)) => true,
        (Shape::Counted, ReplyView::Counted(_)) => true,
        (Shape::Named, ReplyView::Named(_)) => true,
        (Shape::Full, ReplyView::Full(_)) => true,
        (Shape::Pair, ReplyView::Pair(_)) => true,
        (Shape::Topitions, ReplyView::Topitions(_)) => true,
        (Shape::Txns, ReplyView::Txns(_)) => true,
        (Shape::Records, ReplyView::Records(rows)) => times_exist(rows),
        (Shape::Headers, ReplyView::Headers(_)) => true,
        (Shape::Offsets, ReplyView::Offsets(_)) => true,
        (Shape::Topics, ReplyView::Topics(_)) => true,
        (Shape::Configs, ReplyView::Configs(_)) => true,
        (Shape::Texts, ReplyView::Texts(_)) => true,
        _ => false,
    }
}

/// Whether a reply is one to a request.
pub open spec fn fits(request: RequestView, reply: ReplyView) -> bool {
    match request {
        RequestView::Execute(_) => reply is Affected,
        RequestView::Query(_, shape) => has_shape(shape, reply),
        RequestView::First(_, shape) => has_shape(shape, reply),
        RequestView::Ping => reply is Int,
        RequestView::CheckSequence(_, _, _) => reply is Increment,
        RequestView::Inflate => reply is Inflated,
        RequestView::DescribeTopic(_) => reply is Config,
        RequestView::EncodeMarker(_) => reply is Batch,
        RequestView::EncodeGroup => reply is Json,
        _ => reply is Done,
    }
}

/// Whether replies are those to requests, one for each and in their order.
pub open spec fn all_fit(requests: Seq<RequestView>, replies: Seq<ReplyView>) -> bool {
    &&& replies.len() == requests.len()
    &&& forall|i: int| 0 <= i < replies.len() ==> fits(requests[i], #[trigger] replies[i])
}

/// Whether a reply has the form of the rows that were asked for.
fn check_shape(shape: Shape, reply: &Reply) -> (fit: bool)
    ensures
        fit == has_shape(shape, reply.deep_view()),
{
    match (shape, reply) {
        (Shape::Short, Reply::Short(_)) => true,
        (Shape::Int, Reply::Int(_)) => true,
        (Shape::Long, Reply::Long(_)) => true,
        (Shape::Text, Reply::Text(_)) => true,
        (Shape::Watermark, Reply::Watermark(_)) => true,
        (Shape::Span, Reply::Span(_)) => true,
        (Shape::Producer, Reply::Producer(_)) => true,
        (Shape::Counted, Reply::Counted(_)) => true,
        (Shape::Named, Reply::Named(_)) => true,
        (Shape::Full, Reply::Full(_)) => true,
        (Shape::Pair, Reply::Pair(_)) => true,
        (Shape::Topitions, Reply::Topitions(_)) => true,
        (Shape::Txns, Reply::Txns(_)) => true,
        (Shape::Records, Reply::Records(rows)) => check_times(rows),
        (Shape::Headers, Reply::Headers(_)) => true,
        (Shape::Offsets, Reply::Offsets(_)) => true,
        (Shape::Topics, Reply::Topics(_)) => true,
        (Shape::Configs, Reply::Configs(_)) => true,
        (Shape::Texts, Reply::Texts(_)) => true,
        _ => false,
    }
}

/// Whether the times of records exist.
fn check_times(
    rows: &Vec<(i64, i16, i64, i16, Civil, Option<Vec<u8>>, Option<Vec<u8>>)>,
) -> (fit: bool)
    ensures
        fit == times_exist(rows.deep_view()),
{
    let mut i: usize = 0;
    while i < rows.len()
        invariant
            i <= rows.len(),
            forall|j: int| 0 <= j < i ==> (#[trigger] rows.deep_view()[j]).4.valid(),
        decreases rows.len() - i,
    {
        if !rows[i].4.is_valid() {
            assert(!rows.deep_view()[i as int].4.valid());
            return false;
        }
        i = i + 1;
    }
    true
}

impl Request {
    /// Whether a reply is one to this request.
    pub fn fits(&self, reply: &Reply) -> (fit: bool)
        ensures
            fit == fits(self.deep_view(), reply.deep_view()),
    {
        match self {
            Request::Execute(_) => matches!(reply, Reply::Affected(_)),
            Request::Query(_, shape) => check_shape(*shape, reply),
            Request::First(_, shape) => check_shape(*shape, reply),
            Request::Ping => matches!(reply, Reply::Int(_)),
            Request::CheckSequence(_, _, _) => matches!(reply, Reply::Increment(_)),
            Request::Inflate => matches!(reply, Reply::Inflated(_)),
            Request::DescribeTopic(_) => matches!(reply, Reply::Config(_)),
            Request::EncodeMarker(_) => matches!(reply, Reply::Batch(_)),
            Request::EncodeGroup => matches!(reply, Reply::Json(_)),
            _ => matches!(reply, Reply::Done),
        }
    }
}

/// The one reply to one request.
pub(crate) fn only(replies: Vec<Reply>) -> (reply: Reply)
    requires
        replies.deep_view().len() == 1,
    ensures
        replies.deep_view()[0] == reply.deep_view(),
{
    let mut replies = replies;
    replies.pop().unwrap()
}

pub(crate) fn short(reply: Reply) -> (held: Option<i16>)
    requires
        reply.deep_view() is Short,
    ensures
        reply.deep_view() == ReplyView::Short(held),
{
    match reply {
        Reply::Short(held) => held,
        _ => None,
    }
}

pub(crate) fn number(reply: Reply) -> (held: Option<i32>)
    requires
        reply.deep_view() is Int,
    ensures
        reply.deep_view() == ReplyView::Int(held),
{
    match reply {
        Reply::Int(held) => held,
        _ => None,
    }
}

pub(crate) fn offset(reply: Reply) -> (held: Option<i64>)
    requires
        reply.deep_view() is Long,
    ensures
        reply.deep_view() == ReplyView::Long(held),
{
    match reply {
        Reply::Long(held) => held,
        _ => None,
    }
}

pub(crate) fn name(reply: Reply) -> (held: Option<String>)
    requires
        reply.deep_view() is Text,
    ensures
        reply.deep_view() == ReplyView::Text(held.deep_view()),
{
    match reply {
        Reply::Text(held) => held,
        _ => None,
    }
}

pub(crate) fn watermark(reply: Reply) -> (held: Option<(Option<i64>, Option<i64>)>)
    requires
        reply.deep_view() is Watermark,
    ensures
        reply.deep_view() == ReplyView::Watermark(held),
{
    match reply {
        Reply::Watermark(held) => held,
        _ => None,
    }
}

pub(crate) fn span(reply: Reply) -> (held: Option<(i64, i64)>)
    requires
        reply.deep_view() is Span,
    ensures
        reply.deep_view() == ReplyView::Span(held),
{
    match reply {
        Reply::Span(held) => held,
        _ => None,
    }
}

pub(crate) fn producer(reply: Reply) -> (held: Option<(Option<i64>, Option<i16>)>)
    requires
        reply.deep_view() is Producer,
    ensures
        reply.deep_view() == ReplyView::Producer(held),
{
    match reply {
        Reply::Producer(held) => held,
        _ => None,
    }
}

pub(crate) fn pair(reply: Reply) -> (held: Option<(String, String)>)
    requires
        reply.deep_view() is Pair,
    ensures
        reply.deep_view() == ReplyView::Pair(held.deep_view()),
{
    match reply {
        Reply::Pair(held) => held,
        _ => None,
    }
}

pub(crate) fn topitions(reply: Reply) -> (held: Vec<(String, i32)>)
    requires
        reply.deep_view() is Topitions,
    ensures
        reply.deep_view() == ReplyView::Topitions(held.deep_view()),
{
    match reply {
        Reply::Topitions(held) => held,
        _ => Vec::new(),
    }
}

pub(crate) fn txns(reply: Reply) -> (held: Vec<(String, i64, i16, Option<String>)>)
    requires
        reply.deep_view() is Txns,
    ensures
        reply.deep_view() == ReplyView::Txns(held.deep_view()),
{
    match reply {
        Reply::Txns(held) => held,
        _ => Vec::new(),
    }
}

pub(crate) fn records(
    reply: Reply,
) -> (held: Vec<(i64, i16, i64, i16, Civil, Option<Vec<u8>>, Option<Vec<u8>>)>)
    requires
        reply.deep_view() is Records,
    ensures
        reply.deep_view() == ReplyView::Records(held.deep_view()),
{
    match reply {
        Reply::Records(held) => held,
        _ => Vec::new(),
    }
}

pub(crate) fn headers(reply: Reply) -> (held: Vec<(Option<Vec<u8>>, Option<Vec<u8>>)>)
    requires
        reply.deep_view() is Headers,
    ensures
        reply.deep_view() == ReplyView::Headers(held.deep_view()),
{
    match reply {
        Reply::Headers(held) => held,
        _ => Vec::new(),
    }
}

pub(crate) fn increment(reply: Reply) -> (held: i32)
    requires
        reply.deep_view() is Increment,
    ensures
        reply.deep_view() == ReplyView::Increment(held),
{
    match reply {
        Reply::Increment(held) => held,
        _ => 0,
    }
}

pub(crate) fn counted(reply: Reply) -> (held: Option<(i32, String)>)
    requires
        reply.deep_view() is Counted,
    ensures
        reply.deep_view() == ReplyView::Counted(held.deep_view()),
{
    match reply {
        Reply::Counted(held) => held,
        _ => None,
    }
}

pub(crate) fn named(reply: Reply) -> (held: Option<(String, i32)>)
    requires
        reply.deep_view() is Named,
    ensures
        reply.deep_view() == ReplyView::Named(held.deep_view()),
{
    match reply {
        Reply::Named(held) => held,
        _ => None,
    }
}

pub(crate) fn full(reply: Reply) -> (held: Option<(String, String, bool, i32, i32)>)
    requires
        reply.deep_view() is Full,
    ensures
        reply.deep_view() == ReplyView::Full(held.deep_view()),
{
    match reply {
        Reply::Full(held) => held,
        _ => None,
    }
}

pub(crate) fn offsets(reply: Reply) -> (held: Vec<(String, i32, i64)>)
    requires
        reply.deep_view() is Offsets,
    ensures
        reply.deep_view() == ReplyView::Offsets(held.deep_view()),
{
    match reply {
        Reply::Offsets(held) => held,
        _ => Vec::new(),
    }
}

pub(crate) fn topics(reply: Reply) -> (held: Vec<(String, i32, String)>)
    requires
        reply.deep_view() is Topics,
    ensures
        reply.deep_view() == ReplyView::Topics(held.deep_view()),
{
    match reply {
        Reply::Topics(held) => held,
        _ => Vec::new(),
    }
}

pub(crate) fn configs(reply: Reply) -> (held: Vec<(String, Option<String>)>)
    requires
        reply.deep_view() is Configs,
    ensures
        reply.deep_view() == ReplyView::Configs(held.deep_view()),
{
    match reply {
        Reply::Configs(held) => held,
        _ => Vec::new(),
    }
}

pub(crate) fn texts(reply: Reply) -> (held: Vec<String>)
    requires
        reply.deep_view() is Texts,
    ensures
        reply.deep_view() == ReplyView::Texts(held.deep_view()),
{
    match reply {
        Reply::Texts(held) => held,
        _ => Vec::new(),
    }
}

pub(crate) fn json(reply: Reply) -> (held: String)
    requires
        reply.deep_view() is Json,
    ensures
        reply.deep_view() == ReplyView::Json(held.deep_view()),
{
    match reply {
        Reply::Json(held) => held,
        _ => String::new(),
    }
}

pub(crate) fn inflated(reply: Reply) -> (held: InflatedBatch)
    requires
        reply.deep_view() is Inflated,
    ensures
        reply.deep_view() == ReplyView::Inflated(held.deep_view()),
{
    match reply {
        Reply::Inflated(held) => held,
        _ => InflatedBatch {
            attributes: 0,
            control: false,
            base_timestamp: 0,
            last_offset_delta: 0,
            producer_id: 0,
            producer_epoch: 0,
            records: Vec::new(),
        },
    }
}

pub(crate) fn config(reply: Reply) -> (held: DescribeConfigsResult)
    requires
        reply.deep_view() is Config,
    ensures
        reply.deep_view() == ReplyView::Config(held.deep_view()),
{
    match reply {
        Reply::Config(held) => held,
        _ => DescribeConfigsResult {
            error_code: ErrorCode::NoError,
            error_message: None,
            resource: ConfigResource::Topic,
            resource_name: String::new(),
            configs: Vec::new(),
        },
    }
}

pub(crate) fn batch(reply: Reply) -> (held: BatchHeader)
    requires
        reply.deep_view() is Batch,
    ensures
        reply.deep_view() == ReplyView::Batch(held),
{
    match reply {
        Reply::Batch(held) => held,
        _ => BatchHeader {
            idempotent: false,
            producer_id: 0,
            producer_epoch: 0,
            base_sequence: 0,
            last_offset_delta: 0,
        },
    }
}

/// An offset, or zero where there is none.
pub open spec fn or_zero(offset: Option<i64>) -> i64 {
    match offset {
        Some(offset) => offset,
        None => 0,
    }
}

/// An offset, or zero where there is none.
pub(crate) fn offset_or_zero(offset: Option<i64>) -> (value: i64)
    ensures
        value == or_zero(offset),
{
    match offset {
        Some(offset) => offset,
        None => 0,
    }
}

/// Add a request to others.
pub(crate) fn ask(requests: &mut Vec<Request>, request: Request)
    ensures
        final(requests).deep_view() == old(requests).deep_view().push(request.deep_view()),
{
    requests.push(request);
    assert(requests.deep_view() =~= old(requests).deep_view().push(request.deep_view()));
}

/// Nothing asked yet.
pub(crate) fn no_requests() -> (requests: Vec<Request>)
    ensures
        requests.deep_view() == Seq::<RequestView>::empty(),
{
    let requests: Vec<Request> = Vec::new();
    assert(requests.deep_view() =~= Seq::<RequestView>::empty());
    requests
}

/// Add the requests that each item gives, in the order of the items.
pub(crate) fn ask_in_turn<A: DeepView, F: Fn(&A) -> Vec<Request>>(
    requests: &mut Vec<Request>,
    items: &[A],
    make: F,
    Ghost(made): Ghost<spec_fn(A::V) -> Seq<RequestView>>,
)
    requires
        forall|item: &A| call_requires(make, (item,)),
        forall|item: &A, more: Vec<Request>|
            #[trigger] call_ensures(make, (item,), more) ==> more.deep_view() == made(
                item.deep_view(),
            ),
    ensures
        final(requests).deep_view() == old(requests).deep_view() + in_turn(
            items.deep_view(),
            made,
        ),
{
    assert(items.deep_view().take(0) =~= Seq::empty());
    assert(requests.deep_view() =~= old(requests).deep_view() + in_turn(
        items.deep_view().take(0),
        made,
    ));
    let mut i: usize = 0;
    while i < items.len()
        invariant
            i <= items.len(),
            requests.deep_view() == old(requests).deep_view() + in_turn(
                items.deep_view().take(i as int),
                made,
            ),
            forall|item: &A| call_requires(make, (item,)),
            forall|item: &A, more: Vec<Request>|
                #[trigger] call_ensures(make, (item,), more) ==> more.deep_view() == made(
                    item.deep_view(),
                ),
        decreases items.len() - i,
    {
        let ghost before = requests.deep_view();
        let ghost next = items.deep_view().take(i as int + 1);
        assert(next.drop_last() =~= items.deep_view().take(i as int));
        assert(next.last() == items[i as int].deep_view());
        let mut more = make(&items[i]);
        let ghost added = more.deep_view();
        requests.append(&mut more);
        i = i + 1;
        assert(requests.deep_view() =~= before + added);
        assert(requests.deep_view() =~= old(requests).deep_view() + in_turn(next, made));
    }
    assert(items.deep_view().take(i as int) =~= items.deep_view());
}

/// An offset that is there is itself, and zero stands for one that is not.
pub proof fn an_offset_is_itself(offset: i64)
    ensures
        or_zero(Some(offset)) == offset,
        or_zero(None) == 0,
{
}

/// A statement that is run is answered with a number of rows, whatever it is; a lookup with a row
/// of its form, or with none; and a query with rows of its form, however many. No reply of another
/// form answers them.
pub proof fn replies_of_the_form_fit(statement: StatementView, shape: Shape, reply: ReplyView)
    ensures
        fits(RequestView::Execute(statement), reply) <==> reply is Affected,
        fits(RequestView::First(statement, shape), reply) <==> has_shape(shape, reply),
        fits(RequestView::Query(statement, shape), reply) <==> has_shape(shape, reply),
        reply is Short ==> (has_shape(shape, reply) <==> shape is Short),
        reply is Int ==> (has_shape(shape, reply) <==> shape is Int),
        reply is Long ==> (has_shape(shape, reply) <==> shape is Long),
        reply is Text ==> (has_shape(shape, reply) <==> shape is Text),
        reply is Watermark ==> (has_shape(shape, reply) <==> shape is Watermark),
        reply is Span ==> (has_shape(shape, reply) <==> shape is Span),
        reply is Producer ==> (has_shape(shape, reply) <==> shape is Producer),
        reply is Counted ==> (has_shape(shape, reply) <==> shape is Counted),
        reply is Named ==> (has_shape(shape, reply) <==> shape is Named),
        reply is Full ==> (has_shape(shape, reply) <==> shape is Full),
        reply is Pair ==> (has_shape(shape, reply) <==> shape is Pair),
        reply is Topitions ==> (has_shape(shape, reply) <==> shape is Topitions),
        reply is Txns ==> (has_shape(shape, reply) <==> shape is Txns),
        reply is Headers ==> (has_shape(shape, reply) <==> shape is Headers),
        reply is Offsets ==> (has_shape(shape, reply) <==> shape is Offsets),
        reply is Topics ==> (has_shape(shape, reply) <==> shape is Topics),
        reply is Configs ==> (has_shape(shape, reply) <==> shape is Configs),
        reply is Texts ==> (has_shape(shape, reply) <==> shape is Texts),
        reply matches ReplyView::Records(rows) ==> (has_shape(shape, reply) <==> shape is Records
            && forall|i: int| 0 <= i < rows.len() ==> (#[trigger] rows[i]).4.valid()),
        fits(RequestView::Ping, reply) <==> reply is Int,
        fits(RequestView::Connect, reply) <==> reply is Done,
        fits(RequestView::Begin, reply) <==> reply is Done,
        fits(RequestView::Commit, reply) <==> reply is Done,
        fits(RequestView::Inflate, reply) <==> reply is Inflated,
        fits(RequestView::EncodeGroup, reply) <==> reply is Json,
{
}

} // verus!
