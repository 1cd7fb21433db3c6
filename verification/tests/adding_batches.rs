//! Batches are added to partitions.

#![allow(dead_code, unused_imports)]

use tansu_mysql::batch::{BatchHeader, InflatedBatch, Record, RecordHeader};
use tansu_mysql::clock::{Civil, LAST_MILLIS};
use tansu_mysql::engine::Mysql;
use tansu_mysql::error::{Error, ErrorCode};
use tansu_mysql::listener::Listener;
use tansu_mysql::operation::{Operation, Progress};
use tansu_mysql::produce::is_storable;
use tansu_mysql::request::{Reply, Request, Shape};
use tansu_mysql::session::Session;
use tansu_mysql::sql::Sql;
use tansu_mysql::value::{Statement, Value};
use tansu_mysql::wire::{ConfigResource, DescribeConfigsResult, Topition};

fn engine() -> Mysql<(), (), ()> {
    Mysql {
        cluster: "abc".to_owned(),
        node: 111,
        advertised_listener: Listener {
            url: "tcp://example.com:9192".to_owned(),
            host: Some("example.com".to_owned()),
            port: Some(9192),
        },
        pool: (),
        schemas: None,
        lake: None,
    }
}

fn t(text: &str) -> Value {
    Value::Text(text.to_owned())
}

fn n(number: i64) -> Value {
    Value::Int(number)
}

fn execute(sql: Sql, params: Vec<Value>) -> Request {
    Request::Execute(Statement { sql, params })
}

fn first(sql: Sql, params: Vec<Value>, shape: Shape) -> Request {
    Request::First(Statement { sql, params }, shape)
}

fn query(sql: Sql, params: Vec<Value>, shape: Shape) -> Request {
    Request::Query(Statement { sql, params }, shape)
}

/// Run an operation with replies, and give what it asked for and what it came to.
fn drive<O: Operation>(
    operation: O,
    script: Vec<Vec<Reply>>,
) -> (Vec<Vec<Request>>, Option<Result<O::Output, Error>>) {
    let mut operation = operation;
    let mut asked = vec![];
    for replies in script {
        let requests = operation.requests();
        assert_eq!(requests.len(), replies.len());
        for (request, reply) in requests.iter().zip(replies.iter()) {
            assert!(request.fits(reply), "{:?} {:?}", request, reply);
        }
        assert!(operation.is_in_range(&replies));
        asked.push(requests);
        match operation.advance(replies) {
            Progress::Next(next) => operation = next,
            Progress::End(result) => return (asked, Some(result)),
        }
    }
    asked.push(operation.requests());
    (asked, None)
}

fn same<A: std::fmt::Debug + ?Sized, B: std::fmt::Debug + ?Sized>(left: &A, right: &B) {
    assert_eq!(format!("{:?}", left), format!("{:?}", right));
}

fn topition() -> Topition {
    Topition { topic: "pqr".to_owned(), partition: 3 }
}

fn header(idempotent: bool) -> BatchHeader {
    BatchHeader {
        idempotent,
        producer_id: 32123,
        producer_epoch: 2,
        base_sequence: 6,
        last_offset_delta: 1,
    }
}

fn bytes(text: &str) -> Option<Vec<u8>> {
    Some(text.as_bytes().to_vec())
}

fn inflated(deltas: &[i64]) -> InflatedBatch {
    let mut records = vec![];
    for delta in deltas {
        records.push(Record {
            timestamp_delta: *delta,
            key: bytes("k"),
            value: None,
            headers: vec![RecordHeader { key: bytes("h"), value: bytes("i") }],
        });
    }
    InflatedBatch {
        attributes: 0,
        control: false,
        base_timestamp: 1_700_000_000_000,
        last_offset_delta: deltas.len() as i32 - 1,
        producer_id: 32123,
        producer_epoch: 2,
        records,
    }
}

fn time(second: u8, micros: u32) -> Civil {
    Civil { year: 2023, month: 11, day: 14, hour: 22, minute: 13, second, micros }
}

fn record_insert(offset: i64, time: Civil) -> Request {
    execute(
        Sql::RecordInsert,
        vec![
            n(54),
            n(offset),
            n(0),
            n(32123),
            n(2),
            Value::Time(time),
            Value::Bytes(b"k".to_vec()),
            Value::Null,
        ],
    )
}

fn header_insert(offset: i64) -> Request {
    execute(
        Sql::HeaderInsert,
        vec![n(54), n(offset), Value::Bytes(b"h".to_vec()), Value::Bytes(b"i".to_vec())],
    )
}

fn done(n: usize) -> Vec<Reply> {
    (0..n).map(|_| Reply::Affected(1)).collect()
}

#[test]
fn a_plain_batch_is_written() {
    let (asked, result) = drive(
        engine().produce(None, &topition(), header(false)),
        vec![
            vec![Reply::Done, Reply::Done],
            vec![Reply::Int(Some(54))],
            vec![Reply::Watermark(Some((None, None)))],
            vec![Reply::Inflated(inflated(&[0, 1_123]))],
            done(5),
            vec![Reply::Done],
        ],
    );
    assert!(matches!(result, Some(Ok(0))));
    let expected = vec![
        vec![Request::Connect, Request::Begin],
        vec![first(Sql::TopitionSelectId, vec![t("abc"), t("pqr"), n(3)], Shape::Int)],
        vec![first(
            Sql::WatermarkSelectForUpdate,
            vec![t("abc"), t("pqr"), n(3)],
            Shape::Watermark,
        )],
        vec![Request::Inflate],
        vec![
            record_insert(0, time(20, 0)),
            header_insert(0),
            record_insert(1, time(21, 123_000)),
            header_insert(1),
            execute(Sql::WatermarkUpdate, vec![n(2), t("abc"), t("pqr"), n(3)]),
        ],
        vec![Request::Commit],
    ];
    same(&asked, &expected);
}

#[test]
fn an_idempotent_batch_is_held_against_its_producer() {
    let (asked, result) = drive(
        engine().produce(None, &topition(), header(true)),
        vec![
            vec![Reply::Done, Reply::Done],
            vec![Reply::Int(Some(54))],
            vec![Reply::Short(Some(2))],
            vec![Reply::Int(Some(6))],
            vec![Reply::Increment(2)],
            vec![Reply::Affected(1)],
        ],
    );
    assert!(result.is_none());
    same(
        &asked[2..6],
        &[
            vec![first(
                Sql::ProducerEpochSelectCurrent,
                vec![t("abc"), n(32123)],
                Shape::Short,
            )],
            vec![first(
                Sql::ProducerDetailSelectForUpdate,
                vec![t("abc"), t("pqr"), n(3), n(32123), n(2)],
                Shape::Int,
            )],
            vec![Request::CheckSequence(2, 6, header(true))],
            vec![execute(
                Sql::ProducerDetailInsert,
                vec![t("abc"), t("pqr"), n(3), n(32123), n(2), n(2), n(2)],
            )],
        ],
    );
    same(
        &asked[6],
        &[first(
            Sql::WatermarkSelectForUpdate,
            vec![t("abc"), t("pqr"), n(3)],
            Shape::Watermark,
        )],
    );
}

#[test]
fn offsets_are_noted_for_the_transaction() {
    let (asked, result) = drive(
        engine().produce(Some("txn"), &topition(), header(false)),
        vec![
            vec![Reply::Done, Reply::Done],
            vec![Reply::Int(Some(54))],
            vec![Reply::Watermark(Some((Some(1), Some(5))))],
            vec![Reply::Inflated(inflated(&[0, 0]))],
            done(6),
            vec![Reply::Done],
        ],
    );
    assert!(matches!(result, Some(Ok(5))));
    same(
        &asked[4][4..],
        &[
            execute(Sql::WatermarkUpdate, vec![n(7), t("abc"), t("pqr"), n(3)]),
            execute(
                Sql::TxnProduceOffsetInsert,
                vec![t("abc"), t("txn"), n(32123), n(2), t("pqr"), n(3), n(5), n(6)],
            ),
        ],
    );
}

#[test]
fn the_next_batch_starts_where_the_watermark_went() {
    let moved = |high: Option<i64>| {
        let (asked, result) = drive(
            engine().produce(None, &topition(), header(false)),
            vec![
                vec![Reply::Done, Reply::Done],
                vec![Reply::Int(Some(54))],
                vec![Reply::Watermark(Some((None, high)))],
                vec![Reply::Inflated(inflated(&[0, 1, 2]))],
                done(7),
                vec![Reply::Done],
            ],
        );
        let Request::Execute(update) = &asked[4][6] else { panic!() };
        let Value::Int(moved) = update.params[0] else { panic!() };
        (result, moved)
    };
    let (first, high) = moved(Some(10));
    assert!(matches!(first, Some(Ok(10))));
    assert_eq!(high, 13);
    let (second, high) = moved(Some(high));
    assert!(matches!(second, Some(Ok(13))));
    assert_eq!(high, 16);
}

#[test]
fn an_unknown_partition_is_refused() {
    let (_, result) = drive(
        engine().produce(None, &topition(), header(false)),
        vec![vec![Reply::Done, Reply::Done], vec![Reply::Int(None)]],
    );
    assert!(matches!(result, Some(Err(Error::Api(ErrorCode::UnknownTopicOrPartition)))));
}

#[test]
fn a_partition_without_watermarks_is_refused() {
    let (_, result) = drive(
        engine().produce(None, &topition(), header(false)),
        vec![
            vec![Reply::Done, Reply::Done],
            vec![Reply::Int(Some(54))],
            vec![Reply::Watermark(None)],
        ],
    );
    assert!(matches!(result, Some(Err(Error::Api(ErrorCode::UnknownTopicOrPartition)))));
}

#[test]
fn an_unknown_producer_is_refused() {
    let (_, result) = drive(
        engine().produce(None, &topition(), header(true)),
        vec![
            vec![Reply::Done, Reply::Done],
            vec![Reply::Int(Some(54))],
            vec![Reply::Short(None)],
        ],
    );
    assert!(matches!(result, Some(Err(Error::Api(ErrorCode::UnknownProducerId)))));
}

#[test]
fn a_producer_needs_a_sequence() {
    let (_, result) = drive(
        engine().produce(None, &topition(), header(true)),
        vec![
            vec![Reply::Done, Reply::Done],
            vec![Reply::Int(Some(54))],
            vec![Reply::Short(Some(2))],
            vec![Reply::Int(None)],
        ],
    );
    let Some(Err(Error::Message(message))) = result else { panic!() };
    assert_eq!(message, "No rows returned");
}

#[test]
fn an_untimely_record_breaks_the_writing_off() {
    let (asked, result) = drive(
        engine().produce(Some("txn"), &topition(), header(false)),
        vec![
            vec![Reply::Done, Reply::Done],
            vec![Reply::Int(Some(54))],
            vec![Reply::Watermark(Some((None, Some(4))))],
            vec![Reply::Inflated(inflated(&[0, -1_700_000_000_001, 5]))],
            done(2),
        ],
    );
    assert!(matches!(result, Some(Err(Error::Timestamp(-1)))));
    same(&asked[4], &[record_insert(4, time(20, 0)), header_insert(4)]);
}

#[test]
fn a_batch_is_validated_and_stored() {
    let engine = Mysql {
        cluster: "abc".to_owned(),
        node: 111,
        advertised_listener: Listener { url: "tcp://a/".to_owned(), host: None, port: None },
        pool: (),
        schemas: Some(()),
        lake: Some(()),
    };
    let config = || DescribeConfigsResult {
        error_code: ErrorCode::NoError,
        error_message: Some(ErrorCode::NoError),
        resource: ConfigResource::Topic,
        resource_name: "pqr".to_owned(),
        configs: vec![],
    };
    let (asked, result) = drive(
        engine.produce(None, &topition(), header(false)),
        vec![
            vec![Reply::Done, Reply::Done],
            vec![Reply::Int(Some(54))],
            vec![Reply::Watermark(Some((None, Some(4))))],
            vec![Reply::Inflated(inflated(&[0]))],
            vec![Reply::Done, Reply::Affected(1), Reply::Affected(1), Reply::Affected(1)],
            vec![Reply::Config(config())],
            vec![Reply::Done],
            vec![Reply::Done],
        ],
    );
    assert!(matches!(result, Some(Ok(4))));
    same(&asked[4][0], &Request::Validate("pqr".to_owned()));
    same(&asked[5], &[Request::DescribeTopic("pqr".to_owned())]);
    same(&asked[6], &[Request::StoreLake(topition(), 4, config())]);
    same(&asked[7], &[Request::Commit]);
}

#[test]
fn a_control_batch_is_neither_validated_nor_stored() {
    let engine = Mysql {
        cluster: "abc".to_owned(),
        node: 111,
        advertised_listener: Listener { url: "tcp://a/".to_owned(), host: None, port: None },
        pool: (),
        schemas: Some(()),
        lake: Some(()),
    };
    let mut batch = inflated(&[0]);
    batch.control = true;
    let (asked, result) = drive(
        engine.produce(None, &topition(), header(false)),
        vec![
            vec![Reply::Done, Reply::Done],
            vec![Reply::Int(Some(54))],
            vec![Reply::Watermark(Some((None, Some(4))))],
            vec![Reply::Inflated(batch)],
            done(3),
            vec![Reply::Done],
        ],
    );
    assert!(matches!(result, Some(Ok(4))));
    same(&asked[5], &[Request::Commit]);
}

#[test]
fn a_batch_has_to_be_in_range() {
    assert!(is_storable(0, &inflated(&[0, 1])));
    assert!(is_storable(i64::MAX - 2, &inflated(&[0, 1])));
    assert!(!is_storable(i64::MAX - 1, &inflated(&[0, 1])));
    assert!(is_storable(0, &inflated(&[LAST_MILLIS - 1_700_000_000_000])));
    assert!(!is_storable(0, &inflated(&[LAST_MILLIS - 1_700_000_000_000 + 1])));
    assert!(!is_storable(0, &inflated(&[i64::MAX])));
    // What follows an untimely record does not count.
    assert!(is_storable(0, &inflated(&[-1_700_000_000_001, i64::MAX])));
}

#[test]
fn an_operation_tells_what_is_out_of_range() {
    let mut operation = engine().produce(None, &topition(), header(false));
    for replies in [
        vec![Reply::Done, Reply::Done],
        vec![Reply::Int(Some(54))],
        vec![Reply::Watermark(Some((None, Some(i64::MAX))))],
        vec![Reply::Inflated(inflated(&[0, 1]))],
    ] {
        assert!(operation.is_in_range(&replies));
        let Progress::Next(next) = operation.advance(replies) else { panic!() };
        operation = next;
    }
    // The first record has an offset, and is written before the second turns out to have none.
    same(&operation.requests(), &[record_insert(i64::MAX, time(20, 0)), header_insert(i64::MAX)]);
    assert!(!operation.is_in_range(&done(2)));
}

#[test]
fn a_watermark_that_cannot_move_is_not_asked_for() {
    let mut batch = inflated(&[0]);
    batch.last_offset_delta = 1;
    let mut operation = engine().produce(Some("txn"), &topition(), header(false));
    for replies in [
        vec![Reply::Done, Reply::Done],
        vec![Reply::Int(Some(54))],
        vec![Reply::Watermark(Some((None, Some(i64::MAX - 1))))],
        vec![Reply::Inflated(batch)],
    ] {
        let Progress::Next(next) = operation.advance(replies) else { panic!() };
        operation = next;
    }
    assert_eq!(operation.requests().len(), 2);
    assert!(!operation.is_in_range(&done(2)));
}

#[test]
fn a_batch_is_validated_before_its_range_matters() {
    let engine = Mysql::<(), (), ()> {
        cluster: "abc".to_owned(),
        node: 111,
        advertised_listener: Listener { url: "tcp://a/".to_owned(), host: None, port: None },
        pool: (),
        schemas: Some(()),
        lake: None,
    };
    let mut session = Session::new(engine.produce(None, &topition(), header(false)));
    for replies in [
        vec![Reply::Done, Reply::Done],
        vec![Reply::Int(Some(54))],
        vec![Reply::Watermark(Some((None, Some(4))))],
        vec![Reply::Inflated(inflated(&[i64::MAX]))],
    ] {
        for reply in replies {
            session = session.answer(Ok(reply));
        }
        assert!(session.is_in_range());
        let Progress::Next(next) = session.advance() else { panic!() };
        session = next;
    }
    same(&session.pending(), &Some(Request::Validate("pqr".to_owned())));
    let session = session.answer(Err(Error::Outside("schema".to_owned())));
    assert!(session.pending().is_none());
    assert!(session.is_in_range());
    let Progress::End(Err(Error::Outside(fault))) = session.advance() else { panic!() };
    assert_eq!(fault, "schema");
}
