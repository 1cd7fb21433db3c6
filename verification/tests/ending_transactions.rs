//! Transactions of producers end.

#![allow(dead_code, unused_imports)]

use tansu_mysql::batch::{BatchHeader, InflatedBatch, Marker, Record};
use tansu_mysql::engine::Mysql;
use tansu_mysql::error::{Error, ErrorCode};
use tansu_mysql::listener::Listener;
use tansu_mysql::operation::{Operation, Progress};
use tansu_mysql::request::{Reply, Request, Shape};
use tansu_mysql::sql::Sql;
use tansu_mysql::txn::{Txn, TxnState};
use tansu_mysql::value::{Statement, Value};

fn engine() -> Mysql<(), (), ()> {
    Mysql {
        cluster: "abc".to_owned(),
        node: 111,
        advertised_listener: Listener {
            url: "tcp://example.com:9192".to_owned(),
            host: Some("example.com".to_owned()),
            port: Some(9192),
        },
        pool: (),
        schemas: None,
        lake: None,
    }
}

fn t(text: &str) -> Value {
    Value::Text(text.to_owned())
}

fn n(number: i64) -> Value {
    Value::Int(number)
}

fn execute(sql: Sql, params: Vec<Value>) -> Request {
    Request::Execute(Statement { sql, params })
}

fn first(sql: Sql, params: Vec<Value>, shape: Shape) -> Request {
    Request::First(Statement { sql, params }, shape)
}

fn query(sql: Sql, params: Vec<Value>, shape: Shape) -> Request {
    Request::Query(Statement { sql, params }, shape)
}

/// Run an operation with replies, and give what it asked for and what it came to.
fn drive<O: Operation>(
    operation: O,
    script: Vec<Vec<Reply>>,
) -> (Vec<Vec<Request>>, Option<Result<O::Output, Error>>) {
    let mut operation = operation;
    let mut asked = vec![];
    for replies in script {
        let requests = operation.requests();
        assert_eq!(requests.len(), replies.len());
        for (request, reply) in requests.iter().zip(replies.iter()) {
            assert!(request.fits(reply), "{:?} {:?}", request, reply);
        }
        assert!(operation.is_in_range(&replies));
        asked.push(requests);
        match operation.advance(replies) {
            Progress::Next(next) => operation = next,
            Progress::End(result) => return (asked, Some(result)),
        }
    }
    asked.push(operation.requests());
    (asked, None)
}

fn same<A: std::fmt::Debug + ?Sized, B: std::fmt::Debug + ?Sized>(left: &A, right: &B) {
    assert_eq!(format!("{:?}", left), format!("{:?}", right));
}

fn marker_header() -> BatchHeader {
    BatchHeader {
        idempotent: false,
        producer_id: 32123,
        producer_epoch: 2,
        base_sequence: -1,
        last_offset_delta: 0,
    }
}

fn marker_batch() -> InflatedBatch {
    InflatedBatch {
        attributes: 48,
        control: true,
        base_timestamp: 0,
        last_offset_delta: 0,
        producer_id: 32123,
        producer_epoch: 2,
        records: vec![Record { timestamp_delta: 0, key: None, value: None, headers: vec![] }],
    }
}

fn done(n: usize) -> Vec<Reply> {
    (0..n).map(|_| Reply::Affected(1)).collect()
}

/// The replies up to the transactions that overlap in one partition.
fn script(overlaps: Vec<(String, i64, i16, Option<String>)>) -> Vec<Vec<Reply>> {
    vec![
        vec![Reply::Done, Reply::Done],
        vec![Reply::Topitions(vec![("pqr".to_owned(), 3)])],
        vec![Reply::Batch(marker_header())],
        vec![Reply::Int(Some(54))],
        vec![Reply::Watermark(Some((None, Some(7))))],
        vec![Reply::Inflated(marker_batch())],
        done(3),
        vec![Reply::Span(Some((5, 7)))],
        vec![Reply::Txns(overlaps)],
    ]
}

fn settlement(name: &str, id: i64, epoch: i64, committed: bool) -> Vec<Request> {
    let on = |sql: Sql| execute(sql, vec![t("abc"), t(name), n(id), n(epoch)]);
    let mut requests = vec![on(Sql::TxnProduceOffsetDelete), on(Sql::TxnTopitionDelete)];
    if committed {
        requests.push(on(Sql::ConsumerOffsetInsertFromTxn));
    }
    requests.push(on(Sql::TxnOffsetCommitTpDelete));
    requests.push(on(Sql::TxnOffsetCommitDelete));
    let status = if committed { "COMMITTED" } else { "ABORTED" };
    requests.push(execute(
        Sql::TxnStatusUpdate,
        vec![t(status), t("abc"), t(name), n(id), n(epoch)],
    ));
    requests
}

#[test]
fn a_transaction_is_marked_and_settled() {
    let mut replies = script(vec![]);
    replies.push(done(6));
    replies.push(vec![Reply::Done]);
    let (asked, result) = drive(engine().txn_end("txn", 32123, 2, true), replies);
    assert!(matches!(result, Some(Ok(ErrorCode::NoError))));
    let marker = Marker {
        committed: true,
        control: true,
        transaction: true,
        producer_id: 32123,
        producer_epoch: 2,
        base_sequence: -1,
    };
    same(
        &asked[1],
        &[query(
            Sql::TxnTopitionSelect,
            vec![t("abc"), t("txn"), n(32123), n(2)],
            Shape::Topitions,
        )],
    );
    same(&asked[2], &[Request::EncodeMarker(marker)]);
    same(
        &asked[3],
        &[first(Sql::TopitionSelectId, vec![t("abc"), t("pqr"), n(3)], Shape::Int)],
    );
    same(
        &asked[6][1..],
        &[
            execute(Sql::WatermarkUpdate, vec![n(8), t("abc"), t("pqr"), n(3)]),
            execute(
                Sql::TxnProduceOffsetInsert,
                vec![t("abc"), t("txn"), n(32123), n(2), t("pqr"), n(3), n(7), n(7)],
            ),
        ],
    );
    same(
        &asked[7],
        &[first(
            Sql::TxnProduceOffsetSelectRange,
            vec![t("abc"), t("txn"), n(32123), n(2), t("pqr"), n(3)],
            Shape::Span,
        )],
    );
    same(
        &asked[8],
        &[query(
            Sql::TxnProduceOffsetSelectOverlapping,
            vec![t("abc"), t("txn"), n(32123), n(2), t("pqr"), n(3), n(7)],
            Shape::Txns,
        )],
    );
    same(&asked[9], &settlement("txn", 32123, 2, true));
    same(&asked[10], &[Request::Commit]);
}

#[test]
fn decided_transactions_are_settled_with_it() {
    let mut replies = script(vec![
        ("one".to_owned(), 1, 0, Some("PREPARE_ABORT".to_owned())),
        ("two".to_owned(), 2, 0, Some("PREPARE_COMMIT".to_owned())),
    ]);
    replies.push(done(16));
    replies.push(vec![Reply::Done]);
    let (asked, result) = drive(engine().txn_end("txn", 32123, 2, false), replies);
    assert!(matches!(result, Some(Ok(ErrorCode::NoError))));
    let mut expected = settlement("one", 1, 0, false);
    expected.extend(settlement("two", 2, 0, true));
    expected.extend(settlement("txn", 32123, 2, false));
    same(&asked[9], &expected);
}

#[test]
fn an_open_transaction_holds_it_back() {
    for (status, committed, expected) in [
        (None, true, "PREPARE_COMMIT"),
        (Some("BEGIN".to_owned()), false, "PREPARE_ABORT"),
        (Some("COMMITTED".to_owned()), true, "PREPARE_COMMIT"),
    ] {
        let mut replies = script(vec![("one".to_owned(), 1, 0, status)]);
        replies.push(done(1));
        replies.push(vec![Reply::Done]);
        let (asked, result) = drive(engine().txn_end("txn", 32123, 2, committed), replies);
        assert!(matches!(result, Some(Ok(ErrorCode::NoError))));
        same(
            &asked[9],
            &[execute(
                Sql::TxnStatusUpdate,
                vec![t(expected), t("abc"), t("txn"), n(32123), n(2)],
            )],
        );
    }
}

#[test]
fn a_transaction_without_partitions_is_settled_at_once() {
    let (asked, result) = drive(
        engine().txn_end("txn", 32123, 2, true),
        vec![
            vec![Reply::Done, Reply::Done],
            vec![Reply::Topitions(vec![])],
            done(6),
            vec![Reply::Done],
        ],
    );
    assert!(matches!(result, Some(Ok(ErrorCode::NoError))));
    same(&asked[2], &settlement("txn", 32123, 2, true));
}

#[test]
fn partitions_are_marked_one_after_the_other() {
    let mut replies = script(vec![]);
    replies[1] = vec![Reply::Topitions(vec![("pqr".to_owned(), 3), ("stu".to_owned(), 0)])];
    let (asked, result) = drive(engine().txn_end("txn", 32123, 2, true), replies);
    assert!(result.is_none());
    assert!(matches!(asked[9][0], Request::EncodeMarker(_)));
}

#[test]
fn an_unknown_status_is_an_error() {
    let (_, result) = drive(
        engine().txn_end("txn", 32123, 2, true),
        script(vec![
            ("one".to_owned(), 1, 0, Some("PREPARE_ABORT".to_owned())),
            ("two".to_owned(), 2, 0, Some("nonsense".to_owned())),
        ]),
    );
    let Some(Err(Error::UnknownTxnState(status))) = result else { panic!() };
    assert_eq!(status, "nonsense");
}

#[test]
fn a_transaction_without_offsets_is_an_error() {
    let mut replies = script(vec![]);
    replies.truncate(7);
    replies.push(vec![Reply::Span(None)]);
    let (_, result) = drive(engine().txn_end("txn", 32123, 2, true), replies);
    let Some(Err(Error::Message(message))) = result else { panic!() };
    assert_eq!(message, "No rows returned");
}

#[test]
fn states_are_read_back() {
    for state in [
        TxnState::Begin,
        TxnState::PrepareCommit,
        TxnState::PrepareAbort,
        TxnState::Committed,
        TxnState::Aborted,
    ] {
        assert_eq!(TxnState::of_text(&state.text()).unwrap(), state);
    }
    assert_eq!(TxnState::PrepareCommit.text(), "PREPARE_COMMIT");
    assert_eq!(TxnState::PrepareCommit.settled(), TxnState::Committed);
    assert_eq!(TxnState::PrepareAbort.settled(), TxnState::Aborted);
    assert_eq!(TxnState::Begin.settled(), TxnState::Begin);
    assert!(!TxnState::Committed.is_prepared());
}

#[test]
fn a_row_without_a_status_has_begun() {
    let txn = Txn::of_row(&("one".to_owned(), 1, 2, None)).unwrap();
    assert_eq!(txn.name, "one");
    assert_eq!(txn.producer_id, 1);
    assert_eq!(txn.producer_epoch, 2);
    assert_eq!(txn.status, TxnState::Begin);
}
