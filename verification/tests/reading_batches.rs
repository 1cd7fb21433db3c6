//! Records are read back.

#![allow(dead_code, unused_imports)]

use tansu_mysql::batch::{FetchedBatch, RecordHeader};
use tansu_mysql::clock::Civil;
use tansu_mysql::engine::Mysql;
use tansu_mysql::error::{Error, ErrorCode};
use tansu_mysql::listener::Listener;
use tansu_mysql::operation::{Operation, Progress};
use tansu_mysql::request::{Reply, Request, Shape};
use tansu_mysql::sql::Sql;
use tansu_mysql::value::{Statement, Value};
use tansu_mysql::wire::{IsolationLevel, Topition};

fn engine() -> Mysql<(), (), ()> {
    Mysql {
        cluster: "abc".to_owned(),
        node: 111,
        advertised_listener: Listener {
            url: "tcp://example.com:9192".to_owned(),
            host: Some("example.com".to_owned()),
            port: Some(9192),
        },
        pool: (),
        schemas: None,
        lake: None,
    }
}

fn t(text: &str) -> Value {
    Value::Text(text.to_owned())
}

fn n(number: i64) -> Value {
    Value::Int(number)
}

fn execute(sql: Sql, params: Vec<Value>) -> Request {
    Request::Execute(Statement { sql, params })
}

fn first(sql: Sql, params: Vec<Value>, shape: Shape) -> Request {
    Request::First(Statement { sql, params }, shape)
}

fn query(sql: Sql, params: Vec<Value>, shape: Shape) -> Request {
    Request::Query(Statement { sql, params }, shape)
}

/// Run an operation with replies, and give what it asked for and what it came to.
fn drive<O: Operation>(
    operation: O,
    script: Vec<Vec<Reply>>,
) -> (Vec<Vec<Request>>, Option<Result<O::Output, Error>>) {
    let mut operation = operation;
    let mut asked = vec![];
    for replies in script {
        let requests = operation.requests();
        assert_eq!(requests.len(), replies.len());
        for (request, reply) in requests.iter().zip(replies.iter()) {
            assert!(request.fits(reply), "{:?} {:?}", request, reply);
        }
        assert!(operation.is_in_range(&replies));
        asked.push(requests);
        match operation.advance(replies) {
            Progress::Next(next) => operation = next,
            Progress::End(result) => return (asked, Some(result)),
        }
    }
    asked.push(operation.requests());
    (asked, None)
}

fn same<A: std::fmt::Debug + ?Sized, B: std::fmt::Debug + ?Sized>(left: &A, right: &B) {
    assert_eq!(format!("{:?}", left), format!("{:?}", right));
}

fn topition() -> Topition {
    Topition { topic: "pqr".to_owned(), partition: 3 }
}

fn row(
    offset: i64,
    second: u8,
) -> (i64, i16, i64, i16, Civil, Option<Vec<u8>>, Option<Vec<u8>>) {
    let time = Civil {
        year: 2023,
        month: 11,
        day: 14,
        hour: 22,
        minute: 13,
        second,
        micros: 123_000,
    };
    (offset, 0, 32123, 2, time, Some(b"k".to_vec()), None)
}

fn batch(offset: i64, millis: i64, headers: Vec<RecordHeader>) -> FetchedBatch {
    FetchedBatch {
        base_offset: offset,
        attributes: 0,
        producer_id: 32123,
        producer_epoch: 2,
        base_timestamp: millis,
        key: Some(b"k".to_vec()),
        value: None,
        headers,
    }
}

#[test]
fn records_are_read_with_their_headers() {
    let (asked, result) = drive(
        engine().fetch(&topition(), 4, 0, 1024, IsolationLevel::ReadUncommitted),
        vec![
            vec![Reply::Done],
            vec![Reply::Records(vec![row(4, 20), row(5, 21)])],
            vec![Reply::Headers(vec![(Some(b"h".to_vec()), None)])],
            vec![Reply::Done],
            vec![Reply::Headers(vec![])],
            vec![Reply::Done],
            vec![],
        ],
    );
    let header = || RecordHeader { key: Some(b"h".to_vec()), value: None };
    let expected = vec![
        batch(4, 1_700_000_000_123, vec![header()]),
        batch(5, 1_700_000_001_123, vec![]),
    ];
    same(&result.unwrap().unwrap(), &expected);
    same(
        &asked[1..4],
        &[
            vec![query(
                Sql::RecordFetch,
                vec![t("abc"), t("pqr"), n(3), n(4)],
                Shape::Records,
            )],
            vec![query(
                Sql::HeaderFetch,
                vec![t("abc"), t("pqr"), n(3), n(4)],
                Shape::Headers,
            )],
            vec![Request::Assemble(batch(4, 1_700_000_000_123, vec![header()]))],
        ],
    );
    same(
        &asked[4],
        &[query(Sql::HeaderFetch, vec![t("abc"), t("pqr"), n(3), n(5)], Shape::Headers)],
    );
}

#[test]
fn an_empty_partition_has_no_batches() {
    let (_, result) = drive(
        engine().fetch(&topition(), 4, 0, 1024, IsolationLevel::ReadCommitted),
        vec![vec![Reply::Done], vec![Reply::Records(vec![])], vec![]],
    );
    assert!(result.unwrap().unwrap().is_empty());
}

#[test]
fn a_time_that_does_not_exist_fits_no_request() {
    let request = query(Sql::RecordFetch, vec![], Shape::Records);
    let mut wrong = row(4, 20);
    wrong.4.day = 31;
    assert!(request.fits(&Reply::Records(vec![row(4, 20)])));
    assert!(!request.fits(&Reply::Records(vec![row(4, 20), wrong])));
    assert!(!request.fits(&Reply::Headers(vec![])));
}
