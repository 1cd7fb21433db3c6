//! Offsets of partitions and of groups.

#![allow(dead_code, unused_imports)]

use tansu_mysql::engine::Mysql;
use tansu_mysql::error::{Error, ErrorCode};
use tansu_mysql::listener::Listener;
use tansu_mysql::offset_map::OffsetMap;
use tansu_mysql::operation::{Operation, Progress};
use tansu_mysql::request::{Reply, Request, Shape};
use tansu_mysql::sql::Sql;
use tansu_mysql::value::{Statement, Value};
use tansu_mysql::wire::{
    IsolationLevel, ListOffset, ListOffsetResponse, Moment, OffsetCommitRequest, OffsetStage,
    Topition,
};

fn engine() -> Mysql<(), (), ()> {
    Mysql {
        cluster: "abc".to_owned(),
        node: 111,
        advertised_listener: Listener {
            url: "tcp://example.com:9192".to_owned(),
            host: Some("example.com".to_owned()),
            port: Some(9192),
        },
        pool: (),
        schemas: None,
        lake: None,
    }
}

fn t(text: &str) -> Value {
    Value::Text(text.to_owned())
}

fn n(number: i64) -> Value {
    Value::Int(number)
}

fn execute(sql: Sql, params: Vec<Value>) -> Request {
    Request::Execute(Statement { sql, params })
}

fn first(sql: Sql, params: Vec<Value>, shape: Shape) -> Request {
    Request::First(Statement { sql, params }, shape)
}

fn query(sql: Sql, params: Vec<Value>, shape: Shape) -> Request {
    Request::Query(Statement { sql, params }, shape)
}

/// Run an operation with replies, and give what it asked for and what it came to.
fn drive<O: Operation>(
    operation: O,
    script: Vec<Vec<Reply>>,
) -> (Vec<Vec<Request>>, Option<Result<O::Output, Error>>) {
    let mut operation = operation;
    let mut asked = vec![];
    for replies in script {
        let requests = operation.requests();
        assert_eq!(requests.len(), replies.len());
        for (request, reply) in requests.iter().zip(replies.iter()) {
            assert!(request.fits(reply), "{:?} {:?}", request, reply);
        }
        assert!(operation.is_in_range(&replies));
        asked.push(requests);
        match operation.advance(replies) {
            Progress::Next(next) => operation = next,
            Progress::End(result) => return (asked, Some(result)),
        }
    }
    asked.push(operation.requests());
    (asked, None)
}

fn same<A: std::fmt::Debug + ?Sized, B: std::fmt::Debug + ?Sized>(left: &A, right: &B) {
    assert_eq!(format!("{:?}", left), format!("{:?}", right));
}

fn topition(partition: i32) -> Topition {
    Topition { topic: "pqr".to_owned(), partition }
}

#[test]
fn a_partition_has_bounds() {
    let stage = |row: Option<(Option<i64>, Option<i64>)>| {
        drive(
            engine().offset_stage(&topition(3)),
            vec![vec![Reply::Done], vec![Reply::Watermark(row)]],
        )
        .1
        .unwrap()
    };
    assert_eq!(
        stage(Some((Some(1), Some(9)))).unwrap(),
        OffsetStage { last_stable: 9, high_watermark: 9, log_start: 1 },
    );
    assert_eq!(
        stage(Some((None, None))).unwrap(),
        OffsetStage { last_stable: 0, high_watermark: 0, log_start: 0 },
    );
    assert!(matches!(stage(None), Err(Error::Api(ErrorCode::UnknownTopicOrPartition))));
}

#[test]
fn offsets_are_listed() {
    let moment = |secs: u64, nanos: u32| ListOffset::Timestamp(Some(Moment { secs, nanos }));
    let (asked, result) = drive(
        engine().list_offsets(
            IsolationLevel::ReadUncommitted,
            &[
                (topition(0), ListOffset::Earliest),
                (topition(1), ListOffset::Latest),
                (topition(2), moment(5, 6_999_999)),
                (topition(3), moment(5, 0)),
                (topition(4), ListOffset::Timestamp(None)),
                (topition(5), ListOffset::Latest),
            ],
        ),
        vec![
            vec![Reply::Done],
            vec![Reply::Watermark(Some((Some(1), Some(9))))],
            vec![Reply::Watermark(Some((Some(1), Some(9))))],
            vec![Reply::Watermark(Some((Some(1), Some(9))))],
            vec![Reply::Long(Some(4))],
            vec![Reply::Watermark(Some((Some(1), Some(9))))],
            vec![Reply::Long(None)],
            vec![Reply::Watermark(Some((None, None)))],
            vec![Reply::Long(None)],
            vec![Reply::Watermark(None)],
            vec![],
        ],
    );
    let found = |offset: i64| ListOffsetResponse {
        error_code: ErrorCode::NoError,
        timestamp: None,
        offset: Some(offset),
    };
    same(
        &result.unwrap().unwrap(),
        &vec![
            (topition(0), found(1)),
            (topition(1), found(9)),
            (topition(2), found(4)),
            (topition(3), found(9)),
            (topition(4), found(0)),
            (
                topition(5),
                ListOffsetResponse {
                    error_code: ErrorCode::UnknownTopicOrPartition,
                    timestamp: None,
                    offset: None,
                },
            ),
        ],
    );
    same(
        &asked[3..5],
        &[
            vec![first(
                Sql::WatermarkSelect,
                vec![t("abc"), t("pqr"), n(2)],
                Shape::Watermark,
            )],
            vec![first(
                Sql::RecordFetchByTimestamp,
                vec![t("abc"), t("pqr"), n(2), n(5_006)],
                Shape::Long,
            )],
        ],
    );
    same(
        &asked[8],
        &[first(
            Sql::RecordFetchByTimestamp,
            vec![t("abc"), t("pqr"), n(4), n(0)],
            Shape::Long,
        )],
    );
}

#[test]
fn offsets_are_committed() {
    let (asked, result) = drive(
        engine().offset_commit(
            "group",
            None,
            &[
                (topition(0), OffsetCommitRequest { offset: 5 }),
                (topition(1), OffsetCommitRequest { offset: 6 }),
            ],
        ),
        vec![vec![Reply::Done], vec![Reply::Affected(1)], vec![Reply::Affected(2)], vec![]],
    );
    same(
        &result.unwrap().unwrap(),
        &vec![(topition(0), ErrorCode::NoError), (topition(1), ErrorCode::NoError)],
    );
    same(
        &asked[2],
        &[execute(
            Sql::ConsumerOffsetInsert,
            vec![t("abc"), t("group"), t("pqr"), n(1), n(6)],
        )],
    );
}

#[test]
fn offsets_of_a_group_are_fetched() {
    let (asked, result) = drive(
        engine().offset_fetch(
            Some("group"),
            &[topition(0), topition(1), topition(0)],
            Some(true),
        ),
        vec![
            vec![Reply::Done],
            vec![Reply::Long(Some(5))],
            vec![Reply::Long(None)],
            vec![Reply::Long(Some(7))],
            vec![],
        ],
    );
    let offsets = result.unwrap().unwrap();
    assert_eq!(offsets.entries().len(), 1);
    assert_eq!(offsets.get(&topition(0)), Some(7));
    assert_eq!(offsets.get(&topition(1)), None);
    same(
        &asked[1],
        &[first(
            Sql::ConsumerOffsetSelect,
            vec![t("abc"), t("group"), t("pqr"), n(0)],
            Shape::Long,
        )],
    );
}

#[test]
fn without_a_group_there_are_no_offsets() {
    let (_, result) = drive(
        engine().offset_fetch(None, &[topition(0)], None),
        vec![vec![Reply::Done], vec![]],
    );
    assert!(result.unwrap().unwrap().entries().is_empty());
}

#[test]
fn all_offsets_of_a_group_are_fetched() {
    let (asked, result) = drive(
        engine().committed_offset_topitions("group"),
        vec![
            vec![Reply::Done],
            vec![Reply::Offsets(vec![
                ("pqr".to_owned(), 0, 5),
                ("pqr".to_owned(), 1, 6),
                ("pqr".to_owned(), 0, 8),
            ])],
        ],
    );
    let offsets = result.unwrap().unwrap();
    assert_eq!(offsets.entries().len(), 2);
    assert_eq!(offsets.get(&topition(0)), Some(8));
    assert_eq!(offsets.get(&topition(1)), Some(6));
    same(
        &asked[1],
        &[query(
            Sql::ConsumerOffsetSelectByGroup,
            vec![t("abc"), t("group")],
            Shape::Offsets,
        )],
    );
}

#[test]
fn the_last_offset_of_a_partition_counts() {
    let map = OffsetMap::new().with(topition(0), 1).with(topition(1), 2).with(topition(0), 3);
    assert_eq!(map.get(&topition(0)), Some(3));
    assert_eq!(map.get(&topition(1)), Some(2));
    assert_eq!(map.get(&topition(2)), None);
    assert_eq!(map.entries().len(), 2);
}
