//! Producers and what goes with their transactions.

#![allow(dead_code, unused_imports)]

use tansu_mysql::engine::Mysql;
use tansu_mysql::error::{Error, ErrorCode};
use tansu_mysql::listener::Listener;
use tansu_mysql::operation::{Operation, Progress};
use tansu_mysql::request::{Reply, Request, Shape};
use tansu_mysql::sql::Sql;
use tansu_mysql::value::{Statement, Value};
use tansu_mysql::wire::{
    AddPartitionsToTxnPartitionResult, AddPartitionsToTxnResult, AddPartitionsToTxnTopic,
    AddPartitionsToTxnTopicResult, AddPartitionsToTxnTransaction, ProducerIdResponse, SingleTxn,
    TxnAddPartitionsRequest, TxnAddPartitionsResponse, TxnOffsetCommitPartition,
    TxnOffsetCommitRequest, TxnOffsetCommitResponsePartition, TxnOffsetCommitResponseTopic,
    TxnOffsetCommitTopic,
};

fn engine() -> Mysql<(), (), ()> {
    Mysql {
        cluster: "abc".to_owned(),
        node: 111,
        advertised_listener: Listener {
            url: "tcp://example.com:9192".to_owned(),
            host: Some("example.com".to_owned()),
            port: Some(9192),
        },
        pool: (),
        schemas: None,
        lake: None,
    }
}

fn t(text: &str) -> Value {
    Value::Text(text.to_owned())
}

fn n(number: i64) -> Value {
    Value::Int(number)
}

fn execute(sql: Sql, params: Vec<Value>) -> Request {
    Request::Execute(Statement { sql, params })
}

fn first(sql: Sql, params: Vec<Value>, shape: Shape) -> Request {
    Request::First(Statement { sql, params }, shape)
}

fn query(sql: Sql, params: Vec<Value>, shape: Shape) -> Request {
    Request::Query(Statement { sql, params }, shape)
}

/// Run an operation with replies, and give what it asked for and what it came to.
fn drive<O: Operation>(
    operation: O,
    script: Vec<Vec<Reply>>,
) -> (Vec<Vec<Request>>, Option<Result<O::Output, Error>>) {
    let mut operation = operation;
    let mut asked = vec![];
    for replies in script {
        let requests = operation.requests();
        assert_eq!(requests.len(), replies.len());
        for (request, reply) in requests.iter().zip(replies.iter()) {
            assert!(request.fits(reply), "{:?} {:?}", request, reply);
        }
        assert!(operation.is_in_range(&replies));
        asked.push(requests);
        match operation.advance(replies) {
            Progress::Next(next) => operation = next,
            Progress::End(result) => return (asked, Some(result)),
        }
    }
    asked.push(operation.requests());
    (asked, None)
}

fn same<A: std::fmt::Debug + ?Sized, B: std::fmt::Debug + ?Sized>(left: &A, right: &B) {
    assert_eq!(format!("{:?}", left), format!("{:?}", right));
}

fn done(n: usize) -> Vec<Reply> {
    (0..n).map(|_| Reply::Affected(1)).collect()
}

#[test]
fn a_known_producer_goes_on_in_its_next_epoch() {
    for (epoch, next) in [(Some(4), 5), (None, 1), (Some(i16::MAX - 1), i16::MAX)] {
        let (asked, result) = drive(
            engine().init_producer(None, 10_000, Some(32123), epoch),
            vec![vec![Reply::Done, Reply::Done], done(2), vec![Reply::Done]],
        );
        assert_eq!(
            result.unwrap().unwrap(),
            ProducerIdResponse { error: ErrorCode::NoError, id: 32123, epoch: next },
        );
        same(
            &asked[1],
            &[
                execute(Sql::ProducerInsert, vec![t("abc"), n(32123)]),
                execute(Sql::ProducerEpochInsert, vec![t("abc"), n(32123), n(next as i64)]),
            ],
        );
    }
}

#[test]
fn a_new_producer_gets_an_identity() {
    for (random, id) in [(5, 5), (-5, 5), (0, 0), (i64::MAX, i64::MAX), (i64::MIN, i64::MIN)] {
        let (_, result) = drive(
            engine().init_producer_from(None, 10_000, None, Some(7), random),
            vec![vec![Reply::Done, Reply::Done], done(2), vec![Reply::Done]],
        );
        assert_eq!(
            result.unwrap().unwrap(),
            ProducerIdResponse { error: ErrorCode::NoError, id, epoch: 0 },
        );
    }
}

#[test]
fn new_producers_get_different_identities() {
    let init = || {
        drive(
            engine().init_producer(None, 10_000, None, None),
            vec![vec![Reply::Done, Reply::Done], done(2), vec![Reply::Done]],
        )
        .1
        .unwrap()
        .unwrap()
        .id
    };
    let ids = [init(), init(), init(), init()];
    assert!(ids.iter().any(|id| *id != ids[0]));
}

#[test]
fn a_transaction_begins_with_its_producer() {
    let (asked, _) = drive(
        engine().init_producer(Some("txn"), 10_000, Some(32123), Some(1)),
        vec![vec![Reply::Done, Reply::Done], done(3), vec![Reply::Done]],
    );
    same(
        &asked[1][2],
        &execute(
            Sql::TxnInsert,
            vec![t("abc"), t("txn"), n(32123), n(2), n(10_000), t("BEGIN")],
        ),
    );
    same(&asked[2], &[Request::Commit]);
}

#[test]
fn a_group_joins_a_transaction() {
    let (asked, result) = drive(
        engine().txn_add_offsets("txn", 32123, 2, "group"),
        vec![vec![Reply::Done], vec![Reply::Affected(1)]],
    );
    assert!(matches!(result, Some(Ok(ErrorCode::NoError))));
    same(
        &asked[1],
        &[execute(
            Sql::TxnOffsetAdd,
            vec![t("abc"), t("txn"), n(32123), n(2), t("group")],
        )],
    );
}

fn topic(name: &str, partitions: Option<Vec<i32>>) -> AddPartitionsToTxnTopic {
    AddPartitionsToTxnTopic { name: name.to_owned(), partitions }
}

fn partition(
    partition_index: i32,
    partition_error_code: ErrorCode,
) -> AddPartitionsToTxnPartitionResult {
    AddPartitionsToTxnPartitionResult { partition_index, partition_error_code }
}

#[test]
fn partitions_are_added_to_a_transaction() {
    let (asked, result) = drive(
        engine().txn_add_partitions(TxnAddPartitionsRequest::VersionZeroToThree(SingleTxn {
            transaction_id: "txn".to_owned(),
            producer_id: 32123,
            producer_epoch: 2,
            topics: vec![topic("pqr", Some(vec![0, 1])), topic("stu", None)],
        })),
        vec![
            vec![Reply::Done],
            vec![Reply::Int(Some(1))],
            vec![Reply::Affected(1)],
            vec![Reply::Int(None)],
            vec![],
            vec![],
            vec![],
        ],
    );
    same(
        &asked[1..4],
        &[
            vec![first(Sql::TopitionExists, vec![t("abc"), t("pqr"), n(0)], Shape::Int)],
            vec![execute(
                Sql::TxnTopitionInsert,
                vec![t("abc"), t("txn"), n(32123), n(2), t("pqr"), n(0)],
            )],
            vec![first(Sql::TopitionExists, vec![t("abc"), t("pqr"), n(1)], Shape::Int)],
        ],
    );
    same(
        &result.unwrap().unwrap(),
        &TxnAddPartitionsResponse::VersionZeroToThree(vec![
            AddPartitionsToTxnTopicResult {
                name: "pqr".to_owned(),
                results_by_partition: vec![
                    partition(0, ErrorCode::NoError),
                    partition(1, ErrorCode::UnknownTopicOrPartition),
                ],
            },
            AddPartitionsToTxnTopicResult {
                name: "stu".to_owned(),
                results_by_partition: vec![],
            },
        ]),
    );
}

#[test]
fn partitions_are_added_to_several_transactions() {
    let txn = |id: &str, topics: Option<Vec<AddPartitionsToTxnTopic>>| {
        AddPartitionsToTxnTransaction {
            transactional_id: id.to_owned(),
            producer_id: 32123,
            producer_epoch: 2,
            topics,
        }
    };
    let (asked, result) = drive(
        engine().txn_add_partitions(TxnAddPartitionsRequest::VersionFourPlus(vec![
            txn("one", None),
            txn("two", Some(vec![topic("pqr", Some(vec![7]))])),
        ])),
        vec![
            vec![Reply::Done],
            vec![],
            vec![Reply::Int(Some(1))],
            vec![Reply::Affected(1)],
            vec![],
            vec![],
            vec![],
        ],
    );
    same(
        &asked[3],
        &[execute(
            Sql::TxnTopitionInsert,
            vec![t("abc"), t("two"), n(32123), n(2), t("pqr"), n(7)],
        )],
    );
    same(
        &result.unwrap().unwrap(),
        &TxnAddPartitionsResponse::VersionFourPlus(vec![
            AddPartitionsToTxnResult {
                transactional_id: "one".to_owned(),
                topic_results: vec![],
            },
            AddPartitionsToTxnResult {
                transactional_id: "two".to_owned(),
                topic_results: vec![AddPartitionsToTxnTopicResult {
                    name: "pqr".to_owned(),
                    results_by_partition: vec![partition(7, ErrorCode::NoError)],
                }],
            },
        ]),
    );
}

#[test]
fn one_transaction_is_added_to_alike_in_both_versions() {
    let topics = || vec![topic("pqr", Some(vec![0, 1])), topic("stu", None)];
    let script = || {
        vec![
            vec![Reply::Done],
            vec![Reply::Int(Some(1))],
            vec![Reply::Affected(1)],
            vec![Reply::Int(None)],
            vec![],
            vec![],
            vec![],
        ]
    };
    let (single_asked, single) = drive(
        engine().txn_add_partitions(TxnAddPartitionsRequest::VersionZeroToThree(SingleTxn {
            transaction_id: "txn".to_owned(),
            producer_id: 32123,
            producer_epoch: 2,
            topics: topics(),
        })),
        script(),
    );
    let mut longer = script();
    longer.push(vec![]);
    let (mut several_asked, several) = drive(
        engine().txn_add_partitions(TxnAddPartitionsRequest::VersionFourPlus(vec![
            AddPartitionsToTxnTransaction {
                transactional_id: "txn".to_owned(),
                producer_id: 32123,
                producer_epoch: 2,
                topics: Some(topics()),
            },
        ])),
        longer,
    );
    let Some(Ok(TxnAddPartitionsResponse::VersionZeroToThree(single))) = single else { panic!() };
    let Some(Ok(TxnAddPartitionsResponse::VersionFourPlus(several))) = several else { panic!() };
    assert_eq!(several.len(), 1);
    assert_eq!(several[0].transactional_id, "txn");
    same(&several[0].topic_results, &single);
    assert!(several_asked.pop().unwrap().is_empty());
    same(&several_asked, &single_asked);
}

fn offsets() -> TxnOffsetCommitRequest {
    TxnOffsetCommitRequest {
        transaction_id: "txn".to_owned(),
        group_id: "group".to_owned(),
        producer_id: 32123,
        producer_epoch: 2,
        generation_id: Some(4),
        member_id: None,
        topics: vec![
            TxnOffsetCommitTopic {
                name: "pqr".to_owned(),
                partitions: Some(vec![
                    TxnOffsetCommitPartition {
                        partition_index: 0,
                        committed_offset: 5,
                        committed_leader_epoch: Some(1),
                        committed_metadata: Some("m".to_owned()),
                    },
                    TxnOffsetCommitPartition {
                        partition_index: 1,
                        committed_offset: 6,
                        committed_leader_epoch: None,
                        committed_metadata: None,
                    },
                ]),
            },
            TxnOffsetCommitTopic { name: "stu".to_owned(), partitions: None },
        ],
    }
}

fn committed(error_code: ErrorCode) -> Vec<TxnOffsetCommitResponseTopic> {
    let partition =
        |partition_index: i32| TxnOffsetCommitResponsePartition { partition_index, error_code };
    vec![
        TxnOffsetCommitResponseTopic {
            name: "pqr".to_owned(),
            partitions: vec![partition(0), partition(1)],
        },
        TxnOffsetCommitResponseTopic { name: "stu".to_owned(), partitions: vec![] },
    ]
}

#[test]
fn offsets_go_with_the_transaction_of_their_producer() {
    let (asked, result) = drive(
        engine().txn_offset_commit(offsets()),
        vec![
            vec![Reply::Done, Reply::Done],
            vec![
                Reply::Producer(Some((Some(32123), Some(2)))),
                Reply::Affected(1),
                Reply::Affected(1),
            ],
            done(2),
            vec![Reply::Done],
        ],
    );
    same(&result.unwrap().unwrap(), &committed(ErrorCode::NoError));
    let insert = |partition: i64, offset: i64, epoch: Value, metadata: Value| {
        execute(
            Sql::TxnOffsetCommitTpInsert,
            vec![
                t("abc"),
                t("txn"),
                t("group"),
                n(32123),
                n(2),
                t("pqr"),
                n(partition),
                n(offset),
                epoch,
                metadata,
            ],
        )
    };
    same(
        &asked[1..],
        &[
            vec![
                first(Sql::TxnSelectForOffset, vec![t("abc"), t("txn")], Shape::Producer),
                execute(Sql::ConsumerGroupInsert, vec![t("abc"), t("group")]),
                execute(
                    Sql::TxnOffsetCommitInsert,
                    vec![t("abc"), t("txn"), t("group"), n(32123), n(2), n(4), Value::Null],
                ),
            ],
            vec![insert(0, 5, n(1), t("m")), insert(1, 6, Value::Null, Value::Null)],
            vec![Request::Commit],
        ],
    );
}

#[test]
fn offsets_of_another_producer_are_refused() {
    for (row, code) in [
        (None, ErrorCode::UnknownProducerId),
        (Some((None, Some(2))), ErrorCode::UnknownProducerId),
        (Some((Some(1), Some(2))), ErrorCode::UnknownProducerId),
        (Some((Some(32123), Some(1))), ErrorCode::InvalidProducerEpoch),
        (Some((Some(32123), None)), ErrorCode::InvalidProducerEpoch),
    ] {
        let (asked, result) = drive(
            engine().txn_offset_commit(offsets()),
            vec![
                vec![Reply::Done, Reply::Done],
                vec![Reply::Producer(row), Reply::Affected(1), Reply::Affected(1)],
                vec![],
                vec![Reply::Done],
            ],
        );
        same(&result.unwrap().unwrap(), &committed(code));
        same(&asked[3], &[Request::Commit]);
    }
}
