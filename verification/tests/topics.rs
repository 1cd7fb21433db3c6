//! Topics are created, described and deleted.

#![allow(dead_code, unused_imports)]

use tansu_mysql::engine::Mysql;
use tansu_mysql::error::{Error, ErrorCode};
use tansu_mysql::ident::Uuid;
use tansu_mysql::listener::Listener;
use tansu_mysql::operation::{Operation, Progress};
use tansu_mysql::request::{Reply, Request, Shape};
use tansu_mysql::sql::Sql;
use tansu_mysql::value::{Statement, Value};
use tansu_mysql::wire::{
    CreatableTopic, DeleteRecordsPartition, DeleteRecordsPartitionResult, DeleteRecordsTopic,
    DeleteRecordsTopicResult, DescribeTopicPartitionsResponsePartition,
    DescribeTopicPartitionsResponseTopic, MetadataResponse, MetadataResponseBroker,
    MetadataResponsePartition, MetadataResponseTopic, TopicConfig, TopicId,
};

fn engine() -> Mysql<(), (), ()> {
    Mysql {
        cluster: "abc".to_owned(),
        node: 111,
        advertised_listener: Listener {
            url: "tcp://example.com:9192".to_owned(),
            host: Some("example.com".to_owned()),
            port: Some(9192),
        },
        pool: (),
        schemas: None,
        lake: None,
    }
}

fn t(text: &str) -> Value {
    Value::Text(text.to_owned())
}

fn n(number: i64) -> Value {
    Value::Int(number)
}

fn execute(sql: Sql, params: Vec<Value>) -> Request {
    Request::Execute(Statement { sql, params })
}

fn first(sql: Sql, params: Vec<Value>, shape: Shape) -> Request {
    Request::First(Statement { sql, params }, shape)
}

fn query(sql: Sql, params: Vec<Value>, shape: Shape) -> Request {
    Request::Query(Statement { sql, params }, shape)
}

/// Run an operation with replies, and give what it asked for and what it came to.
fn drive<O: Operation>(
    operation: O,
    script: Vec<Vec<Reply>>,
) -> (Vec<Vec<Request>>, Option<Result<O::Output, Error>>) {
    let mut operation = operation;
    let mut asked = vec![];
    for replies in script {
        let requests = operation.requests();
        assert_eq!(requests.len(), replies.len());
        for (request, reply) in requests.iter().zip(replies.iter()) {
            assert!(request.fits(reply), "{:?} {:?}", request, reply);
        }
        assert!(operation.is_in_range(&replies));
        asked.push(requests);
        match operation.advance(replies) {
            Progress::Next(next) => operation = next,
            Progress::End(result) => return (asked, Some(result)),
        }
    }
    asked.push(operation.requests());
    (asked, None)
}

fn same<A: std::fmt::Debug + ?Sized, B: std::fmt::Debug + ?Sized>(left: &A, right: &B) {
    assert_eq!(format!("{:?}", left), format!("{:?}", right));
}

const ID: Uuid = Uuid {
    bytes: [1, 35, 69, 103, 137, 171, 77, 239, 129, 35, 69, 103, 137, 171, 205, 239],
};
const ID_TEXT: &str = "01234567-89ab-4def-8123-456789abcdef";

fn topic(partitions: i32) -> CreatableTopic {
    CreatableTopic {
        name: "pqr".to_owned(),
        num_partitions: partitions,
        replication_factor: 3,
        configs: Some(vec![
            TopicConfig { name: "x".to_owned(), value: Some("y".to_owned()) },
            TopicConfig { name: "z".to_owned(), value: None },
        ]),
    }
}

fn done(n: usize) -> Vec<Reply> {
    (0..n).map(|_| Reply::Affected(1)).collect()
}

#[test]
fn a_topic_is_created_with_its_partitions() {
    let (asked, result) = drive(
        engine().create_topic_as(topic(2), ID),
        vec![
            vec![Reply::Done, Reply::Done],
            vec![Reply::Text(None)],
            done(7),
            vec![Reply::Done],
        ],
    );
    assert_eq!(result.unwrap().unwrap(), ID);
    let on = |sql: Sql, partition: i64| execute(sql, vec![t("abc"), t("pqr"), n(partition)]);
    same(
        &asked,
        &[
            vec![Request::Connect, Request::Begin],
            vec![first(Sql::TopicSelectByName, vec![t("abc"), t("pqr")], Shape::Text)],
            vec![
                execute(
                    Sql::TopicInsert,
                    vec![t("abc"), t("pqr"), t(ID_TEXT), n(2), n(3)],
                ),
                on(Sql::TopitionInsert, 0),
                on(Sql::WatermarkInsert, 0),
                on(Sql::TopitionInsert, 1),
                on(Sql::WatermarkInsert, 1),
                execute(
                    Sql::TopicConfigurationUpsert,
                    vec![t("abc"), t("pqr"), t("x"), t("y")],
                ),
                execute(
                    Sql::TopicConfigurationUpsert,
                    vec![t("abc"), t("pqr"), t("z"), Value::Null],
                ),
            ],
            vec![Request::Commit],
        ],
    );
}

#[test]
fn a_negative_number_of_partitions_gives_none() {
    let (asked, _) = drive(
        engine().create_topic_as(
            CreatableTopic {
                name: "pqr".to_owned(),
                num_partitions: -1,
                replication_factor: 1,
                configs: None,
            },
            ID,
        ),
        vec![vec![Reply::Done, Reply::Done], vec![Reply::Text(None)]],
    );
    assert_eq!(asked[2].len(), 1);
}

#[test]
fn a_topic_that_exists_is_not_created() {
    let (_, result) = drive(
        engine().create_topic(topic(2), false),
        vec![vec![Reply::Done, Reply::Done], vec![Reply::Text(Some("pqr".to_owned()))]],
    );
    assert!(matches!(result, Some(Err(Error::Api(ErrorCode::TopicAlreadyExists)))));
}

#[test]
fn topics_get_random_identifiers() {
    let create = || {
        drive(
            engine().create_topic(topic(0), false),
            vec![
                vec![Reply::Done, Reply::Done],
                vec![Reply::Text(None)],
                done(3),
                vec![Reply::Done],
            ],
        )
        .1
        .unwrap()
        .unwrap()
    };
    let (one, two) = (create(), create());
    assert_ne!(one, two);
    assert_eq!(one.bytes[6] / 16, 4);
    assert_eq!(two.bytes[8] / 64, 2);
}

#[test]
fn a_topic_is_deleted_with_all_that_belongs_to_it() {
    let (asked, result) = drive(
        engine().delete_topic(&TopicId::Name("pqr".to_owned())),
        vec![vec![Reply::Done], done(6)],
    );
    assert!(matches!(result, Some(Ok(ErrorCode::NoError))));
    let on = |sql: Sql| execute(sql, vec![t("abc"), t("pqr")]);
    same(
        &asked[1],
        &[
            on(Sql::HeaderDeleteByTopic),
            on(Sql::RecordDeleteByTopic),
            on(Sql::WatermarkDeleteByTopic),
            on(Sql::TopitionDeleteByTopic),
            on(Sql::TopicConfigurationDeleteByTopic),
            on(Sql::TopicDelete),
        ],
    );
}

#[test]
fn a_name_that_is_not_there_is_told() {
    let mut replies = done(5);
    replies.push(Reply::Affected(0));
    let (_, result) = drive(
        engine().delete_topic(&TopicId::Name("pqr".to_owned())),
        vec![vec![Reply::Done], replies],
    );
    assert!(matches!(result, Some(Ok(ErrorCode::UnknownTopicOrPartition))));
}

#[test]
fn a_topic_is_deleted_by_its_identifier() {
    let (asked, result) = drive(
        engine().delete_topic(&TopicId::Id(ID)),
        vec![vec![Reply::Done], vec![Reply::Text(Some("pqr".to_owned()))], done(6)],
    );
    assert!(matches!(result, Some(Ok(ErrorCode::NoError))));
    same(
        &asked[1],
        &[first(Sql::TopicSelectUuid, vec![t("abc"), t(ID_TEXT)], Shape::Text)],
    );
}

#[test]
fn an_identifier_that_is_not_there_is_refused() {
    let (_, result) = drive(
        engine().delete_topic(&TopicId::Id(ID)),
        vec![vec![Reply::Done], vec![Reply::Text(None)]],
    );
    assert!(matches!(result, Some(Err(Error::Api(ErrorCode::UnknownTopicOrPartition)))));
}

#[test]
fn records_are_deleted_by_partition() {
    let topics = [
        DeleteRecordsTopic {
            name: "pqr".to_owned(),
            partitions: Some(vec![
                DeleteRecordsPartition { partition_index: 0, offset: 5 },
                DeleteRecordsPartition { partition_index: 1, offset: 6 },
            ]),
        },
        DeleteRecordsTopic { name: "stu".to_owned(), partitions: None },
    ];
    let (asked, result) = drive(
        engine().delete_records(&topics),
        vec![
            vec![Reply::Done],
            vec![Reply::Affected(5), Reply::Long(Some(5))],
            vec![Reply::Affected(0), Reply::Long(None)],
            vec![],
            vec![],
            vec![],
        ],
    );
    same(
        &asked[1],
        &[
            execute(Sql::RecordDeleteFromOffset, vec![t("abc"), t("pqr"), n(0), n(5)]),
            first(Sql::RecordMinOffset, vec![t("abc"), t("pqr"), n(0)], Shape::Long),
        ],
    );
    let of = |partition_index: i32, low_watermark: i64| DeleteRecordsPartitionResult {
        partition_index,
        low_watermark,
        error_code: ErrorCode::NoError,
    };
    same(
        &result.unwrap().unwrap(),
        &vec![
            DeleteRecordsTopicResult {
                name: "pqr".to_owned(),
                partitions: vec![of(0, 5), of(1, 0)],
            },
            DeleteRecordsTopicResult { name: "stu".to_owned(), partitions: vec![] },
        ],
    );
}

fn metadata_topic(name: &str, id: Uuid, partitions: i32) -> MetadataResponseTopic {
    MetadataResponseTopic {
        error_code: ErrorCode::NoError,
        name: Some(name.to_owned()),
        topic_id: Some(id),
        is_internal: Some(false),
        partitions: (0..partitions)
            .map(|partition_index| MetadataResponsePartition {
                error_code: ErrorCode::NoError,
                partition_index,
                leader_id: 111,
                leader_epoch: Some(0),
                replica_nodes: vec![111],
                isr_nodes: vec![111],
                offline_replicas: vec![],
            })
            .collect(),
    }
}

fn metadata(topics: Vec<MetadataResponseTopic>) -> MetadataResponse {
    MetadataResponse {
        cluster: Some("abc".to_owned()),
        controller: Some(111),
        brokers: vec![MetadataResponseBroker {
            node_id: 111,
            host: "example.com".to_owned(),
            port: 9192,
            rack: None,
        }],
        topics,
    }
}

#[test]
fn metadata_tells_of_topics_that_are_named() {
    let (asked, result) = drive(
        engine().metadata(Some(&[
            TopicId::Name("pqr".to_owned()),
            TopicId::Id(ID),
            TopicId::Name("stu".to_owned()),
            TopicId::Id(ID),
            TopicId::Name("vwx".to_owned()),
        ])),
        vec![
            vec![Reply::Done],
            vec![Reply::Counted(Some((2, ID_TEXT.to_owned())))],
            vec![Reply::Named(Some(("pqr".to_owned(), 1)))],
            vec![Reply::Counted(None)],
            vec![Reply::Named(None)],
            vec![Reply::Counted(Some((-1, "nonsense".to_owned())))],
            vec![],
        ],
    );
    same(
        &asked[1],
        &[first(
            Sql::TopicSelectNamePartitions,
            vec![t("abc"), t("pqr")],
            Shape::Counted,
        )],
    );
    same(
        &asked[2],
        &[first(
            Sql::TopicSelectNamePartitions,
            vec![t("abc"), t(ID_TEXT)],
            Shape::Named,
        )],
    );
    let unknown = |name: Option<&str>, id: Uuid| MetadataResponseTopic {
        error_code: ErrorCode::UnknownTopicOrPartition,
        name: name.map(|name| name.to_owned()),
        topic_id: Some(id),
        is_internal: Some(false),
        partitions: vec![],
    };
    same(
        &result.unwrap().unwrap(),
        &metadata(vec![
            metadata_topic("pqr", ID, 2),
            metadata_topic("pqr", ID, 1),
            unknown(Some("stu"), Uuid::nil()),
            unknown(None, ID),
            metadata_topic("vwx", Uuid::nil(), 0),
        ]),
    );
}

#[test]
fn metadata_tells_of_all_topics() {
    let (asked, result) = drive(
        engine().metadata(None),
        vec![
            vec![Reply::Done],
            vec![Reply::Topics(vec![
                ("pqr".to_owned(), 2, ID_TEXT.to_owned()),
                ("stu".to_owned(), 1, "nonsense".to_owned()),
            ])],
        ],
    );
    same(&asked[1], &[query(Sql::TopicSelectAll, vec![t("abc")], Shape::Topics)]);
    same(
        &result.unwrap().unwrap(),
        &metadata(vec![metadata_topic("pqr", ID, 2), metadata_topic("stu", Uuid::nil(), 1)]),
    );
}

#[test]
fn partitions_are_described() {
    let (asked, result) = drive(
        engine().describe_topic_partitions(
            Some(&[
                TopicId::Name("pqr".to_owned()),
                TopicId::Id(ID),
                TopicId::Name("stu".to_owned()),
            ]),
            1,
            None,
        ),
        vec![
            vec![Reply::Done],
            vec![Reply::Full(Some((ID_TEXT.to_owned(), "pqr".to_owned(), true, 1, 2)))],
            vec![Reply::Full(None)],
            vec![Reply::Full(None)],
            vec![],
        ],
    );
    same(
        &asked[1],
        &[first(Sql::TopicSelectFull, vec![t("abc"), t("pqr")], Shape::Full)],
    );
    same(
        &asked[2],
        &[first(Sql::TopicSelectFullByUuid, vec![t("abc"), t(ID_TEXT)], Shape::Full)],
    );
    let unknown = |name: Option<&str>, topic_id: Uuid| DescribeTopicPartitionsResponseTopic {
        error_code: ErrorCode::UnknownTopicOrPartition,
        name: name.map(|name| name.to_owned()),
        topic_id,
        is_internal: false,
        partitions: vec![],
        topic_authorized_operations: -2147483648,
    };
    same(
        &result.unwrap().unwrap(),
        &vec![
            DescribeTopicPartitionsResponseTopic {
                error_code: ErrorCode::NoError,
                name: Some("pqr".to_owned()),
                topic_id: ID,
                is_internal: true,
                partitions: vec![DescribeTopicPartitionsResponsePartition {
                    error_code: ErrorCode::NoError,
                    partition_index: 0,
                    leader_id: 111,
                    leader_epoch: 0,
                    replica_nodes: vec![111, 111],
                    isr_nodes: vec![111, 111],
                    eligible_leader_replicas: vec![],
                    last_known_elr: vec![],
                    offline_replicas: vec![],
                }],
                topic_authorized_operations: -2147483648,
            },
            unknown(None, ID),
            unknown(Some("stu"), Uuid::nil()),
        ],
    );
}

#[test]
fn no_topics_are_described_without_a_list() {
    let (_, result) = drive(
        engine().describe_topic_partitions(None, 1, None),
        vec![vec![Reply::Done], vec![]],
    );
    assert!(result.unwrap().unwrap().is_empty());
}

#[test]
fn a_replication_factor_is_a_count() {
    let operation =
        engine().describe_topic_partitions(Some(&[TopicId::Name("pqr".to_owned())]), 1, None);
    let Progress::Next(operation) = operation.advance(vec![Reply::Done]) else { panic!() };
    let row = |partitions: i32, factor: i32| {
        vec![Reply::Full(Some((
            ID_TEXT.to_owned(),
            "pqr".to_owned(),
            false,
            partitions,
            factor,
        )))]
    };
    assert!(operation.is_in_range(&row(1, 0)));
    assert!(operation.is_in_range(&row(0, -1)));
    assert!(!operation.is_in_range(&row(1, -1)));
}
