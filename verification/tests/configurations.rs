//! Configurations.

#![allow(dead_code, unused_imports)]

use tansu_mysql::engine::Mysql;
use tansu_mysql::error::{Error, ErrorCode};
use tansu_mysql::listener::Listener;
use tansu_mysql::operation::{Operation, Progress};
use tansu_mysql::request::{Reply, Request, Shape};
use tansu_mysql::sql::Sql;
use tansu_mysql::value::{Statement, Value};
use tansu_mysql::wire::{
    AlterConfigsResource, AlterConfigsResourceResponse, AlterableConfig, ConfigResource,
    ConfigSource, ConfigType, DescribeConfigsResourceResult, DescribeConfigsResult, OpType,
};

fn engine() -> Mysql<(), (), ()> {
    Mysql {
        cluster: "abc".to_owned(),
        node: 111,
        advertised_listener: Listener {
            url: "tcp://example.com:9192".to_owned(),
            host: Some("example.com".to_owned()),
            port: Some(9192),
        },
        pool: (),
        schemas: None,
        lake: None,
    }
}

fn t(text: &str) -> Value {
    Value::Text(text.to_owned())
}

fn n(number: i64) -> Value {
    Value::Int(number)
}

fn execute(sql: Sql, params: Vec<Value>) -> Request {
    Request::Execute(Statement { sql, params })
}

fn first(sql: Sql, params: Vec<Value>, shape: Shape) -> Request {
    Request::First(Statement { sql, params }, shape)
}

fn query(sql: Sql, params: Vec<Value>, shape: Shape) -> Request {
    Request::Query(Statement { sql, params }, shape)
}

/// Run an operation with replies, and give what it asked for and what it came to.
fn drive<O: Operation>(
    operation: O,
    script: Vec<Vec<Reply>>,
) -> (Vec<Vec<Request>>, Option<Result<O::Output, Error>>) {
    let mut operation = operation;
    let mut asked = vec![];
    for replies in script {
        let requests = operation.requests();
        assert_eq!(requests.len(), replies.len());
        for (request, reply) in requests.iter().zip(replies.iter()) {
            assert!(request.fits(reply), "{:?} {:?}", request, reply);
        }
        assert!(operation.is_in_range(&replies));
        asked.push(requests);
        match operation.advance(replies) {
            Progress::Next(next) => operation = next,
            Progress::End(result) => return (asked, Some(result)),
        }
    }
    asked.push(operation.requests());
    (asked, None)
}

fn same<A: std::fmt::Debug + ?Sized, B: std::fmt::Debug + ?Sized>(left: &A, right: &B) {
    assert_eq!(format!("{:?}", left), format!("{:?}", right));
}

fn entry(name: &str, value: Option<&str>) -> DescribeConfigsResourceResult {
    DescribeConfigsResourceResult {
        name: name.to_owned(),
        value: value.map(|value| value.to_owned()),
        read_only: false,
        is_default: Some(false),
        is_sensitive: false,
        config_source: Some(ConfigSource::DynamicTopicConfig),
        config_type: Some(ConfigType::Text),
        documentation: Some("".to_owned()),
    }
}

fn rows() -> Reply {
    Reply::Configs(vec![
        ("x".to_owned(), Some("1".to_owned())),
        ("y".to_owned(), None),
        ("z".to_owned(), Some("3".to_owned())),
    ])
}

#[test]
fn the_configuration_of_a_topic_is_described() {
    let (asked, result) = drive(
        engine().describe_config("pqr", ConfigResource::Topic, None),
        vec![vec![Reply::Done], vec![Reply::Int(Some(1))], vec![rows()]],
    );
    same(
        &result.unwrap().unwrap(),
        &DescribeConfigsResult {
            error_code: ErrorCode::NoError,
            error_message: Some(ErrorCode::NoError),
            resource: ConfigResource::Topic,
            resource_name: "pqr".to_owned(),
            configs: vec![entry("x", Some("1")), entry("y", None), entry("z", Some("3"))],
        },
    );
    same(
        &asked[1..],
        &[
            vec![first(Sql::TopicSelectByName, vec![t("abc"), t("pqr")], Shape::Int)],
            vec![query(
                Sql::TopicConfigurationSelect,
                vec![t("abc"), t("pqr")],
                Shape::Configs,
            )],
        ],
    );
}

#[test]
fn only_entries_that_are_asked_for_are_described() {
    let (_, result) = drive(
        engine().describe_config(
            "pqr",
            ConfigResource::Topic,
            Some(&["z".to_owned(), "w".to_owned(), "y".to_owned()]),
        ),
        vec![vec![Reply::Done], vec![Reply::Int(Some(1))], vec![rows()]],
    );
    same(
        &result.unwrap().unwrap().configs,
        &vec![entry("y", None), entry("z", Some("3"))],
    );
}

#[test]
fn wanted_entries_keep_their_order() {
    let described = |keys: Option<&[String]>| {
        let (_, result) = drive(
            engine().describe_config("pqr", ConfigResource::Topic, keys),
            vec![vec![Reply::Done], vec![Reply::Int(Some(1))], vec![rows()]],
        );
        result.unwrap().unwrap().configs
    };
    let keys = ["z".to_owned(), "x".to_owned()];
    let mut filtered = described(None);
    filtered.retain(|entry| keys.contains(&entry.name));
    assert_eq!(filtered.len(), 2);
    same(&described(Some(&keys)), &filtered);
}

#[test]
fn a_topic_has_to_exist_to_be_described() {
    let (_, result) = drive(
        engine().describe_config("pqr", ConfigResource::Topic, None),
        vec![vec![Reply::Done], vec![Reply::Int(None)]],
    );
    same(
        &result.unwrap().unwrap(),
        &DescribeConfigsResult {
            error_code: ErrorCode::UnknownTopicOrPartition,
            error_message: Some(ErrorCode::UnknownTopicOrPartition),
            resource: ConfigResource::Topic,
            resource_name: "pqr".to_owned(),
            configs: vec![],
        },
    );
}

#[test]
fn another_resource_need_not_exist() {
    let (_, result) = drive(
        engine().describe_config("1", ConfigResource::Other(4), None),
        vec![vec![Reply::Done], vec![Reply::Configs(vec![])]],
    );
    let result = result.unwrap().unwrap();
    assert_eq!(result.error_code, ErrorCode::NoError);
    assert_eq!(result.resource, ConfigResource::Other(4));
}

fn change(name: &str, config_operation: OpType, value: Option<&str>) -> AlterableConfig {
    AlterableConfig {
        name: name.to_owned(),
        config_operation,
        value: value.map(|value| value.to_owned()),
    }
}

#[test]
fn entries_are_changed_one_after_the_other() {
    let (asked, result) = drive(
        engine().incremental_alter_resource(AlterConfigsResource {
            resource_type: 2,
            resource_name: "pqr".to_owned(),
            configs: Some(vec![
                change("x", OpType::Put, Some("1")),
                change("y", OpType::Delete, None),
                change("z", OpType::Append, Some("2")),
                change("z", OpType::Subtract, Some("2")),
            ]),
        }),
        vec![
            vec![Reply::Done],
            vec![Reply::Affected(1)],
            vec![Reply::Affected(1)],
            vec![],
            vec![],
            vec![],
        ],
    );
    same(
        &result.unwrap().unwrap(),
        &AlterConfigsResourceResponse {
            error_code: ErrorCode::NoError,
            error_message: None,
            resource_type: 2,
            resource_name: "pqr".to_owned(),
        },
    );
    same(
        &asked[1..3],
        &[
            vec![execute(
                Sql::TopicConfigurationUpsert,
                vec![t("abc"), t("pqr"), t("x"), t("1")],
            )],
            vec![execute(Sql::TopicConfigurationDelete, vec![t("abc"), t("pqr"), t("y")])],
        ],
    );
}

#[test]
fn an_unknown_change_ends_the_changes() {
    let (asked, result) = drive(
        engine().incremental_alter_resource(AlterConfigsResource {
            resource_type: 2,
            resource_name: "pqr".to_owned(),
            configs: Some(vec![
                change("x", OpType::Put, None),
                change("y", OpType::Unknown(9), None),
                change("z", OpType::Put, None),
            ]),
        }),
        vec![vec![Reply::Done], vec![Reply::Affected(1)], vec![]],
    );
    assert!(matches!(result, Some(Err(Error::UnknownOpType(9)))));
    assert_eq!(asked.len(), 3);
}

#[test]
fn without_a_list_nothing_is_changed() {
    let (_, result) = drive(
        engine().incremental_alter_resource(AlterConfigsResource {
            resource_type: 2,
            resource_name: "pqr".to_owned(),
            configs: None,
        }),
        vec![vec![Reply::Done], vec![]],
    );
    assert!(matches!(result, Some(Ok(_))));
}
