//! Consumer groups.

#![allow(dead_code, unused_imports)]

use tansu_mysql::engine::Mysql;
use tansu_mysql::error::{Error, ErrorCode};
use tansu_mysql::ident::Uuid;
use tansu_mysql::listener::Listener;
use tansu_mysql::operation::{Operation, Progress};
use tansu_mysql::request::{Reply, Request, Shape};
use tansu_mysql::sql::Sql;
use tansu_mysql::value::{Statement, Value};
use tansu_mysql::wire::{DeletableGroupResult, GroupLookup, ListedGroup, NamedGroupDetail, Version};

fn engine() -> Mysql<(), (), ()> {
    Mysql {
        cluster: "abc".to_owned(),
        node: 111,
        advertised_listener: Listener {
            url: "tcp://example.com:9192".to_owned(),
            host: Some("example.com".to_owned()),
            port: Some(9192),
        },
        pool: (),
        schemas: None,
        lake: None,
    }
}

fn t(text: &str) -> Value {
    Value::Text(text.to_owned())
}

fn n(number: i64) -> Value {
    Value::Int(number)
}

fn execute(sql: Sql, params: Vec<Value>) -> Request {
    Request::Execute(Statement { sql, params })
}

fn first(sql: Sql, params: Vec<Value>, shape: Shape) -> Request {
    Request::First(Statement { sql, params }, shape)
}

fn query(sql: Sql, params: Vec<Value>, shape: Shape) -> Request {
    Request::Query(Statement { sql, params }, shape)
}

/// Run an operation with replies, and give what it asked for and what it came to.
fn drive<O: Operation>(
    operation: O,
    script: Vec<Vec<Reply>>,
) -> (Vec<Vec<Request>>, Option<Result<O::Output, Error>>) {
    let mut operation = operation;
    let mut asked = vec![];
    for replies in script {
        let requests = operation.requests();
        assert_eq!(requests.len(), replies.len());
        for (request, reply) in requests.iter().zip(replies.iter()) {
            assert!(request.fits(reply), "{:?} {:?}", request, reply);
        }
        assert!(operation.is_in_range(&replies));
        asked.push(requests);
        match operation.advance(replies) {
            Progress::Next(next) => operation = next,
            Progress::End(result) => return (asked, Some(result)),
        }
    }
    asked.push(operation.requests());
    (asked, None)
}

fn same<A: std::fmt::Debug + ?Sized, B: std::fmt::Debug + ?Sized>(left: &A, right: &B) {
    assert_eq!(format!("{:?}", left), format!("{:?}", right));
}

const ID: Uuid = Uuid {
    bytes: [1, 35, 69, 103, 137, 171, 77, 239, 129, 35, 69, 103, 137, 171, 205, 239],
};
const ID_TEXT: &str = "01234567-89ab-4def-8123-456789abcdef";

fn version(e_tag: Option<&str>) -> Version {
    Version { e_tag: e_tag.map(|e_tag| e_tag.to_owned()), version: None }
}

#[test]
fn groups_are_listed() {
    let (asked, result) = drive(
        engine().list_groups(None),
        vec![vec![Reply::Done], vec![Reply::Texts(vec!["a".to_owned(), "b".to_owned()])]],
    );
    let listed = |group_id: &str| ListedGroup {
        group_id: group_id.to_owned(),
        protocol_type: "consumer".to_owned(),
        group_state: Some("unknown".to_owned()),
        group_type: Some("classic".to_owned()),
    };
    same(&result.unwrap().unwrap(), &vec![listed("a"), listed("b")]);
    same(&asked[1], &[query(Sql::ConsumerGroupSelectAll, vec![t("abc")], Shape::Texts)]);
}

#[test]
fn groups_are_deleted() {
    let (asked, result) = drive(
        engine().delete_groups(Some(&["a".to_owned(), "b".to_owned()])),
        vec![
            vec![Reply::Done],
            vec![Reply::Affected(0), Reply::Affected(0), Reply::Affected(1)],
            vec![Reply::Affected(1), Reply::Affected(1), Reply::Affected(0)],
            vec![],
        ],
    );
    let deleted = |group_id: &str, error_code: ErrorCode| DeletableGroupResult {
        group_id: group_id.to_owned(),
        error_code,
    };
    same(
        &result.unwrap().unwrap(),
        &vec![deleted("a", ErrorCode::NoError), deleted("b", ErrorCode::GroupIdNotFound)],
    );
    let on = |sql: Sql| execute(sql, vec![t("abc"), t("a")]);
    same(
        &asked[1],
        &[
            on(Sql::ConsumerOffsetDeleteByGroup),
            on(Sql::ConsumerGroupDetailDelete),
            on(Sql::ConsumerGroupDelete),
        ],
    );
}

#[test]
fn without_a_list_no_group_is_deleted() {
    let (asked, result) = drive(engine().delete_groups(None), vec![vec![]]);
    assert!(result.unwrap().unwrap().is_empty());
    assert!(asked[0].is_empty());
}

#[test]
fn groups_are_described() {
    let (asked, result) = drive(
        engine().describe_groups(Some(&["a".to_owned(), "b".to_owned()]), false),
        vec![
            vec![Reply::Done],
            vec![Reply::Pair(Some(("v".to_owned(), "{\"x\":1}".to_owned())))],
            vec![Reply::Done],
            vec![Reply::Pair(None)],
            vec![],
        ],
    );
    same(
        &result.unwrap().unwrap(),
        &vec![
            NamedGroupDetail {
                name: "a".to_owned(),
                detail: GroupLookup::Found("{\"x\":1}".to_owned()),
            },
            NamedGroupDetail {
                name: "b".to_owned(),
                detail: GroupLookup::Missing(ErrorCode::GroupIdNotFound),
            },
        ],
    );
    same(
        &asked[1..3],
        &[
            vec![first(Sql::ConsumerGroupSelect, vec![t("abc"), t("a")], Shape::Pair)],
            vec![Request::DecodeGroupValue("{\"x\":1}".to_owned())],
        ],
    );
}

#[test]
fn a_detail_that_is_no_json_is_an_error() {
    let (_, result) = drive(
        engine().describe_groups(Some(&["a".to_owned()]), false),
        vec![vec![Reply::Done], vec![Reply::Pair(Some(("v".to_owned(), "{".to_owned())))]],
    );
    let Some(Err(Error::Json(fault))) = result else { panic!() };
    assert!(fault.contains("line 1 column 1"));
}

#[test]
fn no_groups_are_described_without_a_list() {
    let (_, result) =
        drive(engine().describe_groups(None, true), vec![vec![Reply::Done], vec![]]);
    assert!(result.unwrap().unwrap().is_empty());
}

fn update_script(current: Option<(&str, &str)>) -> Vec<Vec<Reply>> {
    vec![
        vec![Reply::Done, Reply::Done],
        vec![Reply::Affected(1), Reply::Json("{}".to_owned())],
        vec![Reply::Pair(
            current.map(|(detail, version)| (detail.to_owned(), version.to_owned())),
        )],
    ]
}

#[test]
fn a_group_is_updated_from_its_current_version() {
    let mut script = update_script(Some(("{\"x\":1}", "v")));
    script.push(vec![Reply::Affected(1)]);
    script.push(vec![Reply::Done]);
    let (asked, result) =
        drive(engine().update_group_as("group", Some(version(Some("v"))), ID), script);
    same(&result.unwrap().unwrap(), &version(Some(ID_TEXT)));
    same(
        &asked[1..],
        &[
            vec![
                execute(Sql::ConsumerGroupInsert, vec![t("abc"), t("group")]),
                Request::EncodeGroup,
            ],
            vec![first(
                Sql::ConsumerGroupSelectForUpdate,
                vec![t("abc"), t("group")],
                Shape::Pair,
            )],
            vec![execute(
                Sql::ConsumerGroupUpdate,
                vec![t("{}"), t(ID_TEXT), t("abc"), t("group")],
            )],
            vec![Request::Commit],
        ],
    );
}

#[test]
fn an_outdated_update_is_refused() {
    for expected in [Some("u"), None] {
        let mut script = update_script(Some(("{\"x\":1}", "v")));
        script.push(vec![Reply::Done]);
        let (asked, result) =
            drive(engine().update_group("group", Some(version(expected))), script);
        let Some(Err(Error::Outdated(detail, current))) = result else { panic!() };
        assert_eq!(detail, "{\"x\":1}");
        assert_eq!(current, "v");
        same(&asked[3], &[Request::DecodeGroup("{\"x\":1}".to_owned())]);
    }
}

#[test]
fn a_group_without_a_version_is_updated() {
    let mut script = update_script(None);
    script.push(vec![Reply::Affected(1)]);
    script.push(vec![Reply::Done]);
    let (_, result) =
        drive(engine().update_group_as("group", Some(version(Some("u"))), ID), script);
    same(&result.unwrap().unwrap(), &version(Some(ID_TEXT)));
}

#[test]
fn a_group_is_updated_unconditionally() {
    let (asked, result) = drive(
        engine().update_group("group", None),
        vec![
            vec![Reply::Done, Reply::Done],
            vec![Reply::Affected(1), Reply::Json("{}".to_owned())],
            vec![Reply::Affected(1)],
            vec![Reply::Done],
        ],
    );
    let e_tag = result.unwrap().unwrap().e_tag.unwrap();
    assert!(Uuid::parse_str(&e_tag).is_some());
    let Request::Execute(update) = &asked[2][0] else { panic!() };
    same(&update.params[1], &t(&e_tag));
}

#[test]
fn a_version_is_accepted_once() {
    let mut script = update_script(Some(("{}", ID_TEXT)));
    script.push(vec![Reply::Affected(1)]);
    script.push(vec![Reply::Done]);
    let (_, result) =
        drive(engine().update_group("group", Some(version(Some(ID_TEXT)))), script);
    let next = result.unwrap().unwrap().e_tag.unwrap();
    assert_ne!(next, ID_TEXT);
    let (_, result) = drive(
        engine().update_group("group", Some(version(Some(ID_TEXT)))),
        vec![
            vec![Reply::Done, Reply::Done],
            vec![Reply::Affected(1), Reply::Json("{\"other\":1}".to_owned())],
            vec![Reply::Pair(Some(("{}".to_owned(), next.clone())))],
            vec![Reply::Done],
        ],
    );
    let Some(Err(Error::Outdated(detail, current))) = result else { panic!() };
    assert_eq!(detail, "{}");
    assert_eq!(current, next);
}
