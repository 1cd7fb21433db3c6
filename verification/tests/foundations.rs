//! The engine, its identifiers, times and statements.

#![allow(dead_code, unused_imports)]

use tansu_mysql::brokers::Ping;
use tansu_mysql::clock::{Civil, LAST_MILLIS};
use tansu_mysql::engine::Mysql;
use tansu_mysql::engine::{Builder, DEFAULT_HOST, DEFAULT_PORT, POOL_MAX_SIZE};
use tansu_mysql::errand::Errand;
use tansu_mysql::error::{Error, ErrorCode};
use tansu_mysql::ident::Uuid;
use tansu_mysql::listener::Listener;
use tansu_mysql::metrics::Counter;
use tansu_mysql::operation::{Operation, Progress};
use tansu_mysql::request::{Reply, Request, Shape};
use tansu_mysql::session::Session;
use tansu_mysql::sql::Catalogue;
use tansu_mysql::sql::Sql;
use tansu_mysql::value::{Statement, Value};
use tansu_mysql::wire::{BrokerRegistrationRequest, DescribeClusterBroker};

fn engine() -> Mysql<(), (), ()> {
    Mysql {
        cluster: "abc".to_owned(),
        node: 111,
        advertised_listener: Listener {
            url: "tcp://example.com:9192".to_owned(),
            host: Some("example.com".to_owned()),
            port: Some(9192),
        },
        pool: (),
        schemas: None,
        lake: None,
    }
}

fn t(text: &str) -> Value {
    Value::Text(text.to_owned())
}

fn n(number: i64) -> Value {
    Value::Int(number)
}

fn execute(sql: Sql, params: Vec<Value>) -> Request {
    Request::Execute(Statement { sql, params })
}

fn first(sql: Sql, params: Vec<Value>, shape: Shape) -> Request {
    Request::First(Statement { sql, params }, shape)
}

fn query(sql: Sql, params: Vec<Value>, shape: Shape) -> Request {
    Request::Query(Statement { sql, params }, shape)
}

/// Run an operation with replies, and give what it asked for and what it came to.
fn drive<O: Operation>(
    operation: O,
    script: Vec<Vec<Reply>>,
) -> (Vec<Vec<Request>>, Option<Result<O::Output, Error>>) {
    let mut operation = operation;
    let mut asked = vec![];
    for replies in script {
        let requests = operation.requests();
        assert_eq!(requests.len(), replies.len());
        for (request, reply) in requests.iter().zip(replies.iter()) {
            assert!(request.fits(reply), "{:?} {:?}", request, reply);
        }
        assert!(operation.is_in_range(&replies));
        asked.push(requests);
        match operation.advance(replies) {
            Progress::Next(next) => operation = next,
            Progress::End(result) => return (asked, Some(result)),
        }
    }
    asked.push(operation.requests());
    (asked, None)
}

fn same<A: std::fmt::Debug + ?Sized, B: std::fmt::Debug + ?Sized>(left: &A, right: &B) {
    assert_eq!(format!("{:?}", left), format!("{:?}", right));
}

#[test]
fn an_engine_is_built() {
    let builder = Mysql::<String, &str, u8>::builder("mysql://root@localhost:3306/db");
    let builder = builder.unwrap();
    assert_eq!(builder.pool, "mysql://root@localhost:3306/db");
    assert_eq!(builder.advertised_listener.url, "tcp://127.0.0.1/");
    assert!(builder.schemas.is_none());
    assert!(builder.lake.is_none());
    let engine = builder
        .cluster("abc")
        .node(111)
        .advertised_listener(Listener::parse("tcp://example.com:9192").unwrap())
        .pool(POOL_MAX_SIZE)
        .schemas(Some("registry"))
        .lake(Some(7))
        .build();
    assert_eq!(engine.cluster_id().unwrap(), "abc");
    assert_eq!(engine.node().unwrap(), 111);
    assert_eq!(engine.advertised_listener().unwrap().port, Some(9192));
    assert_eq!(engine.pool, 16);
    assert_eq!(engine.schemas, Some("registry"));
    assert_eq!(engine.lake, Some(7));
}

#[test]
fn a_database_needs_a_url() {
    let builder = Mysql::<String, (), ()>::builder("postgres://localhost/db");
    let Err(Error::Message(fault)) = builder else { panic!() };
    assert!(fault.contains("postgres"));
}

#[test]
fn a_fault_of_the_url_comes_before_one_of_the_address() {
    let url = "mysql://localhost/db";
    let parsed = || Listener::parse("tcp://example.com:9192");
    let builder = Mysql::<String, (), ()>::builder_at(url, None, parsed()).unwrap();
    assert_eq!(builder.pool, url);
    assert_eq!(builder.advertised_listener.port, Some(9192));
    let wrong = Some("wrong".to_owned());
    let builder = Mysql::<String, (), ()>::builder_at(url, wrong, Err(Error::Url("no".to_owned())));
    let Err(Error::Message(fault)) = builder else { panic!() };
    assert_eq!(fault, "wrong");
    let builder = Mysql::<String, (), ()>::builder_at(url, None, Err(Error::Url("no".to_owned())));
    let Err(Error::Url(fault)) = builder else { panic!() };
    assert_eq!(fault, "no");
}

#[test]
fn a_builder_starts_from_defaults() {
    let builder = Builder::<String, i32, String, u64, (), ()>::default();
    assert_eq!(builder.cluster, "");
    assert_eq!(builder.node, 0);
    assert_eq!(builder.pool, 0);
    assert!(builder.schemas.is_none());
}

#[test]
fn addresses_are_parsed() {
    let listener = Listener::parse("tcp://Example.com:9192").unwrap();
    assert_eq!(listener.host.as_deref(), Some("Example.com"));
    assert_eq!(listener.port, Some(9192));
    let listener = Listener::parse("http://EXAMPLE.com:80").unwrap();
    assert_eq!(listener.url, "http://example.com/");
    assert_eq!(listener.host.as_deref(), Some("example.com"));
    assert_eq!(listener.port, None);
    let Err(Error::Url(fault)) = Listener::parse("nonsense") else { panic!() };
    assert_eq!(fault, "relative URL without a base");
}

#[test]
fn the_node_is_the_only_broker() {
    same(
        &engine().brokers().unwrap(),
        &vec![DescribeClusterBroker {
            broker_id: 111,
            host: "example.com".to_owned(),
            port: 9192,
            rack: None,
        }],
    );
    let mut engine = engine();
    engine.advertised_listener = Listener { url: "data:".to_owned(), host: None, port: None };
    let brokers = engine.brokers().unwrap();
    assert_eq!(brokers[0].host, DEFAULT_HOST);
    assert_eq!(brokers[0].port, DEFAULT_PORT as i32);
    assert_eq!(DEFAULT_HOST, "0.0.0.0");
    assert_eq!(DEFAULT_PORT, 9092);
}

#[test]
fn measurements_tell_of_the_statement_and_the_cluster() {
    assert_eq!(
        engine().attributes_for_sql("select 1"),
        vec![
            ("sql".to_owned(), "select 1".to_owned()),
            ("cluster_id".to_owned(), "abc".to_owned()),
        ],
    );
}

#[test]
fn a_statement_is_measured_and_counted_once() {
    let measurement = engine().measurement("select 1", Some(17), true);
    assert_eq!(measurement.millis, 17);
    assert_eq!(measurement.counter, Counter::Requests);
    same(&measurement.attributes, &engine().attributes_for_sql("select 1"));
    let measurement = engine().measurement("select 1", None, false);
    assert_eq!(measurement.millis, 0);
    assert_eq!(measurement.counter, Counter::Errors);
    assert_eq!(engine().measurement("", Some(u64::MAX as u128 + 3), true).millis, 2);
}

#[test]
fn milliseconds_go_by_the_calendar() {
    let at = |year: u16, month: u8, day: u8| {
        Civil { year, month, day, hour: 0, minute: 0, second: 0, micros: 0 }.millis()
    };
    assert_eq!(at(1970, 1, 1), 0);
    assert_eq!(at(0, 1, 1), -62_167_219_200_000);
    assert_eq!(at(1900, 3, 1), -2_203_891_200_000);
    assert_eq!(at(2000, 3, 1), 951_868_800_000);
    assert_eq!(at(2024, 2, 29), 1_709_164_800_000);
    assert_eq!(at(65535, 12, 31), 2_005_949_059_200_000);
    let last = Civil::of_millis(LAST_MILLIS);
    assert_eq!((last.year, last.month, last.day, last.micros), (9999, 12, 31, 999_000));
    let leap = Civil {
        year: 2016,
        month: 12,
        day: 31,
        hour: 23,
        minute: 59,
        second: 59,
        micros: 1_500_000,
    };
    assert_eq!(leap.millis(), 1_483_228_800_500);
}

#[test]
fn a_broker_registers_its_cluster() {
    let (asked, result) = drive(
        engine().register_broker(BrokerRegistrationRequest { cluster_id: "xyz".to_owned() }),
        vec![vec![Reply::Done], vec![Reply::Affected(1)]],
    );
    assert!(matches!(result, Some(Ok(()))));
    same(&asked[1], &[execute(Sql::ClusterInsert, vec![t("xyz")])]);
}

#[test]
fn a_ping_needs_an_answer() {
    let ping = |row: Option<i32>| {
        drive(engine().ping(), vec![vec![Reply::Done], vec![Reply::Int(row)]]).1.unwrap()
    };
    assert!(ping(Some(2)).is_ok());
    let Err(Error::Message(message)) = ping(None) else { panic!() };
    assert_eq!(message, "No rows returned");
}

#[test]
fn identifiers_are_written_and_read() {
    let id = Uuid {
        bytes: [1, 35, 69, 103, 137, 171, 77, 239, 129, 35, 69, 103, 137, 171, 205, 239],
    };
    assert_eq!(id.text(), "01234567-89ab-4def-8123-456789abcdef");
    assert_eq!(Uuid::parse_str(&id.text()), Some(id));
    assert_eq!(Uuid::parse_str("0123456789AB4DEF8123456789ABCDEF"), Some(id));
    assert_eq!(Uuid::parse_str("nonsense"), None);
    assert_eq!(Uuid::parse_or_nil("nonsense"), Uuid::nil());
    assert_eq!(Uuid::nil().text(), "00000000-0000-0000-0000-000000000000");
    let random = Uuid::new_v4();
    assert_eq!(Uuid::parse_or_nil(&random.text()), random);
    assert_eq!(random.bytes[6] / 16, 4);
    assert_ne!(random, Uuid::new_v4());
}

#[test]
fn times_are_written_and_read() {
    let time = Civil::of_millis(1_700_000_000_123);
    let expected = Civil {
        year: 2023,
        month: 11,
        day: 14,
        hour: 22,
        minute: 13,
        second: 20,
        micros: 123_000,
    };
    assert_eq!(time, expected);
    assert_eq!(time.millis(), 1_700_000_000_123);
    for millis in [0, 1, 951_782_400_000, 4_102_444_799_999, 253_402_300_799_999] {
        let time = Civil::of_millis(millis);
        assert!(time.is_valid());
        assert_eq!(time.millis(), millis);
    }
    assert_eq!(Civil::of_millis(951_782_400_000).day, 29);
    assert_eq!(Civil { micros: 123_999, ..time }.millis(), 1_700_000_000_123);
}

#[test]
fn times_have_to_exist() {
    let valid = |year: u16, month: u8, day: u8| {
        Civil { year, month, day, hour: 0, minute: 0, second: 0, micros: 0 }.is_valid()
    };
    assert!(valid(2024, 2, 29));
    assert!(!valid(2023, 2, 29));
    assert!(!valid(1900, 2, 29));
    assert!(valid(2000, 2, 29));
    assert!(!valid(2023, 4, 31));
    assert!(!valid(2023, 0, 1));
    assert!(!valid(2023, 13, 1));
    assert!(!valid(2023, 1, 0));
    let leap = |second: u8, micros: u32| {
        Civil { year: 2016, month: 12, day: 31, hour: 23, minute: 59, second, micros }.is_valid()
    };
    assert!(leap(59, 1_999_999));
    assert!(!leap(58, 1_000_000));
}

#[test]
fn statements_are_looked_up_by_their_keys() {
    let catalogue = Catalogue::new(vec![
        ("topic_insert".to_owned(), "insert into topic".to_owned()),
        ("topic_delete".to_owned(), "delete from topic".to_owned()),
        ("topic_insert".to_owned(), "insert into topics".to_owned()),
    ]);
    assert_eq!(catalogue.text(Sql::TopicInsert).unwrap(), "insert into topics");
    assert_eq!(catalogue.sql_lookup("topic_delete").unwrap(), "delete from topic");
    let Err(Error::UnknownSql(key)) = catalogue.text(Sql::WatermarkUpdate) else { panic!() };
    assert_eq!(key, "watermark_update");
}

#[test]
fn a_session_hands_requests_out_one_by_one() {
    let session = Session::new(engine().ping());
    assert!(matches!(session.pending(), Some(Request::Connect)));
    let session = session.answer(Ok(Reply::Done));
    assert!(session.pending().is_none());
    assert!(session.is_in_range());
    let Progress::Next(session) = session.advance() else { panic!() };
    assert!(matches!(session.pending(), Some(Request::Ping)));
    let session = session.answer(Ok(Reply::Int(Some(2))));
    assert!(session.pending().is_none());
    assert!(matches!(session.advance(), Progress::End(Ok(()))));
}

#[test]
fn a_failure_ends_a_session() {
    let session = Session::new(engine().init_producer(None, 1, Some(1), None));
    let session = session.answer(Err(Error::Outside("no connection".to_owned())));
    assert!(session.pending().is_none());
    let Progress::End(Err(Error::Outside(fault))) = session.advance() else { panic!() };
    assert_eq!(fault, "no connection");
}

#[test]
fn an_errand_is_done_in_order() {
    let mut errand = Errand::new(vec![Request::Connect, Request::Begin, Request::Commit]);
    assert!(matches!(errand.pending(), Some(Request::Connect)));
    errand.answer(Ok(Reply::Done));
    assert!(matches!(errand.pending(), Some(Request::Begin)));
    errand.answer(Ok(Reply::Done));
    assert!(matches!(errand.pending(), Some(Request::Commit)));
    errand.answer(Ok(Reply::Done));
    assert!(errand.pending().is_none());
    assert_eq!(errand.settle().unwrap().len(), 3);
}
