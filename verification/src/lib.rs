//! A storage engine that keeps topics, records, groups and transactions in MySQL.

pub mod add_partitions;
pub mod batch;
pub mod brokers;
pub mod calls;
pub mod clock;
pub mod configs;
pub mod describe_topics;
pub mod end_txn;
pub mod engine;
pub mod errand;
pub mod error;
pub mod fetch;
pub mod groups;
pub mod ident;
pub mod listener;
pub mod metadata;
pub mod metrics;
pub mod offset_map;
pub mod offsets;
pub mod operation;
pub mod produce;
pub mod producers;
pub mod request;
pub mod script;
pub mod seen;
pub mod sequence;
pub mod session;
pub mod sql;
pub mod talk;
pub mod topics;
pub mod transaction;
pub mod txn;
pub mod txn_offsets;
pub mod value;
pub mod wire;
