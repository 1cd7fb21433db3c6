//! The statements of the engine, each known by the key under which its SQL text is kept.

use vstd::prelude::*;

use crate::error::{Error, ErrorView};
use crate::value::same_text;

verus! {

/// A statement of the engine.
#[derive(Clone, Copy, Debug, PartialEq, Eq, Structural)]
pub enum Sql {
    ClusterInsert,
    ConsumerGroupDelete,
    ConsumerGroupDetailDelete,
    ConsumerGroupInsert,
    ConsumerGroupSelectAll,
    ConsumerGroupSelectForUpdate,
    ConsumerGroupSelect,
    ConsumerGroupUpdate,
    ConsumerOffsetDeleteByGroup,
    ConsumerOffsetInsertFromTxn,
    ConsumerOffsetInsert,
    ConsumerOffsetSelectByGroup,
    ConsumerOffsetSelect,
    HeaderDeleteByTopic,
    HeaderFetch,
    HeaderInsert,
    ProducerDetailInsert,
    ProducerDetailSelectForUpdate,
    ProducerEpochInsert,
    ProducerEpochSelectCurrent,
    ProducerInsert,
    RecordDeleteByTopic,
    RecordDeleteFromOffset,
    RecordFetchByTimestamp,
    RecordFetch,
    RecordInsert,
    RecordMinOffset,
    TopicConfigurationDeleteByTopic,
    TopicConfigurationDelete,
    TopicConfigurationSelect,
    TopicConfigurationUpsert,
    TopicDelete,
    TopicInsert,
    TopicSelectAll,
    TopicSelectByName,
    TopicSelectFullByUuid,
    TopicSelectFull,
    TopicSelectNamePartitions,
    TopicSelectUuid,
    TopitionDeleteByTopic,
    TopitionExists,
    TopitionInsert,
    TopitionSelectId,
    TxnInsert,
    TxnOffsetAdd,
    TxnOffsetCommitDelete,
    TxnOffsetCommitInsert,
    TxnOffsetCommitTpDelete,
    TxnOffsetCommitTpInsert,
    TxnProduceOffsetDelete,
    TxnProduceOffsetInsert,
    TxnProduceOffsetSelectOverlapping,
    TxnProduceOffsetSelectRange,
    TxnSelectForOffset,
    TxnStatusUpdate,
    TxnTopitionDelete,
    TxnTopitionInsert,
    TxnTopitionSelect,
    WatermarkDeleteByTopic,
    WatermarkInsert,
    WatermarkSelectForUpdate,
    WatermarkSelect,
    WatermarkUpdate,
}

/// The key under which the text of a statement is kept.
pub open spec fn sql_key(sql: Sql) -> Seq<char> {
    match sql {
        Sql::ClusterInsert => "cluster_insert"@,
        Sql::ConsumerGroupDelete => "consumer_group_delete"@,
        Sql::ConsumerGroupDetailDelete => "consumer_group_detail_delete"@,
        Sql::ConsumerGroupInsert => "consumer_group_insert"@,
        Sql::ConsumerGroupSelectAll => "consumer_group_select_all"@,
        Sql::ConsumerGroupSelectForUpdate => "consumer_group_select_for_update"@,
        Sql::ConsumerGroupSelect => "consumer_group_select"@,
        Sql::ConsumerGroupUpdate => "consumer_group_update"@,
        Sql::ConsumerOffsetDeleteByGroup => "consumer_offset_delete_by_group"@,
        Sql::ConsumerOffsetInsertFromTxn => "consumer_offset_insert_from_txn"@,
        Sql::ConsumerOffsetInsert => "consumer_offset_insert"@,
        Sql::ConsumerOffsetSelectByGroup => "consumer_offset_select_by_group"@,
        Sql::ConsumerOffsetSelect => "consumer_offset_select"@,
        Sql::HeaderDeleteByTopic => "header_delete_by_topic"@,
        Sql::HeaderFetch => "header_fetch"@,
        Sql::HeaderInsert => "header_insert"@,
        Sql::ProducerDetailInsert => "producer_detail_insert"@,
        Sql::ProducerDetailSelectForUpdate => "producer_detail_select_for_update"@,
        Sql::ProducerEpochInsert => "producer_epoch_insert"@,
        Sql::ProducerEpochSelectCurrent => "producer_epoch_select_current"@,
        Sql::ProducerInsert => "producer_insert"@,
        Sql::RecordDeleteByTopic => "record_delete_by_topic"@,
        Sql::RecordDeleteFromOffset => "record_delete_from_offset"@,
        Sql::RecordFetchByTimestamp => "record_fetch_by_timestamp"@,
        Sql::RecordFetch => "record_fetch"@,
        Sql::RecordInsert => "record_insert"@,
        Sql::RecordMinOffset => "record_min_offset"@,
        Sql::TopicConfigurationDeleteByTopic => "topic_configuration_delete_by_topic"@,
        Sql::TopicConfigurationDelete => "topic_configuration_delete"@,
        Sql::TopicConfigurationSelect => "topic_configuration_select"@,
        Sql::TopicConfigurationUpsert => "topic_configuration_upsert"@,
        Sql::TopicDelete => "topic_delete"@,
        Sql::TopicInsert => "topic_insert"@,
        Sql::TopicSelectAll => "topic_select_all"@,
        Sql::TopicSelectByName => "topic_select_by_name"@,
        Sql::TopicSelectFullByUuid => "topic_select_full_by_uuid"@,
        Sql::TopicSelectFull => "topic_select_full"@,
        Sql::TopicSelectNamePartitions => "topic_select_name_partitions"@,
        Sql::TopicSelectUuid => "topic_select_uuid"@,
        Sql::TopitionDeleteByTopic => "topition_delete_by_topic"@,
        Sql::TopitionExists => "topition_exists"@,
        Sql::TopitionInsert => "topition_insert"@,
        Sql::TopitionSelectId => "topition_select_id"@,
        Sql::TxnInsert => "txn_insert"@,
        Sql::TxnOffsetAdd => "txn_offset_add"@,
        Sql::TxnOffsetCommitDelete => "txn_offset_commit_delete"@,
        Sql::TxnOffsetCommitInsert => "txn_offset_commit_insert"@,
        Sql::TxnOffsetCommitTpDelete => "txn_offset_commit_tp_delete"@,
        Sql::TxnOffsetCommitTpInsert => "txn_offset_commit_tp_insert"@,
        Sql::TxnProduceOffsetDelete => "txn_produce_offset_delete"@,
        Sql::TxnProduceOffsetInsert => "txn_produce_offset_insert"@,
        Sql::TxnProduceOffsetSelectOverlapping => "txn_produce_offset_select_overlapping"@,
        Sql::TxnProduceOffsetSelectRange => "txn_produce_offset_select_range"@,
        Sql::TxnSelectForOffset => "txn_select_for_offset"@,
        Sql::TxnStatusUpdate => "txn_status_update"@,
        Sql::TxnTopitionDelete => "txn_topition_delete"@,
        Sql::TxnTopitionInsert => "txn_topition_insert"@,
        Sql::TxnTopitionSelect => "txn_topition_select"@,
        Sql::WatermarkDeleteByTopic => "watermark_delete_by_topic"@,
        Sql::WatermarkInsert => "watermark_insert"@,
        Sql::WatermarkSelectForUpdate => "watermark_select_for_update"@,
        Sql::WatermarkSelect => "watermark_select"@,
        Sql::WatermarkUpdate => "watermark_update"@,
    }
}

impl Sql {
    /// The key under which the text of this statement is kept.
    pub fn key(self) -> (key: &'static str)
        ensures
            key@ == sql_key(self),
    {
        match self {
            Sql::ClusterInsert => "cluster_insert",
            Sql::ConsumerGroupDelete => "consumer_group_delete",
            Sql::ConsumerGroupDetailDelete => "consumer_group_detail_delete",
            Sql::ConsumerGroupInsert => "consumer_group_insert",
            Sql::ConsumerGroupSelectAll => "consumer_group_select_all",
            Sql::ConsumerGroupSelectForUpdate => "consumer_group_select_for_update",
            Sql::ConsumerGroupSelect => "consumer_group_select",
            Sql::ConsumerGroupUpdate => "consumer_group_update",
            Sql::ConsumerOffsetDeleteByGroup => "consumer_offset_delete_by_group",
            Sql::ConsumerOffsetInsertFromTxn => "consumer_offset_insert_from_txn",
            Sql::ConsumerOffsetInsert => "consumer_offset_insert",
            Sql::ConsumerOffsetSelectByGroup => "consumer_offset_select_by_group",
            Sql::ConsumerOffsetSelect => "consumer_offset_select",
            Sql::HeaderDeleteByTopic => "header_delete_by_topic",
            Sql::HeaderFetch => "header_fetch",
            Sql::HeaderInsert => "header_insert",
            Sql::ProducerDetailInsert => "producer_detail_insert",
            Sql::ProducerDetailSelectForUpdate => "producer_detail_select_for_update",
            Sql::ProducerEpochInsert => "producer_epoch_insert",
            Sql::ProducerEpochSelectCurrent => "producer_epoch_select_current",
            Sql::ProducerInsert => "producer_insert",
            Sql::RecordDeleteByTopic => "record_delete_by_topic",
            Sql::RecordDeleteFromOffset => "record_delete_from_offset",
            Sql::RecordFetchByTimestamp => "record_fetch_by_timestamp",
            Sql::RecordFetch => "record_fetch",
            Sql::RecordInsert => "record_insert",
            Sql::RecordMinOffset => "record_min_offset",
            Sql::TopicConfigurationDeleteByTopic => "topic_configuration_delete_by_topic",
            Sql::TopicConfigurationDelete => "topic_configuration_delete",
            Sql::TopicConfigurationSelect => "topic_configuration_select",
            Sql::TopicConfigurationUpsert => "topic_configuration_upsert",
            Sql::TopicDelete => "topic_delete",
            Sql::TopicInsert => "topic_insert",
            Sql::TopicSelectAll => "topic_select_all",
            Sql::TopicSelectByName => "topic_select_by_name",
            Sql::TopicSelectFullByUuid => "topic_select_full_by_uuid",
            Sql::TopicSelectFull => "topic_select_full",
            Sql::TopicSelectNamePartitions => "topic_select_name_partitions",
            Sql::TopicSelectUuid => "topic_select_uuid",
            Sql::TopitionDeleteByTopic => "topition_delete_by_topic",
            Sql::TopitionExists => "topition_exists",
            Sql::TopitionInsert => "topition_insert",
            Sql::TopitionSelectId => "topition_select_id",
            Sql::TxnInsert => "txn_insert",
            Sql::TxnOffsetAdd => "txn_offset_add",
            Sql::TxnOffsetCommitDelete => "txn_offset_commit_delete",
            Sql::TxnOffsetCommitInsert => "txn_offset_commit_insert",
            Sql::TxnOffsetCommitTpDelete => "txn_offset_commit_tp_delete",
            Sql::TxnOffsetCommitTpInsert => "txn_offset_commit_tp_insert",
            Sql::TxnProduceOffsetDelete => "txn_produce_offset_delete",
            Sql::TxnProduceOffsetInsert => "txn_produce_offset_insert",
            Sql::TxnProduceOffsetSelectOverlapping => "txn_produce_offset_select_overlapping",
            Sql::TxnProduceOffsetSelectRange => "txn_produce_offset_select_range",
            Sql::TxnSelectForOffset => "txn_select_for_offset",
            Sql::TxnStatusUpdate => "txn_status_update",
            Sql::TxnTopitionDelete => "txn_topition_delete",
            Sql::TxnTopitionInsert => "txn_topition_insert",
            Sql::TxnTopitionSelect => "txn_topition_select",
            Sql::WatermarkDeleteByTopic => "watermark_delete_by_topic",
            Sql::WatermarkInsert => "watermark_insert",
            Sql::WatermarkSelectForUpdate => "watermark_select_for_update",
            Sql::WatermarkSelect => "watermark_select",
            Sql::WatermarkUpdate => "watermark_update",
        }
    }
}

/// The texts of statements, each with the key under which it is kept.
#[derive(Debug)]
pub struct Catalogue {
    texts: Vec<(String, String)>,
}

impl DeepView for Catalogue {
    type V = Seq<(Seq<char>, Seq<char>)>;

    closed spec fn deep_view(&self) -> Seq<(Seq<char>, Seq<char>)> {
        self.texts.deep_view()
    }
}

/// The text that is kept under a key. Of several the last counts.
pub open spec fn text_under(texts: Seq<(Seq<char>, Seq<char>)>, key: Seq<char>) -> Option<Seq<char>>
    decreases texts.len(),
{
    if texts.len() == 0 {
        None
    } else if texts.last().0 == key {
        Some(texts.last().1)
    } else {
        text_under(texts.drop_last(), key)
    }
}

impl Catalogue {
    /// Texts with their keys.
    pub fn new(texts: Vec<(String, String)>) -> (catalogue: Catalogue)
        ensures
            catalogue.deep_view() == texts.deep_view(),
    {
        Catalogue { texts }
    }

    /// The text that is kept under a key.
    pub fn sql_lookup(&self, key: &str) -> (text: Result<&String, Error>)
        ensures
            match text {
                Ok(text) => text_under(self.deep_view(), key@) == Some(text@),
                Err(error) => text_under(self.deep_view(), key@) is None && error.deep_view()
                    == ErrorView::UnknownSql(key@),
            },
    {
        let wanted = key.to_owned();
        let mut i: usize = self.texts.len();
        assert(self.deep_view().take(i as int) =~= self.deep_view());
        while i > 0
            invariant
                i <= self.texts.len(),
                wanted@ == key@,
                text_under(self.deep_view(), key@) == text_under(
                    self.deep_view().take(i as int),
                    key@,
                ),
            decreases i,
        {
            let ghost before = self.deep_view().take(i as int);
            i = i - 1;
            assert(before.drop_last() =~= self.deep_view().take(i as int));
            assert(before.last() == self.texts[i as int].deep_view());
            if same_text(&self.texts[i].0, &wanted) {
                return Ok(&self.texts[i].1);
            }
        }
        Err(Error::UnknownSql(wanted))
    }

    /// The text of a statement.
    pub fn text(&self, sql: Sql) -> (text: Result<&String, Error>)
        ensures
            match text {
                Ok(text) => text_under(self.deep_view(), sql_key(sql)) == Some(text@),
                Err(error) => text_under(self.deep_view(), sql_key(sql)) is None
                    && error.deep_view() == ErrorView::UnknownSql(sql_key(sql)),
            },
    {
        self.sql_lookup(sql.key())
    }
}

/// The length of a key, and its first, its last and two more letters.
spec fn mark(key: Seq<char>) -> (int, char, char, char, char) {
    (
        key.len() as int,
        key[0],
        key[key.len() - 10],
        key[key.len() - 4],
        key[key.len() - 1],
    )
}

/// No two statements are kept under the same key.
pub proof fn keys_are_distinct(a: Sql, b: Sql)
    requires
        sql_key(a) == sql_key(b),
    ensures
        a == b,
{
    reveal_strlit("cluster_insert");
    reveal_strlit("consumer_group_delete");
    reveal_strlit("consumer_group_detail_delete");
    reveal_strlit("consumer_group_insert");
    reveal_strlit("consumer_group_select_all");
    reveal_strlit("consumer_group_select_for_update");
    reveal_strlit("consumer_group_select");
    reveal_strlit("consumer_group_update");
    reveal_strlit("consumer_offset_delete_by_group");
    reveal_strlit("consumer_offset_insert_from_txn");
    reveal_strlit("consumer_offset_insert");
    reveal_strlit("consumer_offset_select_by_group");
    reveal_strlit("consumer_offset_select");
    reveal_strlit("header_delete_by_topic");
    reveal_strlit("header_fetch");
    reveal_strlit("header_insert");
    reveal_strlit("producer_detail_insert");
    reveal_strlit("producer_detail_select_for_update");
    reveal_strlit("producer_epoch_insert");
    reveal_strlit("producer_epoch_select_current");
    reveal_strlit("producer_insert");
    reveal_strlit("record_delete_by_topic");
    reveal_strlit("record_delete_from_offset");
    reveal_strlit("record_fetch_by_timestamp");
    reveal_strlit("record_fetch");
    reveal_strlit("record_insert");
    reveal_strlit("record_min_offset");
    reveal_strlit("topic_configuration_delete_by_topic");
    reveal_strlit("topic_configuration_delete");
    reveal_strlit("topic_configuration_select");
    reveal_strlit("topic_configuration_upsert");
    reveal_strlit("topic_delete");
    reveal_strlit("topic_insert");
    reveal_strlit("topic_select_all");
    reveal_strlit("topic_select_by_name");
    reveal_strlit("topic_select_full_by_uuid");
    reveal_strlit("topic_select_full");
    reveal_strlit("topic_select_name_partitions");
    reveal_strlit("topic_select_uuid");
    reveal_strlit("topition_delete_by_topic");
    reveal_strlit("topition_exists");
    reveal_strlit("topition_insert");
    reveal_strlit("topition_select_id");
    reveal_strlit("txn_insert");
    reveal_strlit("txn_offset_add");
    reveal_strlit("txn_offset_commit_delete");
    reveal_strlit("txn_offset_commit_insert");
    reveal_strlit("txn_offset_commit_tp_delete");
    reveal_strlit("txn_offset_commit_tp_insert");
    reveal_strlit("txn_produce_offset_delete");
    reveal_strlit("txn_produce_offset_insert");
    reveal_strlit("txn_produce_offset_select_overlapping");
    reveal_strlit("txn_produce_offset_select_range");
    reveal_strlit("txn_select_for_offset");
    reveal_strlit("txn_status_update");
    reveal_strlit("txn_topition_delete");
    reveal_strlit("txn_topition_insert");
    reveal_strlit("txn_topition_select");
    reveal_strlit("watermark_delete_by_topic");
    reveal_strlit("watermark_insert");
    reveal_strlit("watermark_select_for_update");
    reveal_strlit("watermark_select");
    reveal_strlit("watermark_update");
    assert(mark("cluster_insert"@) == (14int, 'c', 't', 's', 't'));
    assert(mark("consumer_group_delete"@) == (21int, 'c', 'o', 'l', 'e'));
    assert(mark("consumer_group_detail_delete"@) == (28int, 'c', 'a', 'l', 'e'));
    assert(mark("consumer_group_insert"@) == (21int, 'c', 'o', 's', 't'));
    assert(mark("consumer_group_select_all"@) == (25int, 'c', 's', '_', 'l'));
    assert(mark("consumer_group_select_for_update"@) == (32int, 'c', 'f', 'd', 'e'));
    assert(mark("consumer_group_select"@) == (21int, 'c', 'o', 'l', 't'));
    assert(mark("consumer_group_update"@) == (21int, 'c', 'o', 'd', 'e'));
    assert(mark("consumer_offset_delete_by_group"@) == (31int, 'c', 'e', 'r', 'p'));
    assert(mark("consumer_offset_insert_from_txn"@) == (31int, 'c', 't', '_', 'n'));
    assert(mark("consumer_offset_insert"@) == (22int, 'c', 's', 's', 't'));
    assert(mark("consumer_offset_select_by_group"@) == (31int, 'c', 't', 'r', 'p'));
    assert(mark("consumer_offset_select"@) == (22int, 'c', 's', 'l', 't'));
    assert(mark("header_delete_by_topic"@) == (22int, 'h', 'e', 'o', 'c'));
    assert(mark("header_fetch"@) == (12int, 'h', 'a', 'e', 'h'));
    assert(mark("header_insert"@) == (13int, 'h', 'd', 's', 't'));
    assert(mark("producer_detail_insert"@) == (22int, 'p', 'a', 's', 't'));
    assert(mark("producer_detail_select_for_update"@) == (33int, 'p', 'f', 'd', 'e'));
    assert(mark("producer_epoch_insert"@) == (21int, 'p', 'o', 's', 't'));
    assert(mark("producer_epoch_select_current"@) == (29int, 'p', 'c', 'r', 't'));
    assert(mark("producer_insert"@) == (15int, 'p', 'c', 's', 't'));
    assert(mark("record_delete_by_topic"@) == (22int, 'r', 'e', 'o', 'c'));
    assert(mark("record_delete_from_offset"@) == (25int, 'r', 'r', 'f', 't'));
    assert(mark("record_fetch_by_timestamp"@) == (25int, 'r', '_', 't', 'p'));
    assert(mark("record_fetch"@) == (12int, 'r', 'c', 'e', 'h'));
    assert(mark("record_insert"@) == (13int, 'r', 'o', 's', 't'));
    assert(mark("record_min_offset"@) == (17int, 'r', 'm', 'f', 't'));
    assert(mark("topic_configuration_delete_by_topic"@) == (35int, 't', 'e', 'o', 'c'));
    assert(mark("topic_configuration_delete"@) == (26int, 't', 'i', 'l', 'e'));
    assert(mark("topic_configuration_select"@) == (26int, 't', 'i', 'l', 't'));
    assert(mark("topic_configuration_upsert"@) == (26int, 't', 'i', 's', 't'));
    assert(mark("topic_delete"@) == (12int, 't', 'p', 'l', 'e'));
    assert(mark("topic_insert"@) == (12int, 't', 'p', 's', 't'));
    assert(mark("topic_select_all"@) == (16int, 't', 's', '_', 'l'));
    assert(mark("topic_select_by_name"@) == (20int, 't', 'c', 'n', 'e'));
    assert(mark("topic_select_full_by_uuid"@) == (25int, 't', 'l', 'u', 'd'));
    assert(mark("topic_select_full"@) == (17int, 't', 'e', 'f', 'l'));
    assert(mark("topic_select_name_partitions"@) == (28int, 't', 'p', 'i', 's'));
    assert(mark("topic_select_uuid"@) == (17int, 't', 'e', 'u', 'd'));
    assert(mark("topition_delete_by_topic"@) == (24int, 't', 'e', 'o', 'c'));
    assert(mark("topition_exists"@) == (15int, 't', 'i', 'i', 's'));
    assert(mark("topition_insert"@) == (15int, 't', 'i', 's', 't'));
    assert(mark("topition_select_id"@) == (18int, 't', '_', 't', 'd'));
    assert(mark("txn_insert"@) == (10int, 't', 't', 's', 't'));
    assert(mark("txn_offset_add"@) == (14int, 't', 'o', '_', 'd'));
    assert(mark("txn_offset_commit_delete"@) == (24int, 't', 'm', 'l', 'e'));
    assert(mark("txn_offset_commit_insert"@) == (24int, 't', 'm', 's', 't'));
    assert(mark("txn_offset_commit_tp_delete"@) == (27int, 't', '_', 'l', 'e'));
    assert(mark("txn_offset_commit_tp_insert"@) == (27int, 't', '_', 's', 't'));
    assert(mark("txn_produce_offset_delete"@) == (25int, 't', 's', 'l', 'e'));
    assert(mark("txn_produce_offset_insert"@) == (25int, 't', 's', 's', 't'));
    assert(mark("txn_produce_offset_select_overlapping"@) == (37int, 't', 'v', 'p', 'g'));
    assert(mark("txn_produce_offset_select_range"@) == (31int, 't', 'l', 'a', 'e'));
    assert(mark("txn_select_for_offset"@) == (21int, 't', 'f', 'f', 't'));
    assert(mark("txn_status_update"@) == (17int, 't', 't', 'd', 'e'));
    assert(mark("txn_topition_delete"@) == (19int, 't', 'i', 'l', 'e'));
    assert(mark("txn_topition_insert"@) == (19int, 't', 'i', 's', 't'));
    assert(mark("txn_topition_select"@) == (19int, 't', 'i', 'l', 't'));
    assert(mark("watermark_delete_by_topic"@) == (25int, 'w', 'e', 'o', 'c'));
    assert(mark("watermark_insert"@) == (16int, 'w', 'a', 's', 't'));
    assert(mark("watermark_select_for_update"@) == (27int, 'w', 'f', 'd', 'e'));
    assert(mark("watermark_select"@) == (16int, 'w', 'a', 'l', 't'));
    assert(mark("watermark_update"@) == (16int, 'w', 'a', 'd', 'e'));
    assert(mark(sql_key(a)) == mark(sql_key(b)));
}

/// The text of a statement is kept under the name of the statement.
pub proof fn statements_are_kept_by_name()
    ensures
        sql_key(Sql::ClusterInsert) == "cluster_insert"@,
        sql_key(Sql::ConsumerGroupDelete) == "consumer_group_delete"@,
        sql_key(Sql::ConsumerGroupDetailDelete) == "consumer_group_detail_delete"@,
        sql_key(Sql::ConsumerGroupInsert) == "consumer_group_insert"@,
        sql_key(Sql::ConsumerGroupSelectAll) == "consumer_group_select_all"@,
        sql_key(Sql::ConsumerGroupSelectForUpdate) == "consumer_group_select_for_update"@,
        sql_key(Sql::ConsumerGroupSelect) == "consumer_group_select"@,
        sql_key(Sql::ConsumerGroupUpdate) == "consumer_group_update"@,
        sql_key(Sql::ConsumerOffsetDeleteByGroup) == "consumer_offset_delete_by_group"@,
        sql_key(Sql::ConsumerOffsetInsertFromTxn) == "consumer_offset_insert_from_txn"@,
        sql_key(Sql::ConsumerOffsetInsert) == "consumer_offset_insert"@,
        sql_key(Sql::ConsumerOffsetSelectByGroup) == "consumer_offset_select_by_group"@,
        sql_key(Sql::ConsumerOffsetSelect) == "consumer_offset_select"@,
        sql_key(Sql::HeaderDeleteByTopic) == "header_delete_by_topic"@,
        sql_key(Sql::HeaderFetch) == "header_fetch"@,
        sql_key(Sql::HeaderInsert) == "header_insert"@,
        sql_key(Sql::ProducerDetailInsert) == "producer_detail_insert"@,
        sql_key(Sql::ProducerDetailSelectForUpdate) == "producer_detail_select_for_update"@,
        sql_key(Sql::ProducerEpochInsert) == "producer_epoch_insert"@,
        sql_key(Sql::ProducerEpochSelectCurrent) == "producer_epoch_select_current"@,
        sql_key(Sql::ProducerInsert) == "producer_insert"@,
        sql_key(Sql::RecordDeleteByTopic) == "record_delete_by_topic"@,
        sql_key(Sql::RecordDeleteFromOffset) == "record_delete_from_offset"@,
        sql_key(Sql::RecordFetchByTimestamp) == "record_fetch_by_timestamp"@,
        sql_key(Sql::RecordFetch) == "record_fetch"@,
        sql_key(Sql::RecordInsert) == "record_insert"@,
        sql_key(Sql::RecordMinOffset) == "record_min_offset"@,
        sql_key(Sql::TopicConfigurationDeleteByTopic) == "topic_configuration_delete_by_topic"@,
        sql_key(Sql::TopicConfigurationDelete) == "topic_configuration_delete"@,
        sql_key(Sql::TopicConfigurationSelect) == "topic_configuration_select"@,
        sql_key(Sql::TopicConfigurationUpsert) == "topic_configuration_upsert"@,
        sql_key(Sql::TopicDelete) == "topic_delete"@,
        sql_key(Sql::TopicInsert) == "topic_insert"@,
        sql_key(Sql::TopicSelectAll) == "topic_select_all"@,
        sql_key(Sql::TopicSelectByName) == "topic_select_by_name"@,
        sql_key(Sql::TopicSelectFullByUuid) == "topic_select_full_by_uuid"@,
        sql_key(Sql::TopicSelectFull) == "topic_select_full"@,
        sql_key(Sql::TopicSelectNamePartitions) == "topic_select_name_partitions"@,
        sql_key(Sql::TopicSelectUuid) == "topic_select_uuid"@,
        sql_key(Sql::TopitionDeleteByTopic) == "topition_delete_by_topic"@,
        sql_key(Sql::TopitionExists) == "topition_exists"@,
        sql_key(Sql::TopitionInsert) == "topition_insert"@,
        sql_key(Sql::TopitionSelectId) == "topition_select_id"@,
        sql_key(Sql::TxnInsert) == "txn_insert"@,
        sql_key(Sql::TxnOffsetAdd) == "txn_offset_add"@,
        sql_key(Sql::TxnOffsetCommitDelete) == "txn_offset_commit_delete"@,
        sql_key(Sql::TxnOffsetCommitInsert) == "txn_offset_commit_insert"@,
        sql_key(Sql::TxnOffsetCommitTpDelete) == "txn_offset_commit_tp_delete"@,
        sql_key(Sql::TxnOffsetCommitTpInsert) == "txn_offset_commit_tp_insert"@,
        sql_key(Sql::TxnProduceOffsetDelete) == "txn_produce_offset_delete"@,
        sql_key(Sql::TxnProduceOffsetInsert) == "txn_produce_offset_insert"@,
        sql_key(Sql::TxnProduceOffsetSelectOverlapping) == "txn_produce_offset_select_overlapping"@,
        sql_key(Sql::TxnProduceOffsetSelectRange) == "txn_produce_offset_select_range"@,
        sql_key(Sql::TxnSelectForOffset) == "txn_select_for_offset"@,
        sql_key(Sql::TxnStatusUpdate) == "txn_status_update"@,
        sql_key(Sql::TxnTopitionDelete) == "txn_topition_delete"@,
        sql_key(Sql::TxnTopitionInsert) == "txn_topition_insert"@,
        sql_key(Sql::TxnTopitionSelect) == "txn_topition_select"@,
        sql_key(Sql::WatermarkDeleteByTopic) == "watermark_delete_by_topic"@,
        sql_key(Sql::WatermarkInsert) == "watermark_insert"@,
        sql_key(Sql::WatermarkSelectForUpdate) == "watermark_select_for_update"@,
        sql_key(Sql::WatermarkSelect) == "watermark_select"@,
        sql_key(Sql::WatermarkUpdate) == "watermark_update"@,
{
}

/// A text that is added under a key is the one that is kept under it from then on, and those under
/// other keys stay. Without texts nothing is kept.
pub proof fn the_last_text_counts(
    texts: Seq<(Seq<char>, Seq<char>)>,
    key: Seq<char>,
    text: Seq<char>,
    other: Seq<char>,
)
    ensures
        text_under(texts.push((key, text)), key) == Some(text),
        other != key ==> text_under(texts.push((key, text)), other) == text_under(texts, other),
        text_under(Seq::empty(), key) is None,
{
    assert(texts.push((key, text)).drop_last() =~= texts);
}

} // verus!
