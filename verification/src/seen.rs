//! What the views of messages hold.

use vstd::prelude::*;

use crate::batch::{FetchedBatch, InflatedBatch, Record, RecordHeader};
use crate::error::{Error, ErrorView};
use crate::metrics::Measurement;
use crate::request::{Reply, ReplyView, Request, RequestView};
use crate::wire::{
    AddPartitionsToTxnResult, AddPartitionsToTxnTopic, AddPartitionsToTxnTopicResult,
    AddPartitionsToTxnTransaction, AlterConfigsResource, AlterConfigsResourceResponse,
    AlterableConfig, CreatableTopic, DeletableGroupResult, DeleteRecordsTopic,
    DeleteRecordsTopicResult, DescribeClusterBroker, DescribeConfigsResourceResult,
    DescribeConfigsResult, DescribeTopicPartitionsResponsePartition,
    DescribeTopicPartitionsResponseTopic, GroupLookup, GroupLookupView, ListedGroup,
    MetadataResponse, MetadataResponseBroker, MetadataResponsePartition, MetadataResponseTopic,
    NamedGroupDetail, SingleTxn, TopicConfig, TopicId, TopicIdView, Topition,
    TxnAddPartitionsRequest, TxnAddPartitionsRequestView, TxnAddPartitionsResponse,
    TxnAddPartitionsResponseView, TxnOffsetCommitPartition, TxnOffsetCommitRequest,
    TxnOffsetCommitResponseTopic, TxnOffsetCommitTopic, Version,
};

verus! {

/// Every field of a [`Topition`] is seen.
pub proof fn a_topition_is_seen_whole(topition: Topition)
    ensures
        topition.deep_view().topic == topition.topic@,
        topition.deep_view().partition == topition.partition,
{
}

/// A [`TopicId`] is seen as what it is, with all that it holds.
pub proof fn a_topic_id_is_seen_whole(id: TopicId)
    ensures
        match id {
            TopicId::Name(a) => id.deep_view() == TopicIdView::Name(a@),
            TopicId::Id(a) => id.deep_view() == TopicIdView::Id(a.deep_view()),
        },
{
}

/// Every field of a [`TopicConfig`] is seen.
pub proof fn a_topic_config_is_seen_whole(item: TopicConfig)
    ensures
        item.deep_view().name == item.name@,
        item.deep_view().value == item.value.deep_view(),
{
}

/// Every field of a [`CreatableTopic`] is seen.
pub proof fn a_creatable_topic_is_seen_whole(topic: CreatableTopic)
    ensures
        topic.deep_view().name == topic.name@,
        topic.deep_view().num_partitions == topic.num_partitions,
        topic.deep_view().replication_factor == topic.replication_factor,
        topic.deep_view().configs == topic.configs.deep_view(),
{
}

/// Every field of a [`DeleteRecordsTopic`] is seen.
pub proof fn a_delete_records_topic_is_seen_whole(topic: DeleteRecordsTopic)
    ensures
        topic.deep_view().name == topic.name@,
        topic.deep_view().partitions == topic.partitions.deep_view(),
{
}

/// Every field of a [`DeleteRecordsTopicResult`] is seen.
pub proof fn a_delete_records_topic_result_is_seen_whole(result: DeleteRecordsTopicResult)
    ensures
        result.deep_view().name == result.name@,
        result.deep_view().partitions == result.partitions.deep_view(),
{
}

/// Every field of a [`DescribeClusterBroker`] is seen.
pub proof fn a_describe_cluster_broker_is_seen_whole(broker: DescribeClusterBroker)
    ensures
        broker.deep_view().broker_id == broker.broker_id,
        broker.deep_view().host == broker.host@,
        broker.deep_view().port == broker.port,
        broker.deep_view().rack == broker.rack.deep_view(),
{
}

/// Every field of a [`MetadataResponsePartition`] is seen.
pub proof fn a_metadata_response_partition_is_seen_whole(partition: MetadataResponsePartition)
    ensures
        partition.deep_view().error_code == partition.error_code,
        partition.deep_view().partition_index == partition.partition_index,
        partition.deep_view().leader_id == partition.leader_id,
        partition.deep_view().leader_epoch == partition.leader_epoch,
        partition.deep_view().replica_nodes == partition.replica_nodes.deep_view(),
        partition.deep_view().isr_nodes == partition.isr_nodes.deep_view(),
        partition.deep_view().offline_replicas == partition.offline_replicas.deep_view(),
{
}

/// Every field of a [`MetadataResponseTopic`] is seen.
pub proof fn a_metadata_response_topic_is_seen_whole(topic: MetadataResponseTopic)
    ensures
        topic.deep_view().error_code == topic.error_code,
        topic.deep_view().name == topic.name.deep_view(),
        topic.deep_view().topic_id == topic.topic_id.deep_view(),
        topic.deep_view().is_internal == topic.is_internal,
        topic.deep_view().partitions == topic.partitions.deep_view(),
{
}

/// Every field of a [`MetadataResponseBroker`] is seen.
pub proof fn a_metadata_response_broker_is_seen_whole(broker: MetadataResponseBroker)
    ensures
        broker.deep_view().node_id == broker.node_id,
        broker.deep_view().host == broker.host@,
        broker.deep_view().port == broker.port,
        broker.deep_view().rack == broker.rack.deep_view(),
{
}

/// Every field of a [`MetadataResponse`] is seen.
pub proof fn a_metadata_response_is_seen_whole(response: MetadataResponse)
    ensures
        response.deep_view().cluster == response.cluster.deep_view(),
        response.deep_view().controller == response.controller,
        response.deep_view().brokers == response.brokers.deep_view(),
        response.deep_view().topics == response.topics.deep_view(),
{
}

/// Every field of a [`DescribeConfigsResourceResult`] is seen.
pub proof fn a_describe_configs_resource_result_is_seen_whole(result: DescribeConfigsResourceResult)
    ensures
        result.deep_view().name == result.name@,
        result.deep_view().value == result.value.deep_view(),
        result.deep_view().read_only == result.read_only,
        result.deep_view().is_default == result.is_default,
        result.deep_view().is_sensitive == result.is_sensitive,
        result.deep_view().config_source == result.config_source,
        result.deep_view().config_type == result.config_type,
        result.deep_view().documentation == result.documentation.deep_view(),
{
}

/// Every field of a [`DescribeConfigsResult`] is seen.
pub proof fn a_describe_configs_result_is_seen_whole(result: DescribeConfigsResult)
    ensures
        result.deep_view().error_code == result.error_code,
        result.deep_view().error_message == result.error_message,
        result.deep_view().resource == result.resource,
        result.deep_view().resource_name == result.resource_name@,
        result.deep_view().configs == result.configs.deep_view(),
{
}

/// Every field of a [`DescribeTopicPartitionsResponsePartition`] is seen.
pub proof fn a_describe_topic_partitions_response_partition_is_seen_whole(
    partition: DescribeTopicPartitionsResponsePartition,
)
    ensures
        partition.deep_view().error_code == partition.error_code,
        partition.deep_view().partition_index == partition.partition_index,
        partition.deep_view().leader_id == partition.leader_id,
        partition.deep_view().leader_epoch == partition.leader_epoch,
        partition.deep_view().replica_nodes == partition.replica_nodes.deep_view(),
        partition.deep_view().isr_nodes == partition.isr_nodes.deep_view(),
        partition.deep_view().eligible_leader_replicas
            == partition.eligible_leader_replicas.deep_view(),
        partition.deep_view().last_known_elr == partition.last_known_elr.deep_view(),
        partition.deep_view().offline_replicas == partition.offline_replicas.deep_view(),
{
}

/// Every field of a [`DescribeTopicPartitionsResponseTopic`] is seen.
pub proof fn a_describe_topic_partitions_response_topic_is_seen_whole(
    topic: DescribeTopicPartitionsResponseTopic,
)
    ensures
        topic.deep_view().error_code == topic.error_code,
        topic.deep_view().name == topic.name.deep_view(),
        topic.deep_view().topic_id == topic.topic_id.deep_view(),
        topic.deep_view().is_internal == topic.is_internal,
        topic.deep_view().partitions == topic.partitions.deep_view(),
        topic.deep_view().topic_authorized_operations == topic.topic_authorized_operations,
{
}

/// Every field of a [`ListedGroup`] is seen.
pub proof fn a_listed_group_is_seen_whole(group: ListedGroup)
    ensures
        group.deep_view().group_id == group.group_id@,
        group.deep_view().protocol_type == group.protocol_type@,
        group.deep_view().group_state == group.group_state.deep_view(),
        group.deep_view().group_type == group.group_type.deep_view(),
{
}

/// Every field of a [`DeletableGroupResult`] is seen.
pub proof fn a_deletable_group_result_is_seen_whole(result: DeletableGroupResult)
    ensures
        result.deep_view().group_id == result.group_id@,
        result.deep_view().error_code == result.error_code,
{
}

/// A [`GroupLookup`] is seen as what it is, with all that it holds.
pub proof fn a_group_lookup_is_seen_whole(lookup: GroupLookup)
    ensures
        match lookup {
            GroupLookup::Found(a) => lookup.deep_view() == GroupLookupView::Found(a@),
            GroupLookup::Missing(a) => lookup.deep_view() == GroupLookupView::Missing(a),
        },
{
}

/// Every field of a [`NamedGroupDetail`] is seen.
pub proof fn a_named_group_detail_is_seen_whole(detail: NamedGroupDetail)
    ensures
        detail.deep_view().name == detail.name@,
        detail.deep_view().detail == detail.detail.deep_view(),
{
}

/// Every field of a [`Version`] is seen.
pub proof fn a_version_is_seen_whole(version: Version)
    ensures
        version.deep_view().e_tag == version.e_tag.deep_view(),
        version.deep_view().version == version.version.deep_view(),
{
}

/// Every field of an [`AddPartitionsToTxnTopic`] is seen.
pub proof fn an_add_partitions_to_txn_topic_is_seen_whole(topic: AddPartitionsToTxnTopic)
    ensures
        topic.deep_view().name == topic.name@,
        topic.deep_view().partitions == topic.partitions.deep_view(),
{
}

/// Every field of an [`AddPartitionsToTxnTransaction`] is seen.
pub proof fn an_add_partitions_to_txn_transaction_is_seen_whole(
    transaction: AddPartitionsToTxnTransaction,
)
    ensures
        transaction.deep_view().transactional_id == transaction.transactional_id@,
        transaction.deep_view().producer_id == transaction.producer_id,
        transaction.deep_view().producer_epoch == transaction.producer_epoch,
        transaction.deep_view().topics == transaction.topics.deep_view(),
{
}

/// Every field of a [`SingleTxn`] is seen.
pub proof fn a_single_txn_is_seen_whole(txn: SingleTxn)
    ensures
        txn.deep_view().transaction_id == txn.transaction_id@,
        txn.deep_view().producer_id == txn.producer_id,
        txn.deep_view().producer_epoch == txn.producer_epoch,
        txn.deep_view().topics == txn.topics.deep_view(),
{
}

/// A [`TxnAddPartitionsRequest`] is seen as what it is, with all that it holds.
pub proof fn a_txn_add_partitions_request_is_seen_whole(request: TxnAddPartitionsRequest)
    ensures
        match request {
            TxnAddPartitionsRequest::VersionZeroToThree(a) => {
                request.deep_view()
                    == TxnAddPartitionsRequestView::VersionZeroToThree(a.deep_view())
            },
            TxnAddPartitionsRequest::VersionFourPlus(a) => {
                request.deep_view() == TxnAddPartitionsRequestView::VersionFourPlus(a.deep_view())
            },
        },
{
}

/// Every field of an [`AddPartitionsToTxnTopicResult`] is seen.
pub proof fn an_add_partitions_to_txn_topic_result_is_seen_whole(
    result: AddPartitionsToTxnTopicResult,
)
    ensures
        result.deep_view().name == result.name@,
        result.deep_view().results_by_partition == result.results_by_partition.deep_view(),
{
}

/// Every field of an [`AddPartitionsToTxnResult`] is seen.
pub proof fn an_add_partitions_to_txn_result_is_seen_whole(result: AddPartitionsToTxnResult)
    ensures
        result.deep_view().transactional_id == result.transactional_id@,
        result.deep_view().topic_results == result.topic_results.deep_view(),
{
}

/// A [`TxnAddPartitionsResponse`] is seen as what it is, with all that it holds.
pub proof fn a_txn_add_partitions_response_is_seen_whole(response: TxnAddPartitionsResponse)
    ensures
        match response {
            TxnAddPartitionsResponse::VersionZeroToThree(a) => {
                response.deep_view()
                    == TxnAddPartitionsResponseView::VersionZeroToThree(a.deep_view())
            },
            TxnAddPartitionsResponse::VersionFourPlus(a) => {
                response.deep_view() == TxnAddPartitionsResponseView::VersionFourPlus(a.deep_view())
            },
        },
{
}

/// Every field of a [`TxnOffsetCommitPartition`] is seen.
pub proof fn a_txn_offset_commit_partition_is_seen_whole(partition: TxnOffsetCommitPartition)
    ensures
        partition.deep_view().partition_index == partition.partition_index,
        partition.deep_view().committed_offset == partition.committed_offset,
        partition.deep_view().committed_leader_epoch == partition.committed_leader_epoch,
        partition.deep_view().committed_metadata == partition.committed_metadata.deep_view(),
{
}

/// Every field of a [`TxnOffsetCommitTopic`] is seen.
pub proof fn a_txn_offset_commit_topic_is_seen_whole(topic: TxnOffsetCommitTopic)
    ensures
        topic.deep_view().name == topic.name@,
        topic.deep_view().partitions == topic.partitions.deep_view(),
{
}

/// Every field of a [`TxnOffsetCommitRequest`] is seen.
pub proof fn a_txn_offset_commit_request_is_seen_whole(request: TxnOffsetCommitRequest)
    ensures
        request.deep_view().transaction_id == request.transaction_id@,
        request.deep_view().group_id == request.group_id@,
        request.deep_view().producer_id == request.producer_id,
        request.deep_view().producer_epoch == request.producer_epoch,
        request.deep_view().generation_id == request.generation_id,
        request.deep_view().member_id == request.member_id.deep_view(),
        request.deep_view().topics == request.topics.deep_view(),
{
}

/// Every field of a [`TxnOffsetCommitResponseTopic`] is seen.
pub proof fn a_txn_offset_commit_response_topic_is_seen_whole(topic: TxnOffsetCommitResponseTopic)
    ensures
        topic.deep_view().name == topic.name@,
        topic.deep_view().partitions == topic.partitions.deep_view(),
{
}

/// Every field of an [`AlterableConfig`] is seen.
pub proof fn an_alterable_config_is_seen_whole(item: AlterableConfig)
    ensures
        item.deep_view().name == item.name@,
        item.deep_view().config_operation == item.config_operation,
        item.deep_view().value == item.value.deep_view(),
{
}

/// Every field of an [`AlterConfigsResource`] is seen.
pub proof fn an_alter_configs_resource_is_seen_whole(resource: AlterConfigsResource)
    ensures
        resource.deep_view().resource_type == resource.resource_type,
        resource.deep_view().resource_name == resource.resource_name@,
        resource.deep_view().configs == resource.configs.deep_view(),
{
}

/// Every field of an [`AlterConfigsResourceResponse`] is seen.
pub proof fn an_alter_configs_resource_response_is_seen_whole(
    response: AlterConfigsResourceResponse,
)
    ensures
        response.deep_view().error_code == response.error_code,
        response.deep_view().error_message == response.error_message.deep_view(),
        response.deep_view().resource_type == response.resource_type,
        response.deep_view().resource_name == response.resource_name@,
{
}

/// Every field of a [`RecordHeader`] is seen.
pub proof fn a_record_header_is_seen_whole(header: RecordHeader)
    ensures
        header.deep_view().key == header.key.deep_view(),
        header.deep_view().value == header.value.deep_view(),
{
}

/// Every field of a [`Record`] is seen.
pub proof fn a_record_is_seen_whole(record: Record)
    ensures
        record.deep_view().timestamp_delta == record.timestamp_delta,
        record.deep_view().key == record.key.deep_view(),
        record.deep_view().value == record.value.deep_view(),
        record.deep_view().headers == record.headers.deep_view(),
{
}

/// Every field of an [`InflatedBatch`] is seen.
pub proof fn an_inflated_batch_is_seen_whole(batch: InflatedBatch)
    ensures
        batch.deep_view().attributes == batch.attributes,
        batch.deep_view().control == batch.control,
        batch.deep_view().base_timestamp == batch.base_timestamp,
        batch.deep_view().last_offset_delta == batch.last_offset_delta,
        batch.deep_view().producer_id == batch.producer_id,
        batch.deep_view().producer_epoch == batch.producer_epoch,
        batch.deep_view().records == batch.records.deep_view(),
{
}

/// Every field of a [`FetchedBatch`] is seen.
pub proof fn a_fetched_batch_is_seen_whole(batch: FetchedBatch)
    ensures
        batch.deep_view().base_offset == batch.base_offset,
        batch.deep_view().attributes == batch.attributes,
        batch.deep_view().producer_id == batch.producer_id,
        batch.deep_view().producer_epoch == batch.producer_epoch,
        batch.deep_view().base_timestamp == batch.base_timestamp,
        batch.deep_view().key == batch.key.deep_view(),
        batch.deep_view().value == batch.value.deep_view(),
        batch.deep_view().headers == batch.headers.deep_view(),
{
}

/// An [`Error`] is seen as what it is, with all that it holds.
pub proof fn an_error_is_seen_whole(error: Error)
    ensures
        match error {
            Error::Api(code) => error.deep_view() == ErrorView::Api(code),
            Error::Message(text) => error.deep_view() == ErrorView::Message(text@),
            Error::UnknownTxnState(text) => error.deep_view() == ErrorView::UnknownTxnState(text@),
            Error::Timestamp(millis) => error.deep_view() == ErrorView::Timestamp(millis),
            Error::UnknownOpType(number) => error.deep_view() == ErrorView::UnknownOpType(number),
            Error::Outdated(detail, version) => {
                error.deep_view() == ErrorView::Outdated(detail@, version@)
            },
            Error::Json(text) => error.deep_view() == ErrorView::Json(text@),
            Error::Url(text) => error.deep_view() == ErrorView::Url(text@),
            Error::UnknownSql(text) => error.deep_view() == ErrorView::UnknownSql(text@),
            Error::Outside(text) => error.deep_view() == ErrorView::Outside(text@),
        },
{
}

/// A [`Request`] is seen as what it is, with all that it holds.
pub proof fn a_request_is_seen_whole(request: Request)
    ensures
        match request {
            Request::Connect => request.deep_view() == RequestView::Connect,
            Request::Begin => request.deep_view() == RequestView::Begin,
            Request::Commit => request.deep_view() == RequestView::Commit,
            Request::Execute(a) => request.deep_view() == RequestView::Execute(a.deep_view()),
            Request::Query(a, b) => request.deep_view() == RequestView::Query(a.deep_view(), b),
            Request::First(a, b) => request.deep_view() == RequestView::First(a.deep_view(), b),
            Request::Ping => request.deep_view() == RequestView::Ping,
            Request::CheckSequence(a, b, c) => {
                request.deep_view() == RequestView::CheckSequence(a, b, c)
            },
            Request::Inflate => request.deep_view() == RequestView::Inflate,
            Request::Validate(a) => request.deep_view() == RequestView::Validate(a@),
            Request::DescribeTopic(a) => request.deep_view() == RequestView::DescribeTopic(a@),
            Request::StoreLake(a, b, c) => {
                request.deep_view() == RequestView::StoreLake(a.deep_view(), b, c.deep_view())
            },
            Request::EncodeMarker(a) => request.deep_view() == RequestView::EncodeMarker(a),
            Request::Assemble(a) => request.deep_view() == RequestView::Assemble(a.deep_view()),
            Request::EncodeGroup => request.deep_view() == RequestView::EncodeGroup,
            Request::DecodeGroup(a) => request.deep_view() == RequestView::DecodeGroup(a@),
            Request::DecodeGroupValue(a) => {
                request.deep_view() == RequestView::DecodeGroupValue(a@)
            },
        },
{
}

/// A [`Reply`] is seen as what it is, with all that it holds.
pub proof fn a_reply_is_seen_whole(reply: Reply)
    ensures
        match reply {
            Reply::Done => reply.deep_view() == ReplyView::Done,
            Reply::Affected(a) => reply.deep_view() == ReplyView::Affected(a),
            Reply::Short(a) => reply.deep_view() == ReplyView::Short(a),
            Reply::Int(a) => reply.deep_view() == ReplyView::Int(a),
            Reply::Long(a) => reply.deep_view() == ReplyView::Long(a),
            Reply::Text(a) => reply.deep_view() == ReplyView::Text(a.deep_view()),
            Reply::Watermark(a) => reply.deep_view() == ReplyView::Watermark(a),
            Reply::Span(a) => reply.deep_view() == ReplyView::Span(a),
            Reply::Producer(a) => reply.deep_view() == ReplyView::Producer(a),
            Reply::Counted(a) => reply.deep_view() == ReplyView::Counted(a.deep_view()),
            Reply::Named(a) => reply.deep_view() == ReplyView::Named(a.deep_view()),
            Reply::Full(a) => reply.deep_view() == ReplyView::Full(a.deep_view()),
            Reply::Pair(a) => reply.deep_view() == ReplyView::Pair(a.deep_view()),
            Reply::Topitions(a) => reply.deep_view() == ReplyView::Topitions(a.deep_view()),
            Reply::Txns(a) => reply.deep_view() == ReplyView::Txns(a.deep_view()),
            Reply::Records(a) => reply.deep_view() == ReplyView::Records(a.deep_view()),
            Reply::Headers(a) => reply.deep_view() == ReplyView::Headers(a.deep_view()),
            Reply::Offsets(a) => reply.deep_view() == ReplyView::Offsets(a.deep_view()),
            Reply::Topics(a) => reply.deep_view() == ReplyView::Topics(a.deep_view()),
            Reply::Configs(a) => reply.deep_view() == ReplyView::Configs(a.deep_view()),
            Reply::Texts(a) => reply.deep_view() == ReplyView::Texts(a.deep_view()),
            Reply::Increment(a) => reply.deep_view() == ReplyView::Increment(a),
            Reply::Inflated(a) => reply.deep_view() == ReplyView::Inflated(a.deep_view()),
            Reply::Config(a) => reply.deep_view() == ReplyView::Config(a.deep_view()),
            Reply::Batch(a) => reply.deep_view() == ReplyView::Batch(a),
            Reply::Json(a) => reply.deep_view() == ReplyView::Json(a@),
        },
{
}

/// Every field of a [`Measurement`] is seen.
pub proof fn a_measurement_is_seen_whole(measurement: Measurement)
    ensures
        measurement.deep_view().millis == measurement.millis,
        measurement.deep_view().counter == measurement.counter,
        measurement.deep_view().attributes == measurement.attributes.deep_view(),
{
}

} // verus!
