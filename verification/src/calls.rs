//! What the calls of the engine start from: what they are given, and what the engine holds.

use vstd::prelude::*;

use crate::add_partitions::{txn_add_partitions, TxnAddPartitions};
use crate::batch::BatchHeader;
use crate::brokers::{Ping, RegisterBroker, RegisterBrokerView};
use crate::configs::{
    config_change, AlterConfigs, AlterConfigsView, DescribeConfig, DescribeConfigView,
    DescribeStage,
};
use crate::describe_topics::{topic_description, DescribeTopic, DescribeTopicView};
use crate::end_txn::{EndStageView, EndTxn, EndTxnView};
use crate::engine::Mysql;
use crate::error::{Error, ErrorCode};
use crate::fetch::{Fetch, FetchView};
use crate::groups::{
    group_deletion, group_description, group_update, DeleteGroups, DeleteGroupsView,
    DescribeGroup, DescribeGroupView, ListGroups, ListGroupsView, UpdateGroup,
};
use crate::ident::{is_v4, Uuid};
use crate::listener::Listener;
use crate::metadata::{
    metadata_brokers, metadata_lookup, Metadata, MetadataTopicsView, MetadataView,
};
use crate::metrics::{Counter, Measurement, MeasurementView};
use crate::offsets::{
    offset_commitment, offset_listing, offset_lookup, CommitOne, CommitOneView,
    CommittedOffsets, CommittedOffsetsView, ListOne, ListOneView, OffsetFetch, OffsetFetchView,
    StageOffsets, StageOffsetsView,
};
use crate::produce::{ProduceInTx, ProduceInTxView, ProduceStageView};
use crate::producers::{identity, producer_init, AddOffsets, AddOffsetsView, InitProducer};
use crate::script::listed;
use crate::sequence::{in_sequence, InSequence};
use crate::topics::{
    record_deletion, topic_creation, CreateTopic, DeleteStageView, DeleteTopic,
    DeleteTopicRecords, DeleteTopicRecordsView, DeleteTopicView,
};
use crate::transaction::{Connected, ConnectedView, Transaction, TransactionView};
use crate::txn_offsets::{CommitStage, TxnOffsetCommit, TxnOffsetCommitView};
use crate::wire::{
    AlterConfigsResource, BrokerRegistrationRequest, ConfigResource, CreatableTopic,
    DeleteRecordsTopic, DeleteRecordsTopicResult, DeleteRecordsTopicResultView,
    DescribeClusterBroker, DescribeTopicPartitionsResponseTopic,
    DescribeTopicPartitionsResponseTopicView, IsolationLevel, ListOffset, ListOffsetResponse,
    NamedGroupDetail, NamedGroupDetailView, OffsetCommitRequest, ProducerIdResponse, TopicId,
    TopicIdView, Topition, TopitionView, TxnAddPartitionsRequest, TxnOffsetCommitRequest,
    TxnOffsetCommitResponseTopic, TxnOffsetCommitResponseTopicView, Version,
};

verus! {

/// Partitions are added to transactions as they are asked for, in this cluster.
pub proof fn txn_add_partitions_takes_what_it_is_given<P, S, H>(
    engine: Mysql<P, S, H>,
    partitions: TxnAddPartitionsRequest,
    operation: Connected<TxnAddPartitions>,
)
    requires
        call_ensures(
            Mysql::<P, S, H>::txn_add_partitions,
            (&engine, partitions),
            operation,
        ),
    ensures
        operation.deep_view() == ConnectedView::Open(
            txn_add_partitions(engine.cluster@, partitions.deep_view()),
        ),
{
}

/// A broker is registered under the cluster that it names.
pub proof fn register_broker_takes_what_it_is_given<P, S, H>(
    engine: Mysql<P, S, H>,
    broker_registration: BrokerRegistrationRequest,
    operation: Connected<RegisterBroker>,
)
    requires
        call_ensures(
            Mysql::<P, S, H>::register_broker,
            (&engine, broker_registration),
            operation,
        ),
    ensures
        operation.deep_view() == ConnectedView::Open(
            RegisterBrokerView { cluster_id: broker_registration.cluster_id@ },
        ),
{
}

/// A ping takes a connection.
pub proof fn ping_takes_what_it_is_given<P, S, H>(
    engine: Mysql<P, S, H>,
    operation: Connected<Ping>,
)
    requires
        call_ensures(
            Mysql::<P, S, H>::ping,
            (&engine,),
            operation,
        ),
    ensures
        operation.deep_view() == ConnectedView::Open(Ping {  }),
{
}

/// The configuration that is named is described, in this cluster; whether it is there is asked of a
/// topic alone.
pub proof fn describe_config_takes_what_it_is_given<P, S, H>(
    engine: Mysql<P, S, H>,
    name: &str,
    resource: ConfigResource,
    keys: Option<&[String]>,
    operation: Connected<DescribeConfig>,
)
    requires
        call_ensures(
            Mysql::<P, S, H>::describe_config,
            (&engine, name, resource, keys),
            operation,
        ),
    ensures
        operation.deep_view() == ConnectedView::Open(
            DescribeConfigView {
                cluster: engine.cluster@,
                name: name@,
                resource,
                keys: keys.deep_view(),
                stage: if resource is Topic {
                    DescribeStage::Exists
                } else {
                    DescribeStage::Rows
                },
            },
        ),
{
}

/// Every change of a resource is made, in the order in which they are listed.
pub proof fn incremental_alter_resource_takes_what_it_is_given<P, S, H>(
    engine: Mysql<P, S, H>,
    resource: AlterConfigsResource,
    operation: Connected<AlterConfigs>,
)
    requires
        call_ensures(
            Mysql::<P, S, H>::incremental_alter_resource,
            (&engine, resource),
            operation,
        ),
    ensures
        operation.deep_view() == ConnectedView::Open(
            AlterConfigsView {
                resource_type: resource.resource_type,
                resource_name: resource.resource_name@,
                changes: in_sequence(
                    listed(resource.deep_view().configs).map_values(
                        config_change(engine.cluster@, resource.resource_name@),
                    ),
                ),
            },
        ),
{
}

/// The topics that are listed are described, in their order and by this node; where there is no
/// list, there are none.
pub proof fn describe_topic_partitions_takes_what_it_is_given<P, S, H>(
    engine: Mysql<P, S, H>,
    topics: Option<&[TopicId]>,
    partition_limit: i32,
    cursor: Option<Topition>,
    operation: Connected<InSequence<DescribeTopic, DescribeTopicPartitionsResponseTopic>>,
)
    requires
        call_ensures(
            Mysql::<P, S, H>::describe_topic_partitions,
            (&engine, topics, partition_limit, cursor),
            operation,
        ),
    ensures
        operation.deep_view() == ConnectedView::Open(
            in_sequence::<DescribeTopicView, DescribeTopicPartitionsResponseTopicView>(
                match topics {
                    Some(topics) => topics.deep_view().map_values(
                        topic_description(engine.cluster@, engine.node),
                    ),
                    None => Seq::empty(),
                },
            ),
        ),
{
}

/// An engine tells of its own brokers.
pub proof fn brokers_takes_what_it_is_given<P, S, H>(
    engine: Mysql<P, S, H>,
    brokers: Result<Vec<DescribeClusterBroker>, Error>,
)
    requires
        call_ensures(
            Mysql::<P, S, H>::brokers,
            (&engine,),
            brokers,
        ),
    ensures
        brokers matches Ok(brokers) && brokers.deep_view() == engine.broker_list(),
{
}

/// A statement is measured by its text and by the cluster.
pub proof fn attributes_for_sql_takes_what_it_is_given<P, S, H>(
    engine: Mysql<P, S, H>,
    sql: &str,
    attributes: Vec<(String, String)>,
)
    requires
        call_ensures(
            Mysql::<P, S, H>::attributes_for_sql,
            (&engine, sql),
            attributes,
        ),
    ensures
        attributes.deep_view() == seq![("sql"@, sql@), ("cluster_id"@, engine.cluster@)],
{
}

/// An engine tells the name of its cluster.
pub proof fn cluster_id_takes_what_it_is_given<P, S, H>(
    engine: Mysql<P, S, H>,
    cluster: Result<String, Error>,
)
    requires
        call_ensures(
            Mysql::<P, S, H>::cluster_id,
            (&engine,),
            cluster,
        ),
    ensures
        cluster matches Ok(cluster) && cluster@ == engine.cluster@,
{
}

/// An engine tells the number of its node.
pub proof fn node_takes_what_it_is_given<P, S, H>(
    engine: Mysql<P, S, H>,
    node: Result<i32, Error>,
)
    requires
        call_ensures(
            Mysql::<P, S, H>::node,
            (&engine,),
            node,
        ),
    ensures
        node matches Ok(node) && node == engine.node,
{
}

/// An engine tells the address that it advertises.
pub proof fn advertised_listener_takes_what_it_is_given<P, S, H>(
    engine: Mysql<P, S, H>,
    listener: Result<Listener, Error>,
)
    requires
        call_ensures(
            Mysql::<P, S, H>::advertised_listener,
            (&engine,),
            listener,
        ),
    ensures
        listener matches Ok(listener) && listener.deep_view()
            == engine.advertised_listener.deep_view(),
{
}

/// Records are read of the partition that is named, from the offset that is named on.
pub proof fn fetch_takes_what_it_is_given<P, S, H>(
    engine: Mysql<P, S, H>,
    topition: &Topition,
    offset: i64,
    min_bytes: u32,
    max_bytes: u32,
    isolation: IsolationLevel,
    operation: Connected<Fetch>,
)
    requires
        call_ensures(
            Mysql::<P, S, H>::fetch,
            (&engine, topition, offset, min_bytes, max_bytes, isolation),
            operation,
        ),
    ensures
        operation.deep_view() == ConnectedView::Open(
            FetchView::Rows(engine.cluster@, topition.deep_view(), offset),
        ),
{
}

/// The groups of this cluster are listed.
pub proof fn list_groups_takes_what_it_is_given<P, S, H>(
    engine: Mysql<P, S, H>,
    states_filter: Option<&[String]>,
    operation: Connected<ListGroups>,
)
    requires
        call_ensures(
            Mysql::<P, S, H>::list_groups,
            (&engine, states_filter),
            operation,
        ),
    ensures
        operation.deep_view() == ConnectedView::Open(ListGroupsView { cluster: engine.cluster@ }),
{
}

/// The groups that are listed are deleted, in their order; where there is no list, nothing is done.
pub proof fn delete_groups_takes_what_it_is_given<P, S, H>(
    engine: Mysql<P, S, H>,
    group_ids: Option<&[String]>,
    operation: DeleteGroups,
)
    requires
        call_ensures(
            Mysql::<P, S, H>::delete_groups,
            (&engine, group_ids),
            operation,
        ),
    ensures
        operation.deep_view() == match group_ids {
            Some(group_ids) => DeleteGroupsView::Each(
                ConnectedView::Open(
                    in_sequence(
                        group_ids.deep_view().map_values(group_deletion(engine.cluster@)),
                    ),
                ),
            ),
            None => DeleteGroupsView::Nothing,
        },
{
}

/// The groups that are listed are described, in their order; where there is no list, there are
/// none.
pub proof fn describe_groups_takes_what_it_is_given<P, S, H>(
    engine: Mysql<P, S, H>,
    group_ids: Option<&[String]>,
    include_authorized_operations: bool,
    operation: Connected<InSequence<DescribeGroup, NamedGroupDetail>>,
)
    requires
        call_ensures(
            Mysql::<P, S, H>::describe_groups,
            (&engine, group_ids, include_authorized_operations),
            operation,
        ),
    ensures
        operation.deep_view() == ConnectedView::Open(
            in_sequence::<DescribeGroupView, NamedGroupDetailView>(
                match group_ids {
                    Some(group_ids) => group_ids.deep_view().map_values(
                        group_description(engine.cluster@),
                    ),
                    None => Seq::empty(),
                },
            ),
        ),
{
}

/// A group is updated from the version that is named to a random one.
pub proof fn update_group_takes_what_it_is_given<P, S, H>(
    engine: Mysql<P, S, H>,
    group_id: &str,
    version: Option<Version>,
    operation: Transaction<UpdateGroup, Version>,
)
    requires
        call_ensures(
            Mysql::<P, S, H>::update_group,
            (&engine, group_id, version),
            operation,
        ),
    ensures
        exists|id: Seq<u8>|
            is_v4(id) && operation.deep_view() == #[trigger] group_update(
                engine.cluster@,
                group_id@,
                version.deep_view(),
                id,
            ),
{
}

/// A group is updated from the version that is named to the one that is given.
pub proof fn update_group_as_takes_what_it_is_given<P, S, H>(
    engine: Mysql<P, S, H>,
    group_id: &str,
    version: Option<Version>,
    new_version: Uuid,
    operation: Transaction<UpdateGroup, Version>,
)
    requires
        call_ensures(
            Mysql::<P, S, H>::update_group_as,
            (&engine, group_id, version, new_version),
            operation,
        ),
    ensures
        operation.deep_view() == group_update(
            engine.cluster@,
            group_id@,
            version.deep_view(),
            new_version.deep_view(),
        ),
{
}

/// The topics that are listed are told of, in their order, or all of them where there is no list,
/// with the brokers of this engine.
pub proof fn metadata_takes_what_it_is_given<P, S, H>(
    engine: Mysql<P, S, H>,
    topics: Option<&[TopicId]>,
    operation: Connected<Metadata>,
)
    requires
        call_ensures(
            Mysql::<P, S, H>::metadata,
            (&engine, topics),
            operation,
        ),
    ensures
        operation.deep_view() == ConnectedView::Open(
            MetadataView {
                cluster: engine.cluster@,
                node: engine.node,
                brokers: metadata_brokers(engine.broker_list()),
                topics: match topics {
                    Some(topics) => MetadataTopicsView::Listed(
                        in_sequence(
                            topics.deep_view().map_values(
                                metadata_lookup(engine.cluster@, engine.node),
                            ),
                        ),
                    ),
                    None => MetadataTopicsView::All,
                },
            },
        ),
{
}

/// A statement is measured by how long it took, none where the clock went back, and counts as a
/// request or as an error.
pub proof fn measurement_takes_what_it_is_given<P, S, H>(
    engine: Mysql<P, S, H>,
    sql: &str,
    elapsed: Option<u128>,
    succeeded: bool,
    measurement: Measurement,
)
    requires
        call_ensures(
            Mysql::<P, S, H>::measurement,
            (&engine, sql, elapsed, succeeded),
            measurement,
        ),
    ensures
        measurement.deep_view() == (MeasurementView {
            millis: match elapsed {
                Some(millis) => millis as u64,
                None => 0,
            },
            counter: if succeeded {
                Counter::Requests
            } else {
                Counter::Errors
            },
            attributes: seq![("sql"@, sql@), ("cluster_id"@, engine.cluster@)],
        }),
{
}

/// The offsets of the partition that is named are told.
pub proof fn offset_stage_takes_what_it_is_given<P, S, H>(
    engine: Mysql<P, S, H>,
    topition: &Topition,
    operation: Connected<StageOffsets>,
)
    requires
        call_ensures(
            Mysql::<P, S, H>::offset_stage,
            (&engine, topition),
            operation,
        ),
    ensures
        operation.deep_view() == ConnectedView::Open(
            StageOffsetsView { cluster: engine.cluster@, topition: topition.deep_view() },
        ),
{
}

/// The offsets that are asked for are listed, in their order.
pub proof fn list_offsets_takes_what_it_is_given<P, S, H>(
    engine: Mysql<P, S, H>,
    isolation_level: IsolationLevel,
    offsets: &[(Topition, ListOffset)],
    operation: Connected<InSequence<ListOne, (Topition, ListOffsetResponse)>>,
)
    requires
        call_ensures(
            Mysql::<P, S, H>::list_offsets,
            (&engine, isolation_level, offsets),
            operation,
        ),
    ensures
        operation.deep_view() == ConnectedView::Open(
            in_sequence::<ListOneView, (TopitionView, ListOffsetResponse)>(
                offsets.deep_view().map_values(offset_listing(engine.cluster@)),
            ),
        ),
{
}

/// The offsets of the group that is named are committed, in their order.
pub proof fn offset_commit_takes_what_it_is_given<P, S, H>(
    engine: Mysql<P, S, H>,
    group_id: &str,
    retention_time_ms: Option<u64>,
    offsets: &[(Topition, OffsetCommitRequest)],
    operation: Connected<InSequence<CommitOne, (Topition, ErrorCode)>>,
)
    requires
        call_ensures(
            Mysql::<P, S, H>::offset_commit,
            (&engine, group_id, retention_time_ms, offsets),
            operation,
        ),
    ensures
        operation.deep_view() == ConnectedView::Open(
            in_sequence::<CommitOneView, (TopitionView, ErrorCode)>(
                offsets.deep_view().map_values(offset_commitment(engine.cluster@, group_id@)),
            ),
        ),
{
}

/// The offsets of the group that is named are looked up, in the order of the partitions; without a
/// group there are none.
pub proof fn offset_fetch_takes_what_it_is_given<P, S, H>(
    engine: Mysql<P, S, H>,
    group_id: Option<&str>,
    topics: &[Topition],
    require_stable: Option<bool>,
    operation: Connected<OffsetFetch>,
)
    requires
        call_ensures(
            Mysql::<P, S, H>::offset_fetch,
            (&engine, group_id, topics, require_stable),
            operation,
        ),
    ensures
        operation.deep_view() == ConnectedView::Open(
            OffsetFetchView {
                lookups: in_sequence(
                    match group_id {
                        Some(group_id) => topics.deep_view().map_values(
                            offset_lookup(engine.cluster@, group_id@),
                        ),
                        None => Seq::empty(),
                    },
                ),
            },
        ),
{
}

/// The offsets of the group that is named are told.
pub proof fn committed_offset_topitions_takes_what_it_is_given<P, S, H>(
    engine: Mysql<P, S, H>,
    group_id: &str,
    operation: Connected<CommittedOffsets>,
)
    requires
        call_ensures(
            Mysql::<P, S, H>::committed_offset_topitions,
            (&engine, group_id),
            operation,
        ),
    ensures
        operation.deep_view() == ConnectedView::Open(
            CommittedOffsetsView { cluster: engine.cluster@, group: group_id@ },
        ),
{
}

/// A producer is initialised with what it came with, and with a random number.
pub proof fn init_producer_takes_what_it_is_given<P, S, H>(
    engine: Mysql<P, S, H>,
    transaction_id: Option<&str>,
    transaction_timeout_ms: i32,
    producer_id: Option<i64>,
    producer_epoch: Option<i16>,
    operation: Transaction<InitProducer, ProducerIdResponse>,
)
    requires
        call_ensures(
            Mysql::<P, S, H>::init_producer,
            (
                &engine,
                transaction_id,
                transaction_timeout_ms,
                producer_id,
                producer_epoch,
            ),
            operation,
        ),
    ensures
        exists|random: i64|
            operation.deep_view() == producer_init(
                engine.cluster@,
                transaction_id.deep_view(),
                transaction_timeout_ms,
                #[trigger] identity(producer_id, producer_epoch, random),
            ),
{
}

/// A producer is initialised with what it came with, and with the number that is given.
pub proof fn init_producer_from_takes_what_it_is_given<P, S, H>(
    engine: Mysql<P, S, H>,
    transaction_id: Option<&str>,
    transaction_timeout_ms: i32,
    producer_id: Option<i64>,
    producer_epoch: Option<i16>,
    random: i64,
    operation: Transaction<InitProducer, ProducerIdResponse>,
)
    requires
        call_ensures(
            Mysql::<P, S, H>::init_producer_from,
            (
                &engine,
                transaction_id,
                transaction_timeout_ms,
                producer_id,
                producer_epoch,
                random,
            ),
            operation,
        ),
    ensures
        operation.deep_view() == producer_init(
            engine.cluster@,
            transaction_id.deep_view(),
            transaction_timeout_ms,
            identity(producer_id, producer_epoch, random),
        ),
{
}

/// The group that is named goes with the transaction that is named, for its producer in its epoch.
pub proof fn txn_add_offsets_takes_what_it_is_given<P, S, H>(
    engine: Mysql<P, S, H>,
    transaction_id: &str,
    producer_id: i64,
    producer_epoch: i16,
    group_id: &str,
    operation: Connected<AddOffsets>,
)
    requires
        call_ensures(
            Mysql::<P, S, H>::txn_add_offsets,
            (&engine, transaction_id, producer_id, producer_epoch, group_id),
            operation,
        ),
    ensures
        operation.deep_view() == ConnectedView::Open(
            AddOffsetsView {
                cluster: engine.cluster@,
                transaction: transaction_id@,
                producer_id,
                producer_epoch,
                group: group_id@,
            },
        ),
{
}

/// A batch is added to the partition that is named, for the transaction that is named; it is held
/// against a schema where there is a registry, and stored in a lake where there is one.
pub proof fn produce_takes_what_it_is_given<P, S, H>(
    engine: Mysql<P, S, H>,
    transaction_id: Option<&str>,
    topition: &Topition,
    batch: BatchHeader,
    operation: Transaction<ProduceInTx, i64>,
)
    requires
        call_ensures(
            Mysql::<P, S, H>::produce,
            (&engine, transaction_id, topition, batch),
            operation,
        ),
    ensures
        operation.deep_view() == TransactionView::<ProduceInTxView, i64>::Open(
            ProduceInTxView {
                cluster: engine.cluster@,
                transaction: transaction_id.deep_view(),
                topition: topition.deep_view(),
                header: batch,
                validates: engine.schemas is Some,
                stores: engine.lake is Some,
                stage: ProduceStageView::Topition,
            },
        ),
{
}

/// The transaction that is named ends for its producer in its epoch, and ends as it is told to:
/// committed or aborted.
pub proof fn txn_end_takes_what_it_is_given<P, S, H>(
    engine: Mysql<P, S, H>,
    transaction_id: &str,
    producer_id: i64,
    producer_epoch: i16,
    committed: bool,
    operation: Transaction<EndTxn, ErrorCode>,
)
    requires
        call_ensures(
            Mysql::<P, S, H>::txn_end,
            (&engine, transaction_id, producer_id, producer_epoch, committed),
            operation,
        ),
    ensures
        operation.deep_view() == TransactionView::<EndTxnView, ErrorCode>::Open(
            EndTxnView {
                cluster: engine.cluster@,
                name: transaction_id@,
                producer_id,
                producer_epoch,
                committed,
                validates: engine.schemas is Some,
                stores: engine.lake is Some,
                topitions: seq![],
                overlaps: seq![],
                stage: EndStageView::Topitions,
            },
        ),
{
}

/// The topic that is described is created under a random identifier.
pub proof fn create_topic_takes_what_it_is_given<P, S, H>(
    engine: Mysql<P, S, H>,
    topic: CreatableTopic,
    validate_only: bool,
    operation: Transaction<CreateTopic, Uuid>,
)
    requires
        call_ensures(
            Mysql::<P, S, H>::create_topic,
            (&engine, topic, validate_only),
            operation,
        ),
    ensures
        exists|id: Seq<u8>|
            is_v4(id) && operation.deep_view() == #[trigger] topic_creation(
                engine.cluster@,
                topic.deep_view(),
                id,
            ),
{
}

/// The topic that is described is created under the identifier that is given.
pub proof fn create_topic_as_takes_what_it_is_given<P, S, H>(
    engine: Mysql<P, S, H>,
    topic: CreatableTopic,
    id: Uuid,
    operation: Transaction<CreateTopic, Uuid>,
)
    requires
        call_ensures(
            Mysql::<P, S, H>::create_topic_as,
            (&engine, topic, id),
            operation,
        ),
    ensures
        operation.deep_view() == topic_creation(
            engine.cluster@,
            topic.deep_view(),
            id.deep_view(),
        ),
{
}

/// A topic is deleted by its name, or looked up by its identifier first.
pub proof fn delete_topic_takes_what_it_is_given<P, S, H>(
    engine: Mysql<P, S, H>,
    topic: &TopicId,
    operation: Connected<DeleteTopic>,
)
    requires
        call_ensures(
            Mysql::<P, S, H>::delete_topic,
            (&engine, topic),
            operation,
        ),
    ensures
        operation.deep_view() == ConnectedView::Open(
            DeleteTopicView {
                cluster: engine.cluster@,
                stage: match topic.deep_view() {
                    TopicIdView::Name(name) => DeleteStageView::Delete(name),
                    TopicIdView::Id(id) => DeleteStageView::Lookup(id),
                },
            },
        ),
{
}

/// The records of the topics that are listed are deleted, in their order.
pub proof fn delete_records_takes_what_it_is_given<P, S, H>(
    engine: Mysql<P, S, H>,
    topics: &[DeleteRecordsTopic],
    operation: Connected<InSequence<DeleteTopicRecords, DeleteRecordsTopicResult>>,
)
    requires
        call_ensures(
            Mysql::<P, S, H>::delete_records,
            (&engine, topics),
            operation,
        ),
    ensures
        operation.deep_view() == ConnectedView::Open(
            in_sequence::<DeleteTopicRecordsView, DeleteRecordsTopicResultView>(
                topics.deep_view().map_values(record_deletion(engine.cluster@)),
            ),
        ),
{
}

/// The offsets that are listed are committed with their transaction, in this cluster.
pub proof fn txn_offset_commit_takes_what_it_is_given<P, S, H>(
    engine: Mysql<P, S, H>,
    offsets: TxnOffsetCommitRequest,
    operation: Transaction<TxnOffsetCommit, Vec<TxnOffsetCommitResponseTopic>>,
)
    requires
        call_ensures(
            Mysql::<P, S, H>::txn_offset_commit,
            (&engine, offsets),
            operation,
        ),
    ensures
        operation.deep_view() == TransactionView::<
            TxnOffsetCommitView,
            Seq<TxnOffsetCommitResponseTopicView>,
        >::Open(
            TxnOffsetCommitView {
                cluster: engine.cluster@,
                offsets: offsets.deep_view(),
                stage: CommitStage::Lookup,
            },
        ),
{
}

} // verus!
