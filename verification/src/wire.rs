//! What clients ask and what they are answered.

use vstd::prelude::*;

use crate::error::ErrorCode;
use crate::ident::Uuid;
use crate::script::{add_item, no_items};
use crate::value::copy_opt_text;

verus! {

/// A partition of a topic.
#[derive(Debug)]
pub struct Topition {
    pub topic: String,
    pub partition: i32,
}

/// What [`Topition`] stands for.
pub struct TopitionView {
    pub topic: Seq<char>,
    pub partition: i32,
}

impl DeepView for Topition {
    type V = TopitionView;

    open spec fn deep_view(&self) -> TopitionView {
        TopitionView {
            topic: self.topic@,
            partition: self.partition,
        }
    }
}

/// How a topic is named by a client.
#[derive(Debug)]
pub enum TopicId {
    Name(String),
    Id(Uuid),
}

/// What [`TopicId`] stands for.
pub enum TopicIdView {
    Name(Seq<char>),
    Id(Seq<u8>),
}

impl DeepView for TopicId {
    type V = TopicIdView;

    open spec fn deep_view(&self) -> TopicIdView {
        match self {
            TopicId::Name(a) => TopicIdView::Name(a@),
            TopicId::Id(a) => TopicIdView::Id(a.deep_view()),
        }
    }
}

/// A configuration entry of a topic.
#[derive(Debug)]
pub struct TopicConfig {
    pub name: String,
    pub value: Option<String>,
}

/// What [`TopicConfig`] stands for.
pub struct TopicConfigView {
    pub name: Seq<char>,
    pub value: Option<Seq<char>>,
}

impl DeepView for TopicConfig {
    type V = TopicConfigView;

    open spec fn deep_view(&self) -> TopicConfigView {
        TopicConfigView {
            name: self.name@,
            value: self.value.deep_view(),
        }
    }
}

/// A topic to create.
#[derive(Debug)]
pub struct CreatableTopic {
    pub name: String,
    pub num_partitions: i32,
    pub replication_factor: i16,
    pub configs: Option<Vec<TopicConfig>>,
}

/// What [`CreatableTopic`] stands for.
pub struct CreatableTopicView {
    pub name: Seq<char>,
    pub num_partitions: i32,
    pub replication_factor: i16,
    pub configs: Option<Seq<TopicConfigView>>,
}

impl DeepView for CreatableTopic {
    type V = CreatableTopicView;

    open spec fn deep_view(&self) -> CreatableTopicView {
        CreatableTopicView {
            name: self.name@,
            num_partitions: self.num_partitions,
            replication_factor: self.replication_factor,
            configs: self.configs.deep_view(),
        }
    }
}

/// The offset of a partition up to which records go.
#[derive(Clone, Copy, Debug, PartialEq, Eq, Structural)]
pub struct DeleteRecordsPartition {
    pub partition_index: i32,
    pub offset: i64,
}

impl DeepView for DeleteRecordsPartition {
    type V = DeleteRecordsPartition;

    open spec fn deep_view(&self) -> DeleteRecordsPartition {
        *self
    }
}

/// The records to delete of a topic.
#[derive(Debug)]
pub struct DeleteRecordsTopic {
    pub name: String,
    pub partitions: Option<Vec<DeleteRecordsPartition>>,
}

/// What [`DeleteRecordsTopic`] stands for.
pub struct DeleteRecordsTopicView {
    pub name: Seq<char>,
    pub partitions: Option<Seq<DeleteRecordsPartition>>,
}

impl DeepView for DeleteRecordsTopic {
    type V = DeleteRecordsTopicView;

    open spec fn deep_view(&self) -> DeleteRecordsTopicView {
        DeleteRecordsTopicView {
            name: self.name@,
            partitions: self.partitions.deep_view(),
        }
    }
}

/// What became of the records of a partition.
#[derive(Clone, Copy, Debug, PartialEq, Eq, Structural)]
pub struct DeleteRecordsPartitionResult {
    pub partition_index: i32,
    pub low_watermark: i64,
    pub error_code: ErrorCode,
}

impl DeepView for DeleteRecordsPartitionResult {
    type V = DeleteRecordsPartitionResult;

    open spec fn deep_view(&self) -> DeleteRecordsPartitionResult {
        *self
    }
}

/// What became of the records of a topic.
#[derive(Debug)]
pub struct DeleteRecordsTopicResult {
    pub name: String,
    pub partitions: Vec<DeleteRecordsPartitionResult>,
}

/// What [`DeleteRecordsTopicResult`] stands for.
pub struct DeleteRecordsTopicResultView {
    pub name: Seq<char>,
    pub partitions: Seq<DeleteRecordsPartitionResult>,
}

impl DeepView for DeleteRecordsTopicResult {
    type V = DeleteRecordsTopicResultView;

    open spec fn deep_view(&self) -> DeleteRecordsTopicResultView {
        DeleteRecordsTopicResultView {
            name: self.name@,
            partitions: self.partitions.deep_view(),
        }
    }
}

/// A broker of the cluster.
#[derive(Debug)]
pub struct DescribeClusterBroker {
    pub broker_id: i32,
    pub host: String,
    pub port: i32,
    pub rack: Option<String>,
}

/// What [`DescribeClusterBroker`] stands for.
pub struct DescribeClusterBrokerView {
    pub broker_id: i32,
    pub host: Seq<char>,
    pub port: i32,
    pub rack: Option<Seq<char>>,
}

impl DeepView for DescribeClusterBroker {
    type V = DescribeClusterBrokerView;

    open spec fn deep_view(&self) -> DescribeClusterBrokerView {
        DescribeClusterBrokerView {
            broker_id: self.broker_id,
            host: self.host@,
            port: self.port,
            rack: self.rack.deep_view(),
        }
    }
}

/// The offsets that bound a partition.
#[derive(Clone, Copy, Debug, PartialEq, Eq, Structural)]
pub struct OffsetStage {
    pub last_stable: i64,
    pub high_watermark: i64,
    pub log_start: i64,
}

impl DeepView for OffsetStage {
    type V = OffsetStage;

    open spec fn deep_view(&self) -> OffsetStage {
        *self
    }
}

/// A time after the epoch.
#[derive(Clone, Copy, Debug, PartialEq, Eq, Structural)]
pub struct Moment {
    pub secs: u64,
    /// The part of a second, below one thousand million.
    pub nanos: u32,
}

impl DeepView for Moment {
    type V = Moment;

    open spec fn deep_view(&self) -> Moment {
        *self
    }
}

/// A broker that makes itself known.
#[derive(Debug)]
pub struct BrokerRegistrationRequest {
    pub cluster_id: String,
}

/// The offset that a group commits.
#[derive(Clone, Copy, Debug, PartialEq, Eq, Structural)]
pub struct OffsetCommitRequest {
    pub offset: i64,
}

impl DeepView for OffsetCommitRequest {
    type V = OffsetCommitRequest;

    open spec fn deep_view(&self) -> OffsetCommitRequest {
        *self
    }
}

/// Which records a client wants to see.
#[derive(Clone, Copy, Debug, PartialEq, Eq, Structural)]
pub enum IsolationLevel {
    ReadUncommitted,
    ReadCommitted,
}

impl DeepView for IsolationLevel {
    type V = IsolationLevel;

    open spec fn deep_view(&self) -> IsolationLevel {
        *self
    }
}

/// Which offset of a partition is asked for.
#[derive(Clone, Copy, Debug, PartialEq, Eq, Structural)]
pub enum ListOffset {
    Earliest,
    Latest,
    /// The first at or after a time; `None` is a time before the epoch.
    Timestamp(Option<Moment>),
}

impl DeepView for ListOffset {
    type V = ListOffset;

    open spec fn deep_view(&self) -> ListOffset {
        *self
    }
}

/// An offset of a partition.
#[derive(Clone, Copy, Debug, PartialEq, Eq, Structural)]
pub struct ListOffsetResponse {
    pub error_code: ErrorCode,
    pub timestamp: Option<Moment>,
    pub offset: Option<i64>,
}

impl DeepView for ListOffsetResponse {
    type V = ListOffsetResponse;

    open spec fn deep_view(&self) -> ListOffsetResponse {
        *self
    }
}

/// A partition as metadata tells of it.
#[derive(Debug)]
pub struct MetadataResponsePartition {
    pub error_code: ErrorCode,
    pub partition_index: i32,
    pub leader_id: i32,
    pub leader_epoch: Option<i32>,
    pub replica_nodes: Vec<i32>,
    pub isr_nodes: Vec<i32>,
    pub offline_replicas: Vec<i32>,
}

/// What [`MetadataResponsePartition`] stands for.
pub struct MetadataResponsePartitionView {
    pub error_code: ErrorCode,
    pub partition_index: i32,
    pub leader_id: i32,
    pub leader_epoch: Option<i32>,
    pub replica_nodes: Seq<i32>,
    pub isr_nodes: Seq<i32>,
    pub offline_replicas: Seq<i32>,
}

impl DeepView for MetadataResponsePartition {
    type V = MetadataResponsePartitionView;

    open spec fn deep_view(&self) -> MetadataResponsePartitionView {
        MetadataResponsePartitionView {
            error_code: self.error_code,
            partition_index: self.partition_index,
            leader_id: self.leader_id,
            leader_epoch: self.leader_epoch,
            replica_nodes: self.replica_nodes.deep_view(),
            isr_nodes: self.isr_nodes.deep_view(),
            offline_replicas: self.offline_replicas.deep_view(),
        }
    }
}

/// A topic as metadata tells of it.
#[derive(Debug)]
pub struct MetadataResponseTopic {
    pub error_code: ErrorCode,
    pub name: Option<String>,
    pub topic_id: Option<Uuid>,
    pub is_internal: Option<bool>,
    pub partitions: Vec<MetadataResponsePartition>,
}

/// What [`MetadataResponseTopic`] stands for.
pub struct MetadataResponseTopicView {
    pub error_code: ErrorCode,
    pub name: Option<Seq<char>>,
    pub topic_id: Option<Seq<u8>>,
    pub is_internal: Option<bool>,
    pub partitions: Seq<MetadataResponsePartitionView>,
}

impl DeepView for MetadataResponseTopic {
    type V = MetadataResponseTopicView;

    open spec fn deep_view(&self) -> MetadataResponseTopicView {
        MetadataResponseTopicView {
            error_code: self.error_code,
            name: self.name.deep_view(),
            topic_id: self.topic_id.deep_view(),
            is_internal: self.is_internal,
            partitions: self.partitions.deep_view(),
        }
    }
}

/// A broker as metadata tells of it.
#[derive(Debug)]
pub struct MetadataResponseBroker {
    pub node_id: i32,
    pub host: String,
    pub port: i32,
    pub rack: Option<String>,
}

/// What [`MetadataResponseBroker`] stands for.
pub struct MetadataResponseBrokerView {
    pub node_id: i32,
    pub host: Seq<char>,
    pub port: i32,
    pub rack: Option<Seq<char>>,
}

impl DeepView for MetadataResponseBroker {
    type V = MetadataResponseBrokerView;

    open spec fn deep_view(&self) -> MetadataResponseBrokerView {
        MetadataResponseBrokerView {
            node_id: self.node_id,
            host: self.host@,
            port: self.port,
            rack: self.rack.deep_view(),
        }
    }
}

/// The cluster, its brokers and its topics.
#[derive(Debug)]
pub struct MetadataResponse {
    pub cluster: Option<String>,
    pub controller: Option<i32>,
    pub brokers: Vec<MetadataResponseBroker>,
    pub topics: Vec<MetadataResponseTopic>,
}

/// What [`MetadataResponse`] stands for.
pub struct MetadataResponseView {
    pub cluster: Option<Seq<char>>,
    pub controller: Option<i32>,
    pub brokers: Seq<MetadataResponseBrokerView>,
    pub topics: Seq<MetadataResponseTopicView>,
}

impl DeepView for MetadataResponse {
    type V = MetadataResponseView;

    open spec fn deep_view(&self) -> MetadataResponseView {
        MetadataResponseView {
            cluster: self.cluster.deep_view(),
            controller: self.controller,
            brokers: self.brokers.deep_view(),
            topics: self.topics.deep_view(),
        }
    }
}

/// What a configuration belongs to.
#[derive(Clone, Copy, Debug, PartialEq, Eq, Structural)]
pub enum ConfigResource {
    Topic,
    /// Anything else, by its number in the protocol.
    Other(i8),
}

impl DeepView for ConfigResource {
    type V = ConfigResource;

    open spec fn deep_view(&self) -> ConfigResource {
        *self
    }
}

/// Where a configuration value comes from.
#[derive(Clone, Copy, Debug, PartialEq, Eq, Structural)]
pub enum ConfigSource {
    DynamicTopicConfig,
}

impl DeepView for ConfigSource {
    type V = ConfigSource;

    open spec fn deep_view(&self) -> ConfigSource {
        *self
    }
}

/// The type of a configuration value.
#[derive(Clone, Copy, Debug, PartialEq, Eq, Structural)]
pub enum ConfigType {
    Text,
}

impl DeepView for ConfigType {
    type V = ConfigType;

    open spec fn deep_view(&self) -> ConfigType {
        *self
    }
}

/// A configuration entry.
#[derive(Debug)]
pub struct DescribeConfigsResourceResult {
    pub name: String,
    pub value: Option<String>,
    pub read_only: bool,
    pub is_default: Option<bool>,
    pub is_sensitive: bool,
    pub config_source: Option<ConfigSource>,
    pub config_type: Option<ConfigType>,
    pub documentation: Option<String>,
}

/// What [`DescribeConfigsResourceResult`] stands for.
pub struct DescribeConfigsResourceResultView {
    pub name: Seq<char>,
    pub value: Option<Seq<char>>,
    pub read_only: bool,
    pub is_default: Option<bool>,
    pub is_sensitive: bool,
    pub config_source: Option<ConfigSource>,
    pub config_type: Option<ConfigType>,
    pub documentation: Option<Seq<char>>,
}

impl DeepView for DescribeConfigsResourceResult {
    type V = DescribeConfigsResourceResultView;

    open spec fn deep_view(&self) -> DescribeConfigsResourceResultView {
        DescribeConfigsResourceResultView {
            name: self.name@,
            value: self.value.deep_view(),
            read_only: self.read_only,
            is_default: self.is_default,
            is_sensitive: self.is_sensitive,
            config_source: self.config_source,
            config_type: self.config_type,
            documentation: self.documentation.deep_view(),
        }
    }
}

/// The configuration of a resource.
#[derive(Debug)]
pub struct DescribeConfigsResult {
    pub error_code: ErrorCode,
    /// The code whose text is the message for the client.
    pub error_message: Option<ErrorCode>,
    pub resource: ConfigResource,
    pub resource_name: String,
    pub configs: Vec<DescribeConfigsResourceResult>,
}

/// What [`DescribeConfigsResult`] stands for.
pub struct DescribeConfigsResultView {
    pub error_code: ErrorCode,
    pub error_message: Option<ErrorCode>,
    pub resource: ConfigResource,
    pub resource_name: Seq<char>,
    pub configs: Seq<DescribeConfigsResourceResultView>,
}

impl DeepView for DescribeConfigsResult {
    type V = DescribeConfigsResultView;

    open spec fn deep_view(&self) -> DescribeConfigsResultView {
        DescribeConfigsResultView {
            error_code: self.error_code,
            error_message: self.error_message,
            resource: self.resource,
            resource_name: self.resource_name@,
            configs: self.configs.deep_view(),
        }
    }
}

/// A partition, described.
#[derive(Debug)]
pub struct DescribeTopicPartitionsResponsePartition {
    pub error_code: ErrorCode,
    pub partition_index: i32,
    pub leader_id: i32,
    pub leader_epoch: i32,
    pub replica_nodes: Vec<i32>,
    pub isr_nodes: Vec<i32>,
    pub eligible_leader_replicas: Vec<i32>,
    pub last_known_elr: Vec<i32>,
    pub offline_replicas: Vec<i32>,
}

/// What [`DescribeTopicPartitionsResponsePartition`] stands for.
pub struct DescribeTopicPartitionsResponsePartitionView {
    pub error_code: ErrorCode,
    pub partition_index: i32,
    pub leader_id: i32,
    pub leader_epoch: i32,
    pub replica_nodes: Seq<i32>,
    pub isr_nodes: Seq<i32>,
    pub eligible_leader_replicas: Seq<i32>,
    pub last_known_elr: Seq<i32>,
    pub offline_replicas: Seq<i32>,
}

impl DeepView for DescribeTopicPartitionsResponsePartition {
    type V = DescribeTopicPartitionsResponsePartitionView;

    open spec fn deep_view(&self) -> DescribeTopicPartitionsResponsePartitionView {
        DescribeTopicPartitionsResponsePartitionView {
            error_code: self.error_code,
            partition_index: self.partition_index,
            leader_id: self.leader_id,
            leader_epoch: self.leader_epoch,
            replica_nodes: self.replica_nodes.deep_view(),
            isr_nodes: self.isr_nodes.deep_view(),
            eligible_leader_replicas: self.eligible_leader_replicas.deep_view(),
            last_known_elr: self.last_known_elr.deep_view(),
            offline_replicas: self.offline_replicas.deep_view(),
        }
    }
}

/// A topic, described.
#[derive(Debug)]
pub struct DescribeTopicPartitionsResponseTopic {
    pub error_code: ErrorCode,
    pub name: Option<String>,
    pub topic_id: Uuid,
    pub is_internal: bool,
    pub partitions: Vec<DescribeTopicPartitionsResponsePartition>,
    pub topic_authorized_operations: i32,
}

/// What [`DescribeTopicPartitionsResponseTopic`] stands for.
pub struct DescribeTopicPartitionsResponseTopicView {
    pub error_code: ErrorCode,
    pub name: Option<Seq<char>>,
    pub topic_id: Seq<u8>,
    pub is_internal: bool,
    pub partitions: Seq<DescribeTopicPartitionsResponsePartitionView>,
    pub topic_authorized_operations: i32,
}

impl DeepView for DescribeTopicPartitionsResponseTopic {
    type V = DescribeTopicPartitionsResponseTopicView;

    open spec fn deep_view(&self) -> DescribeTopicPartitionsResponseTopicView {
        DescribeTopicPartitionsResponseTopicView {
            error_code: self.error_code,
            name: self.name.deep_view(),
            topic_id: self.topic_id.deep_view(),
            is_internal: self.is_internal,
            partitions: self.partitions.deep_view(),
            topic_authorized_operations: self.topic_authorized_operations,
        }
    }
}

/// A consumer group in a listing.
#[derive(Debug)]
pub struct ListedGroup {
    pub group_id: String,
    pub protocol_type: String,
    pub group_state: Option<String>,
    pub group_type: Option<String>,
}

/// What [`ListedGroup`] stands for.
pub struct ListedGroupView {
    pub group_id: Seq<char>,
    pub protocol_type: Seq<char>,
    pub group_state: Option<Seq<char>>,
    pub group_type: Option<Seq<char>>,
}

impl DeepView for ListedGroup {
    type V = ListedGroupView;

    open spec fn deep_view(&self) -> ListedGroupView {
        ListedGroupView {
            group_id: self.group_id@,
            protocol_type: self.protocol_type@,
            group_state: self.group_state.deep_view(),
            group_type: self.group_type.deep_view(),
        }
    }
}

/// What became of a group to delete.
#[derive(Debug)]
pub struct DeletableGroupResult {
    pub group_id: String,
    pub error_code: ErrorCode,
}

/// What [`DeletableGroupResult`] stands for.
pub struct DeletableGroupResultView {
    pub group_id: Seq<char>,
    pub error_code: ErrorCode,
}

impl DeepView for DeletableGroupResult {
    type V = DeletableGroupResultView;

    open spec fn deep_view(&self) -> DeletableGroupResultView {
        DeletableGroupResultView {
            group_id: self.group_id@,
            error_code: self.error_code,
        }
    }
}

/// What is known of a group.
#[derive(Debug)]
pub enum GroupLookup {
    /// The detail of the group, as JSON.
    Found(String),
    Missing(ErrorCode),
}

/// What [`GroupLookup`] stands for.
pub enum GroupLookupView {
    Found(Seq<char>),
    Missing(ErrorCode),
}

impl DeepView for GroupLookup {
    type V = GroupLookupView;

    open spec fn deep_view(&self) -> GroupLookupView {
        match self {
            GroupLookup::Found(a) => GroupLookupView::Found(a@),
            GroupLookup::Missing(a) => GroupLookupView::Missing(*a),
        }
    }
}

/// A group and what is known of it.
#[derive(Debug)]
pub struct NamedGroupDetail {
    pub name: String,
    pub detail: GroupLookup,
}

/// What [`NamedGroupDetail`] stands for.
pub struct NamedGroupDetailView {
    pub name: Seq<char>,
    pub detail: GroupLookupView,
}

impl DeepView for NamedGroupDetail {
    type V = NamedGroupDetailView;

    open spec fn deep_view(&self) -> NamedGroupDetailView {
        NamedGroupDetailView {
            name: self.name@,
            detail: self.detail.deep_view(),
        }
    }
}

/// A version of what is stored.
#[derive(Debug)]
pub struct Version {
    pub e_tag: Option<String>,
    pub version: Option<String>,
}

/// What [`Version`] stands for.
pub struct VersionView {
    pub e_tag: Option<Seq<char>>,
    pub version: Option<Seq<char>>,
}

impl DeepView for Version {
    type V = VersionView;

    open spec fn deep_view(&self) -> VersionView {
        VersionView {
            e_tag: self.e_tag.deep_view(),
            version: self.version.deep_view(),
        }
    }
}

/// The identity of a producer.
#[derive(Clone, Copy, Debug, PartialEq, Eq, Structural)]
pub struct ProducerIdResponse {
    pub error: ErrorCode,
    pub id: i64,
    pub epoch: i16,
}

impl DeepView for ProducerIdResponse {
    type V = ProducerIdResponse;

    open spec fn deep_view(&self) -> ProducerIdResponse {
        *self
    }
}

/// Partitions of a topic to add to a transaction.
#[derive(Debug)]
pub struct AddPartitionsToTxnTopic {
    pub name: String,
    pub partitions: Option<Vec<i32>>,
}

/// What [`AddPartitionsToTxnTopic`] stands for.
pub struct AddPartitionsToTxnTopicView {
    pub name: Seq<char>,
    pub partitions: Option<Seq<i32>>,
}

impl DeepView for AddPartitionsToTxnTopic {
    type V = AddPartitionsToTxnTopicView;

    open spec fn deep_view(&self) -> AddPartitionsToTxnTopicView {
        AddPartitionsToTxnTopicView {
            name: self.name@,
            partitions: self.partitions.deep_view(),
        }
    }
}

/// A transaction and the partitions to add to it.
#[derive(Debug)]
pub struct AddPartitionsToTxnTransaction {
    pub transactional_id: String,
    pub producer_id: i64,
    pub producer_epoch: i16,
    pub topics: Option<Vec<AddPartitionsToTxnTopic>>,
}

/// What [`AddPartitionsToTxnTransaction`] stands for.
pub struct AddPartitionsToTxnTransactionView {
    pub transactional_id: Seq<char>,
    pub producer_id: i64,
    pub producer_epoch: i16,
    pub topics: Option<Seq<AddPartitionsToTxnTopicView>>,
}

impl DeepView for AddPartitionsToTxnTransaction {
    type V = AddPartitionsToTxnTransactionView;

    open spec fn deep_view(&self) -> AddPartitionsToTxnTransactionView {
        AddPartitionsToTxnTransactionView {
            transactional_id: self.transactional_id@,
            producer_id: self.producer_id,
            producer_epoch: self.producer_epoch,
            topics: self.topics.deep_view(),
        }
    }
}

/// The transaction of a request that knows one.
#[derive(Debug)]
pub struct SingleTxn {
    pub transaction_id: String,
    pub producer_id: i64,
    pub producer_epoch: i16,
    pub topics: Vec<AddPartitionsToTxnTopic>,
}

/// What [`SingleTxn`] stands for.
pub struct SingleTxnView {
    pub transaction_id: Seq<char>,
    pub producer_id: i64,
    pub producer_epoch: i16,
    pub topics: Seq<AddPartitionsToTxnTopicView>,
}

impl DeepView for SingleTxn {
    type V = SingleTxnView;

    open spec fn deep_view(&self) -> SingleTxnView {
        SingleTxnView {
            transaction_id: self.transaction_id@,
            producer_id: self.producer_id,
            producer_epoch: self.producer_epoch,
            topics: self.topics.deep_view(),
        }
    }
}

/// Partitions to add to transactions.
#[derive(Debug)]
pub enum TxnAddPartitionsRequest {
    VersionZeroToThree(SingleTxn),
    VersionFourPlus(Vec<AddPartitionsToTxnTransaction>),
}

/// What [`TxnAddPartitionsRequest`] stands for.
pub enum TxnAddPartitionsRequestView {
    VersionZeroToThree(SingleTxnView),
    VersionFourPlus(Seq<AddPartitionsToTxnTransactionView>),
}

impl DeepView for TxnAddPartitionsRequest {
    type V = TxnAddPartitionsRequestView;

    open spec fn deep_view(&self) -> TxnAddPartitionsRequestView {
        match self {
            TxnAddPartitionsRequest::VersionZeroToThree(a) => {
                TxnAddPartitionsRequestView::VersionZeroToThree(a.deep_view())
            },
            TxnAddPartitionsRequest::VersionFourPlus(a) => {
                TxnAddPartitionsRequestView::VersionFourPlus(a.deep_view())
            },
        }
    }
}

/// What became of a partition to add.
#[derive(Clone, Copy, Debug, PartialEq, Eq, Structural)]
pub struct AddPartitionsToTxnPartitionResult {
    pub partition_index: i32,
    pub partition_error_code: ErrorCode,
}

impl DeepView for AddPartitionsToTxnPartitionResult {
    type V = AddPartitionsToTxnPartitionResult;

    open spec fn deep_view(&self) -> AddPartitionsToTxnPartitionResult {
        *self
    }
}

/// What became of the partitions of a topic to add.
#[derive(Debug)]
pub struct AddPartitionsToTxnTopicResult {
    pub name: String,
    pub results_by_partition: Vec<AddPartitionsToTxnPartitionResult>,
}

/// What [`AddPartitionsToTxnTopicResult`] stands for.
pub struct AddPartitionsToTxnTopicResultView {
    pub name: Seq<char>,
    pub results_by_partition: Seq<AddPartitionsToTxnPartitionResult>,
}

impl DeepView for AddPartitionsToTxnTopicResult {
    type V = AddPartitionsToTxnTopicResultView;

    open spec fn deep_view(&self) -> AddPartitionsToTxnTopicResultView {
        AddPartitionsToTxnTopicResultView {
            name: self.name@,
            results_by_partition: self.results_by_partition.deep_view(),
        }
    }
}

/// What became of the partitions to add to a transaction.
#[derive(Debug)]
pub struct AddPartitionsToTxnResult {
    pub transactional_id: String,
    pub topic_results: Vec<AddPartitionsToTxnTopicResult>,
}

/// What [`AddPartitionsToTxnResult`] stands for.
pub struct AddPartitionsToTxnResultView {
    pub transactional_id: Seq<char>,
    pub topic_results: Seq<AddPartitionsToTxnTopicResultView>,
}

impl DeepView for AddPartitionsToTxnResult {
    type V = AddPartitionsToTxnResultView;

    open spec fn deep_view(&self) -> AddPartitionsToTxnResultView {
        AddPartitionsToTxnResultView {
            transactional_id: self.transactional_id@,
            topic_results: self.topic_results.deep_view(),
        }
    }
}

/// The answer to a request to add partitions.
#[derive(Debug)]
pub enum TxnAddPartitionsResponse {
    VersionZeroToThree(Vec<AddPartitionsToTxnTopicResult>),
    VersionFourPlus(Vec<AddPartitionsToTxnResult>),
}

/// What [`TxnAddPartitionsResponse`] stands for.
pub enum TxnAddPartitionsResponseView {
    VersionZeroToThree(Seq<AddPartitionsToTxnTopicResultView>),
    VersionFourPlus(Seq<AddPartitionsToTxnResultView>),
}

impl DeepView for TxnAddPartitionsResponse {
    type V = TxnAddPartitionsResponseView;

    open spec fn deep_view(&self) -> TxnAddPartitionsResponseView {
        match self {
            TxnAddPartitionsResponse::VersionZeroToThree(a) => {
                TxnAddPartitionsResponseView::VersionZeroToThree(a.deep_view())
            },
            TxnAddPartitionsResponse::VersionFourPlus(a) => {
                TxnAddPartitionsResponseView::VersionFourPlus(a.deep_view())
            },
        }
    }
}

/// An offset to commit with a transaction.
#[derive(Debug)]
pub struct TxnOffsetCommitPartition {
    pub partition_index: i32,
    pub committed_offset: i64,
    pub committed_leader_epoch: Option<i32>,
    pub committed_metadata: Option<String>,
}

/// What [`TxnOffsetCommitPartition`] stands for.
pub struct TxnOffsetCommitPartitionView {
    pub partition_index: i32,
    pub committed_offset: i64,
    pub committed_leader_epoch: Option<i32>,
    pub committed_metadata: Option<Seq<char>>,
}

impl DeepView for TxnOffsetCommitPartition {
    type V = TxnOffsetCommitPartitionView;

    open spec fn deep_view(&self) -> TxnOffsetCommitPartitionView {
        TxnOffsetCommitPartitionView {
            partition_index: self.partition_index,
            committed_offset: self.committed_offset,
            committed_leader_epoch: self.committed_leader_epoch,
            committed_metadata: self.committed_metadata.deep_view(),
        }
    }
}

/// The offsets of a topic to commit with a transaction.
#[derive(Debug)]
pub struct TxnOffsetCommitTopic {
    pub name: String,
    pub partitions: Option<Vec<TxnOffsetCommitPartition>>,
}

/// What [`TxnOffsetCommitTopic`] stands for.
pub struct TxnOffsetCommitTopicView {
    pub name: Seq<char>,
    pub partitions: Option<Seq<TxnOffsetCommitPartitionView>>,
}

impl DeepView for TxnOffsetCommitTopic {
    type V = TxnOffsetCommitTopicView;

    open spec fn deep_view(&self) -> TxnOffsetCommitTopicView {
        TxnOffsetCommitTopicView {
            name: self.name@,
            partitions: self.partitions.deep_view(),
        }
    }
}

/// Offsets of a group to commit with a transaction.
#[derive(Debug)]
pub struct TxnOffsetCommitRequest {
    pub transaction_id: String,
    pub group_id: String,
    pub producer_id: i64,
    pub producer_epoch: i16,
    pub generation_id: Option<i32>,
    pub member_id: Option<String>,
    pub topics: Vec<TxnOffsetCommitTopic>,
}

/// What [`TxnOffsetCommitRequest`] stands for.
pub struct TxnOffsetCommitRequestView {
    pub transaction_id: Seq<char>,
    pub group_id: Seq<char>,
    pub producer_id: i64,
    pub producer_epoch: i16,
    pub generation_id: Option<i32>,
    pub member_id: Option<Seq<char>>,
    pub topics: Seq<TxnOffsetCommitTopicView>,
}

impl DeepView for TxnOffsetCommitRequest {
    type V = TxnOffsetCommitRequestView;

    open spec fn deep_view(&self) -> TxnOffsetCommitRequestView {
        TxnOffsetCommitRequestView {
            transaction_id: self.transaction_id@,
            group_id: self.group_id@,
            producer_id: self.producer_id,
            producer_epoch: self.producer_epoch,
            generation_id: self.generation_id,
            member_id: self.member_id.deep_view(),
            topics: self.topics.deep_view(),
        }
    }
}

/// What became of an offset.
#[derive(Clone, Copy, Debug, PartialEq, Eq, Structural)]
pub struct TxnOffsetCommitResponsePartition {
    pub partition_index: i32,
    pub error_code: ErrorCode,
}

impl DeepView for TxnOffsetCommitResponsePartition {
    type V = TxnOffsetCommitResponsePartition;

    open spec fn deep_view(&self) -> TxnOffsetCommitResponsePartition {
        *self
    }
}

/// What became of the offsets of a topic.
#[derive(Debug)]
pub struct TxnOffsetCommitResponseTopic {
    pub name: String,
    pub partitions: Vec<TxnOffsetCommitResponsePartition>,
}

/// What [`TxnOffsetCommitResponseTopic`] stands for.
pub struct TxnOffsetCommitResponseTopicView {
    pub name: Seq<char>,
    pub partitions: Seq<TxnOffsetCommitResponsePartition>,
}

impl DeepView for TxnOffsetCommitResponseTopic {
    type V = TxnOffsetCommitResponseTopicView;

    open spec fn deep_view(&self) -> TxnOffsetCommitResponseTopicView {
        TxnOffsetCommitResponseTopicView {
            name: self.name@,
            partitions: self.partitions.deep_view(),
        }
    }
}

/// What to do with a configuration entry.
#[derive(Clone, Copy, Debug, PartialEq, Eq, Structural)]
pub enum OpType {
    /// Give it a value.
    Put,
    Delete,
    Append,
    Subtract,
    /// A number that names no operation.
    Unknown(i8),
}

impl DeepView for OpType {
    type V = OpType;

    open spec fn deep_view(&self) -> OpType {
        *self
    }
}

/// A change of a configuration entry.
#[derive(Debug)]
pub struct AlterableConfig {
    pub name: String,
    pub config_operation: OpType,
    pub value: Option<String>,
}

/// What [`AlterableConfig`] stands for.
pub struct AlterableConfigView {
    pub name: Seq<char>,
    pub config_operation: OpType,
    pub value: Option<Seq<char>>,
}

impl DeepView for AlterableConfig {
    type V = AlterableConfigView;

    open spec fn deep_view(&self) -> AlterableConfigView {
        AlterableConfigView {
            name: self.name@,
            config_operation: self.config_operation,
            value: self.value.deep_view(),
        }
    }
}

/// The changes of the configuration of a resource.
#[derive(Debug)]
pub struct AlterConfigsResource {
    pub resource_type: i8,
    pub resource_name: String,
    pub configs: Option<Vec<AlterableConfig>>,
}

/// What [`AlterConfigsResource`] stands for.
pub struct AlterConfigsResourceView {
    pub resource_type: i8,
    pub resource_name: Seq<char>,
    pub configs: Option<Seq<AlterableConfigView>>,
}

impl DeepView for AlterConfigsResource {
    type V = AlterConfigsResourceView;

    open spec fn deep_view(&self) -> AlterConfigsResourceView {
        AlterConfigsResourceView {
            resource_type: self.resource_type,
            resource_name: self.resource_name@,
            configs: self.configs.deep_view(),
        }
    }
}

/// What became of the changes.
#[derive(Debug)]
pub struct AlterConfigsResourceResponse {
    pub error_code: ErrorCode,
    pub error_message: Option<String>,
    pub resource_type: i8,
    pub resource_name: String,
}

/// What [`AlterConfigsResourceResponse`] stands for.
pub struct AlterConfigsResourceResponseView {
    pub error_code: ErrorCode,
    pub error_message: Option<Seq<char>>,
    pub resource_type: i8,
    pub resource_name: Seq<char>,
}

impl DeepView for AlterConfigsResourceResponse {
    type V = AlterConfigsResourceResponseView;

    open spec fn deep_view(&self) -> AlterConfigsResourceResponseView {
        AlterConfigsResourceResponseView {
            error_code: self.error_code,
            error_message: self.error_message.deep_view(),
            resource_type: self.resource_type,
            resource_name: self.resource_name@,
        }
    }
}

impl Topition {
    /// A copy.
    pub fn copy(&self) -> (copy: Topition)
        ensures
            copy.deep_view() == self.deep_view(),
    {
        Topition { topic: self.topic.clone(), partition: self.partition }
    }
}

impl TopicId {
    /// A copy.
    pub fn copy(&self) -> (copy: TopicId)
        ensures
            copy.deep_view() == self.deep_view(),
    {
        match self {
            TopicId::Name(name) => TopicId::Name(name.clone()),
            TopicId::Id(id) => TopicId::Id(*id),
        }
    }
}

impl DescribeConfigsResourceResult {
    /// A copy.
    pub fn copy(&self) -> (copy: DescribeConfigsResourceResult)
        ensures
            copy.deep_view() == self.deep_view(),
    {
        DescribeConfigsResourceResult {
            name: self.name.clone(),
            value: copy_opt_text(&self.value),
            read_only: self.read_only,
            is_default: self.is_default,
            is_sensitive: self.is_sensitive,
            config_source: self.config_source,
            config_type: self.config_type,
            documentation: copy_opt_text(&self.documentation),
        }
    }
}

impl DescribeConfigsResult {
    /// A copy.
    pub fn copy(&self) -> (copy: DescribeConfigsResult)
        ensures
            copy.deep_view() == self.deep_view(),
    {
        let mut configs = no_items();
        let mut i: usize = 0;
        while i < self.configs.len()
            invariant
                i <= self.configs.len(),
                configs.deep_view() == self.configs.deep_view().take(i as int),
            decreases self.configs.len() - i,
        {
            add_item(&mut configs, self.configs[i].copy());
            i = i + 1;
            assert(configs.deep_view() =~= self.configs.deep_view().take(i as int));
        }
        assert(configs.deep_view() =~= self.configs.deep_view());
        DescribeConfigsResult {
            error_code: self.error_code,
            error_message: self.error_message,
            resource: self.resource,
            resource_name: self.resource_name.clone(),
            configs,
        }
    }
}

} // verus!
