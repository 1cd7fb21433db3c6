//! The metadata of the cluster and of its topics.

use vstd::prelude::*;

use crate::engine::Mysql;
use crate::error::{ErrorCode, ErrorView};
use crate::ident::{nil_uuid, uuid_of_text, uuid_or_nil, uuid_text, Uuid};
use crate::operation::{Operation, Progress, Turn};
use crate::request::{
    ask, counted, fits, named, no_requests, only, topics, Reply, ReplyView, Request, RequestView,
    Shape,
};
use crate::script::{add_item, count, made_of, no_items};
use crate::sequence::{for_each, in_sequence, InSequence, InSequenceView};
use crate::sql::Sql;
use crate::talk::{
    a_connection_is_taken_first, looks_up, on_a_connection, queries, talk_ends, talks, Exchange,
};
use crate::topics::{CreateTopic, CreateTopicView};
use crate::transaction::{Connected, ConnectedView};
use crate::value::{
    copy_opt_text, statement, statement1, statement2, text, text_value, Value, ValueView,
};
use crate::wire::{
    DescribeClusterBroker, DescribeClusterBrokerView, MetadataResponse, MetadataResponseBroker,
    MetadataResponseBrokerView, MetadataResponsePartition, MetadataResponsePartitionView,
    MetadataResponseTopic, MetadataResponseTopicView, MetadataResponseView, TopicId, TopicIdView,
};

verus! {

/// The metadata of a topic that is looked up.
#[derive(Debug)]
pub struct MetadataTopic {
    pub cluster: String,
    pub node: i32,
    pub topic: TopicId,
}

/// What [`MetadataTopic`] stands for.
pub struct MetadataTopicView {
    pub cluster: Seq<char>,
    pub node: i32,
    pub topic: TopicIdView,
}

impl DeepView for MetadataTopic {
    type V = MetadataTopicView;

    open spec fn deep_view(&self) -> MetadataTopicView {
        MetadataTopicView {
            cluster: self.cluster@,
            node: self.node,
            topic: self.topic.deep_view(),
        }
    }
}

/// A partition, which this node alone leads and replicates.
pub open spec fn metadata_partition(node: i32, partition: int) -> MetadataResponsePartitionView {
    MetadataResponsePartitionView {
        error_code: ErrorCode::NoError,
        partition_index: partition as i32,
        leader_id: node,
        leader_epoch: Some(0),
        replica_nodes: seq![node],
        isr_nodes: seq![node],
        offline_replicas: seq![],
    }
}

/// A topic with its partitions.
pub open spec fn metadata_topic(
    node: i32,
    name: Seq<char>,
    partitions: i32,
    id: Seq<u8>,
) -> MetadataResponseTopicView {
    MetadataResponseTopicView {
        error_code: ErrorCode::NoError,
        name: Some(name),
        topic_id: Some(id),
        is_internal: Some(false),
        partitions: Seq::new(count(partitions), |i: int| metadata_partition(node, i)),
    }
}

/// A topic that is not there.
pub open spec fn metadata_unknown(topic: TopicIdView) -> MetadataResponseTopicView {
    MetadataResponseTopicView {
        error_code: ErrorCode::UnknownTopicOrPartition,
        name: match topic {
            TopicIdView::Name(name) => Some(name),
            TopicIdView::Id(_) => None,
        },
        topic_id: match topic {
            TopicIdView::Name(_) => Some(nil_uuid()),
            TopicIdView::Id(id) => Some(id),
        },
        is_internal: Some(false),
        partitions: seq![],
    }
}

/// A topic that a row tells of: its name, its partitions and the text of its identifier.
pub open spec fn metadata_row(node: i32) -> spec_fn(
    (Seq<char>, i32, Seq<char>),
) -> MetadataResponseTopicView {
    |row: (Seq<char>, i32, Seq<char>)|
        metadata_topic(node, row.0, row.1, uuid_or_nil(uuid_of_text(row.2)))
}

/// A topic with its partitions, under an identifier.
pub fn topic_metadata(
    node: i32,
    name: String,
    partitions: i32,
    id: Uuid,
) -> (topic: MetadataResponseTopic)
    ensures
        topic.deep_view() == metadata_topic(node, name@, partitions, id.deep_view()),
{
    let ghost all = Seq::new(count(partitions), |i: int| metadata_partition(node, i));
    let mut listed = no_items();
    let mut i: i32 = 0;
    assert(listed.deep_view() =~= all.take(0));
    while i < partitions
        invariant
            0 <= i,
            i <= count(partitions),
            all == Seq::new(count(partitions), |i: int| metadata_partition(node, i)),
            listed.deep_view() == all.take(i as int),
        decreases partitions - i,
    {
        let replicas: Vec<i32> = vec![node];
        let isr: Vec<i32> = vec![node];
        let offline: Vec<i32> = Vec::new();
        assert(replicas.deep_view() =~= seq![node]);
        assert(isr.deep_view() =~= seq![node]);
        assert(offline.deep_view() =~= seq![]);
        add_item(
            &mut listed,
            MetadataResponsePartition {
                error_code: ErrorCode::NoError,
                partition_index: i,
                leader_id: node,
                leader_epoch: Some(0),
                replica_nodes: replicas,
                isr_nodes: isr,
                offline_replicas: offline,
            },
        );
        i = i + 1;
        assert(listed.deep_view() =~= all.take(i as int));
    }
    assert(listed.deep_view() =~= all);
    MetadataResponseTopic {
        error_code: ErrorCode::NoError,
        name: Some(name),
        topic_id: Some(id),
        is_internal: Some(false),
        partitions: listed,
    }
}

impl Operation for MetadataTopic {
    type Output = MetadataResponseTopic;

    open spec fn valid(state: MetadataTopicView) -> bool {
        true
    }

    open spec fn asked(state: MetadataTopicView) -> Seq<RequestView> {
        match state.topic {
            TopicIdView::Name(name) => seq![
                RequestView::First(
                    statement(
                        Sql::TopicSelectNamePartitions,
                        seq![text_value(state.cluster), text_value(name)],
                    ),
                    Shape::Counted,
                ),
            ],
            TopicIdView::Id(id) => seq![
                RequestView::First(
                    statement(
                        Sql::TopicSelectNamePartitions,
                        seq![text_value(state.cluster), text_value(uuid_text(id))],
                    ),
                    Shape::Named,
                ),
            ],
        }
    }

    open spec fn turn(state: MetadataTopicView, replies: Seq<ReplyView>) -> Turn<
        MetadataTopicView,
        MetadataResponseTopicView,
    > {
        Turn::End(
            Ok(
                match state.topic {
                    TopicIdView::Name(name) => match replies[0]->Counted_0 {
                        Some((partitions, id)) => metadata_row(state.node)(
                            (name, partitions, id),
                        ),
                        None => metadata_unknown(state.topic),
                    },
                    TopicIdView::Id(id) => match replies[0]->Named_0 {
                        Some((name, partitions)) => metadata_topic(
                            state.node,
                            name,
                            partitions,
                            id,
                        ),
                        None => metadata_unknown(state.topic),
                    },
                },
            ),
        )
    }

    open spec fn in_range(state: MetadataTopicView, replies: Seq<ReplyView>) -> bool {
        true
    }

    fn requests(&self) -> Vec<Request> {
        let mut requests = no_requests();
        match &self.topic {
            TopicId::Name(name) => {
                let made = statement2(
                    Sql::TopicSelectNamePartitions,
                    text(&self.cluster),
                    text(name),
                );
                ask(&mut requests, Request::First(made, Shape::Counted));
            },
            TopicId::Id(id) => {
                let made = statement2(
                    Sql::TopicSelectNamePartitions,
                    text(&self.cluster),
                    Value::Text(id.text()),
                );
                ask(&mut requests, Request::First(made, Shape::Named));
            },
        }
        requests
    }

    fn is_in_range(&self, replies: &Vec<Reply>) -> bool {
        true
    }

    fn advance(self, replies: Vec<Reply>) -> Progress<MetadataTopic, MetadataResponseTopic> {
        assert(fits(Self::asked(self.deep_view())[0], replies.deep_view()[0]));
        let found = match &self.topic {
            TopicId::Name(name) => match counted(only(replies)) {
                Some((partitions, id)) => Some(
                    topic_metadata(
                        self.node,
                        name.clone(),
                        partitions,
                        Uuid::parse_or_nil(id.as_str()),
                    ),
                ),
                None => None,
            },
            TopicId::Id(id) => match named(only(replies)) {
                Some((name, partitions)) => Some(topic_metadata(self.node, name, partitions, *id)),
                None => None,
            },
        };
        let topic = match found {
            Some(topic) => topic,
            None => {
                let partitions = no_items();
                match self.topic {
                    TopicId::Name(name) => MetadataResponseTopic {
                        error_code: ErrorCode::UnknownTopicOrPartition,
                        name: Some(name),
                        topic_id: Some(Uuid::nil()),
                        is_internal: Some(false),
                        partitions,
                    },
                    TopicId::Id(id) => MetadataResponseTopic {
                        error_code: ErrorCode::UnknownTopicOrPartition,
                        name: None,
                        topic_id: Some(id),
                        is_internal: Some(false),
                        partitions,
                    },
                }
            },
        };
        let progress = Progress::End(Ok(topic));
        assert(progress.deep_view() == Self::turn(self.deep_view(), replies.deep_view()));
        progress
    }
}

/// Which topics metadata is asked of.
#[derive(Debug)]
pub enum MetadataTopics {
    /// Those that were named.
    Listed(InSequence<MetadataTopic, MetadataResponseTopic>),
    /// All.
    All,
}

/// What [`MetadataTopics`] stands for.
pub enum MetadataTopicsView {
    Listed(InSequenceView<MetadataTopicView, MetadataResponseTopicView>),
    All,
}

impl DeepView for MetadataTopics {
    type V = MetadataTopicsView;

    open spec fn deep_view(&self) -> MetadataTopicsView {
        match self {
            MetadataTopics::Listed(a) => MetadataTopicsView::Listed(a.deep_view()),
            MetadataTopics::All => MetadataTopicsView::All,
        }
    }
}

/// The metadata of the cluster and of topics.
#[derive(Debug)]
pub struct Metadata {
    pub cluster: String,
    pub node: i32,
    pub brokers: Vec<MetadataResponseBroker>,
    pub topics: MetadataTopics,
}

/// What [`Metadata`] stands for.
pub struct MetadataView {
    pub cluster: Seq<char>,
    pub node: i32,
    pub brokers: Seq<MetadataResponseBrokerView>,
    pub topics: MetadataTopicsView,
}

impl DeepView for Metadata {
    type V = MetadataView;

    open spec fn deep_view(&self) -> MetadataView {
        MetadataView {
            cluster: self.cluster@,
            node: self.node,
            brokers: self.brokers.deep_view(),
            topics: self.topics.deep_view(),
        }
    }
}

impl MetadataView {
    /// The answer, with topics.
    pub open spec fn response(
        self,
        topics: Seq<MetadataResponseTopicView>,
    ) -> MetadataResponseView {
        MetadataResponseView {
            cluster: Some(self.cluster),
            controller: Some(self.node),
            brokers: self.brokers,
            topics,
        }
    }
}

impl Operation for Metadata {
    type Output = MetadataResponse;

    open spec fn valid(state: MetadataView) -> bool {
        true
    }

    open spec fn asked(state: MetadataView) -> Seq<RequestView> {
        match state.topics {
            MetadataTopicsView::Listed(inner) => InSequence::<
                MetadataTopic,
                MetadataResponseTopic,
            >::asked(inner),
            MetadataTopicsView::All => seq![
                RequestView::Query(
                    statement(Sql::TopicSelectAll, seq![text_value(state.cluster)]),
                    Shape::Topics,
                ),
            ],
        }
    }

    open spec fn turn(state: MetadataView, replies: Seq<ReplyView>) -> Turn<
        MetadataView,
        MetadataResponseView,
    > {
        match state.topics {
            MetadataTopicsView::Listed(inner) => match InSequence::<
                MetadataTopic,
                MetadataResponseTopic,
            >::turn(inner, replies) {
                Turn::Next(inner) => Turn::Next(
                    MetadataView { topics: MetadataTopicsView::Listed(inner), ..state },
                ),
                Turn::End(Ok(topics)) => Turn::End(Ok(state.response(topics))),
                Turn::End(Err(error)) => Turn::End(Err(error)),
            },
            MetadataTopicsView::All => Turn::End(
                Ok(state.response(replies[0]->Topics_0.map_values(metadata_row(state.node)))),
            ),
        }
    }

    open spec fn in_range(state: MetadataView, replies: Seq<ReplyView>) -> bool {
        true
    }

    fn requests(&self) -> Vec<Request> {
        match &self.topics {
            MetadataTopics::Listed(inner) => inner.requests(),
            MetadataTopics::All => {
                let made = statement1(Sql::TopicSelectAll, text(&self.cluster));
                let mut requests = no_requests();
                ask(&mut requests, Request::Query(made, Shape::Topics));
                requests
            },
        }
    }

    fn is_in_range(&self, replies: &Vec<Reply>) -> bool {
        true
    }

    fn advance(self, replies: Vec<Reply>) -> Progress<Metadata, MetadataResponse> {
        let progress = match self.topics {
            MetadataTopics::Listed(inner) => match inner.advance(replies) {
                Progress::Next(inner) => Progress::Next(
                    Metadata { topics: MetadataTopics::Listed(inner), ..self },
                ),
                Progress::End(Ok(topics)) => Progress::End(
                    Ok(
                        MetadataResponse {
                            cluster: Some(self.cluster),
                            controller: Some(self.node),
                            brokers: self.brokers,
                            topics,
                        },
                    ),
                ),
                Progress::End(Err(error)) => Progress::End(Err(error)),
            },
            MetadataTopics::All => {
                assert(fits(Self::asked(self.deep_view())[0], replies.deep_view()[0]));
                let node: i32 = self.node;
                let make = |row: &(String, i32, String)| -> (topic: MetadataResponseTopic)
                    ensures
                        topic.deep_view() == metadata_row(node)(row.deep_view()),
                {
                    let id = Uuid::parse_or_nil(row.2.as_str());
                    topic_metadata(node, row.0.clone(), row.1, id)
                };
                let topics = made_of(&topics(only(replies)), make, Ghost(metadata_row(node)));
                Progress::End(
                    Ok(
                        MetadataResponse {
                            cluster: Some(self.cluster),
                            controller: Some(self.node),
                            brokers: self.brokers,
                            topics,
                        },
                    ),
                )
            },
        };
        assert(progress.deep_view() == Self::turn(self.deep_view(), replies.deep_view()));
        progress
    }
}

/// A broker, as metadata tells of it.
pub open spec fn metadata_broker() -> spec_fn(
    DescribeClusterBrokerView,
) -> MetadataResponseBrokerView {
    |broker: DescribeClusterBrokerView|
        MetadataResponseBrokerView {
            node_id: broker.broker_id,
            host: broker.host,
            port: broker.port,
            rack: broker.rack,
        }
}

/// Brokers, as metadata tells of them.
pub open spec fn metadata_brokers(brokers: Seq<DescribeClusterBrokerView>) -> Seq<
    MetadataResponseBrokerView,
> {
    brokers.map_values(metadata_broker())
}

/// Brokers, as metadata tells of them.
fn describe_brokers(brokers: &[DescribeClusterBroker]) -> (described: Vec<MetadataResponseBroker>)
    ensures
        described.deep_view() == metadata_brokers(brokers.deep_view()),
{
    let make = |broker: &DescribeClusterBroker| -> (described: MetadataResponseBroker)
        ensures
            described.deep_view() == metadata_broker()(broker.deep_view()),
    {
        MetadataResponseBroker {
            node_id: broker.broker_id,
            host: broker.host.clone(),
            port: broker.port,
            rack: copy_opt_text(&broker.rack),
        }
    };
    made_of(brokers, make, Ghost(metadata_broker()))
}

/// What is looked up of a topic.
pub open spec fn metadata_lookup(cluster: Seq<char>, node: i32) -> spec_fn(
    TopicIdView,
) -> MetadataTopicView {
    |topic: TopicIdView| MetadataTopicView { cluster, node, topic }
}

impl<P, S, H> Mysql<P, S, H> {
    /// The metadata of the cluster, and of the topics that are named or else of all.
    pub fn metadata(&self, topics: Option<&[TopicId]>) -> (operation: Connected<Metadata>)
        ensures
            operation.deep_view() == ConnectedView::Open(
                MetadataView {
                    cluster: self.cluster@,
                    node: self.node,
                    brokers: metadata_brokers(self.broker_list()),
                    topics: match topics {
                        Some(topics) => MetadataTopicsView::Listed(
                            in_sequence(
                                topics.deep_view().map_values(
                                    metadata_lookup(self.cluster@, self.node),
                                ),
                            ),
                        ),
                        None => MetadataTopicsView::All,
                    },
                },
            ),
            Connected::<Metadata>::valid(operation.deep_view()),
    {
        let topics = match topics {
            Some(topics) => {
                let ghost made = metadata_lookup(self.cluster@, self.node);
                let make = |topic: &TopicId| -> (lookup: MetadataTopic)
                    ensures
                        lookup.deep_view() == made(topic.deep_view()),
                {
                    MetadataTopic {
                        cluster: self.cluster.clone(),
                        node: self.node,
                        topic: topic.copy(),
                    }
                };
                MetadataTopics::Listed(for_each(topics, make, Ghost(made)))
            },
            None => MetadataTopics::All,
        };
        Connected::Open(
            Metadata {
                cluster: self.cluster.clone(),
                node: self.node,
                brokers: describe_brokers(&self.own_brokers()),
                topics,
            },
        )
    }
}

/// A topic that was created is told of under its identifier, with all its partitions, whether it is
/// named by its name or by its identifier.
pub proof fn a_created_topic_is_told_of(created: CreateTopicView, node: i32)
    requires
        CreateTopic::valid(created),
    ensures
        ({
            let topic = metadata_topic(
                node,
                created.topic.name,
                created.topic.num_partitions,
                created.id,
            );
            &&& MetadataTopic::turn(
                MetadataTopicView {
                    cluster: created.cluster,
                    node,
                    topic: TopicIdView::Name(created.topic.name),
                },
                seq![ReplyView::Counted(Some((created.topic.num_partitions, created.id_text)))],
            ) == Turn::<MetadataTopicView, MetadataResponseTopicView>::End(Ok(topic))
            &&& MetadataTopic::turn(
                MetadataTopicView {
                    cluster: created.cluster,
                    node,
                    topic: TopicIdView::Id(created.id),
                },
                seq![ReplyView::Named(Some((created.topic.name, created.topic.num_partitions)))],
            ) == Turn::<MetadataTopicView, MetadataResponseTopicView>::End(Ok(topic))
            &&& metadata_row(node)(
                (created.topic.name, created.topic.num_partitions, created.id_text),
            ) == topic
        }),
{
}

/// A topic that is not there is told of as unknown, under the name or the identifier that it was
/// asked for by.
pub proof fn an_unknown_topic_is_told_of(state: MetadataTopicView)
    ensures
        MetadataTopic::turn(
            state,
            seq![
                match state.topic {
                    TopicIdView::Name(_) => ReplyView::Counted(None),
                    TopicIdView::Id(_) => ReplyView::Named(None),
                },
            ],
        ) == Turn::<MetadataTopicView, MetadataResponseTopicView>::End(
            Ok(metadata_unknown(state.topic)),
        ),
{
}

/// What is told of a topic that is there: its name and its identifier, and each partition from zero
/// up to their number, in that order, which the node leads and of which it is the one replica, in
/// sync.
pub open spec fn told_topic(
    node: i32,
    name: Seq<char>,
    partitions: i32,
    id: Seq<u8>,
) -> MetadataResponseTopicView {
    MetadataResponseTopicView {
        error_code: ErrorCode::NoError,
        name: Some(name),
        topic_id: Some(id),
        is_internal: Some(false),
        partitions: Seq::new(
            if partitions < 0 {
                0
            } else {
                partitions as nat
            },
            |p: int|
                MetadataResponsePartitionView {
                    error_code: ErrorCode::NoError,
                    partition_index: p as i32,
                    leader_id: node,
                    leader_epoch: Some(0),
                    replica_nodes: seq![node],
                    isr_nodes: seq![node],
                    offline_replicas: seq![],
                },
        ),
    }
}

/// What is told of a topic is made of its parts.
proof fn a_topic_is_told_of(node: i32, name: Seq<char>, partitions: i32, id: Seq<u8>)
    ensures
        metadata_topic(node, name, partitions, id) == told_topic(node, name, partitions, id),
{
    assert(metadata_topic(node, name, partitions, id).partitions =~= told_topic(
        node,
        name,
        partitions,
        id,
    ).partitions);
}

/// A topic that is named is looked up by its name, and told of under its name and the identifier
/// that is stored of it, or the nil identifier where what is stored is none. One that is named by
/// its identifier is looked up by the text of it, and told of under it with the name that is
/// stored. One that is not there is told of as unknown, under the name or the identifier that it
/// was named by, with no partitions.
pub proof fn a_named_topic_is_told_of(
    cluster: Seq<char>,
    node: i32,
    name: Seq<char>,
    id: Seq<u8>,
    by_name: Option<(i32, Seq<char>)>,
    by_id: Option<(Seq<char>, i32)>,
)
    ensures
        talks::<MetadataTopic>(
            metadata_lookup(cluster, node)(TopicIdView::Name(name)),
            seq![
                (
                    seq![
                        looks_up(
                            Sql::TopicSelectNamePartitions,
                            seq![ValueView::Text(cluster), ValueView::Text(name)],
                            Shape::Counted,
                        ),
                    ],
                    seq![ReplyView::Counted(by_name)],
                ),
            ],
            Ok(
                match by_name {
                    Some((partitions, text)) => told_topic(
                        node,
                        name,
                        partitions,
                        match uuid_of_text(text) {
                            Some(stored) => stored,
                            None => Seq::new(16, |i: int| 0u8),
                        },
                    ),
                    None => MetadataResponseTopicView {
                        error_code: ErrorCode::UnknownTopicOrPartition,
                        name: Some(name),
                        topic_id: Some(Seq::new(16, |i: int| 0u8)),
                        is_internal: Some(false),
                        partitions: seq![],
                    },
                },
            ),
        ),
        talks::<MetadataTopic>(
            metadata_lookup(cluster, node)(TopicIdView::Id(id)),
            seq![
                (
                    seq![
                        looks_up(
                            Sql::TopicSelectNamePartitions,
                            seq![ValueView::Text(cluster), ValueView::Text(uuid_text(id))],
                            Shape::Named,
                        ),
                    ],
                    seq![ReplyView::Named(by_id)],
                ),
            ],
            Ok(
                match by_id {
                    Some((stored, partitions)) => told_topic(node, stored, partitions, id),
                    None => MetadataResponseTopicView {
                        error_code: ErrorCode::UnknownTopicOrPartition,
                        name: None,
                        topic_id: Some(id),
                        is_internal: Some(false),
                        partitions: seq![],
                    },
                },
            ),
        ),
{
    let nil = Seq::new(16, |i: int| 0u8);
    assert(nil_uuid() =~= nil);
    match by_name {
        Some((partitions, text)) => a_topic_is_told_of(
            node,
            name,
            partitions,
            uuid_or_nil(uuid_of_text(text)),
        ),
        None => {},
    }
    match by_id {
        Some((stored, partitions)) => a_topic_is_told_of(node, stored, partitions, id),
        None => {},
    }
    talk_ends::<MetadataTopic>(
        metadata_lookup(cluster, node)(TopicIdView::Name(name)),
        seq![
            looks_up(
                Sql::TopicSelectNamePartitions,
                seq![ValueView::Text(cluster), ValueView::Text(name)],
                Shape::Counted,
            ),
        ],
        seq![ReplyView::Counted(by_name)],
        Ok(
            match by_name {
                Some((partitions, text)) => told_topic(
                    node,
                    name,
                    partitions,
                    match uuid_of_text(text) {
                        Some(stored) => stored,
                        None => nil,
                    },
                ),
                None => MetadataResponseTopicView {
                    error_code: ErrorCode::UnknownTopicOrPartition,
                    name: Some(name),
                    topic_id: Some(nil),
                    is_internal: Some(false),
                    partitions: seq![],
                },
            },
        ),
    );
    talk_ends::<MetadataTopic>(
        metadata_lookup(cluster, node)(TopicIdView::Id(id)),
        seq![
            looks_up(
                Sql::TopicSelectNamePartitions,
                seq![ValueView::Text(cluster), ValueView::Text(uuid_text(id))],
                Shape::Named,
            ),
        ],
        seq![ReplyView::Named(by_id)],
        Ok(
            match by_id {
                Some((stored, partitions)) => told_topic(node, stored, partitions, id),
                None => MetadataResponseTopicView {
                    error_code: ErrorCode::UnknownTopicOrPartition,
                    name: None,
                    topic_id: Some(id),
                    is_internal: Some(false),
                    partitions: seq![],
                },
            },
        ),
    );
}

/// Where no topics are named, all of the cluster are told of, one for each row and in the order of
/// the rows. The answer names the cluster, and this node as its controller, with its brokers.
pub proof fn all_topics_are_told_of(
    cluster: Seq<char>,
    node: i32,
    brokers: Seq<MetadataResponseBrokerView>,
    rows: Seq<(Seq<char>, i32, Seq<char>)>,
)
    ensures
        talks::<Connected<Metadata>>(
            ConnectedView::Open(
                MetadataView { cluster, node, brokers, topics: MetadataTopicsView::All },
            ),
            on_a_connection(
                seq![
                    (
                        seq![
                            queries(
                                Sql::TopicSelectAll,
                                seq![ValueView::Text(cluster)],
                                Shape::Topics,
                            ),
                        ],
                        seq![ReplyView::Topics(rows)],
                    ),
                ],
            ),
            Ok(
                MetadataResponseView {
                    cluster: Some(cluster),
                    controller: Some(node),
                    brokers,
                    topics: Seq::new(
                        rows.len(),
                        |i: int|
                            told_topic(
                                node,
                                rows[i].0,
                                rows[i].1,
                                match uuid_of_text(rows[i].2) {
                                    Some(stored) => stored,
                                    None => Seq::new(16, |i: int| 0u8),
                                },
                            ),
                    ),
                },
            ),
        ),
{
    let state = MetadataView { cluster, node, brokers, topics: MetadataTopicsView::All };
    let asked = seq![queries(Sql::TopicSelectAll, seq![ValueView::Text(cluster)], Shape::Topics)];
    let replies = seq![ReplyView::Topics(rows)];
    let nil = Seq::new(16, |i: int| 0u8);
    assert(nil_uuid() =~= nil);
    let topics = Seq::new(
        rows.len(),
        |i: int|
            told_topic(
                node,
                rows[i].0,
                rows[i].1,
                match uuid_of_text(rows[i].2) {
                    Some(stored) => stored,
                    None => Seq::new(16, |i: int| 0u8),
                },
            ),
    );
    let made = rows.map_values(metadata_row(node));
    assert forall|i: int| 0 <= i < rows.len() implies made[i] == topics[i] by {
        a_topic_is_told_of(
            node,
            rows[i].0,
            rows[i].1,
            uuid_or_nil(uuid_of_text(rows[i].2)),
        );
    }
    assert(made =~= topics);
    let end: Result<MetadataResponseView, ErrorView> = Ok(
        MetadataResponseView { cluster: Some(cluster), controller: Some(node), brokers, topics },
    );
    talk_ends::<Metadata>(state, asked, replies, end);
    a_connection_is_taken_first::<Metadata>(state, seq![(asked, replies)], end);
}

/// Topics that are named are told of as a sequence of lookups is, in the order in which they are
/// named, and the answer names the cluster, and this node as its controller, with its brokers.
pub proof fn named_topics_are_told_of_in_order(
    cluster: Seq<char>,
    node: i32,
    brokers: Seq<MetadataResponseBrokerView>,
    inner: InSequenceView<MetadataTopicView, MetadataResponseTopicView>,
    talk: Seq<Exchange>,
    end: Result<Seq<MetadataResponseTopicView>, ErrorView>,
)
    requires
        talks::<InSequence<MetadataTopic, MetadataResponseTopic>>(inner, talk, end),
    ensures
        talks::<Metadata>(
            MetadataView { cluster, node, brokers, topics: MetadataTopicsView::Listed(inner) },
            talk,
            match end {
                Ok(topics) => Ok(
                    MetadataResponseView {
                        cluster: Some(cluster),
                        controller: Some(node),
                        brokers,
                        topics,
                    },
                ),
                Err(error) => Err(error),
            },
        ),
    decreases talk.len(),
{
    match InSequence::<MetadataTopic, MetadataResponseTopic>::turn(inner, talk[0].1) {
        Turn::Next(next) => named_topics_are_told_of_in_order(
            cluster,
            node,
            brokers,
            next,
            talk.drop_first(),
            end,
        ),
        _ => {},
    }
}

/// A broker is told of as it is: with its number, its host, its port and its rack.
pub proof fn a_broker_is_told_of_as_it_is(brokers: Seq<DescribeClusterBrokerView>, i: int)
    requires
        0 <= i < brokers.len(),
    ensures
        metadata_brokers(brokers).len() == brokers.len(),
        metadata_brokers(brokers)[i] == (MetadataResponseBrokerView {
            node_id: brokers[i].broker_id,
            host: brokers[i].host,
            port: brokers[i].port,
            rack: brokers[i].rack,
        }),
{
}

} // verus!
