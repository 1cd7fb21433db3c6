//! The partitions of topics are described.

use vstd::prelude::*;

use crate::engine::Mysql;
use crate::error::ErrorCode;
use crate::ident::{nil_uuid, uuid_of_text, uuid_or_nil, uuid_text, Uuid};
use crate::operation::{Operation, Progress, Turn};
use crate::request::{
    ask, fits, full, no_requests, only, Reply, ReplyView, Request, RequestView, Shape,
};
use crate::script::{add_item, count, no_items};
use crate::sequence::{for_each, in_sequence, InSequence};
use crate::sql::Sql;
use crate::talk::{looks_up, talk_ends, talks};
use crate::topics::{CreateTopic, CreateTopicView};
use crate::transaction::{Connected, ConnectedView};
use crate::value::{statement, statement2, text, text_value, Value, ValueView};
use crate::wire::{
    DescribeTopicPartitionsResponsePartition, DescribeTopicPartitionsResponsePartitionView,
    DescribeTopicPartitionsResponseTopic, DescribeTopicPartitionsResponseTopicView, TopicId,
    TopicIdView, Topition,
};

verus! {

/// The partitions of a topic that is looked up.
#[derive(Debug)]
pub struct DescribeTopic {
    pub cluster: String,
    pub node: i32,
    pub topic: TopicId,
}

/// What [`DescribeTopic`] stands for.
pub struct DescribeTopicView {
    pub cluster: Seq<char>,
    pub node: i32,
    pub topic: TopicIdView,
}

impl DeepView for DescribeTopic {
    type V = DescribeTopicView;

    open spec fn deep_view(&self) -> DescribeTopicView {
        DescribeTopicView {
            cluster: self.cluster@,
            node: self.node,
            topic: self.topic.deep_view(),
        }
    }
}

/// The operations of which nothing is said whether they are allowed.
pub const NO_AUTHORIZED_OPERATIONS: i32 = -2147483648;

/// This node, as often as there are replicas.
pub open spec fn replicas(node: i32, replication_factor: int) -> Seq<i32> {
    Seq::new(replication_factor as nat, |i: int| node)
}

/// A partition, which this node leads, and replicates in every place.
pub open spec fn described_partition(
    node: i32,
    replication_factor: i32,
    partition: int,
) -> DescribeTopicPartitionsResponsePartitionView {
    DescribeTopicPartitionsResponsePartitionView {
        error_code: ErrorCode::NoError,
        partition_index: partition as i32,
        leader_id: node,
        leader_epoch: 0,
        replica_nodes: replicas(node, replication_factor as int),
        isr_nodes: replicas(node, replication_factor as int),
        eligible_leader_replicas: seq![],
        last_known_elr: seq![],
        offline_replicas: seq![],
    }
}

/// The topic that a row tells of, under an identifier.
pub open spec fn described_topic(
    node: i32,
    row: (Seq<char>, Seq<char>, bool, i32, i32),
    id: Seq<u8>,
) -> DescribeTopicPartitionsResponseTopicView {
    DescribeTopicPartitionsResponseTopicView {
        error_code: ErrorCode::NoError,
        name: Some(row.1),
        topic_id: id,
        is_internal: row.2,
        partitions: Seq::new(count(row.3), |i: int| described_partition(node, row.4, i)),
        topic_authorized_operations: NO_AUTHORIZED_OPERATIONS,
    }
}

/// A topic that is not there.
pub open spec fn undescribed_topic(topic: TopicIdView) -> DescribeTopicPartitionsResponseTopicView {
    DescribeTopicPartitionsResponseTopicView {
        error_code: ErrorCode::UnknownTopicOrPartition,
        name: match topic {
            TopicIdView::Name(name) => Some(name),
            TopicIdView::Id(_) => None,
        },
        topic_id: match topic {
            TopicIdView::Name(_) => nil_uuid(),
            TopicIdView::Id(id) => id,
        },
        is_internal: false,
        partitions: seq![],
        topic_authorized_operations: NO_AUTHORIZED_OPERATIONS,
    }
}

/// This node, as often as there are replicas.
fn replica_nodes(node: i32, replication_factor: i32) -> (nodes: Vec<i32>)
    requires
        replication_factor >= 0,
    ensures
        nodes.deep_view() == replicas(node, replication_factor as int),
{
    let mut nodes: Vec<i32> = no_items();
    assert(nodes.deep_view() =~= replicas(node, 0));
    let mut i: i32 = 0;
    while i < replication_factor
        invariant
            0 <= i <= replication_factor,
            nodes.deep_view() == replicas(node, i as int),
        decreases replication_factor - i,
    {
        add_item(&mut nodes, node);
        i = i + 1;
        assert(nodes.deep_view() =~= replicas(node, i as int));
    }
    nodes
}

/// The topic that a row tells of, under an identifier.
pub fn describe_row(
    node: i32,
    row: (String, String, bool, i32, i32),
    id: Uuid,
) -> (topic: DescribeTopicPartitionsResponseTopic)
    requires
        row.3 > 0 ==> row.4 >= 0,
    ensures
        topic.deep_view() == described_topic(node, row.deep_view(), id.deep_view()),
{
    let (_, name, is_internal, partitions, replication_factor) = row;
    let ghost all = Seq::new(
        count(partitions),
        |i: int| described_partition(node, replication_factor, i),
    );
    let mut described = no_items();
    assert(described.deep_view() =~= all.take(0));
    let mut i: i32 = 0;
    while i < partitions
        invariant
            0 <= i <= count(partitions),
            partitions > 0 ==> replication_factor >= 0,
            all == Seq::new(
                count(partitions),
                |i: int| described_partition(node, replication_factor, i),
            ),
            described.deep_view() == all.take(i as int),
        decreases partitions - i,
    {
        add_item(
            &mut described,
            DescribeTopicPartitionsResponsePartition {
                error_code: ErrorCode::NoError,
                partition_index: i,
                leader_id: node,
                leader_epoch: 0,
                replica_nodes: replica_nodes(node, replication_factor),
                isr_nodes: replica_nodes(node, replication_factor),
                eligible_leader_replicas: no_items(),
                last_known_elr: no_items(),
                offline_replicas: no_items(),
            },
        );
        i = i + 1;
        assert(described.deep_view() =~= all.take(i as int));
    }
    assert(described.deep_view() =~= all);
    DescribeTopicPartitionsResponseTopic {
        error_code: ErrorCode::NoError,
        name: Some(name),
        topic_id: id,
        is_internal,
        partitions: described,
        topic_authorized_operations: NO_AUTHORIZED_OPERATIONS,
    }
}

impl Operation for DescribeTopic {
    type Output = DescribeTopicPartitionsResponseTopic;

    open spec fn valid(state: DescribeTopicView) -> bool {
        true
    }

    open spec fn asked(state: DescribeTopicView) -> Seq<RequestView> {
        match state.topic {
            TopicIdView::Name(name) => seq![
                RequestView::First(
                    statement(
                        Sql::TopicSelectFull,
                        seq![text_value(state.cluster), text_value(name)],
                    ),
                    Shape::Full,
                ),
            ],
            TopicIdView::Id(id) => seq![
                RequestView::First(
                    statement(
                        Sql::TopicSelectFullByUuid,
                        seq![text_value(state.cluster), text_value(uuid_text(id))],
                    ),
                    Shape::Full,
                ),
            ],
        }
    }

    open spec fn turn(state: DescribeTopicView, replies: Seq<ReplyView>) -> Turn<
        DescribeTopicView,
        DescribeTopicPartitionsResponseTopicView,
    > {
        Turn::End(
            Ok(
                match replies[0]->Full_0 {
                    Some(row) => described_topic(
                        state.node,
                        row,
                        uuid_or_nil(uuid_of_text(row.0)),
                    ),
                    None => undescribed_topic(state.topic),
                },
            ),
        )
    }

    /// The number of replicas of a partition is no negative number.
    open spec fn in_range(state: DescribeTopicView, replies: Seq<ReplyView>) -> bool {
        replies[0]->Full_0 matches Some(row) ==> (row.3 > 0 ==> row.4 >= 0)
    }

    fn requests(&self) -> Vec<Request> {
        let mut requests = no_requests();
        match &self.topic {
            TopicId::Name(name) => {
                let made = statement2(Sql::TopicSelectFull, text(&self.cluster), text(name));
                ask(&mut requests, Request::First(made, Shape::Full));
            },
            TopicId::Id(id) => {
                let made = statement2(
                    Sql::TopicSelectFullByUuid,
                    text(&self.cluster),
                    Value::Text(id.text()),
                );
                ask(&mut requests, Request::First(made, Shape::Full));
            },
        }
        requests
    }

    fn is_in_range(&self, replies: &Vec<Reply>) -> bool {
        assert(fits(Self::asked(self.deep_view())[0], replies.deep_view()[0]));
        match &replies[0] {
            Reply::Full(Some(row)) => row.3 <= 0 || row.4 >= 0,
            _ => true,
        }
    }

    fn advance(self, replies: Vec<Reply>) -> Progress<
        DescribeTopic,
        DescribeTopicPartitionsResponseTopic,
    > {
        assert(fits(Self::asked(self.deep_view())[0], replies.deep_view()[0]));
        let topic = match full(only(replies)) {
            Some(row) => {
                let id = Uuid::parse_or_nil(row.0.as_str());
                describe_row(self.node, row, id)
            },
            None => {
                let partitions = no_items();
                match self.topic {
                    TopicId::Name(name) => DescribeTopicPartitionsResponseTopic {
                        error_code: ErrorCode::UnknownTopicOrPartition,
                        name: Some(name),
                        topic_id: Uuid::nil(),
                        is_internal: false,
                        partitions,
                        topic_authorized_operations: NO_AUTHORIZED_OPERATIONS,
                    },
                    TopicId::Id(id) => DescribeTopicPartitionsResponseTopic {
                        error_code: ErrorCode::UnknownTopicOrPartition,
                        name: None,
                        topic_id: id,
                        is_internal: false,
                        partitions,
                        topic_authorized_operations: NO_AUTHORIZED_OPERATIONS,
                    },
                }
            },
        };
        let progress = Progress::End(Ok(topic));
        assert(progress.deep_view() == Self::turn(self.deep_view(), replies.deep_view()));
        progress
    }
}

/// What is looked up of a topic.
pub open spec fn topic_description(cluster: Seq<char>, node: i32) -> spec_fn(
    TopicIdView,
) -> DescribeTopicView {
    |topic: TopicIdView| DescribeTopicView { cluster, node, topic }
}

impl<P, S, H> Mysql<P, S, H> {
    /// Describe the partitions of topics. All of them are described, whatever the limit and the
    /// cursor are.
    pub fn describe_topic_partitions(
        &self,
        topics: Option<&[TopicId]>,
        partition_limit: i32,
        cursor: Option<Topition>,
    ) -> (operation: Connected<InSequence<DescribeTopic, DescribeTopicPartitionsResponseTopic>>)
        ensures
            operation.deep_view() == ConnectedView::Open(
                in_sequence::<DescribeTopicView, DescribeTopicPartitionsResponseTopicView>(
                    match topics {
                        Some(topics) => topics.deep_view().map_values(
                            topic_description(self.cluster@, self.node),
                        ),
                        None => Seq::empty(),
                    },
                ),
            ),
            Connected::<
                InSequence<DescribeTopic, DescribeTopicPartitionsResponseTopic>,
            >::valid(operation.deep_view()),
    {
        let operations = match topics {
            Some(topics) => {
                let ghost made = topic_description(self.cluster@, self.node);
                let make = |topic: &TopicId| -> (operation: DescribeTopic)
                    ensures
                        operation.deep_view() == made(topic.deep_view()),
                {
                    DescribeTopic {
                        cluster: self.cluster.clone(),
                        node: self.node,
                        topic: topic.copy(),
                    }
                };
                for_each(topics, make, Ghost(made))
            },
            None => InSequence::new(),
        };
        Connected::Open(operations)
    }
}

/// A topic that was created is described under its identifier, with all its partitions and as many
/// replicas of each as it was created with.
pub proof fn a_created_topic_is_described(
    created: CreateTopicView,
    state: DescribeTopicView,
    is_internal: bool,
    p: int,
)
    requires
        CreateTopic::valid(created),
        0 <= p < created.topic.num_partitions,
        created.topic.replication_factor >= 0,
    ensures
        ({
            let row = (
                created.id_text,
                created.topic.name,
                is_internal,
                created.topic.num_partitions,
                created.topic.replication_factor as i32,
            );
            DescribeTopic::turn(state, seq![ReplyView::Full(Some(row))]) matches Turn::End(
                Ok(topic),
            ) && {
                &&& topic.topic_id == created.id
                &&& topic.name == Some(created.topic.name)
                &&& topic.partitions.len() == created.topic.num_partitions
                &&& topic.partitions[p].partition_index == p
                &&& topic.partitions[p].replica_nodes.len() == created.topic.replication_factor
            }
        }),
{
}

/// What is described of a topic that is there: its name and its identifier, whether it is internal,
/// and each partition from zero up to their number, in that order, which the node leads, and
/// replicates as often as the topic has replicas.
pub open spec fn whole_topic(
    node: i32,
    name: Seq<char>,
    id: Seq<u8>,
    is_internal: bool,
    partitions: i32,
    replication_factor: i32,
) -> DescribeTopicPartitionsResponseTopicView {
    let nodes = Seq::new(replication_factor as nat, |i: int| node);
    DescribeTopicPartitionsResponseTopicView {
        error_code: ErrorCode::NoError,
        name: Some(name),
        topic_id: id,
        is_internal,
        partitions: Seq::new(
            if partitions < 0 {
                0
            } else {
                partitions as nat
            },
            |p: int|
                DescribeTopicPartitionsResponsePartitionView {
                    error_code: ErrorCode::NoError,
                    partition_index: p as i32,
                    leader_id: node,
                    leader_epoch: 0,
                    replica_nodes: nodes,
                    isr_nodes: nodes,
                    eligible_leader_replicas: seq![],
                    last_known_elr: seq![],
                    offline_replicas: seq![],
                },
        ),
        topic_authorized_operations: i32::MIN,
    }
}

/// A topic that is named by its name or by its identifier is looked up by it, and described by the
/// row that is found: under the name and the identifier that are stored of it, or the nil
/// identifier where what is stored is none, with all its partitions. One that is not there is
/// described as unknown, under what it was named by, with no partitions.
pub proof fn a_topic_is_described_as_it_is_stored(
    cluster: Seq<char>,
    node: i32,
    topic: TopicIdView,
    row: Option<(Seq<char>, Seq<char>, bool, i32, i32)>,
)
    requires
        row matches Some(found) ==> found.4 >= 0 || found.3 <= 0,
    ensures
        talks::<DescribeTopic>(
            topic_description(cluster, node)(topic),
            seq![
                (
                    seq![
                        match topic {
                            TopicIdView::Name(name) => looks_up(
                                Sql::TopicSelectFull,
                                seq![ValueView::Text(cluster), ValueView::Text(name)],
                                Shape::Full,
                            ),
                            TopicIdView::Id(id) => looks_up(
                                Sql::TopicSelectFullByUuid,
                                seq![ValueView::Text(cluster), ValueView::Text(uuid_text(id))],
                                Shape::Full,
                            ),
                        },
                    ],
                    seq![ReplyView::Full(row)],
                ),
            ],
            Ok(
                match row {
                    Some((text, name, is_internal, partitions, replication_factor)) => whole_topic(
                        node,
                        name,
                        match uuid_of_text(text) {
                            Some(stored) => stored,
                            None => Seq::new(16, |i: int| 0u8),
                        },
                        is_internal,
                        partitions,
                        replication_factor,
                    ),
                    None => DescribeTopicPartitionsResponseTopicView {
                        error_code: ErrorCode::UnknownTopicOrPartition,
                        name: match topic {
                            TopicIdView::Name(name) => Some(name),
                            TopicIdView::Id(_) => None,
                        },
                        topic_id: match topic {
                            TopicIdView::Name(_) => Seq::new(16, |i: int| 0u8),
                            TopicIdView::Id(id) => id,
                        },
                        is_internal: false,
                        partitions: seq![],
                        topic_authorized_operations: i32::MIN,
                    },
                },
            ),
        ),
{
    let nil = Seq::new(16, |i: int| 0u8);
    assert(nil_uuid() =~= nil);
    match row {
        Some((text, name, is_internal, partitions, replication_factor)) => {
            let id = uuid_or_nil(uuid_of_text(text));
            let whole = whole_topic(node, name, id, is_internal, partitions, replication_factor);
            let made = described_topic(
                node,
                (text, name, is_internal, partitions, replication_factor),
                id,
            );
            assert(replicas(node, replication_factor as int) =~= Seq::new(
                replication_factor as nat,
                |i: int| node,
            ));
            assert(made.partitions =~= whole.partitions);
            assert(made == whole);
        },
        None => {},
    }
    talk_ends::<DescribeTopic>(
        topic_description(cluster, node)(topic),
        seq![
            match topic {
                TopicIdView::Name(name) => looks_up(
                    Sql::TopicSelectFull,
                    seq![ValueView::Text(cluster), ValueView::Text(name)],
                    Shape::Full,
                ),
                TopicIdView::Id(id) => looks_up(
                    Sql::TopicSelectFullByUuid,
                    seq![ValueView::Text(cluster), ValueView::Text(uuid_text(id))],
                    Shape::Full,
                ),
            },
        ],
        seq![ReplyView::Full(row)],
        Ok(
            match row {
                Some((text, name, is_internal, partitions, replication_factor)) => whole_topic(
                    node,
                    name,
                    match uuid_of_text(text) {
                        Some(stored) => stored,
                        None => nil,
                    },
                    is_internal,
                    partitions,
                    replication_factor,
                ),
                None => DescribeTopicPartitionsResponseTopicView {
                    error_code: ErrorCode::UnknownTopicOrPartition,
                    name: match topic {
                        TopicIdView::Name(name) => Some(name),
                        TopicIdView::Id(_) => None,
                    },
                    topic_id: match topic {
                        TopicIdView::Name(_) => nil,
                        TopicIdView::Id(id) => id,
                    },
                    is_internal: false,
                    partitions: seq![],
                    topic_authorized_operations: i32::MIN,
                },
            },
        ),
    );
}

} // verus!
