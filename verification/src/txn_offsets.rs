//! Offsets of a group go with a transaction of a producer.

use vstd::prelude::*;

use crate::engine::Mysql;
use crate::error::ErrorCode;
use crate::operation::{Operation, Progress, Turn};
use crate::request::{
    ask, ask_in_turn, fits, no_requests, Reply, ReplyView, Request, RequestView, Shape,
};
use crate::script::{
    in_turn, items_give_in_order, items_give_one_each, listed, made_of, made_of_listed,
};
use crate::sql::Sql;
use crate::talk::{
    a_transaction_encloses_a_talk, affected_fits, all_affected, all_execute, executes,
    flattened_execute, in_a_transaction, looks_up, talk_ends, talk_goes_on, talks,
};
use crate::transaction::{given_stays_within, stays_within, Transaction, TransactionView};
use crate::value::{
    int16, int32, int64, int_value, opt_int32, opt_int_value, opt_text, opt_text_value, statement,
    statement10, statement2, statement7, text, text_value, ValueView,
};
use crate::wire::{
    TxnOffsetCommitPartition, TxnOffsetCommitPartitionView, TxnOffsetCommitRequest,
    TxnOffsetCommitRequestView, TxnOffsetCommitResponsePartition, TxnOffsetCommitResponseTopic,
    TxnOffsetCommitResponseTopicView, TxnOffsetCommitTopic, TxnOffsetCommitTopicView,
};

verus! {

/// How far offsets are.
#[derive(Clone, Copy, Debug, PartialEq, Eq, Structural)]
pub enum CommitStage {
    /// The producer of the transaction is looked up, and the group noted.
    Lookup,
    /// The producer is known, and its epoch; the offsets are written.
    Write(Option<i64>, Option<i16>),
}

impl DeepView for CommitStage {
    type V = CommitStage;

    open spec fn deep_view(&self) -> CommitStage {
        *self
    }
}

/// Offsets of a group that go with a transaction of a producer.
#[derive(Debug)]
pub struct TxnOffsetCommit {
    pub cluster: String,
    pub offsets: TxnOffsetCommitRequest,
    pub stage: CommitStage,
}

/// What [`TxnOffsetCommit`] stands for.
pub struct TxnOffsetCommitView {
    pub cluster: Seq<char>,
    pub offsets: TxnOffsetCommitRequestView,
    pub stage: CommitStage,
}

impl DeepView for TxnOffsetCommit {
    type V = TxnOffsetCommitView;

    open spec fn deep_view(&self) -> TxnOffsetCommitView {
        TxnOffsetCommitView {
            cluster: self.cluster@,
            offsets: self.offsets.deep_view(),
            stage: self.stage,
        }
    }
}

/// What a producer may do in a transaction that belongs to another producer, or to the same one in
/// another epoch: nothing.
pub open spec fn verdict(
    offsets: TxnOffsetCommitRequestView,
    producer_id: Option<i64>,
    producer_epoch: Option<i16>,
) -> ErrorCode {
    if producer_id != Some(offsets.producer_id) {
        ErrorCode::UnknownProducerId
    } else if producer_epoch != Some(offsets.producer_epoch) {
        ErrorCode::InvalidProducerEpoch
    } else {
        ErrorCode::NoError
    }
}

/// The offset of a partition is noted for the transaction.
pub open spec fn offset_insert(
    cluster: Seq<char>,
    offsets: TxnOffsetCommitRequestView,
    topic: Seq<char>,
) -> spec_fn(TxnOffsetCommitPartitionView) -> Seq<RequestView> {
    |partition: TxnOffsetCommitPartitionView|
        seq![
            RequestView::Execute(
                statement(
                    Sql::TxnOffsetCommitTpInsert,
                    seq![
                        text_value(cluster),
                        text_value(offsets.transaction_id),
                        text_value(offsets.group_id),
                        int_value(offsets.producer_id as int),
                        int_value(offsets.producer_epoch as int),
                        text_value(topic),
                        int_value(partition.partition_index as int),
                        int_value(partition.committed_offset as int),
                        opt_int_value(partition.committed_leader_epoch),
                        opt_text_value(partition.committed_metadata),
                    ],
                ),
            ),
        ]
}

/// The offsets of the partitions of a topic are noted for the transaction.
pub open spec fn offset_inserts(cluster: Seq<char>, offsets: TxnOffsetCommitRequestView) -> spec_fn(
    TxnOffsetCommitTopicView,
) -> Seq<RequestView> {
    |topic: TxnOffsetCommitTopicView|
        in_turn(listed(topic.partitions), offset_insert(cluster, offsets, topic.name))
}

/// What became of the offset of a partition.
pub open spec fn partition_verdict(code: ErrorCode) -> spec_fn(
    TxnOffsetCommitPartitionView,
) -> TxnOffsetCommitResponsePartition {
    |partition: TxnOffsetCommitPartitionView|
        TxnOffsetCommitResponsePartition {
            partition_index: partition.partition_index,
            error_code: code,
        }
}

/// What became of the offsets of a topic.
pub open spec fn topic_verdict(code: ErrorCode) -> spec_fn(
    TxnOffsetCommitTopicView,
) -> TxnOffsetCommitResponseTopicView {
    |topic: TxnOffsetCommitTopicView|
        TxnOffsetCommitResponseTopicView {
            name: topic.name,
            partitions: listed(topic.partitions).map_values(partition_verdict(code)),
        }
}

impl TxnOffsetCommitView {
    /// The producer of the transaction is looked up.
    pub open spec fn txn_select(self) -> RequestView {
        RequestView::First(
            statement(
                Sql::TxnSelectForOffset,
                seq![text_value(self.cluster), text_value(self.offsets.transaction_id)],
            ),
            Shape::Producer,
        )
    }

    /// The group is noted.
    pub open spec fn group_insert(self) -> RequestView {
        RequestView::Execute(
            statement(
                Sql::ConsumerGroupInsert,
                seq![text_value(self.cluster), text_value(self.offsets.group_id)],
            ),
        )
    }

    /// The group is noted for the transaction.
    pub open spec fn commit_insert(self) -> RequestView {
        RequestView::Execute(
            statement(
                Sql::TxnOffsetCommitInsert,
                seq![
                    text_value(self.cluster),
                    text_value(self.offsets.transaction_id),
                    text_value(self.offsets.group_id),
                    int_value(self.offsets.producer_id as int),
                    int_value(self.offsets.producer_epoch as int),
                    opt_int_value(self.offsets.generation_id),
                    opt_text_value(self.offsets.member_id),
                ],
            ),
        )
    }
}

impl Operation for TxnOffsetCommit {
    type Output = Vec<TxnOffsetCommitResponseTopic>;

    open spec fn valid(state: TxnOffsetCommitView) -> bool {
        true
    }

    open spec fn asked(state: TxnOffsetCommitView) -> Seq<RequestView> {
        match state.stage {
            CommitStage::Lookup => seq![
                state.txn_select(),
                state.group_insert(),
                state.commit_insert(),
            ],
            CommitStage::Write(producer_id, producer_epoch) => if verdict(
                state.offsets,
                producer_id,
                producer_epoch,
            ) is NoError {
                in_turn(state.offsets.topics, offset_inserts(state.cluster, state.offsets))
            } else {
                seq![]
            },
        }
    }

    open spec fn turn(state: TxnOffsetCommitView, replies: Seq<ReplyView>) -> Turn<
        TxnOffsetCommitView,
        Seq<TxnOffsetCommitResponseTopicView>,
    > {
        match state.stage {
            CommitStage::Lookup => {
                let (producer_id, producer_epoch) = match replies[0]->Producer_0 {
                    Some(row) => row,
                    None => (None, None),
                };
                Turn::Next(
                    TxnOffsetCommitView {
                        stage: CommitStage::Write(producer_id, producer_epoch),
                        ..state
                    },
                )
            },
            CommitStage::Write(producer_id, producer_epoch) => Turn::End(
                Ok(
                    state.offsets.topics.map_values(
                        topic_verdict(verdict(state.offsets, producer_id, producer_epoch)),
                    ),
                ),
            ),
        }
    }

    open spec fn in_range(state: TxnOffsetCommitView, replies: Seq<ReplyView>) -> bool {
        true
    }

    fn requests(&self) -> Vec<Request> {
        let mut requests = no_requests();
        match self.stage {
            CommitStage::Lookup => {
                let made = statement2(
                    Sql::TxnSelectForOffset,
                    text(&self.cluster),
                    text(&self.offsets.transaction_id),
                );
                ask(&mut requests, Request::First(made, Shape::Producer));
                let made = statement2(
                    Sql::ConsumerGroupInsert,
                    text(&self.cluster),
                    text(&self.offsets.group_id),
                );
                ask(&mut requests, Request::Execute(made));
                let made = statement7(
                    Sql::TxnOffsetCommitInsert,
                    text(&self.cluster),
                    text(&self.offsets.transaction_id),
                    text(&self.offsets.group_id),
                    int64(self.offsets.producer_id),
                    int16(self.offsets.producer_epoch),
                    opt_int32(self.offsets.generation_id),
                    opt_text(&self.offsets.member_id),
                );
                ask(&mut requests, Request::Execute(made));
            },
            CommitStage::Write(producer_id, producer_epoch) => {
                if let ErrorCode::NoError = self.judge(producer_id, producer_epoch) {
                    let ghost made = offset_inserts(self.cluster@, self.offsets.deep_view());
                    let make = |topic: &TxnOffsetCommitTopic| -> (inserts: Vec<Request>)
                        ensures
                            inserts.deep_view() == made(topic.deep_view()),
                    {
                        self.insert_topic(topic)
                    };
                    ask_in_turn(&mut requests, &self.offsets.topics, make, Ghost(made));
                }
            },
        }
        requests
    }

    fn is_in_range(&self, replies: &Vec<Reply>) -> bool {
        true
    }

    fn advance(self, replies: Vec<Reply>) -> Progress<
        TxnOffsetCommit,
        Vec<TxnOffsetCommitResponseTopic>,
    > {
        let progress = match self.stage {
            CommitStage::Lookup => {
                assert(fits(Self::asked(self.deep_view())[0], replies.deep_view()[0]));
                let (producer_id, producer_epoch) = match &replies[0] {
                    Reply::Producer(Some(row)) => (row.0, row.1),
                    _ => (None, None),
                };
                Progress::Next(
                    TxnOffsetCommit {
                        stage: CommitStage::Write(producer_id, producer_epoch),
                        ..self
                    },
                )
            },
            CommitStage::Write(producer_id, producer_epoch) => {
                let code = self.judge(producer_id, producer_epoch);
                let make = |topic: &TxnOffsetCommitTopic| -> (result: TxnOffsetCommitResponseTopic)
                    ensures
                        result.deep_view() == topic_verdict(code)(topic.deep_view()),
                {
                    judge_topic(code, topic)
                };
                Progress::End(
                    Ok(made_of(&self.offsets.topics, make, Ghost(topic_verdict(code)))),
                )
            },
        };
        assert(progress.deep_view() == Self::turn(self.deep_view(), replies.deep_view()));
        progress
    }
}

/// What became of the offsets of a topic.
fn judge_topic(
    code: ErrorCode,
    topic: &TxnOffsetCommitTopic,
) -> (result: TxnOffsetCommitResponseTopic)
    ensures
        result.deep_view() == topic_verdict(code)(topic.deep_view()),
{
    let make = |partition: &TxnOffsetCommitPartition| -> (result: TxnOffsetCommitResponsePartition)
        ensures
            result.deep_view() == partition_verdict(code)(partition.deep_view()),
    {
        TxnOffsetCommitResponsePartition {
            partition_index: partition.partition_index,
            error_code: code,
        }
    };
    TxnOffsetCommitResponseTopic {
        name: topic.name.clone(),
        partitions: made_of_listed(&topic.partitions, make, Ghost(partition_verdict(code))),
    }
}

impl TxnOffsetCommit {
    /// Whether the producer may note offsets for the transaction.
    fn judge(&self, producer_id: Option<i64>, producer_epoch: Option<i16>) -> (code: ErrorCode)
        ensures
            code == verdict(self.deep_view().offsets, producer_id, producer_epoch),
    {
        match producer_id {
            Some(id) if id == self.offsets.producer_id => match producer_epoch {
                Some(epoch) if epoch == self.offsets.producer_epoch => ErrorCode::NoError,
                _ => ErrorCode::InvalidProducerEpoch,
            },
            _ => ErrorCode::UnknownProducerId,
        }
    }

    /// Ask for the offsets of the partitions of a topic to be noted.
    fn insert_topic(&self, topic: &TxnOffsetCommitTopic) -> (requests: Vec<Request>)
        ensures
            requests.deep_view() == offset_inserts(self.cluster@, self.offsets.deep_view())(
                topic.deep_view(),
            ),
    {
        let ghost made = offset_insert(self.cluster@, self.offsets.deep_view(), topic.name@);
        let make = |partition: &TxnOffsetCommitPartition| -> (inserts: Vec<Request>)
            ensures
                inserts.deep_view() == made(partition.deep_view()),
        {
            let mut inserts = no_requests();
            let insert = statement10(
                Sql::TxnOffsetCommitTpInsert,
                text(&self.cluster),
                text(&self.offsets.transaction_id),
                text(&self.offsets.group_id),
                int64(self.offsets.producer_id),
                int16(self.offsets.producer_epoch),
                text(&topic.name),
                int32(partition.partition_index),
                int64(partition.committed_offset),
                opt_int32(partition.committed_leader_epoch),
                opt_text(&partition.committed_metadata),
            );
            ask(&mut inserts, Request::Execute(insert));
            inserts
        };
        let mut requests = no_requests();
        if let Some(partitions) = &topic.partitions {
            ask_in_turn(&mut requests, partitions, make, Ghost(made));
        }
        requests
    }
}

impl<P, S, H> Mysql<P, S, H> {
    /// Note offsets of a group for a transaction of a producer.
    pub fn txn_offset_commit(&self, offsets: TxnOffsetCommitRequest) -> (operation: Transaction<
        TxnOffsetCommit,
        Vec<TxnOffsetCommitResponseTopic>,
    >)
        ensures
            operation.deep_view() == TransactionView::<
                TxnOffsetCommitView,
                Seq<TxnOffsetCommitResponseTopicView>,
            >::Open(
                TxnOffsetCommitView {
                    cluster: self.cluster@,
                    offsets: offsets.deep_view(),
                    stage: CommitStage::Lookup,
                },
            ),
            Transaction::<TxnOffsetCommit, Vec<TxnOffsetCommitResponseTopic>>::valid(
                operation.deep_view(),
            ),
    {
        Transaction::Open(
            TxnOffsetCommit {
                cluster: self.cluster.clone(),
                offsets,
                stage: CommitStage::Lookup,
            },
        )
    }
}

/// What is asked for offsets leaves the transaction that it runs in as it is.
pub proof fn txn_offset_commit_stays_within(state: TxnOffsetCommitView)
    ensures
        stays_within(TxnOffsetCommit::asked(state)),
{
    let given = offset_inserts(state.cluster, state.offsets);
    assert forall|topic: TxnOffsetCommitTopicView| stays_within(#[trigger] given(topic)) by {
        given_stays_within(
            listed(topic.partitions),
            offset_insert(state.cluster, state.offsets, topic.name),
        );
    }
    given_stays_within(state.offsets.topics, given);
}

/// Offsets are written for the producer of the transaction in its epoch, and for no other: then all
/// of them are written, and otherwise none.
pub proof fn offsets_are_written_for_the_producer_alone(
    state: TxnOffsetCommitView,
    producer_id: Option<i64>,
    producer_epoch: Option<i16>,
)
    requires
        state.stage == CommitStage::Write(producer_id, producer_epoch),
    ensures
        if producer_id == Some(state.offsets.producer_id) && producer_epoch == Some(
            state.offsets.producer_epoch,
        ) {
            TxnOffsetCommit::asked(state) == in_turn(
                state.offsets.topics,
                offset_inserts(state.cluster, state.offsets),
            )
        } else {
            TxnOffsetCommit::asked(state).len() == 0
        },
{
}

/// Every partition is answered, in the order of the request, and all of them alike.
pub proof fn every_partition_is_answered(
    state: TxnOffsetCommitView,
    producer_id: Option<i64>,
    producer_epoch: Option<i16>,
    written: Seq<ReplyView>,
    t: int,
    p: int,
)
    requires
        state.stage == CommitStage::Write(producer_id, producer_epoch),
        0 <= t < state.offsets.topics.len(),
        0 <= p < listed(state.offsets.topics[t].partitions).len(),
    ensures
        TxnOffsetCommit::turn(state, written) matches Turn::End(Ok(topics)) && {
            &&& topics.len() == state.offsets.topics.len()
            &&& topics[t].name == state.offsets.topics[t].name
            &&& topics[t].partitions.len() == listed(state.offsets.topics[t].partitions).len()
            &&& topics[t].partitions[p] == (TxnOffsetCommitResponsePartition {
                partition_index: listed(state.offsets.topics[t].partitions)[p].partition_index,
                error_code: verdict(state.offsets, producer_id, producer_epoch),
            })
        },
{
}

/// What is written of offsets that go with a transaction: one statement for each partition of each
/// topic, in their order, with the transaction, the group and the producer, the topic and the
/// partition, and what is committed in it.
pub open spec fn noted_offsets(cluster: Seq<char>, offsets: TxnOffsetCommitRequestView) -> Seq<
    RequestView,
> {
    offsets.topics.map_values(
        |topic: TxnOffsetCommitTopicView|
            (match topic.partitions {
                Some(partitions) => partitions,
                None => seq![],
            }).map_values(
                |partition: TxnOffsetCommitPartitionView|
                    executes(
                        Sql::TxnOffsetCommitTpInsert,
                        seq![
                            ValueView::Text(cluster),
                            ValueView::Text(offsets.transaction_id),
                            ValueView::Text(offsets.group_id),
                            ValueView::Int(offsets.producer_id),
                            ValueView::Int(offsets.producer_epoch as i64),
                            ValueView::Text(topic.name),
                            ValueView::Int(partition.partition_index as i64),
                            ValueView::Int(partition.committed_offset),
                            match partition.committed_leader_epoch {
                                Some(epoch) => ValueView::Int(epoch as i64),
                                None => ValueView::Null,
                            },
                            match partition.committed_metadata {
                                Some(metadata) => ValueView::Text(metadata),
                                None => ValueView::Null,
                            },
                        ],
                    ),
            ),
    ).flatten()
}

/// The offsets of the partitions of all topics are written, each once.
proof fn offsets_are_written_each_once(cluster: Seq<char>, offsets: TxnOffsetCommitRequestView)
    ensures
        in_turn(offsets.topics, offset_inserts(cluster, offsets)) == noted_offsets(
            cluster,
            offsets,
        ),
        all_execute(noted_offsets(cluster, offsets)),
{
    let given = offset_inserts(cluster, offsets);
    let wanted = |topic: TxnOffsetCommitTopicView|
        (match topic.partitions {
            Some(partitions) => partitions,
            None => seq![],
        }).map_values(
            |partition: TxnOffsetCommitPartitionView|
                executes(
                    Sql::TxnOffsetCommitTpInsert,
                    seq![
                        ValueView::Text(cluster),
                        ValueView::Text(offsets.transaction_id),
                        ValueView::Text(offsets.group_id),
                        ValueView::Int(offsets.producer_id),
                        ValueView::Int(offsets.producer_epoch as i64),
                        ValueView::Text(topic.name),
                        ValueView::Int(partition.partition_index as i64),
                        ValueView::Int(partition.committed_offset),
                        match partition.committed_leader_epoch {
                            Some(epoch) => ValueView::Int(epoch as i64),
                            None => ValueView::Null,
                        },
                        match partition.committed_metadata {
                            Some(metadata) => ValueView::Text(metadata),
                            None => ValueView::Null,
                        },
                    ],
                ),
        );
    items_give_in_order(offsets.topics, given);
    assert forall|topic: TxnOffsetCommitTopicView| #[trigger] given(topic) == wanted(topic) by {
        let one = |partition: TxnOffsetCommitPartitionView|
            executes(
                Sql::TxnOffsetCommitTpInsert,
                seq![
                    ValueView::Text(cluster),
                    ValueView::Text(offsets.transaction_id),
                    ValueView::Text(offsets.group_id),
                    ValueView::Int(offsets.producer_id),
                    ValueView::Int(offsets.producer_epoch as i64),
                    ValueView::Text(topic.name),
                    ValueView::Int(partition.partition_index as i64),
                    ValueView::Int(partition.committed_offset),
                    match partition.committed_leader_epoch {
                        Some(epoch) => ValueView::Int(epoch as i64),
                        None => ValueView::Null,
                    },
                    match partition.committed_metadata {
                        Some(metadata) => ValueView::Text(metadata),
                        None => ValueView::Null,
                    },
                ],
            );
        let insert = offset_insert(cluster, offsets, topic.name);
        assert forall|partition: TxnOffsetCommitPartitionView| #[trigger]
            insert(partition) == seq![one(partition)] by {
            assert(insert(partition)[0]->Execute_0.params =~= one(partition)->Execute_0.params);
            assert(insert(partition) =~= seq![one(partition)]);
        }
        items_give_one_each(listed(topic.partitions), insert, one);
        assert(given(topic) =~= wanted(topic));
    }
    assert(offsets.topics.map_values(given) =~= offsets.topics.map_values(wanted));
    flattened_execute(offsets.topics.map_values(wanted));
}

/// Offsets go with a transaction where they come from its producer, in its epoch. The transaction
/// is looked up by its name, and the group is noted, for itself and for the transaction. Then the
/// offset of every partition is written, or of none, and every partition is answered, in the order
/// of the request: without an error where it was written, and otherwise with the code that says
/// whether it was the producer or its epoch that is not that of the transaction.
pub proof fn offsets_go_with_the_transaction_of_their_producer(
    cluster: Seq<char>,
    offsets: TxnOffsetCommitRequestView,
    row: Option<(Option<i64>, Option<i16>)>,
    groups: u64,
    commits: u64,
    written: Seq<ReplyView>,
)
    requires
        all_affected(
            written,
            if row == Some((Some(offsets.producer_id), Some(offsets.producer_epoch))) {
                noted_offsets(cluster, offsets).len()
            } else {
                0
            },
        ),
    ensures
        ({
            let lookup = (
                seq![
                    looks_up(
                        Sql::TxnSelectForOffset,
                        seq![ValueView::Text(cluster), ValueView::Text(offsets.transaction_id)],
                        Shape::Producer,
                    ),
                    executes(
                        Sql::ConsumerGroupInsert,
                        seq![ValueView::Text(cluster), ValueView::Text(offsets.group_id)],
                    ),
                    executes(
                        Sql::TxnOffsetCommitInsert,
                        seq![
                            ValueView::Text(cluster),
                            ValueView::Text(offsets.transaction_id),
                            ValueView::Text(offsets.group_id),
                            ValueView::Int(offsets.producer_id),
                            ValueView::Int(offsets.producer_epoch as i64),
                            match offsets.generation_id {
                                Some(generation) => ValueView::Int(generation as i64),
                                None => ValueView::Null,
                            },
                            match offsets.member_id {
                                Some(member) => ValueView::Text(member),
                                None => ValueView::Null,
                            },
                        ],
                    ),
                ],
                seq![
                    ReplyView::Producer(row),
                    ReplyView::Affected(groups),
                    ReplyView::Affected(commits),
                ],
            );
            let (code, asked) = match row {
                Some((Some(id), Some(epoch))) if id == offsets.producer_id && epoch
                    == offsets.producer_epoch => (
                    ErrorCode::NoError,
                    noted_offsets(cluster, offsets),
                ),
                Some((Some(id), _)) if id == offsets.producer_id => (
                    ErrorCode::InvalidProducerEpoch,
                    seq![],
                ),
                _ => (ErrorCode::UnknownProducerId, seq![]),
            };
            talks::<Transaction<TxnOffsetCommit, Vec<TxnOffsetCommitResponseTopic>>>(
                TransactionView::Open(
                    TxnOffsetCommitView { cluster, offsets, stage: CommitStage::Lookup },
                ),
                in_a_transaction(seq![lookup, (asked, written)], true),
                Ok(
                    Seq::new(
                        offsets.topics.len(),
                        |t: int|
                            TxnOffsetCommitResponseTopicView {
                                name: offsets.topics[t].name,
                                partitions: (match offsets.topics[t].partitions {
                                    Some(partitions) => partitions,
                                    None => seq![],
                                }).map_values(
                                    |partition: TxnOffsetCommitPartitionView|
                                        TxnOffsetCommitResponsePartition {
                                            partition_index: partition.partition_index,
                                            error_code: code,
                                        },
                                ),
                            },
                    ),
                ),
            )
        }),
{
    let state = TxnOffsetCommitView { cluster, offsets, stage: CommitStage::Lookup };
    let lookup = seq![
        looks_up(
            Sql::TxnSelectForOffset,
            seq![ValueView::Text(cluster), ValueView::Text(offsets.transaction_id)],
            Shape::Producer,
        ),
        executes(
            Sql::ConsumerGroupInsert,
            seq![ValueView::Text(cluster), ValueView::Text(offsets.group_id)],
        ),
        executes(
            Sql::TxnOffsetCommitInsert,
            seq![
                ValueView::Text(cluster),
                ValueView::Text(offsets.transaction_id),
                ValueView::Text(offsets.group_id),
                ValueView::Int(offsets.producer_id),
                ValueView::Int(offsets.producer_epoch as i64),
                match offsets.generation_id {
                    Some(generation) => ValueView::Int(generation as i64),
                    None => ValueView::Null,
                },
                match offsets.member_id {
                    Some(member) => ValueView::Text(member),
                    None => ValueView::Null,
                },
            ],
        ),
    ];
    let replies = seq![
        ReplyView::Producer(row),
        ReplyView::Affected(groups),
        ReplyView::Affected(commits),
    ];
    let (code, asked) = match row {
        Some((Some(id), Some(epoch))) if id == offsets.producer_id && epoch
            == offsets.producer_epoch => (ErrorCode::NoError, noted_offsets(cluster, offsets)),
        Some((Some(id), _)) if id == offsets.producer_id => (
            ErrorCode::InvalidProducerEpoch,
            seq![],
        ),
        _ => (ErrorCode::UnknownProducerId, seq![]),
    };
    let answer = Seq::new(
        offsets.topics.len(),
        |t: int|
            TxnOffsetCommitResponseTopicView {
                name: offsets.topics[t].name,
                partitions: (match offsets.topics[t].partitions {
                    Some(partitions) => partitions,
                    None => seq![],
                }).map_values(
                    |partition: TxnOffsetCommitPartitionView|
                        TxnOffsetCommitResponsePartition {
                            partition_index: partition.partition_index,
                            error_code: code,
                        },
                ),
            },
    );
    let (producer_id, producer_epoch) = match row {
        Some(row) => row,
        None => (None, None),
    };
    let next = TxnOffsetCommitView {
        cluster,
        offsets,
        stage: CommitStage::Write(producer_id, producer_epoch),
    };
    assert(verdict(offsets, producer_id, producer_epoch) == code);
    offsets_are_written_each_once(cluster, offsets);
    assert(TxnOffsetCommit::asked(next) =~= asked);
    affected_fits(asked, written);
    let given = offsets.topics.map_values(topic_verdict(code));
    assert forall|t: int| 0 <= t < offsets.topics.len() implies given[t] == answer[t] by {
        assert(given[t].partitions =~= answer[t].partitions);
    }
    assert(given =~= answer);
    talk_ends::<TxnOffsetCommit>(next, asked, written, Ok(answer));
    let first = TxnOffsetCommit::asked(state);
    assert(first[2]->Execute_0.params =~= lookup[2]->Execute_0.params);
    assert(first =~= lookup);
    talk_goes_on::<TxnOffsetCommit>(
        state,
        lookup,
        replies,
        next,
        seq![(asked, written)],
        Ok(answer),
    );
    assert(seq![(lookup, replies)] + seq![(asked, written)] =~= seq![
        (lookup, replies),
        (asked, written),
    ]);
    a_transaction_encloses_a_talk::<TxnOffsetCommit>(
        state,
        seq![(lookup, replies), (asked, written)],
        Ok(answer),
    );
}

} // verus!
