//! Partitions are added to transactions of producers.

use vstd::prelude::*;

use crate::engine::Mysql;
use crate::error::{ErrorCode, ErrorView};
use crate::operation::{completes, run, Operation, Progress, Turn};
use crate::request::{
    ask, fits, no_requests, number, only, Reply, ReplyView, Request, RequestView, Shape,
};
use crate::script::listed;
use crate::sequence::{
    for_each, for_each_listed, in_sequence, InSequence, InSequenceView, Labelled, Under, UnderView,
};
use crate::sql::Sql;
use crate::talk::{
    a_name_leaves_the_talk, a_sequence_talks_in_order, executes, looks_up, talk_ends, talk_goes_on,
    talks, Exchange,
};
use crate::transaction::{Connected, ConnectedView};
use crate::value::{
    int16, int32, int64, int_value, statement, statement3, statement6, text, text_value, ValueView,
};
use crate::wire::{
    AddPartitionsToTxnPartitionResult, AddPartitionsToTxnResult, AddPartitionsToTxnResultView,
    AddPartitionsToTxnTopic, AddPartitionsToTxnTopicResult, AddPartitionsToTxnTopicResultView,
    AddPartitionsToTxnTopicView, AddPartitionsToTxnTransaction, AddPartitionsToTxnTransactionView,
    SingleTxnView, TxnAddPartitionsRequest, TxnAddPartitionsRequestView, TxnAddPartitionsResponse,
    TxnAddPartitionsResponseView,
};

verus! {

/// A partition that is added to a transaction of a producer.
#[derive(Debug)]
pub struct AddPartition {
    pub cluster: String,
    pub transaction_id: String,
    pub producer_id: i64,
    pub producer_epoch: i16,
    pub topic: String,
    pub partition: i32,
    /// Whether the partition was found.
    pub exists: bool,
}

/// What [`AddPartition`] stands for.
pub struct AddPartitionView {
    pub cluster: Seq<char>,
    pub transaction_id: Seq<char>,
    pub producer_id: i64,
    pub producer_epoch: i16,
    pub topic: Seq<char>,
    pub partition: i32,
    pub exists: bool,
}

impl DeepView for AddPartition {
    type V = AddPartitionView;

    open spec fn deep_view(&self) -> AddPartitionView {
        AddPartitionView {
            cluster: self.cluster@,
            transaction_id: self.transaction_id@,
            producer_id: self.producer_id,
            producer_epoch: self.producer_epoch,
            topic: self.topic@,
            partition: self.partition,
            exists: self.exists,
        }
    }
}

impl AddPartitionView {
    /// The partition is looked up.
    pub open spec fn topition_exists(self) -> RequestView {
        RequestView::First(
            statement(
                Sql::TopitionExists,
                seq![
                    text_value(self.cluster),
                    text_value(self.topic),
                    int_value(self.partition as int),
                ],
            ),
            Shape::Int,
        )
    }

    /// The partition becomes one of the transaction.
    pub open spec fn txn_topition_insert(self) -> RequestView {
        RequestView::Execute(
            statement(
                Sql::TxnTopitionInsert,
                seq![
                    text_value(self.cluster),
                    text_value(self.transaction_id),
                    int_value(self.producer_id as int),
                    int_value(self.producer_epoch as int),
                    text_value(self.topic),
                    int_value(self.partition as int),
                ],
            ),
        )
    }

    /// What became of the partition.
    pub open spec fn result(self, code: ErrorCode) -> AddPartitionsToTxnPartitionResult {
        AddPartitionsToTxnPartitionResult {
            partition_index: self.partition,
            partition_error_code: code,
        }
    }
}

impl Operation for AddPartition {
    type Output = AddPartitionsToTxnPartitionResult;

    open spec fn valid(state: AddPartitionView) -> bool {
        true
    }

    open spec fn asked(state: AddPartitionView) -> Seq<RequestView> {
        if state.exists {
            seq![state.txn_topition_insert()]
        } else {
            seq![state.topition_exists()]
        }
    }

    open spec fn turn(state: AddPartitionView, replies: Seq<ReplyView>) -> Turn<
        AddPartitionView,
        AddPartitionsToTxnPartitionResult,
    > {
        if state.exists {
            Turn::End(Ok(state.result(ErrorCode::NoError)))
        } else {
            match replies[0]->Int_0 {
                Some(_) => Turn::Next(AddPartitionView { exists: true, ..state }),
                None => Turn::End(Ok(state.result(ErrorCode::UnknownTopicOrPartition))),
            }
        }
    }

    open spec fn in_range(state: AddPartitionView, replies: Seq<ReplyView>) -> bool {
        true
    }

    fn requests(&self) -> Vec<Request> {
        let mut requests = no_requests();
        if self.exists {
            let made = statement6(
                Sql::TxnTopitionInsert,
                text(&self.cluster),
                text(&self.transaction_id),
                int64(self.producer_id),
                int16(self.producer_epoch),
                text(&self.topic),
                int32(self.partition),
            );
            ask(&mut requests, Request::Execute(made));
        } else {
            let made = statement3(
                Sql::TopitionExists,
                text(&self.cluster),
                text(&self.topic),
                int32(self.partition),
            );
            ask(&mut requests, Request::First(made, Shape::Int));
        }
        requests
    }

    fn is_in_range(&self, replies: &Vec<Reply>) -> bool {
        true
    }

    fn advance(self, replies: Vec<Reply>) -> Progress<
        AddPartition,
        AddPartitionsToTxnPartitionResult,
    > {
        let partition_index: i32 = self.partition;
        if self.exists {
            Progress::End(
                Ok(
                    AddPartitionsToTxnPartitionResult {
                        partition_index,
                        partition_error_code: ErrorCode::NoError,
                    },
                ),
            )
        } else {
            assert(fits(Self::asked(self.deep_view())[0], replies.deep_view()[0]));
            match number(only(replies)) {
                Some(_) => Progress::Next(AddPartition { exists: true, ..self }),
                None => Progress::End(
                    Ok(
                        AddPartitionsToTxnPartitionResult {
                            partition_index,
                            partition_error_code: ErrorCode::UnknownTopicOrPartition,
                        },
                    ),
                ),
            }
        }
    }
}

impl Labelled<Vec<AddPartitionsToTxnPartitionResult>> for AddPartitionsToTxnTopicResult {
    open spec fn labelled(
        name: Seq<char>,
        value: Seq<AddPartitionsToTxnPartitionResult>,
    ) -> AddPartitionsToTxnTopicResultView {
        AddPartitionsToTxnTopicResultView { name, results_by_partition: value }
    }

    fn label(
        name: String,
        value: Vec<AddPartitionsToTxnPartitionResult>,
    ) -> AddPartitionsToTxnTopicResult {
        AddPartitionsToTxnTopicResult { name, results_by_partition: value }
    }
}

impl Labelled<Vec<AddPartitionsToTxnTopicResult>> for AddPartitionsToTxnResult {
    open spec fn labelled(
        name: Seq<char>,
        value: Seq<AddPartitionsToTxnTopicResultView>,
    ) -> AddPartitionsToTxnResultView {
        AddPartitionsToTxnResultView { transactional_id: name, topic_results: value }
    }

    fn label(name: String, value: Vec<AddPartitionsToTxnTopicResult>) -> AddPartitionsToTxnResult {
        AddPartitionsToTxnResult { transactional_id: name, topic_results: value }
    }
}

/// The partitions of a topic, added to a transaction.
pub type AddTopic = Under<
    InSequence<AddPartition, AddPartitionsToTxnPartitionResult>,
    AddPartitionsToTxnTopicResult,
>;

/// What [`AddTopic`] stands for.
pub type AddTopicView = UnderView<
    InSequenceView<AddPartitionView, AddPartitionsToTxnPartitionResult>,
>;

/// The partitions of topics, added to a transaction.
pub type AddTopics = InSequence<AddTopic, AddPartitionsToTxnTopicResult>;

/// What [`AddTopics`] stands for.
pub type AddTopicsView = InSequenceView<AddTopicView, AddPartitionsToTxnTopicResultView>;

/// The partitions of topics, added to one of several transactions.
pub type AddTxn = Under<AddTopics, AddPartitionsToTxnResult>;

/// What [`AddTxn`] stands for.
pub type AddTxnView = UnderView<AddTopicsView>;

/// A partition of a topic, to be added.
pub open spec fn partition_addition(
    cluster: Seq<char>,
    transaction_id: Seq<char>,
    producer_id: i64,
    producer_epoch: i16,
    topic: Seq<char>,
) -> spec_fn(i32) -> AddPartitionView {
    |partition: i32|
        AddPartitionView {
            cluster,
            transaction_id,
            producer_id,
            producer_epoch,
            topic,
            partition,
            exists: false,
        }
}

/// A topic with its partitions to be added.
pub open spec fn topic_addition(
    cluster: Seq<char>,
    transaction_id: Seq<char>,
    producer_id: i64,
    producer_epoch: i16,
) -> spec_fn(AddPartitionsToTxnTopicView) -> AddTopicView {
    |topic: AddPartitionsToTxnTopicView|
        UnderView {
            name: topic.name,
            operation: in_sequence(
                listed(topic.partitions).map_values(
                    partition_addition(
                        cluster,
                        transaction_id,
                        producer_id,
                        producer_epoch,
                        topic.name,
                    ),
                ),
            ),
        }
}

/// A transaction with its topics.
pub open spec fn txn_addition(cluster: Seq<char>) -> spec_fn(
    AddPartitionsToTxnTransactionView,
) -> AddTxnView {
    |txn: AddPartitionsToTxnTransactionView|
        UnderView {
            name: txn.transactional_id,
            operation: in_sequence(
                listed(txn.topics).map_values(
                    topic_addition(
                        cluster,
                        txn.transactional_id,
                        txn.producer_id,
                        txn.producer_epoch,
                    ),
                ),
            ),
        }
}

/// Partitions that are added to transactions of producers.
#[derive(Debug)]
pub enum TxnAddPartitions {
    /// To one transaction.
    VersionZeroToThree(AddTopics),
    /// To several.
    VersionFourPlus(InSequence<AddTxn, AddPartitionsToTxnResult>),
}

/// What [`TxnAddPartitions`] stands for.
pub enum TxnAddPartitionsView {
    VersionZeroToThree(AddTopicsView),
    VersionFourPlus(InSequenceView<AddTxnView, AddPartitionsToTxnResultView>),
}

impl DeepView for TxnAddPartitions {
    type V = TxnAddPartitionsView;

    open spec fn deep_view(&self) -> TxnAddPartitionsView {
        match self {
            TxnAddPartitions::VersionZeroToThree(a) => TxnAddPartitionsView::VersionZeroToThree(
                a.deep_view(),
            ),
            TxnAddPartitions::VersionFourPlus(a) => TxnAddPartitionsView::VersionFourPlus(
                a.deep_view(),
            ),
        }
    }
}

/// What is to be done for a request.
pub open spec fn txn_add_partitions(
    cluster: Seq<char>,
    request: TxnAddPartitionsRequestView,
) -> TxnAddPartitionsView {
    match request {
        TxnAddPartitionsRequestView::VersionZeroToThree(
            single,
        ) => TxnAddPartitionsView::VersionZeroToThree(
            in_sequence(
                single.topics.map_values(
                    topic_addition(
                        cluster,
                        single.transaction_id,
                        single.producer_id,
                        single.producer_epoch,
                    ),
                ),
            ),
        ),
        TxnAddPartitionsRequestView::VersionFourPlus(
            transactions,
        ) => TxnAddPartitionsView::VersionFourPlus(
            in_sequence(transactions.map_values(txn_addition(cluster))),
        ),
    }
}

impl Operation for TxnAddPartitions {
    type Output = TxnAddPartitionsResponse;

    open spec fn valid(state: TxnAddPartitionsView) -> bool {
        match state {
            TxnAddPartitionsView::VersionZeroToThree(inner) => AddTopics::valid(inner),
            TxnAddPartitionsView::VersionFourPlus(inner) => InSequence::<
                AddTxn,
                AddPartitionsToTxnResult,
            >::valid(inner),
        }
    }

    open spec fn asked(state: TxnAddPartitionsView) -> Seq<RequestView> {
        match state {
            TxnAddPartitionsView::VersionZeroToThree(inner) => AddTopics::asked(inner),
            TxnAddPartitionsView::VersionFourPlus(inner) => InSequence::<
                AddTxn,
                AddPartitionsToTxnResult,
            >::asked(inner),
        }
    }

    open spec fn turn(state: TxnAddPartitionsView, replies: Seq<ReplyView>) -> Turn<
        TxnAddPartitionsView,
        TxnAddPartitionsResponseView,
    > {
        match state {
            TxnAddPartitionsView::VersionZeroToThree(inner) => match AddTopics::turn(
                inner,
                replies,
            ) {
                Turn::Next(inner) => Turn::Next(TxnAddPartitionsView::VersionZeroToThree(inner)),
                Turn::End(Ok(results)) => Turn::End(
                    Ok(TxnAddPartitionsResponseView::VersionZeroToThree(results)),
                ),
                Turn::End(Err(error)) => Turn::End(Err(error)),
            },
            TxnAddPartitionsView::VersionFourPlus(inner) => match InSequence::<
                AddTxn,
                AddPartitionsToTxnResult,
            >::turn(inner, replies) {
                Turn::Next(inner) => Turn::Next(TxnAddPartitionsView::VersionFourPlus(inner)),
                Turn::End(Ok(results)) => Turn::End(
                    Ok(TxnAddPartitionsResponseView::VersionFourPlus(results)),
                ),
                Turn::End(Err(error)) => Turn::End(Err(error)),
            },
        }
    }

    open spec fn in_range(state: TxnAddPartitionsView, replies: Seq<ReplyView>) -> bool {
        true
    }

    fn requests(&self) -> Vec<Request> {
        match self {
            TxnAddPartitions::VersionZeroToThree(inner) => inner.requests(),
            TxnAddPartitions::VersionFourPlus(inner) => inner.requests(),
        }
    }

    fn is_in_range(&self, replies: &Vec<Reply>) -> bool {
        true
    }

    fn advance(self, replies: Vec<Reply>) -> Progress<TxnAddPartitions, TxnAddPartitionsResponse> {
        let progress = match self {
            TxnAddPartitions::VersionZeroToThree(inner) => match inner.advance(replies) {
                Progress::Next(inner) => Progress::Next(
                    TxnAddPartitions::VersionZeroToThree(inner),
                ),
                Progress::End(Ok(results)) => Progress::End(
                    Ok(TxnAddPartitionsResponse::VersionZeroToThree(results)),
                ),
                Progress::End(Err(error)) => Progress::End(Err(error)),
            },
            TxnAddPartitions::VersionFourPlus(inner) => match inner.advance(replies) {
                Progress::Next(inner) => Progress::Next(TxnAddPartitions::VersionFourPlus(inner)),
                Progress::End(Ok(results)) => Progress::End(
                    Ok(TxnAddPartitionsResponse::VersionFourPlus(results)),
                ),
                Progress::End(Err(error)) => Progress::End(Err(error)),
            },
        };
        assert(progress.deep_view() == Self::turn(self.deep_view(), replies.deep_view()));
        progress
    }
}

/// A topic with its partitions to be added.
fn add_topic(
    cluster: &String,
    transaction_id: &String,
    producer_id: i64,
    producer_epoch: i16,
    topic: &AddPartitionsToTxnTopic,
) -> (operation: AddTopic)
    ensures
        operation.deep_view() == topic_addition(
            cluster@,
            transaction_id@,
            producer_id,
            producer_epoch,
        )(topic.deep_view()),
        AddTopic::valid(operation.deep_view()),
{
    let ghost made = partition_addition(
        cluster@,
        transaction_id@,
        producer_id,
        producer_epoch,
        topic.name@,
    );
    let make = |partition: &i32| -> (operation: AddPartition)
        ensures
            operation.deep_view() == made(*partition),
    {
        AddPartition {
            cluster: cluster.clone(),
            transaction_id: transaction_id.clone(),
            producer_id,
            producer_epoch,
            topic: topic.name.clone(),
            partition: *partition,
            exists: false,
        }
    };
    Under::new(topic.name.clone(), for_each_listed(&topic.partitions, make, Ghost(made)))
}

/// A transaction with its topics.
fn add_txn(cluster: &String, txn: &AddPartitionsToTxnTransaction) -> (operation: AddTxn)
    ensures
        operation.deep_view() == txn_addition(cluster@)(txn.deep_view()),
        AddTxn::valid(operation.deep_view()),
{
    let ghost made = topic_addition(
        cluster@,
        txn.transactional_id@,
        txn.producer_id,
        txn.producer_epoch,
    );
    let make = |topic: &AddPartitionsToTxnTopic| -> (operation: AddTopic)
        ensures
            operation.deep_view() == made(topic.deep_view()),
            AddTopic::valid(operation.deep_view()),
    {
        add_topic(cluster, &txn.transactional_id, txn.producer_id, txn.producer_epoch, topic)
    };
    Under::new(txn.transactional_id.clone(), for_each_listed(&txn.topics, make, Ghost(made)))
}

impl<P, S, H> Mysql<P, S, H> {
    /// Add partitions to transactions of producers. A partition that does not exist is refused by
    /// itself.
    pub fn txn_add_partitions(&self, partitions: TxnAddPartitionsRequest) -> (operation: Connected<
        TxnAddPartitions,
    >)
        ensures
            operation.deep_view() == ConnectedView::Open(
                txn_add_partitions(self.cluster@, partitions.deep_view()),
            ),
            Connected::<TxnAddPartitions>::valid(operation.deep_view()),
    {
        let cluster = &self.cluster;
        let operation = match &partitions {
            TxnAddPartitionsRequest::VersionZeroToThree(single) => {
                let ghost made = topic_addition(
                    cluster@,
                    single.transaction_id@,
                    single.producer_id,
                    single.producer_epoch,
                );
                let make = |topic: &AddPartitionsToTxnTopic| -> (operation: AddTopic)
                    ensures
                        operation.deep_view() == made(topic.deep_view()),
                        AddTopic::valid(operation.deep_view()),
                {
                    add_topic(
                        cluster,
                        &single.transaction_id,
                        single.producer_id,
                        single.producer_epoch,
                        topic,
                    )
                };
                TxnAddPartitions::VersionZeroToThree(for_each(&single.topics, make, Ghost(made)))
            },
            TxnAddPartitionsRequest::VersionFourPlus(transactions) => {
                let make = |txn: &AddPartitionsToTxnTransaction| -> (operation: AddTxn)
                    ensures
                        operation.deep_view() == txn_addition(cluster@)(txn.deep_view()),
                        AddTxn::valid(operation.deep_view()),
                {
                    add_txn(cluster, txn)
                };
                TxnAddPartitions::VersionFourPlus(
                    for_each(transactions, make, Ghost(txn_addition(cluster@))),
                )
            },
        };
        Connected::Open(operation)
    }
}

/// A partition is added to a transaction where it exists, and is refused where it does not.
pub proof fn only_partitions_that_exist_are_added(
    state: AddPartitionView,
    found: i32,
    written: Seq<ReplyView>,
)
    requires
        !state.exists,
    ensures
        completes::<AddPartition>(
            state,
            seq![seq![ReplyView::Int(None)]],
            state.result(ErrorCode::UnknownTopicOrPartition),
        ),
        completes::<AddPartition>(
            state,
            seq![seq![ReplyView::Int(Some(found))], written],
            state.result(ErrorCode::NoError),
        ),
        AddPartition::asked(state) == seq![state.topition_exists()],
        AddPartition::asked(AddPartitionView { exists: true, ..state }) == seq![
            state.txn_topition_insert(),
        ],
{
    let script = seq![seq![ReplyView::Int(Some(found))], written];
    let next = AddPartitionView { exists: true, ..state };
    assert(AddPartition::turn(state, script[0]) == Turn::<
        AddPartitionView,
        AddPartitionsToTxnPartitionResult,
    >::Next(next));
    assert(completes::<AddPartition>(
        next,
        script.drop_first(),
        state.result(ErrorCode::NoError),
    ));
}

/// Whether one transaction by itself, and the same as the only one of several, ask for the same and
/// come to the same with the same replies. Several take one more turn, without requests, to answer.
pub open spec fn run_alike(
    name: Seq<char>,
    single: TxnAddPartitionsView,
    several: TxnAddPartitionsView,
    script: Seq<Seq<ReplyView>>,
) -> bool {
    match run::<TxnAddPartitions>(single, script) {
        Turn::Next(next) => run::<TxnAddPartitions>(several, script) matches Turn::Next(other)
            && TxnAddPartitions::asked(other) == TxnAddPartitions::asked(next),
        Turn::End(Ok(response)) => {
            &&& response is VersionZeroToThree
            &&& run::<TxnAddPartitions>(several, script.push(seq![])) == Turn::<
                TxnAddPartitionsView,
                TxnAddPartitionsResponseView,
            >::End(
                Ok(
                    TxnAddPartitionsResponseView::VersionFourPlus(
                        seq![
                            AddPartitionsToTxnResultView {
                                transactional_id: name,
                                topic_results: response->VersionZeroToThree_0,
                            },
                        ],
                    ),
                ),
            )
        },
        Turn::End(Err(error)) => run::<TxnAddPartitions>(several, script) == Turn::<
            TxnAddPartitionsView,
            TxnAddPartitionsResponseView,
        >::End(Err(error)),
    }
}

/// One transaction by itself, and the same as the only one of several.
proof fn one_of_several_runs_alike(
    name: Seq<char>,
    inner: AddTopicsView,
    script: Seq<Seq<ReplyView>>,
)
    ensures
        ({
            let single = TxnAddPartitionsView::VersionZeroToThree(inner);
            let several = TxnAddPartitionsView::VersionFourPlus(
                in_sequence(seq![UnderView { name, operation: inner }]),
            );
            run_alike(name, single, several, script)
        }),
    decreases script.len(),
{
    let only = UnderView { name, operation: inner };
    let single = TxnAddPartitionsView::VersionZeroToThree(inner);
    let several = TxnAddPartitionsView::VersionFourPlus(in_sequence(seq![only]));
    if script.len() > 0 {
        let longer = script.push(seq![]);
        assert(longer.drop_first() =~= script.drop_first().push(seq![]));
        assert(seq![only].drop_first() =~= Seq::empty());
        match AddTopics::turn(inner, script[0]) {
            Turn::Next(next) => {
                assert(seq![UnderView { name, operation: next }] + seq![only].drop_first()
                    =~= seq![UnderView { name, operation: next }]);
                one_of_several_runs_alike(name, next, script.drop_first());
            },
            Turn::End(Ok(results)) => {
                let result = AddPartitionsToTxnResultView {
                    transactional_id: name,
                    topic_results: results,
                };
                assert(Seq::<AddPartitionsToTxnResultView>::empty().push(result) =~= seq![result]);
                let done = TxnAddPartitionsView::VersionFourPlus(
                    InSequenceView { rest: Seq::empty(), done: seq![result] },
                );
                assert(TxnAddPartitions::turn(several, longer[0]) == Turn::<
                    TxnAddPartitionsView,
                    TxnAddPartitionsResponseView,
                >::Next(done));
                reveal_with_fuel(run, 3);
            },
            Turn::End(Err(_)) => {},
        }
    }
}

/// A request of the older form, and one of the newer form with the same transaction alone, make the
/// same requests at every turn, and answer the same of every partition.
pub proof fn both_versions_run_alike(
    cluster: Seq<char>,
    single: SingleTxnView,
    txn: AddPartitionsToTxnTransactionView,
    script: Seq<Seq<ReplyView>>,
)
    requires
        txn.transactional_id == single.transaction_id,
        txn.producer_id == single.producer_id,
        txn.producer_epoch == single.producer_epoch,
        listed(txn.topics) == single.topics,
    ensures
        run_alike(
            txn.transactional_id,
            txn_add_partitions(cluster, TxnAddPartitionsRequestView::VersionZeroToThree(single)),
            txn_add_partitions(cluster, TxnAddPartitionsRequestView::VersionFourPlus(seq![txn])),
            script,
        ),
{
    let addition = txn_addition(cluster)(txn);
    assert(seq![txn].map_values(txn_addition(cluster)) =~= seq![addition]);
    one_of_several_runs_alike(txn.transactional_id, addition.operation, script);
}

/// The talk about a partition that is added to a transaction: it is looked up, and where it is
/// there it is noted for the transaction, for its producer in its epoch.
pub open spec fn addition_talk(
    cluster: Seq<char>,
    transaction_id: Seq<char>,
    producer_id: i64,
    producer_epoch: i16,
    topic: Seq<char>,
    partition: i32,
    found: Option<i32>,
    rows: u64,
) -> Seq<Exchange> {
    let lookup = (
        seq![
            looks_up(
                Sql::TopitionExists,
                seq![
                    ValueView::Text(cluster),
                    ValueView::Text(topic),
                    ValueView::Int(partition as i64),
                ],
                Shape::Int,
            ),
        ],
        seq![ReplyView::Int(found)],
    );
    match found {
        Some(_) => seq![
            lookup,
            (
                seq![
                    executes(
                        Sql::TxnTopitionInsert,
                        seq![
                            ValueView::Text(cluster),
                            ValueView::Text(transaction_id),
                            ValueView::Int(producer_id),
                            ValueView::Int(producer_epoch as i64),
                            ValueView::Text(topic),
                            ValueView::Int(partition as i64),
                        ],
                    ),
                ],
                seq![ReplyView::Affected(rows)],
            ),
        ],
        None => seq![lookup],
    }
}

/// A partition is added to a transaction where it is there, and answered as unknown where it is
/// not.
pub proof fn a_partition_is_added_where_it_is_there(
    cluster: Seq<char>,
    transaction_id: Seq<char>,
    producer_id: i64,
    producer_epoch: i16,
    topic: Seq<char>,
    partition: i32,
    found: Option<i32>,
    rows: u64,
)
    ensures
        talks::<AddPartition>(
            partition_addition(cluster, transaction_id, producer_id, producer_epoch, topic)(
                partition,
            ),
            addition_talk(
                cluster,
                transaction_id,
                producer_id,
                producer_epoch,
                topic,
                partition,
                found,
                rows,
            ),
            Ok(
                AddPartitionsToTxnPartitionResult {
                    partition_index: partition,
                    partition_error_code: if found is Some {
                        ErrorCode::NoError
                    } else {
                        ErrorCode::UnknownTopicOrPartition
                    },
                },
            ),
        ),
{
    let state = partition_addition(cluster, transaction_id, producer_id, producer_epoch, topic)(
        partition,
    );
    let lookup = seq![
        looks_up(
            Sql::TopitionExists,
            seq![
                ValueView::Text(cluster),
                ValueView::Text(topic),
                ValueView::Int(partition as i64),
            ],
            Shape::Int,
        ),
    ];
    let looking = seq![ReplyView::Int(found)];
    let end: Result<AddPartitionsToTxnPartitionResult, ErrorView> = Ok(
        AddPartitionsToTxnPartitionResult {
            partition_index: partition,
            partition_error_code: if found is Some {
                ErrorCode::NoError
            } else {
                ErrorCode::UnknownTopicOrPartition
            },
        },
    );
    match found {
        Some(_) => {
            let next = AddPartitionView { exists: true, ..state };
            let insert = seq![
                executes(
                    Sql::TxnTopitionInsert,
                    seq![
                        ValueView::Text(cluster),
                        ValueView::Text(transaction_id),
                        ValueView::Int(producer_id),
                        ValueView::Int(producer_epoch as i64),
                        ValueView::Text(topic),
                        ValueView::Int(partition as i64),
                    ],
                ),
            ];
            let inserting = seq![ReplyView::Affected(rows)];
            talk_ends::<AddPartition>(next, insert, inserting, end);
            talk_goes_on::<AddPartition>(
                state,
                lookup,
                looking,
                next,
                seq![(insert, inserting)],
                end,
            );
            assert(seq![(lookup, looking)] + seq![(insert, inserting)] =~= seq![
                (lookup, looking),
                (insert, inserting),
            ]);
        },
        None => talk_ends::<AddPartition>(state, lookup, looking, end),
    }
}

/// The talk about the partitions of a topic that are added to a transaction, one after the other.
pub open spec fn topic_addition_talk(
    cluster: Seq<char>,
    transaction_id: Seq<char>,
    producer_id: i64,
    producer_epoch: i16,
    topic: AddPartitionsToTxnTopicView,
    found: Seq<(Option<i32>, u64)>,
) -> Seq<Exchange> {
    let partitions = match topic.partitions {
        Some(partitions) => partitions,
        None => seq![],
    };
    Seq::new(
        partitions.len(),
        |p: int|
            addition_talk(
                cluster,
                transaction_id,
                producer_id,
                producer_epoch,
                topic.name,
                partitions[p],
                found[p].0,
                found[p].1,
            ),
    ).flatten() + seq![(seq![], seq![])]
}

/// What is answered of the partitions of a topic, in their order and under the name of the topic.
pub open spec fn topic_answer(
    topic: AddPartitionsToTxnTopicView,
    found: Seq<(Option<i32>, u64)>,
) -> AddPartitionsToTxnTopicResultView {
    let partitions = match topic.partitions {
        Some(partitions) => partitions,
        None => seq![],
    };
    AddPartitionsToTxnTopicResultView {
        name: topic.name,
        results_by_partition: Seq::new(
            partitions.len(),
            |p: int|
                AddPartitionsToTxnPartitionResult {
                    partition_index: partitions[p],
                    partition_error_code: if found[p].0 is Some {
                        ErrorCode::NoError
                    } else {
                        ErrorCode::UnknownTopicOrPartition
                    },
                },
        ),
    }
}

/// Every partition of a topic that is named is dealt with by itself, and answered.
pub proof fn every_partition_of_a_topic_is_added_by_itself(
    cluster: Seq<char>,
    transaction_id: Seq<char>,
    producer_id: i64,
    producer_epoch: i16,
    topic: AddPartitionsToTxnTopicView,
    found: Seq<(Option<i32>, u64)>,
)
    ensures
        talks::<AddTopic>(
            topic_addition(cluster, transaction_id, producer_id, producer_epoch)(topic),
            topic_addition_talk(
                cluster,
                transaction_id,
                producer_id,
                producer_epoch,
                topic,
                found,
            ),
            Ok(topic_answer(topic, found)),
        ),
{
    let partitions = match topic.partitions {
        Some(partitions) => partitions,
        None => seq![],
    };
    let operations = listed(topic.partitions).map_values(
        partition_addition(cluster, transaction_id, producer_id, producer_epoch, topic.name),
    );
    let parts = Seq::new(
        partitions.len(),
        |p: int|
            addition_talk(
                cluster,
                transaction_id,
                producer_id,
                producer_epoch,
                topic.name,
                partitions[p],
                found[p].0,
                found[p].1,
            ),
    );
    let values = topic_answer(topic, found).results_by_partition;
    assert forall|p: int| 0 <= p < operations.len() implies talks::<AddPartition>(
        #[trigger] operations[p],
        parts[p],
        Ok(values[p]),
    ) by {
        a_partition_is_added_where_it_is_there(
            cluster,
            transaction_id,
            producer_id,
            producer_epoch,
            topic.name,
            partitions[p],
            found[p].0,
            found[p].1,
        );
    }
    a_sequence_talks_in_order::<AddPartition>(operations, Seq::empty(), parts, values);
    assert(Seq::<AddPartitionsToTxnPartitionResult>::empty() + values =~= values);
    a_name_leaves_the_talk::<
        InSequence<AddPartition, AddPartitionsToTxnPartitionResult>,
        AddPartitionsToTxnTopicResult,
    >(topic.name, in_sequence(operations), parts.flatten() + seq![(seq![], seq![])], Ok(values));
}

/// The topics of a request of the older form are dealt with one after the other, for the
/// transaction and the producer of the request, and answered in their order.
pub proof fn every_topic_of_a_transaction_is_dealt_with(
    cluster: Seq<char>,
    single: SingleTxnView,
    found: Seq<Seq<(Option<i32>, u64)>>,
)
    requires
        found.len() == single.topics.len(),
    ensures
        talks::<TxnAddPartitions>(
            txn_add_partitions(cluster, TxnAddPartitionsRequestView::VersionZeroToThree(single)),
            Seq::new(
                found.len(),
                |t: int|
                    topic_addition_talk(
                        cluster,
                        single.transaction_id,
                        single.producer_id,
                        single.producer_epoch,
                        single.topics[t],
                        found[t],
                    ),
            ).flatten() + seq![(seq![], seq![])],
            Ok(
                TxnAddPartitionsResponseView::VersionZeroToThree(
                    Seq::new(found.len(), |t: int| topic_answer(single.topics[t], found[t])),
                ),
            ),
        ),
{
    let operations = single.topics.map_values(
        topic_addition(
            cluster,
            single.transaction_id,
            single.producer_id,
            single.producer_epoch,
        ),
    );
    let parts = Seq::new(
        found.len(),
        |t: int|
            topic_addition_talk(
                cluster,
                single.transaction_id,
                single.producer_id,
                single.producer_epoch,
                single.topics[t],
                found[t],
            ),
    );
    let values = Seq::new(found.len(), |t: int| topic_answer(single.topics[t], found[t]));
    assert forall|t: int| 0 <= t < operations.len() implies talks::<AddTopic>(
        #[trigger] operations[t],
        parts[t],
        Ok(values[t]),
    ) by {
        every_partition_of_a_topic_is_added_by_itself(
            cluster,
            single.transaction_id,
            single.producer_id,
            single.producer_epoch,
            single.topics[t],
            found[t],
        );
    }
    a_sequence_talks_in_order::<AddTopic>(operations, Seq::empty(), parts, values);
    assert(Seq::<AddPartitionsToTxnTopicResultView>::empty() + values =~= values);
    one_transaction_talks_as_a_sequence(
        in_sequence(operations),
        parts.flatten() + seq![(seq![], seq![])],
        Ok(values),
    );
}

/// A request of the older form talks as the sequence of its topics does.
proof fn one_transaction_talks_as_a_sequence(
    inner: AddTopicsView,
    talk: Seq<Exchange>,
    end: Result<Seq<AddPartitionsToTxnTopicResultView>, ErrorView>,
)
    requires
        talks::<AddTopics>(inner, talk, end),
    ensures
        talks::<TxnAddPartitions>(
            TxnAddPartitionsView::VersionZeroToThree(inner),
            talk,
            match end {
                Ok(results) => Ok(TxnAddPartitionsResponseView::VersionZeroToThree(results)),
                Err(error) => Err(error),
            },
        ),
    decreases talk.len(),
{
    match AddTopics::turn(inner, talk[0].1) {
        Turn::Next(next) => one_transaction_talks_as_a_sequence(next, talk.drop_first(), end),
        _ => {},
    }
}

/// A request of the newer form talks as the sequence of its transactions does, each of them as a
/// request of the older form would for its topics, and answers each under its own name.
pub proof fn several_transactions_talk_as_a_sequence(
    inner: InSequenceView<AddTxnView, AddPartitionsToTxnResultView>,
    talk: Seq<Exchange>,
    end: Result<Seq<AddPartitionsToTxnResultView>, ErrorView>,
    cluster: Seq<char>,
    txn: AddPartitionsToTxnTransactionView,
)
    requires
        talks::<InSequence<AddTxn, AddPartitionsToTxnResult>>(inner, talk, end),
    ensures
        talks::<TxnAddPartitions>(
            TxnAddPartitionsView::VersionFourPlus(inner),
            talk,
            match end {
                Ok(results) => Ok(TxnAddPartitionsResponseView::VersionFourPlus(results)),
                Err(error) => Err(error),
            },
        ),
        txn_addition(cluster)(txn).name == txn.transactional_id,
        TxnAddPartitionsView::VersionZeroToThree(txn_addition(cluster)(txn).operation)
            == txn_add_partitions(
            cluster,
            TxnAddPartitionsRequestView::VersionZeroToThree(
                SingleTxnView {
                    transaction_id: txn.transactional_id,
                    producer_id: txn.producer_id,
                    producer_epoch: txn.producer_epoch,
                    topics: match txn.topics {
                        Some(topics) => topics,
                        None => seq![],
                    },
                },
            ),
        ),
    decreases talk.len(),
{
    match InSequence::<AddTxn, AddPartitionsToTxnResult>::turn(inner, talk[0].1) {
        Turn::Next(next) => several_transactions_talk_as_a_sequence(
            next,
            talk.drop_first(),
            end,
            cluster,
            txn,
        ),
        _ => {},
    }
}

} // verus!
