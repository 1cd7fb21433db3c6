//! Topics are created and deleted, and records with them.

use vstd::prelude::*;

use crate::engine::Mysql;
use crate::error::{Error, ErrorCode, ErrorView};
use crate::ident::{is_v4, uuid_of_text, uuid_text, Uuid};
use crate::operation::{completes, refused, Operation, Progress, Turn};
use crate::request::{
    ask, ask_in_turn, fits, name, no_requests, only, or_zero, Reply, ReplyView, Request,
    RequestView, Shape,
};
use crate::script::{
    gather, gathered_is_in_a_part, given_by_an_item, in_turn, items_give_one_each, listed,
    parts_stand_in_order,
};
use crate::sequence::{
    for_each, for_each_listed, in_sequence, InSequence, InSequenceView, Labelled, Under, UnderView,
};
use crate::sql::Sql;
use crate::talk::{
    a_connection_is_taken_first, a_name_leaves_the_talk, a_sequence_talks_in_order,
    a_transaction_encloses_a_talk, affected_fits, all_affected, all_execute, executes,
    flattened_execute, in_a_transaction, looks_up, on_a_connection, talk_ends, talk_goes_on, talks,
    Exchange,
};
use crate::transaction::{
    gathered_stays_within, given_stays_within, stays_within, Connected, ConnectedView, Transaction,
    TransactionView,
};
use crate::value::{
    int16, int32, int64, int_value, opt_text, opt_text_value, statement, statement2, statement3,
    statement4, statement5, text, text_value, StatementView, Value, ValueView,
};
use crate::wire::{
    CreatableTopic, CreatableTopicView, DeleteRecordsPartition, DeleteRecordsPartitionResult,
    DeleteRecordsTopic, DeleteRecordsTopicResult, DeleteRecordsTopicResultView,
    DeleteRecordsTopicView, TopicConfig, TopicConfigView, TopicId, TopicIdView,
};

verus! {

/// A topic that is created, in a transaction that was begun.
#[derive(Debug)]
pub struct CreateTopic {
    pub cluster: String,
    pub topic: CreatableTopic,
    /// The identifier of the topic.
    pub id: Uuid,
    /// The text of the identifier.
    pub id_text: String,
    /// Whether no topic of that name was found.
    pub unknown: bool,
}

/// What [`CreateTopic`] stands for.
pub struct CreateTopicView {
    pub cluster: Seq<char>,
    pub topic: CreatableTopicView,
    pub id: Seq<u8>,
    pub id_text: Seq<char>,
    pub unknown: bool,
}

impl DeepView for CreateTopic {
    type V = CreateTopicView;

    open spec fn deep_view(&self) -> CreateTopicView {
        CreateTopicView {
            cluster: self.cluster@,
            topic: self.topic.deep_view(),
            id: self.id.deep_view(),
            id_text: self.id_text@,
            unknown: self.unknown,
        }
    }
}

/// How far the deletion of a topic is.
#[derive(Debug)]
pub enum DeleteStage {
    /// The name of the topic is looked up.
    Lookup(Uuid),
    /// The topic is deleted, with all that belongs to it.
    Delete(String),
}

/// What [`DeleteStage`] stands for.
pub enum DeleteStageView {
    Lookup(Seq<u8>),
    Delete(Seq<char>),
}

impl DeepView for DeleteStage {
    type V = DeleteStageView;

    open spec fn deep_view(&self) -> DeleteStageView {
        match self {
            DeleteStage::Lookup(a) => DeleteStageView::Lookup(a.deep_view()),
            DeleteStage::Delete(a) => DeleteStageView::Delete(a@),
        }
    }
}

/// A topic that is deleted.
#[derive(Debug)]
pub struct DeleteTopic {
    pub cluster: String,
    pub stage: DeleteStage,
}

/// What [`DeleteTopic`] stands for.
pub struct DeleteTopicView {
    pub cluster: Seq<char>,
    pub stage: DeleteStageView,
}

impl DeepView for DeleteTopic {
    type V = DeleteTopicView;

    open spec fn deep_view(&self) -> DeleteTopicView {
        DeleteTopicView {
            cluster: self.cluster@,
            stage: self.stage.deep_view(),
        }
    }
}

/// Records of a partition that are deleted, up to an offset.
#[derive(Debug)]
pub struct DeleteRecords {
    pub cluster: String,
    pub topic: String,
    pub partition_index: i32,
    pub offset: i64,
}

/// What [`DeleteRecords`] stands for.
pub struct DeleteRecordsView {
    pub cluster: Seq<char>,
    pub topic: Seq<char>,
    pub partition_index: i32,
    pub offset: i64,
}

impl DeepView for DeleteRecords {
    type V = DeleteRecordsView;

    open spec fn deep_view(&self) -> DeleteRecordsView {
        DeleteRecordsView {
            cluster: self.cluster@,
            topic: self.topic@,
            partition_index: self.partition_index,
            offset: self.offset,
        }
    }
}

/// A statement on a topic.
pub open spec fn on_topic(sql: Sql, cluster: Seq<char>, topic: Seq<char>) -> StatementView {
    statement(sql, seq![text_value(cluster), text_value(topic)])
}

/// A statement on a partition.
pub open spec fn on_partition(
    sql: Sql,
    cluster: Seq<char>,
    topic: Seq<char>,
    partition: int,
) -> StatementView {
    statement(sql, seq![text_value(cluster), text_value(topic), int_value(partition)])
}

/// A partition is added, and its watermarks.
pub open spec fn partition_insert(cluster: Seq<char>, topic: Seq<char>) -> spec_fn(int) -> Seq<
    RequestView,
> {
    |partition: int|
        seq![
            RequestView::Execute(on_partition(Sql::TopitionInsert, cluster, topic, partition)),
            RequestView::Execute(on_partition(Sql::WatermarkInsert, cluster, topic, partition)),
        ]
}

/// A configuration entry of a topic is set.
pub open spec fn config_upsert(
    cluster: Seq<char>,
    topic: Seq<char>,
    name: Seq<char>,
    value: Option<Seq<char>>,
) -> RequestView {
    RequestView::Execute(
        statement(
            Sql::TopicConfigurationUpsert,
            seq![text_value(cluster), text_value(topic), text_value(name), opt_text_value(value)],
        ),
    )
}

/// A configuration entry that comes with a topic is set.
pub open spec fn config_insert(cluster: Seq<char>, topic: Seq<char>) -> spec_fn(
    TopicConfigView,
) -> Seq<RequestView> {
    |config: TopicConfigView| seq![config_upsert(cluster, topic, config.name, config.value)]
}

/// Ask for a configuration entry of a topic to be set.
pub(crate) fn upsert_config(
    cluster: &String,
    topic: &String,
    name: &String,
    value: &Option<String>,
) -> (requests: Vec<Request>)
    ensures
        requests.deep_view() == seq![
            config_upsert(cluster@, topic@, name@, value.deep_view()),
        ],
{
    let mut requests = no_requests();
    let made = statement4(
        Sql::TopicConfigurationUpsert,
        text(cluster),
        text(topic),
        text(name),
        opt_text(value),
    );
    ask(&mut requests, Request::Execute(made));
    requests
}

impl CreateTopicView {
    /// The topic is added.
    pub open spec fn topic_insert(self) -> RequestView {
        RequestView::Execute(
            statement(
                Sql::TopicInsert,
                seq![
                    text_value(self.cluster),
                    text_value(self.topic.name),
                    text_value(self.id_text),
                    int_value(self.topic.num_partitions as int),
                    int_value(self.topic.replication_factor as int),
                ],
            ),
        )
    }

    /// The topic is added, with its partitions and its configuration.
    pub open spec fn writing(self) -> Seq<RequestView> {
        seq![self.topic_insert()] + gather(
            self.topic.num_partitions as int,
            partition_insert(self.cluster, self.topic.name),
        ) + in_turn(listed(self.topic.configs), config_insert(self.cluster, self.topic.name))
    }
}

impl Operation for CreateTopic {
    type Output = Uuid;

    /// The text is that of the identifier, and the identifier is read back from it.
    open spec fn valid(state: CreateTopicView) -> bool {
        &&& state.id_text == uuid_text(state.id)
        &&& uuid_of_text(state.id_text) == Some(state.id)
    }

    open spec fn asked(state: CreateTopicView) -> Seq<RequestView> {
        if state.unknown {
            state.writing()
        } else {
            seq![
                RequestView::First(
                    on_topic(Sql::TopicSelectByName, state.cluster, state.topic.name),
                    Shape::Text,
                ),
            ]
        }
    }

    open spec fn turn(state: CreateTopicView, replies: Seq<ReplyView>) -> Turn<
        CreateTopicView,
        Seq<u8>,
    > {
        if state.unknown {
            Turn::End(Ok(state.id))
        } else if replies[0]->Text_0 is Some {
            refused(ErrorCode::TopicAlreadyExists)
        } else {
            Turn::Next(CreateTopicView { unknown: true, ..state })
        }
    }

    open spec fn in_range(state: CreateTopicView, replies: Seq<ReplyView>) -> bool {
        true
    }

    fn requests(&self) -> Vec<Request> {
        if self.unknown {
            return self.write();
        }
        let made = statement2(Sql::TopicSelectByName, text(&self.cluster), text(&self.topic.name));
        let mut requests = no_requests();
        ask(&mut requests, Request::First(made, Shape::Text));
        requests
    }

    fn is_in_range(&self, replies: &Vec<Reply>) -> bool {
        true
    }

    fn advance(self, replies: Vec<Reply>) -> Progress<CreateTopic, Uuid> {
        let progress = if self.unknown {
            Progress::End(Ok(self.id))
        } else {
            assert(fits(Self::asked(self.deep_view())[0], replies.deep_view()[0]));
            match name(only(replies)) {
                Some(_) => Progress::End(Err(Error::Api(ErrorCode::TopicAlreadyExists))),
                None => Progress::Next(CreateTopic { unknown: true, ..self }),
            }
        };
        assert(progress.deep_view() == Self::turn(self.deep_view(), replies.deep_view()));
        progress
    }
}

impl CreateTopic {
    /// Ask for the topic to be added.
    fn write(&self) -> (requests: Vec<Request>)
        ensures
            requests.deep_view() == self.deep_view().writing(),
    {
        let mut requests = no_requests();
        let made = statement5(
            Sql::TopicInsert,
            text(&self.cluster),
            text(&self.topic.name),
            text(&self.id_text),
            int32(self.topic.num_partitions),
            int16(self.topic.replication_factor),
        );
        ask(&mut requests, Request::Execute(made));
        let ghost head = requests.deep_view();
        let ghost part = partition_insert(self.cluster@, self.topic.name@);
        let mut partition: i32 = 0;
        assert(requests.deep_view() =~= head + gather(0, part));
        while partition < self.topic.num_partitions
            invariant
                0 <= partition,
                partition <= self.topic.num_partitions || partition == 0,
                part == partition_insert(self.cluster@, self.topic.name@),
                requests.deep_view() == head + gather(partition as int, part),
            decreases self.topic.num_partitions - partition,
        {
            let ghost before = requests.deep_view();
            let made = statement3(
                Sql::TopitionInsert,
                text(&self.cluster),
                text(&self.topic.name),
                int32(partition),
            );
            ask(&mut requests, Request::Execute(made));
            let made = statement3(
                Sql::WatermarkInsert,
                text(&self.cluster),
                text(&self.topic.name),
                int32(partition),
            );
            ask(&mut requests, Request::Execute(made));
            assert(requests.deep_view() =~= before + part(partition as int));
            partition = partition + 1;
            assert(requests.deep_view() =~= head + gather(partition as int, part));
        }
        assert(gather(partition as int, part) == gather(
            self.topic.num_partitions as int,
            part,
        ));
        let ghost made = config_insert(self.cluster@, self.topic.name@);
        let make = |config: &TopicConfig| -> (inserts: Vec<Request>)
            ensures
                inserts.deep_view() == made(config.deep_view()),
        {
            upsert_config(&self.cluster, &self.topic.name, &config.name, &config.value)
        };
        match &self.topic.configs {
            Some(configs) => ask_in_turn(&mut requests, configs, make, Ghost(made)),
            None => {
                assert(in_turn(listed(self.deep_view().topic.configs), made) =~= Seq::empty());
                assert(requests.deep_view() =~= self.deep_view().writing());
            },
        }
        assert(head =~= seq![self.deep_view().topic_insert()]);
        requests
    }
}

/// All that belongs to a topic goes, and then the topic.
pub open spec fn topic_deletion(cluster: Seq<char>, topic: Seq<char>) -> Seq<RequestView> {
    seq![
        RequestView::Execute(on_topic(Sql::HeaderDeleteByTopic, cluster, topic)),
        RequestView::Execute(on_topic(Sql::RecordDeleteByTopic, cluster, topic)),
        RequestView::Execute(on_topic(Sql::WatermarkDeleteByTopic, cluster, topic)),
        RequestView::Execute(on_topic(Sql::TopitionDeleteByTopic, cluster, topic)),
        RequestView::Execute(on_topic(Sql::TopicConfigurationDeleteByTopic, cluster, topic)),
        RequestView::Execute(on_topic(Sql::TopicDelete, cluster, topic)),
    ]
}

impl Operation for DeleteTopic {
    type Output = ErrorCode;

    open spec fn valid(state: DeleteTopicView) -> bool {
        true
    }

    open spec fn asked(state: DeleteTopicView) -> Seq<RequestView> {
        match state.stage {
            DeleteStageView::Lookup(id) => seq![
                RequestView::First(
                    on_topic(Sql::TopicSelectUuid, state.cluster, uuid_text(id)),
                    Shape::Text,
                ),
            ],
            DeleteStageView::Delete(topic) => topic_deletion(state.cluster, topic),
        }
    }

    open spec fn turn(state: DeleteTopicView, replies: Seq<ReplyView>) -> Turn<
        DeleteTopicView,
        ErrorCode,
    > {
        match state.stage {
            DeleteStageView::Lookup(_) => match replies[0]->Text_0 {
                None => refused(ErrorCode::UnknownTopicOrPartition),
                Some(topic) => Turn::Next(
                    DeleteTopicView { stage: DeleteStageView::Delete(topic), ..state },
                ),
            },
            DeleteStageView::Delete(_) => Turn::End(
                Ok(
                    if replies[5]->Affected_0 == 0 {
                        ErrorCode::UnknownTopicOrPartition
                    } else {
                        ErrorCode::NoError
                    },
                ),
            ),
        }
    }

    open spec fn in_range(state: DeleteTopicView, replies: Seq<ReplyView>) -> bool {
        true
    }

    fn requests(&self) -> Vec<Request> {
        let mut requests = no_requests();
        match &self.stage {
            DeleteStage::Lookup(id) => {
                let made = statement2(
                    Sql::TopicSelectUuid,
                    text(&self.cluster),
                    Value::Text(id.text()),
                );
                ask(&mut requests, Request::First(made, Shape::Text));
            },
            DeleteStage::Delete(topic) => {
                let made = statement2(Sql::HeaderDeleteByTopic, text(&self.cluster), text(topic));
                ask(&mut requests, Request::Execute(made));
                let made = statement2(Sql::RecordDeleteByTopic, text(&self.cluster), text(topic));
                ask(&mut requests, Request::Execute(made));
                let made = statement2(
                    Sql::WatermarkDeleteByTopic,
                    text(&self.cluster),
                    text(topic),
                );
                ask(&mut requests, Request::Execute(made));
                let made = statement2(Sql::TopitionDeleteByTopic, text(&self.cluster), text(topic));
                ask(&mut requests, Request::Execute(made));
                let made = statement2(
                    Sql::TopicConfigurationDeleteByTopic,
                    text(&self.cluster),
                    text(topic),
                );
                ask(&mut requests, Request::Execute(made));
                let made = statement2(Sql::TopicDelete, text(&self.cluster), text(topic));
                ask(&mut requests, Request::Execute(made));
            },
        }
        requests
    }

    fn is_in_range(&self, replies: &Vec<Reply>) -> bool {
        true
    }

    fn advance(self, replies: Vec<Reply>) -> Progress<DeleteTopic, ErrorCode> {
        let progress = match self.stage {
            DeleteStage::Lookup(_) => {
                assert(fits(Self::asked(self.deep_view())[0], replies.deep_view()[0]));
                match name(only(replies)) {
                    None => Progress::End(Err(Error::Api(ErrorCode::UnknownTopicOrPartition))),
                    Some(topic) => Progress::Next(
                        DeleteTopic { stage: DeleteStage::Delete(topic), ..self },
                    ),
                }
            },
            DeleteStage::Delete(_) => {
                assert(fits(Self::asked(self.deep_view())[5], replies.deep_view()[5]));
                let code = match &replies[5] {
                    Reply::Affected(rows) if *rows == 0 => ErrorCode::UnknownTopicOrPartition,
                    _ => ErrorCode::NoError,
                };
                Progress::End(Ok(code))
            },
        };
        assert(progress.deep_view() == Self::turn(self.deep_view(), replies.deep_view()));
        progress
    }
}

impl Operation for DeleteRecords {
    type Output = DeleteRecordsPartitionResult;

    open spec fn valid(state: DeleteRecordsView) -> bool {
        true
    }

    open spec fn asked(state: DeleteRecordsView) -> Seq<RequestView> {
        seq![
            RequestView::Execute(
                statement(
                    Sql::RecordDeleteFromOffset,
                    seq![
                        text_value(state.cluster),
                        text_value(state.topic),
                        int_value(state.partition_index as int),
                        int_value(state.offset as int),
                    ],
                ),
            ),
            RequestView::First(
                on_partition(
                    Sql::RecordMinOffset,
                    state.cluster,
                    state.topic,
                    state.partition_index as int,
                ),
                Shape::Long,
            ),
        ]
    }

    open spec fn turn(state: DeleteRecordsView, replies: Seq<ReplyView>) -> Turn<
        DeleteRecordsView,
        DeleteRecordsPartitionResult,
    > {
        Turn::End(
            Ok(
                DeleteRecordsPartitionResult {
                    partition_index: state.partition_index,
                    low_watermark: or_zero(replies[1]->Long_0),
                    error_code: ErrorCode::NoError,
                },
            ),
        )
    }

    open spec fn in_range(state: DeleteRecordsView, replies: Seq<ReplyView>) -> bool {
        true
    }

    fn requests(&self) -> Vec<Request> {
        let mut requests = no_requests();
        let made = statement4(
            Sql::RecordDeleteFromOffset,
            text(&self.cluster),
            text(&self.topic),
            int32(self.partition_index),
            int64(self.offset),
        );
        ask(&mut requests, Request::Execute(made));
        let made = statement3(
            Sql::RecordMinOffset,
            text(&self.cluster),
            text(&self.topic),
            int32(self.partition_index),
        );
        ask(&mut requests, Request::First(made, Shape::Long));
        requests
    }

    fn is_in_range(&self, replies: &Vec<Reply>) -> bool {
        true
    }

    fn advance(self, replies: Vec<Reply>) -> Progress<DeleteRecords, DeleteRecordsPartitionResult> {
        assert(fits(Self::asked(self.deep_view())[1], replies.deep_view()[1]));
        let low_watermark: i64 = match &replies[1] {
            Reply::Long(Some(low)) => *low,
            _ => 0,
        };
        let progress = Progress::End(
            Ok(
                DeleteRecordsPartitionResult {
                    partition_index: self.partition_index,
                    low_watermark,
                    error_code: ErrorCode::NoError,
                },
            ),
        );
        assert(progress.deep_view() == Self::turn(self.deep_view(), replies.deep_view()));
        progress
    }
}

impl Labelled<Vec<DeleteRecordsPartitionResult>> for DeleteRecordsTopicResult {
    open spec fn labelled(
        name: Seq<char>,
        value: Seq<DeleteRecordsPartitionResult>,
    ) -> DeleteRecordsTopicResultView {
        DeleteRecordsTopicResultView { name, partitions: value }
    }

    fn label(name: String, value: Vec<DeleteRecordsPartitionResult>) -> DeleteRecordsTopicResult {
        DeleteRecordsTopicResult { name, partitions: value }
    }
}

/// The records of the partitions of a topic, deleted.
pub type DeleteTopicRecords = Under<
    InSequence<DeleteRecords, DeleteRecordsPartitionResult>,
    DeleteRecordsTopicResult,
>;

/// What [`DeleteTopicRecords`] stands for.
pub type DeleteTopicRecordsView = UnderView<
    InSequenceView<DeleteRecordsView, DeleteRecordsPartitionResult>,
>;

/// The records of a partition, to be deleted.
pub open spec fn partition_deletion(cluster: Seq<char>, topic: Seq<char>) -> spec_fn(
    DeleteRecordsPartition,
) -> DeleteRecordsView {
    |partition: DeleteRecordsPartition|
        DeleteRecordsView {
            cluster,
            topic,
            partition_index: partition.partition_index,
            offset: partition.offset,
        }
}

/// The records of a topic, to be deleted.
pub open spec fn record_deletion(cluster: Seq<char>) -> spec_fn(
    DeleteRecordsTopicView,
) -> DeleteTopicRecordsView {
    |topic: DeleteRecordsTopicView|
        UnderView {
            name: topic.name,
            operation: in_sequence(
                listed(topic.partitions).map_values(partition_deletion(cluster, topic.name)),
            ),
        }
}

/// The creation of a topic, under an identifier.
pub open spec fn topic_creation(
    cluster: Seq<char>,
    topic: CreatableTopicView,
    id: Seq<u8>,
) -> TransactionView<CreateTopicView, Seq<u8>> {
    TransactionView::Open(
        CreateTopicView { cluster, topic, id, id_text: uuid_text(id), unknown: false },
    )
}

impl<P, S, H> Mysql<P, S, H> {
    /// Create a topic, under a random identifier. It is created even where it was only to be
    /// validated.
    pub fn create_topic(
        &self,
        topic: CreatableTopic,
        validate_only: bool,
    ) -> (operation: Transaction<CreateTopic, Uuid>)
        ensures
            exists|id: Seq<u8>|
                is_v4(id) && operation.deep_view() == #[trigger] topic_creation(
                    self.cluster@,
                    topic.deep_view(),
                    id,
                ),
            Transaction::<CreateTopic, Uuid>::valid(operation.deep_view()),
    {
        let id = Uuid::new_v4();
        let operation = self.create_topic_as(topic, id);
        assert(operation.deep_view() == topic_creation(
            self.cluster@,
            topic.deep_view(),
            id.deep_view(),
        ));
        operation
    }

    /// Create a topic, under a given identifier.
    pub fn create_topic_as(&self, topic: CreatableTopic, id: Uuid) -> (operation: Transaction<
        CreateTopic,
        Uuid,
    >)
        ensures
            operation.deep_view() == topic_creation(
                self.cluster@,
                topic.deep_view(),
                id.deep_view(),
            ),
            Transaction::<CreateTopic, Uuid>::valid(operation.deep_view()),
    {
        Transaction::Open(
            CreateTopic {
                cluster: self.cluster.clone(),
                topic,
                id,
                id_text: id.text(),
                unknown: false,
            },
        )
    }

    /// Delete a topic, with all that belongs to it.
    pub fn delete_topic(&self, topic: &TopicId) -> (operation: Connected<DeleteTopic>)
        ensures
            operation.deep_view() == ConnectedView::Open(
                DeleteTopicView {
                    cluster: self.cluster@,
                    stage: match topic.deep_view() {
                        TopicIdView::Name(name) => DeleteStageView::Delete(name),
                        TopicIdView::Id(id) => DeleteStageView::Lookup(id),
                    },
                },
            ),
            Connected::<DeleteTopic>::valid(operation.deep_view()),
    {
        let stage = match topic {
            TopicId::Name(name) => DeleteStage::Delete(name.clone()),
            TopicId::Id(id) => DeleteStage::Lookup(*id),
        };
        Connected::Open(DeleteTopic { cluster: self.cluster.clone(), stage })
    }

    /// Delete records of partitions.
    pub fn delete_records(&self, topics: &[DeleteRecordsTopic]) -> (operation: Connected<
        InSequence<DeleteTopicRecords, DeleteRecordsTopicResult>,
    >)
        ensures
            operation.deep_view() == ConnectedView::Open(
                in_sequence::<DeleteTopicRecordsView, DeleteRecordsTopicResultView>(
                    topics.deep_view().map_values(record_deletion(self.cluster@)),
                ),
            ),
            Connected::<InSequence<DeleteTopicRecords, DeleteRecordsTopicResult>>::valid(
                operation.deep_view(),
            ),
    {
        let cluster = &self.cluster;
        let make = |topic: &DeleteRecordsTopic| -> (operation: DeleteTopicRecords)
            ensures
                operation.deep_view() == record_deletion(cluster@)(topic.deep_view()),
                DeleteTopicRecords::valid(operation.deep_view()),
        {
            delete_topic_records(cluster, topic)
        };
        Connected::Open(for_each(topics, make, Ghost(record_deletion(self.cluster@))))
    }
}

/// The records of a topic, to be deleted.
fn delete_topic_records(
    cluster: &String,
    topic: &DeleteRecordsTopic,
) -> (operation: DeleteTopicRecords)
    ensures
        operation.deep_view() == record_deletion(cluster@)(topic.deep_view()),
        DeleteTopicRecords::valid(operation.deep_view()),
{
    let ghost made = partition_deletion(cluster@, topic.name@);
    let make = |partition: &DeleteRecordsPartition| -> (operation: DeleteRecords)
        ensures
            operation.deep_view() == made(*partition),
    {
        DeleteRecords {
            cluster: cluster.clone(),
            topic: topic.name.clone(),
            partition_index: partition.partition_index,
            offset: partition.offset,
        }
    };
    Under::new(topic.name.clone(), for_each_listed(&topic.partitions, make, Ghost(made)))
}

/// What is asked for a new topic leaves the transaction that it runs in as it is.
pub proof fn create_topic_stays_within(state: CreateTopicView)
    ensures
        stays_within(CreateTopic::asked(state)),
{
    gathered_stays_within(
        state.topic.num_partitions as int,
        partition_insert(state.cluster, state.topic.name),
    );
    given_stays_within(
        listed(state.topic.configs),
        config_insert(state.cluster, state.topic.name),
    );
}

/// A topic is created once: where there is one of its name, the second is refused, and nothing is
/// written.
pub proof fn a_topic_is_created_once(state: CreateTopicView, found: Seq<char>)
    requires
        !state.unknown,
    ensures
        CreateTopic::turn(state, seq![ReplyView::Text(Some(found))]) == refused::<
            CreateTopicView,
            Seq<u8>,
        >(ErrorCode::TopicAlreadyExists),
        CreateTopic::asked(state).len() == 1,
        CreateTopic::asked(state)[0] is First,
{
}

/// A topic that is not there yet is created, and the client is told its identifier.
pub proof fn a_new_topic_is_created(state: CreateTopicView, written: Seq<ReplyView>)
    requires
        !state.unknown,
    ensures
        completes::<CreateTopic>(state, seq![seq![ReplyView::Text(None)], written], state.id),
{
    let script = seq![seq![ReplyView::Text(None)], written];
    let next = CreateTopicView { unknown: true, ..state };
    assert(CreateTopic::turn(state, script[0]) == Turn::<CreateTopicView, Seq<u8>>::Next(next));
    assert(completes::<CreateTopic>(next, script.drop_first(), state.id));
}

/// A new topic gets the partitions from zero up to their number, and no others, each with its
/// watermarks.
pub proof fn a_new_topic_has_its_partitions(state: CreateTopicView, partition: i32)
    requires
        state.unknown,
    ensures
        ({
            let asked = CreateTopic::asked(state);
            let topition = RequestView::Execute(
                on_partition(
                    Sql::TopitionInsert,
                    state.cluster,
                    state.topic.name,
                    partition as int,
                ),
            );
            let watermark = RequestView::Execute(
                on_partition(
                    Sql::WatermarkInsert,
                    state.cluster,
                    state.topic.name,
                    partition as int,
                ),
            );
            &&& asked.contains(topition) <==> 0 <= partition < state.topic.num_partitions
            &&& asked.contains(watermark) <==> 0 <= partition < state.topic.num_partitions
        }),
{
    partition_is_asked_for(state, partition, Sql::TopitionInsert, 0);
    partition_is_asked_for(state, partition, Sql::WatermarkInsert, 1);
}

/// A statement on a partition is asked for where there is such a partition.
proof fn partition_is_asked_for(state: CreateTopicView, partition: i32, sql: Sql, place: int)
    requires
        state.unknown,
        (sql is TopitionInsert && place == 0) || (sql is WatermarkInsert && place == 1),
    ensures
        CreateTopic::asked(state).contains(
            RequestView::Execute(
                on_partition(sql, state.cluster, state.topic.name, partition as int),
            ),
        ) <==> 0 <= partition < state.topic.num_partitions,
{
    let request = RequestView::Execute(
        on_partition(sql, state.cluster, state.topic.name, partition as int),
    );
    let asked = CreateTopic::asked(state);
    let n = state.topic.num_partitions as int;
    let part = partition_insert(state.cluster, state.topic.name);
    let inserts = gather(n, part);
    let given = config_insert(state.cluster, state.topic.name);
    let configs = in_turn(listed(state.topic.configs), given);
    gathered_is_in_a_part(n, part, request);
    given_by_an_item(listed(state.topic.configs), given, request);
    if asked.contains(request) {
        let i = choose|i: int| 0 <= i < asked.len() && asked[i] == request;
        if i == 0 {
            assert(asked[0] == state.topic_insert());
        } else if i <= inserts.len() {
            assert(inserts[i - 1] == request);
            let k = choose|k: int| 0 <= k < n && (#[trigger] part(k)).contains(request);
            let both = part(k);
            let j = choose|j: int| 0 <= j < both.len() && both[j] == request;
            let stored = seq![
                text_value(state.cluster),
                text_value(state.topic.name),
                int_value(k),
            ];
            let wanted = seq![
                text_value(state.cluster),
                text_value(state.topic.name),
                int_value(partition as int),
            ];
            assert(stored == wanted);
            assert(stored[2] == wanted[2]);
        } else {
            assert(configs[i - 1 - inserts.len()] == request);
            let k = choose|k: int|
                0 <= k < listed(state.topic.configs).len() && given(
                    #[trigger] listed(state.topic.configs)[k],
                ).contains(request);
            let one = given(listed(state.topic.configs)[k]);
            assert(one[0] == request);
        }
    }
    if 0 <= partition < n {
        assert(part(partition as int)[place] == request);
        assert(part(partition as int).contains(request));
        let i = choose|i: int| 0 <= i < inserts.len() && inserts[i] == request;
        assert(asked[i + 1] == request);
    }
}

/// A topic that is deleted by an identifier under which there is none is refused before anything is
/// deleted.
pub proof fn an_unknown_topic_is_not_deleted(state: DeleteTopicView, id: Seq<u8>)
    requires
        state.stage == DeleteStageView::Lookup(id),
    ensures
        DeleteTopic::asked(state).len() == 1,
        DeleteTopic::asked(state)[0] is First,
        DeleteTopic::turn(state, seq![ReplyView::Text(None)]) == refused::<
            DeleteTopicView,
            ErrorCode,
        >(ErrorCode::UnknownTopicOrPartition),
{
}

/// A topic is looked up by the text under which its identifier was stored.
pub proof fn a_topic_is_looked_up_as_it_was_stored(created: CreateTopicView)
    requires
        CreateTopic::valid(created),
    ensures
        created.topic_insert()->Execute_0.params[2] == text_value(uuid_text(created.id)),
        DeleteTopic::asked(
            DeleteTopicView {
                cluster: created.cluster,
                stage: DeleteStageView::Lookup(created.id),
            },
        )[0]->First_0.params[1] == text_value(uuid_text(created.id)),
{
}

/// What is written of a new topic: the topic under its name and identifier, with the numbers of its
/// partitions and replicas; then, for each number from zero up to that of the partitions, the
/// partition and its watermarks; then each entry of its configuration.
pub open spec fn new_topic(
    cluster: Seq<char>,
    topic: CreatableTopicView,
    id_text: Seq<char>,
) -> Seq<RequestView> {
    seq![
        executes(
            Sql::TopicInsert,
            seq![
                ValueView::Text(cluster),
                ValueView::Text(topic.name),
                ValueView::Text(id_text),
                ValueView::Int(topic.num_partitions as i64),
                ValueView::Int(topic.replication_factor as i64),
            ],
        ),
    ] + Seq::new(
        if topic.num_partitions < 0 {
            0
        } else {
            topic.num_partitions as nat
        },
        |p: int|
            seq![
                executes(
                    Sql::TopitionInsert,
                    seq![
                        ValueView::Text(cluster),
                        ValueView::Text(topic.name),
                        ValueView::Int(p as i64),
                    ],
                ),
                executes(
                    Sql::WatermarkInsert,
                    seq![
                        ValueView::Text(cluster),
                        ValueView::Text(topic.name),
                        ValueView::Int(p as i64),
                    ],
                ),
            ],
    ).flatten() + (match topic.configs {
        Some(configs) => configs.map_values(
            |config: TopicConfigView|
                executes(
                    Sql::TopicConfigurationUpsert,
                    seq![
                        ValueView::Text(cluster),
                        ValueView::Text(topic.name),
                        ValueView::Text(config.name),
                        match config.value {
                            Some(value) => ValueView::Text(value),
                            None => ValueView::Null,
                        },
                    ],
                ),
        ),
        None => seq![],
    })
}

/// A new topic is written as a whole.
proof fn a_new_topic_is_written(state: CreateTopicView)
    ensures
        state.writing() == new_topic(state.cluster, state.topic, state.id_text),
        all_execute(state.writing()),
{
    let cluster = state.cluster;
    let topic = state.topic;
    let part = partition_insert(cluster, topic.name);
    let given = config_insert(cluster, topic.name);
    let pair = |p: int|
        seq![
            executes(
                Sql::TopitionInsert,
                seq![
                    ValueView::Text(cluster),
                    ValueView::Text(topic.name),
                    ValueView::Int(p as i64),
                ],
            ),
            executes(
                Sql::WatermarkInsert,
                seq![
                    ValueView::Text(cluster),
                    ValueView::Text(topic.name),
                    ValueView::Int(p as i64),
                ],
            ),
        ];
    let n: nat = if topic.num_partitions < 0 {
        0
    } else {
        topic.num_partitions as nat
    };
    let one = |config: TopicConfigView|
        executes(
            Sql::TopicConfigurationUpsert,
            seq![
                ValueView::Text(cluster),
                ValueView::Text(topic.name),
                ValueView::Text(config.name),
                match config.value {
                    Some(value) => ValueView::Text(value),
                    None => ValueView::Null,
                },
            ],
        );
    parts_stand_in_order(topic.num_partitions as int, part);
    assert(Seq::new(n, part) =~= Seq::new(n, pair));
    assert forall|config: TopicConfigView| #[trigger] given(config) == seq![one(config)] by {
        let upsert = config_upsert(cluster, topic.name, config.name, config.value);
        assert(upsert->Execute_0.params =~= one(config)->Execute_0.params);
        assert(given(config) =~= seq![one(config)]);
    }
    items_give_one_each(listed(topic.configs), given, one);
    match topic.configs {
        Some(configs) => {},
        None => {
            assert(Seq::<TopicConfigView>::empty().map_values(one) =~= Seq::empty());
        },
    }
    let pairs = Seq::new(n, pair);
    let entries = listed(topic.configs).map_values(one);
    flattened_execute(pairs);
    assert(state.writing() =~= new_topic(cluster, topic, state.id_text));
    assert(state.writing() =~= seq![state.topic_insert()] + pairs.flatten() + entries);
}

/// A topic is created where none has its name: it is looked up by its name, written as a whole, and
/// the client is told the identifier under which it was written. Where one has its name, nothing is
/// written and nothing committed, and the client is told that it is there already.
pub proof fn a_topic_is_created_where_none_has_its_name(
    cluster: Seq<char>,
    topic: CreatableTopicView,
    id: Seq<u8>,
    found: Option<Seq<char>>,
    written: Seq<ReplyView>,
)
    requires
        all_affected(written, new_topic(cluster, topic, uuid_text(id)).len()),
    ensures
        ({
            let lookup = (
                seq![
                    looks_up(
                        Sql::TopicSelectByName,
                        seq![ValueView::Text(cluster), ValueView::Text(topic.name)],
                        Shape::Text,
                    ),
                ],
                seq![ReplyView::Text(found)],
            );
            match found {
                Some(_) => talks::<Transaction<CreateTopic, Uuid>>(
                    topic_creation(cluster, topic, id),
                    in_a_transaction(seq![lookup], false),
                    Err(ErrorView::Api(ErrorCode::TopicAlreadyExists)),
                ),
                None => talks::<Transaction<CreateTopic, Uuid>>(
                    topic_creation(cluster, topic, id),
                    in_a_transaction(
                        seq![lookup, (new_topic(cluster, topic, uuid_text(id)), written)],
                        true,
                    ),
                    Ok(id),
                ),
            }
        }),
{
    let state = CreateTopicView { cluster, topic, id, id_text: uuid_text(id), unknown: false };
    let next = CreateTopicView { unknown: true, ..state };
    let asked = seq![
        looks_up(
            Sql::TopicSelectByName,
            seq![ValueView::Text(cluster), ValueView::Text(topic.name)],
            Shape::Text,
        ),
    ];
    let replies = seq![ReplyView::Text(found)];
    match found {
        Some(_) => {
            let end: Result<Seq<u8>, ErrorView> = Err(
                ErrorView::Api(ErrorCode::TopicAlreadyExists),
            );
            talk_ends::<CreateTopic>(state, asked, replies, end);
            a_transaction_encloses_a_talk::<CreateTopic>(state, seq![(asked, replies)], end);
        },
        None => {
            let writing = new_topic(cluster, topic, uuid_text(id));
            a_new_topic_is_written(next);
            affected_fits(writing, written);
            talk_ends::<CreateTopic>(next, writing, written, Ok(id));
            let rest = seq![(writing, written)];
            talk_goes_on::<CreateTopic>(state, asked, replies, next, rest, Ok(id));
            assert(seq![(asked, replies)] + rest =~= seq![(asked, replies), (writing, written)]);
            a_transaction_encloses_a_talk::<CreateTopic>(
                state,
                seq![(asked, replies), (writing, written)],
                Ok(id),
            );
        },
    }
}

/// What goes with a topic of a name: its headers, its records, its watermarks, its partitions and
/// its configuration, and the topic itself last.
pub open spec fn gone_topic(cluster: Seq<char>, name: Seq<char>) -> Seq<RequestView> {
    let params = seq![ValueView::Text(cluster), ValueView::Text(name)];
    seq![
        executes(Sql::HeaderDeleteByTopic, params),
        executes(Sql::RecordDeleteByTopic, params),
        executes(Sql::WatermarkDeleteByTopic, params),
        executes(Sql::TopitionDeleteByTopic, params),
        executes(Sql::TopicConfigurationDeleteByTopic, params),
        executes(Sql::TopicDelete, params),
    ]
}

/// A topic goes with all that belongs to it. One that is named by its identifier is looked up by
/// the text of the identifier, and goes under the name that was found. The client is told that
/// there was none where none was found, and where the last statement deleted none.
pub proof fn a_topic_goes_with_all_that_belongs_to_it(
    cluster: Seq<char>,
    name: Seq<char>,
    id: Seq<u8>,
    gone: Seq<ReplyView>,
    rows: u64,
)
    requires
        all_affected(gone, 6),
        gone[5] == ReplyView::Affected(rows),
    ensures
        ({
            let told = if rows == 0 {
                ErrorCode::UnknownTopicOrPartition
            } else {
                ErrorCode::NoError
            };
            let lookup = seq![
                looks_up(
                    Sql::TopicSelectUuid,
                    seq![ValueView::Text(cluster), ValueView::Text(uuid_text(id))],
                    Shape::Text,
                ),
            ];
            &&& talks::<Connected<DeleteTopic>>(
                ConnectedView::Open(
                    DeleteTopicView { cluster, stage: DeleteStageView::Delete(name) },
                ),
                on_a_connection(seq![(gone_topic(cluster, name), gone)]),
                Ok(told),
            )
            &&& talks::<Connected<DeleteTopic>>(
                ConnectedView::Open(
                    DeleteTopicView { cluster, stage: DeleteStageView::Lookup(id) },
                ),
                on_a_connection(
                    seq![
                        (lookup, seq![ReplyView::Text(Some(name))]),
                        (gone_topic(cluster, name), gone),
                    ],
                ),
                Ok(told),
            )
            &&& talks::<Connected<DeleteTopic>>(
                ConnectedView::Open(
                    DeleteTopicView { cluster, stage: DeleteStageView::Lookup(id) },
                ),
                on_a_connection(seq![(lookup, seq![ReplyView::Text(None)])]),
                Err(ErrorView::Api(ErrorCode::UnknownTopicOrPartition)),
            )
        }),
{
    let told = if rows == 0 {
        ErrorCode::UnknownTopicOrPartition
    } else {
        ErrorCode::NoError
    };
    let end: Result<ErrorCode, ErrorView> = Ok(told);
    let missing: Result<ErrorCode, ErrorView> = Err(
        ErrorView::Api(ErrorCode::UnknownTopicOrPartition),
    );
    let named = DeleteTopicView { cluster, stage: DeleteStageView::Delete(name) };
    let known = DeleteTopicView { cluster, stage: DeleteStageView::Lookup(id) };
    let lookup = seq![
        looks_up(
            Sql::TopicSelectUuid,
            seq![ValueView::Text(cluster), ValueView::Text(uuid_text(id))],
            Shape::Text,
        ),
    ];
    let all = seq![(gone_topic(cluster, name), gone)];
    let found = seq![ReplyView::Text(Some(name))];
    talk_ends::<DeleteTopic>(named, gone_topic(cluster, name), gone, end);
    a_connection_is_taken_first::<DeleteTopic>(named, all, end);
    talk_goes_on::<DeleteTopic>(known, lookup, found, named, all, end);
    assert(seq![(lookup, found)] + all =~= seq![
        (lookup, found),
        (gone_topic(cluster, name), gone),
    ]);
    a_connection_is_taken_first::<DeleteTopic>(
        known,
        seq![(lookup, found), (gone_topic(cluster, name), gone)],
        end,
    );
    talk_ends::<DeleteTopic>(known, lookup, seq![ReplyView::Text(None)], missing);
    a_connection_is_taken_first::<DeleteTopic>(
        known,
        seq![(lookup, seq![ReplyView::Text(None)])],
        missing,
    );
}

/// Records are deleted of the partition that is named, and of no other: the statement that deletes
/// them, the lookup of the offset that is left and the answer name the same partition of the same
/// topic, and the statement has the offset that was asked for.
pub proof fn records_go_from_the_partition_that_is_named(
    cluster: Seq<char>,
    topic: Seq<char>,
    partition: DeleteRecordsPartition,
    rows: u64,
    low: Option<i64>,
)
    ensures
        talks::<DeleteRecords>(
            partition_deletion(cluster, topic)(partition),
            seq![
                (
                    seq![
                        executes(
                            Sql::RecordDeleteFromOffset,
                            seq![
                                ValueView::Text(cluster),
                                ValueView::Text(topic),
                                ValueView::Int(partition.partition_index as i64),
                                ValueView::Int(partition.offset),
                            ],
                        ),
                        looks_up(
                            Sql::RecordMinOffset,
                            seq![
                                ValueView::Text(cluster),
                                ValueView::Text(topic),
                                ValueView::Int(partition.partition_index as i64),
                            ],
                            Shape::Long,
                        ),
                    ],
                    seq![ReplyView::Affected(rows), ReplyView::Long(low)],
                ),
            ],
            Ok(
                DeleteRecordsPartitionResult {
                    partition_index: partition.partition_index,
                    low_watermark: match low {
                        Some(low) => low,
                        None => 0,
                    },
                    error_code: ErrorCode::NoError,
                },
            ),
        ),
{
    let asked = seq![
        executes(
            Sql::RecordDeleteFromOffset,
            seq![
                ValueView::Text(cluster),
                ValueView::Text(topic),
                ValueView::Int(partition.partition_index as i64),
                ValueView::Int(partition.offset),
            ],
        ),
        looks_up(
            Sql::RecordMinOffset,
            seq![
                ValueView::Text(cluster),
                ValueView::Text(topic),
                ValueView::Int(partition.partition_index as i64),
            ],
            Shape::Long,
        ),
    ];
    talk_ends::<DeleteRecords>(
        partition_deletion(cluster, topic)(partition),
        asked,
        seq![ReplyView::Affected(rows), ReplyView::Long(low)],
        Ok(
            DeleteRecordsPartitionResult {
                partition_index: partition.partition_index,
                low_watermark: match low {
                    Some(low) => low,
                    None => 0,
                },
                error_code: ErrorCode::NoError,
            },
        ),
    );
}

/// The talk about the records of a partition, deleted before an offset, with what is left.
pub open spec fn partition_talk(
    cluster: Seq<char>,
    topic: Seq<char>,
    partition: DeleteRecordsPartition,
    left: (u64, Option<i64>),
) -> Seq<Exchange> {
    seq![
        (
            seq![
                executes(
                    Sql::RecordDeleteFromOffset,
                    seq![
                        ValueView::Text(cluster),
                        ValueView::Text(topic),
                        ValueView::Int(partition.partition_index as i64),
                        ValueView::Int(partition.offset),
                    ],
                ),
                looks_up(
                    Sql::RecordMinOffset,
                    seq![
                        ValueView::Text(cluster),
                        ValueView::Text(topic),
                        ValueView::Int(partition.partition_index as i64),
                    ],
                    Shape::Long,
                ),
            ],
            seq![ReplyView::Affected(left.0), ReplyView::Long(left.1)],
        ),
    ]
}

/// Every partition of a topic that is named is dealt with, one after the other and in their order,
/// and so they are answered, under the name of the topic. A topic without a list of partitions is
/// answered with none.
pub proof fn every_partition_of_a_topic_is_dealt_with(
    cluster: Seq<char>,
    topic: DeleteRecordsTopicView,
    left: Seq<(u64, Option<i64>)>,
)
    requires
        left.len() == match topic.partitions {
            Some(partitions) => partitions.len(),
            None => 0,
        },
    ensures
        ({
            let partitions = match topic.partitions {
                Some(partitions) => partitions,
                None => seq![],
            };
            talks::<DeleteTopicRecords>(
                record_deletion(cluster)(topic),
                Seq::new(
                    left.len(),
                    |p: int| partition_talk(cluster, topic.name, partitions[p], left[p]),
                ).flatten() + seq![(seq![], seq![])],
                Ok(
                    DeleteRecordsTopicResultView {
                        name: topic.name,
                        partitions: Seq::new(
                            left.len(),
                            |p: int|
                                DeleteRecordsPartitionResult {
                                    partition_index: partitions[p].partition_index,
                                    low_watermark: match left[p].1 {
                                        Some(low) => low,
                                        None => 0,
                                    },
                                    error_code: ErrorCode::NoError,
                                },
                        ),
                    },
                ),
            )
        }),
{
    let partitions = match topic.partitions {
        Some(partitions) => partitions,
        None => seq![],
    };
    let operations = listed(topic.partitions).map_values(partition_deletion(cluster, topic.name));
    let parts = Seq::new(
        left.len(),
        |p: int| partition_talk(cluster, topic.name, partitions[p], left[p]),
    );
    let values = Seq::new(
        left.len(),
        |p: int|
            DeleteRecordsPartitionResult {
                partition_index: partitions[p].partition_index,
                low_watermark: match left[p].1 {
                    Some(low) => low,
                    None => 0,
                },
                error_code: ErrorCode::NoError,
            },
    );
    assert forall|i: int| 0 <= i < operations.len() implies talks::<DeleteRecords>(
        #[trigger] operations[i],
        parts[i],
        Ok(values[i]),
    ) by {
        records_go_from_the_partition_that_is_named(
            cluster,
            topic.name,
            partitions[i],
            left[i].0,
            left[i].1,
        );
    }
    a_sequence_talks_in_order::<DeleteRecords>(operations, Seq::empty(), parts, values);
    assert(Seq::<DeleteRecordsPartitionResult>::empty() + values =~= values);
    a_name_leaves_the_talk::<
        InSequence<DeleteRecords, DeleteRecordsPartitionResult>,
        DeleteRecordsTopicResult,
    >(topic.name, in_sequence(operations), parts.flatten() + seq![(seq![], seq![])], Ok(values));
}

} // verus!
