//! Producers and their transactions.

use vstd::prelude::*;

use crate::batch::BatchHeader;
use crate::end_txn::{EndStage, EndStageView, EndTxn, EndTxnView};
use crate::engine::Mysql;
use crate::error::ErrorCode;
use crate::ident::random_i64;
use crate::operation::{Operation, Progress, Turn};
use crate::produce::{ProduceInTx, ProduceInTxView, ProduceStage, ProduceStageView};
use crate::request::{ask, no_requests, Reply, ReplyView, Request, RequestView};
use crate::script::no_items;
use crate::sql::Sql;
use crate::talk::{
    a_connection_is_taken_first, a_transaction_encloses_a_talk, all_affected, executes,
    in_a_transaction, on_a_connection, talk_ends, talks,
};
use crate::transaction::{
    stays_within, Connected, ConnectedView, Transaction, TransactionView,
};
use crate::txn::{state_text, TxnState};
use crate::value::{
    int16, int32, int64, int_value, statement, statement2, statement3, statement5, statement6,
    text, text_value, Value, ValueView,
};
use crate::wire::{ProducerIdResponse, Topition};

verus! {

/// A producer, made known with its epoch, and with its transaction where it has one.
#[derive(Debug)]
pub struct InitProducer {
    pub cluster: String,
    pub transaction: Option<String>,
    /// How long the transaction may take, in milliseconds.
    pub timeout: i32,
    pub id: i64,
    pub epoch: i16,
}

/// What [`InitProducer`] stands for.
pub struct InitProducerView {
    pub cluster: Seq<char>,
    pub transaction: Option<Seq<char>>,
    pub timeout: i32,
    pub id: i64,
    pub epoch: i16,
}

impl DeepView for InitProducer {
    type V = InitProducerView;

    open spec fn deep_view(&self) -> InitProducerView {
        InitProducerView {
            cluster: self.cluster@,
            transaction: self.transaction.deep_view(),
            timeout: self.timeout,
            id: self.id,
            epoch: self.epoch,
        }
    }
}

/// A group whose offsets go with a transaction of a producer.
#[derive(Debug)]
pub struct AddOffsets {
    pub cluster: String,
    pub transaction: String,
    pub producer_id: i64,
    pub producer_epoch: i16,
    pub group: String,
}

/// What [`AddOffsets`] stands for.
pub struct AddOffsetsView {
    pub cluster: Seq<char>,
    pub transaction: Seq<char>,
    pub producer_id: i64,
    pub producer_epoch: i16,
    pub group: Seq<char>,
}

impl DeepView for AddOffsets {
    type V = AddOffsetsView;

    open spec fn deep_view(&self) -> AddOffsetsView {
        AddOffsetsView {
            cluster: self.cluster@,
            transaction: self.transaction@,
            producer_id: self.producer_id,
            producer_epoch: self.producer_epoch,
            group: self.group@,
        }
    }
}

/// The size of a number, but for the smallest, which stays as it is.
pub open spec fn magnitude(n: i64) -> i64 {
    if n < 0 && n != i64::MIN {
        (-n) as i64
    } else {
        n
    }
}

/// Whether there is an epoch after the one that a producer comes with.
pub open spec fn has_next_epoch(producer_id: Option<i64>, producer_epoch: Option<i16>) -> bool {
    producer_id is Some ==> (producer_epoch matches Some(epoch) ==> epoch < i16::MAX)
}

/// A producer that is known goes on in its next epoch. One that is not gets an identity from a
/// random number, and starts with the first epoch.
pub open spec fn identity(
    producer_id: Option<i64>,
    producer_epoch: Option<i16>,
    random: i64,
) -> (i64, i16) {
    match producer_id {
        Some(id) => (
            id,
            match producer_epoch {
                Some(epoch) => (epoch + 1) as i16,
                None => 1,
            },
        ),
        None => (magnitude(random), 0),
    }
}

impl InitProducerView {
    /// The producer is noted.
    pub open spec fn producer_insert(self) -> RequestView {
        RequestView::Execute(
            statement(
                Sql::ProducerInsert,
                seq![text_value(self.cluster), int_value(self.id as int)],
            ),
        )
    }

    /// The epoch of the producer is noted.
    pub open spec fn epoch_insert(self) -> RequestView {
        RequestView::Execute(
            statement(
                Sql::ProducerEpochInsert,
                seq![
                    text_value(self.cluster),
                    int_value(self.id as int),
                    int_value(self.epoch as int),
                ],
            ),
        )
    }

    /// The transaction of the producer begins.
    pub open spec fn txn_insert(self, transaction: Seq<char>) -> RequestView {
        RequestView::Execute(
            statement(
                Sql::TxnInsert,
                seq![
                    text_value(self.cluster),
                    text_value(transaction),
                    int_value(self.id as int),
                    int_value(self.epoch as int),
                    int_value(self.timeout as int),
                    text_value(state_text(TxnState::Begin)),
                ],
            ),
        )
    }
}

impl Operation for InitProducer {
    type Output = ProducerIdResponse;

    open spec fn valid(state: InitProducerView) -> bool {
        true
    }

    open spec fn asked(state: InitProducerView) -> Seq<RequestView> {
        let noted = seq![state.producer_insert(), state.epoch_insert()];
        match state.transaction {
            Some(transaction) => noted.push(state.txn_insert(transaction)),
            None => noted,
        }
    }

    open spec fn turn(state: InitProducerView, replies: Seq<ReplyView>) -> Turn<
        InitProducerView,
        ProducerIdResponse,
    > {
        Turn::End(
            Ok(
                ProducerIdResponse {
                    error: ErrorCode::NoError,
                    id: state.id,
                    epoch: state.epoch,
                },
            ),
        )
    }

    open spec fn in_range(state: InitProducerView, replies: Seq<ReplyView>) -> bool {
        true
    }

    fn requests(&self) -> Vec<Request> {
        let mut requests = no_requests();
        let made = statement2(Sql::ProducerInsert, text(&self.cluster), int64(self.id));
        ask(&mut requests, Request::Execute(made));
        let made = statement3(
            Sql::ProducerEpochInsert,
            text(&self.cluster),
            int64(self.id),
            int16(self.epoch),
        );
        ask(&mut requests, Request::Execute(made));
        if let Some(transaction) = &self.transaction {
            let made = statement6(
                Sql::TxnInsert,
                text(&self.cluster),
                text(transaction),
                int64(self.id),
                int16(self.epoch),
                int32(self.timeout),
                Value::Text(TxnState::Begin.text()),
            );
            ask(&mut requests, Request::Execute(made));
        }
        requests
    }

    fn is_in_range(&self, replies: &Vec<Reply>) -> bool {
        true
    }

    fn advance(self, replies: Vec<Reply>) -> Progress<InitProducer, ProducerIdResponse> {
        let progress = Progress::End(
            Ok(
                ProducerIdResponse {
                    error: ErrorCode::NoError,
                    id: self.id,
                    epoch: self.epoch,
                },
            ),
        );
        assert(progress.deep_view() == Self::turn(self.deep_view(), replies.deep_view()));
        progress
    }
}

impl Operation for AddOffsets {
    type Output = ErrorCode;

    open spec fn valid(state: AddOffsetsView) -> bool {
        true
    }

    open spec fn asked(state: AddOffsetsView) -> Seq<RequestView> {
        seq![
            RequestView::Execute(
                statement(
                    Sql::TxnOffsetAdd,
                    seq![
                        text_value(state.cluster),
                        text_value(state.transaction),
                        int_value(state.producer_id as int),
                        int_value(state.producer_epoch as int),
                        text_value(state.group),
                    ],
                ),
            ),
        ]
    }

    open spec fn turn(state: AddOffsetsView, replies: Seq<ReplyView>) -> Turn<
        AddOffsetsView,
        ErrorCode,
    > {
        Turn::End(Ok(ErrorCode::NoError))
    }

    open spec fn in_range(state: AddOffsetsView, replies: Seq<ReplyView>) -> bool {
        true
    }

    fn requests(&self) -> Vec<Request> {
        let mut requests = no_requests();
        let made = statement5(
            Sql::TxnOffsetAdd,
            text(&self.cluster),
            text(&self.transaction),
            int64(self.producer_id),
            int16(self.producer_epoch),
            text(&self.group),
        );
        ask(&mut requests, Request::Execute(made));
        requests
    }

    fn is_in_range(&self, replies: &Vec<Reply>) -> bool {
        true
    }

    fn advance(self, replies: Vec<Reply>) -> Progress<AddOffsets, ErrorCode> {
        Progress::End(Ok(ErrorCode::NoError))
    }
}

/// The identity of a producer, in its next or its first epoch.
fn identify(producer_id: Option<i64>, producer_epoch: Option<i16>, random: i64) -> (found: (
    i64,
    i16,
))
    requires
        has_next_epoch(producer_id, producer_epoch),
    ensures
        found == identity(producer_id, producer_epoch, random),
{
    match producer_id {
        Some(id) => {
            let epoch: i16 = match producer_epoch {
                Some(epoch) => epoch + 1,
                None => 1,
            };
            (id, epoch)
        },
        None => if random < 0 && random != i64::MIN {
            (-random, 0)
        } else {
            (random, 0)
        },
    }
}

/// A producer is made known.
pub open spec fn producer_init(
    cluster: Seq<char>,
    transaction: Option<Seq<char>>,
    timeout: i32,
    identity: (i64, i16),
) -> TransactionView<InitProducerView, ProducerIdResponse> {
    TransactionView::Open(
        InitProducerView { cluster, transaction, timeout, id: identity.0, epoch: identity.1 },
    )
}

/// A text of its own, where there is one.
fn own_text(text: Option<&str>) -> (own: Option<String>)
    ensures
        own.deep_view() == text.deep_view(),
{
    match text {
        Some(text) => Some(text.to_owned()),
        None => None,
    }
}

impl<P, S, H> Mysql<P, S, H> {
    /// Make a producer known: in its next epoch where it is known already, and otherwise under a
    /// random identity.
    pub fn init_producer(
        &self,
        transaction_id: Option<&str>,
        transaction_timeout_ms: i32,
        producer_id: Option<i64>,
        producer_epoch: Option<i16>,
    ) -> (operation: Transaction<InitProducer, ProducerIdResponse>)
        requires
            has_next_epoch(producer_id, producer_epoch),
        ensures
            exists|random: i64|
                operation.deep_view() == producer_init(
                    self.cluster@,
                    transaction_id.deep_view(),
                    transaction_timeout_ms,
                    #[trigger] identity(producer_id, producer_epoch, random),
                ),
            Transaction::<InitProducer, ProducerIdResponse>::valid(operation.deep_view()),
    {
        let random: i64 = random_i64();
        self.init_producer_from(
            transaction_id,
            transaction_timeout_ms,
            producer_id,
            producer_epoch,
            random,
        )
    }

    /// Make a producer known, under an identity from a given number where it has none.
    pub fn init_producer_from(
        &self,
        transaction_id: Option<&str>,
        transaction_timeout_ms: i32,
        producer_id: Option<i64>,
        producer_epoch: Option<i16>,
        random: i64,
    ) -> (operation: Transaction<InitProducer, ProducerIdResponse>)
        requires
            has_next_epoch(producer_id, producer_epoch),
        ensures
            operation.deep_view() == producer_init(
                self.cluster@,
                transaction_id.deep_view(),
                transaction_timeout_ms,
                identity(producer_id, producer_epoch, random),
            ),
            Transaction::<InitProducer, ProducerIdResponse>::valid(operation.deep_view()),
    {
        let (id, epoch): (i64, i16) = identify(producer_id, producer_epoch, random);
        Transaction::Open(
            InitProducer {
                cluster: self.cluster.clone(),
                transaction: own_text(transaction_id),
                timeout: transaction_timeout_ms,
                id,
                epoch,
            },
        )
    }

    /// Let the offsets of a group go with a transaction of a producer.
    pub fn txn_add_offsets(
        &self,
        transaction_id: &str,
        producer_id: i64,
        producer_epoch: i16,
        group_id: &str,
    ) -> (operation: Connected<AddOffsets>)
        ensures
            operation.deep_view() == ConnectedView::Open(
                AddOffsetsView {
                    cluster: self.cluster@,
                    transaction: transaction_id@,
                    producer_id,
                    producer_epoch,
                    group: group_id@,
                },
            ),
            Connected::<AddOffsets>::valid(operation.deep_view()),
    {
        Connected::Open(
            AddOffsets {
                cluster: self.cluster.clone(),
                transaction: transaction_id.to_owned(),
                producer_id,
                producer_epoch,
                group: group_id.to_owned(),
            },
        )
    }

    /// Add the batch at hand to a partition.
    pub fn produce(
        &self,
        transaction_id: Option<&str>,
        topition: &Topition,
        batch: BatchHeader,
    ) -> (operation: Transaction<ProduceInTx, i64>)
        ensures
            operation.deep_view() == TransactionView::<ProduceInTxView, i64>::Open(
                ProduceInTxView {
                    cluster: self.cluster@,
                    transaction: transaction_id.deep_view(),
                    topition: topition.deep_view(),
                    header: batch,
                    validates: self.schemas is Some,
                    stores: self.lake is Some,
                    stage: ProduceStageView::Topition,
                },
            ),
            Transaction::<ProduceInTx, i64>::valid(operation.deep_view()),
    {
        Transaction::Open(
            ProduceInTx {
                cluster: self.cluster.clone(),
                transaction: own_text(transaction_id),
                topition: topition.copy(),
                header: batch,
                validates: self.schemas.is_some(),
                stores: self.lake.is_some(),
                stage: ProduceStage::Topition,
            },
        )
    }

    /// End a transaction of a producer.
    pub fn txn_end(
        &self,
        transaction_id: &str,
        producer_id: i64,
        producer_epoch: i16,
        committed: bool,
    ) -> (operation: Transaction<EndTxn, ErrorCode>)
        ensures
            operation.deep_view() == TransactionView::<EndTxnView, ErrorCode>::Open(
                EndTxnView {
                    cluster: self.cluster@,
                    name: transaction_id@,
                    producer_id,
                    producer_epoch,
                    committed,
                    validates: self.schemas is Some,
                    stores: self.lake is Some,
                    topitions: seq![],
                    overlaps: seq![],
                    stage: EndStageView::Topitions,
                },
            ),
            Transaction::<EndTxn, ErrorCode>::valid(operation.deep_view()),
    {
        Transaction::Open(
            EndTxn {
                cluster: self.cluster.clone(),
                name: transaction_id.to_owned(),
                producer_id,
                producer_epoch,
                committed,
                validates: self.schemas.is_some(),
                stores: self.lake.is_some(),
                topitions: no_items(),
                overlaps: no_items(),
                stage: EndStage::Topitions,
            },
        )
    }
}

/// What is asked for a new producer leaves the transaction that it runs in as it is.
pub proof fn init_producer_stays_within(state: InitProducerView)
    ensures
        stays_within(InitProducer::asked(state)),
{
}

/// A producer that is known keeps its identity and goes on in the epoch after its own. One that is
/// not known starts with the first epoch, under the size of a random number.
pub proof fn a_producer_goes_on_in_its_next_epoch(
    producer_id: Option<i64>,
    producer_epoch: Option<i16>,
    random: i64,
)
    requires
        has_next_epoch(producer_id, producer_epoch),
    ensures
        match producer_id {
            Some(id) => {
                let found = identity(producer_id, producer_epoch, random);
                &&& found.0 == id
                &&& found.1 == (match producer_epoch {
                    Some(epoch) => epoch as int,
                    None => 0,
                }) + 1
            },
            None => {
                let found = identity(producer_id, producer_epoch, random);
                &&& found.0 >= 0 || found.0 == i64::MIN
                &&& found.0 < 0 ==> random == i64::MIN
                &&& found.1 == 0
            },
        },
{
}

/// A producer is told the identity and the epoch that are noted of it.
pub proof fn a_producer_is_told_what_is_noted(state: InitProducerView, replies: Seq<ReplyView>)
    ensures
        InitProducer::turn(state, replies) == Turn::<InitProducerView, ProducerIdResponse>::End(
            Ok(
                ProducerIdResponse {
                    error: ErrorCode::NoError,
                    id: state.id,
                    epoch: state.epoch,
                },
            ),
        ),
        InitProducer::asked(state)[1] == state.epoch_insert(),
{
}

/// A producer that comes without an identity gets one, the size of a random number, and starts in
/// the first epoch, zero. One that comes with an identity keeps it, and goes on in the epoch after
/// the one that it comes with, or in the first after zero where it comes with none. In either case
/// the identity and that epoch are noted, the transaction that it names begins with its timeout for
/// this identity and this epoch, and they are what the client is told.
pub proof fn a_producer_is_made_known(
    cluster: Seq<char>,
    transaction: Option<Seq<char>>,
    timeout: i32,
    producer_id: Option<i64>,
    producer_epoch: Option<i16>,
    random: i64,
    replies: Seq<ReplyView>,
)
    requires
        producer_id is Some && producer_epoch is Some ==> producer_epoch->0 < i16::MAX,
        all_affected(
            replies,
            if transaction is Some {
                3
            } else {
                2
            },
        ),
    ensures
        has_next_epoch(producer_id, producer_epoch),
        ({
            let id = match producer_id {
                Some(id) => id as int,
                None => if random < 0 && random > i64::MIN {
                    -random
                } else {
                    random as int
                },
            };
            let epoch = match (producer_id, producer_epoch) {
                (Some(_), Some(epoch)) => epoch + 1,
                (Some(_), None) => 1int,
                (None, _) => 0int,
            };
            talks::<Transaction<InitProducer, ProducerIdResponse>>(
                producer_init(
                    cluster,
                    transaction,
                    timeout,
                    identity(producer_id, producer_epoch, random),
                ),
                in_a_transaction(
                    seq![
                        (
                            seq![
                                executes(
                                    Sql::ProducerInsert,
                                    seq![ValueView::Text(cluster), ValueView::Int(id as i64)],
                                ),
                                executes(
                                    Sql::ProducerEpochInsert,
                                    seq![
                                        ValueView::Text(cluster),
                                        ValueView::Int(id as i64),
                                        ValueView::Int(epoch as i64),
                                    ],
                                ),
                            ] + (match transaction {
                                Some(transaction) => seq![
                                    executes(
                                        Sql::TxnInsert,
                                        seq![
                                            ValueView::Text(cluster),
                                            ValueView::Text(transaction),
                                            ValueView::Int(id as i64),
                                            ValueView::Int(epoch as i64),
                                            ValueView::Int(timeout as i64),
                                            ValueView::Text("BEGIN"@),
                                        ],
                                    ),
                                ],
                                None => seq![],
                            }),
                            replies,
                        ),
                    ],
                    true,
                ),
                Ok(
                    ProducerIdResponse {
                        error: ErrorCode::NoError,
                        id: id as i64,
                        epoch: epoch as i16,
                    },
                ),
            )
        }),
{
    let found = identity(producer_id, producer_epoch, random);
    let state = InitProducerView { cluster, transaction, timeout, id: found.0, epoch: found.1 };
    let told = ProducerIdResponse { error: ErrorCode::NoError, id: found.0, epoch: found.1 };
    let noted = seq![
        executes(Sql::ProducerInsert, seq![ValueView::Text(cluster), ValueView::Int(found.0)]),
        executes(
            Sql::ProducerEpochInsert,
            seq![
                ValueView::Text(cluster),
                ValueView::Int(found.0),
                ValueView::Int(found.1 as i64),
            ],
        ),
    ];
    let begun = match transaction {
        Some(transaction) => seq![
            executes(
                Sql::TxnInsert,
                seq![
                    ValueView::Text(cluster),
                    ValueView::Text(transaction),
                    ValueView::Int(found.0),
                    ValueView::Int(found.1 as i64),
                    ValueView::Int(timeout as i64),
                    ValueView::Text("BEGIN"@),
                ],
            ),
        ],
        None => seq![],
    };
    let asked = noted + begun;
    assert(InitProducer::asked(state) =~= asked);
    talk_ends::<InitProducer>(state, asked, replies, Ok(told));
    a_transaction_encloses_a_talk::<InitProducer>(state, seq![(asked, replies)], Ok(told));
}

/// A transaction begins for a producer where the producer names one, whatever its identity and its
/// epoch are: once, under the cluster and the name, for the identity and the epoch that the client
/// is told, with its timeout. Where the producer names none, none begins.
pub proof fn a_transaction_begins_where_it_is_named(
    state: InitProducerView,
    params: Seq<ValueView>,
    replies: Seq<ReplyView>,
)
    ensures
        InitProducer::turn(state, replies) matches Turn::End(Ok(told)) && {
            &&& told.error == ErrorCode::NoError
            &&& InitProducer::asked(state).contains(executes(Sql::TxnInsert, params)) <==> {
                &&& state.transaction is Some
                &&& params == seq![
                    ValueView::Text(state.cluster),
                    ValueView::Text(state.transaction->0),
                    ValueView::Int(told.id),
                    ValueView::Int(told.epoch as i64),
                    ValueView::Int(state.timeout as i64),
                    ValueView::Text("BEGIN"@),
                ]
            }
            &&& InitProducer::asked(state).contains(
                executes(
                    Sql::ProducerInsert,
                    seq![ValueView::Text(state.cluster), ValueView::Int(told.id)],
                ),
            )
            &&& InitProducer::asked(state).contains(
                executes(
                    Sql::ProducerEpochInsert,
                    seq![
                        ValueView::Text(state.cluster),
                        ValueView::Int(told.id),
                        ValueView::Int(told.epoch as i64),
                    ],
                ),
            )
            &&& InitProducer::asked(state).len() == if state.transaction is Some {
                3int
            } else {
                2int
            }
        },
{
    let asked = InitProducer::asked(state);
    assert(asked[0] == state.producer_insert());
    assert(asked[1] == state.epoch_insert());
    if state.transaction is Some {
        assert(asked[2] == state.txn_insert(state.transaction->0));
    }
}

/// The offsets of a group go with the transaction that is named, for its producer in its epoch.
pub proof fn a_group_goes_with_a_transaction(
    cluster: Seq<char>,
    transaction: Seq<char>,
    producer_id: i64,
    producer_epoch: i16,
    group: Seq<char>,
    rows: u64,
)
    ensures
        talks::<Connected<AddOffsets>>(
            ConnectedView::Open(
                AddOffsetsView { cluster, transaction, producer_id, producer_epoch, group },
            ),
            on_a_connection(
                seq![
                    (
                        seq![
                            executes(
                                Sql::TxnOffsetAdd,
                                seq![
                                    ValueView::Text(cluster),
                                    ValueView::Text(transaction),
                                    ValueView::Int(producer_id),
                                    ValueView::Int(producer_epoch as i64),
                                    ValueView::Text(group),
                                ],
                            ),
                        ],
                        seq![ReplyView::Affected(rows)],
                    ),
                ],
            ),
            Ok(ErrorCode::NoError),
        ),
{
    let state = AddOffsetsView { cluster, transaction, producer_id, producer_epoch, group };
    let asked = seq![
        executes(
            Sql::TxnOffsetAdd,
            seq![
                ValueView::Text(cluster),
                ValueView::Text(transaction),
                ValueView::Int(producer_id),
                ValueView::Int(producer_epoch as i64),
                ValueView::Text(group),
            ],
        ),
    ];
    let replies = seq![ReplyView::Affected(rows)];
    talk_ends::<AddOffsets>(state, asked, replies, Ok(ErrorCode::NoError));
    a_connection_is_taken_first::<AddOffsets>(
        state,
        seq![(asked, replies)],
        Ok(ErrorCode::NoError),
    );
}

} // verus!
