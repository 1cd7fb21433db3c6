//! A batch is added to a partition.

use vstd::prelude::*;

use crate::batch::{
    BatchHeader, InflatedBatch, InflatedBatchView, RecordHeader, RecordHeaderView, RecordView,
};
use crate::clock::{a_millisecond_is_one_time, civil_at, Civil, LAST_MILLIS};
use crate::error::{Error, ErrorCode, ErrorView};
use crate::operation::{
    completes, no_rows, refused, run, Operation, Progress, Turn, NO_ROWS,
};
use crate::request::{
    all_fit, ask, config, fits, increment, inflated, no_requests, number, offset_or_zero, only,
    or_zero, short, watermark, Reply, ReplyView, Request, RequestView, Shape,
};
use crate::script::{
    add_item, gather, gathered_is_in_a_part, no_items, parts_hold_one_each, parts_stand_in_order,
};
use crate::sql::Sql;
use crate::talk::{executes, looks_up, talk_ends, talk_goes_on, talks, Exchange};
use crate::transaction::{gathered_stays_within, stays_within};
use crate::value::{
    int16, int32, int64, int_value, opt_bytes, opt_bytes_value, statement, statement2, statement3,
    statement4, statement5, statement7, statement8, text, text_value, Value, ValueView,
};
use crate::wire::{DescribeConfigsResult, DescribeConfigsResultView, Topition, TopitionView};

verus! {

/// How far a batch is.
#[derive(Debug)]
pub enum ProduceStage {
    /// The partition is looked up.
    Topition,
    /// The partition is known; the epoch of the producer is looked up.
    Epoch(i32),
    /// The epoch is known as well; the sequence of the producer is looked up.
    Sequence(i32, i16),
    /// The sequence is known as well; the batch is held against it.
    Check(i32, i16, i32),
    /// What the sequence grows by is known; it is noted.
    Note(i32, i32),
    /// The watermarks are looked up.
    Watermark(i32),
    /// The high watermark is known; the batch is inflated.
    Inflate(i32, i64),
    /// The records are written, each with its time as it is stored.
    Write(i32, i64, InflatedBatch, Vec<Civil>),
    /// The configuration of the topic is looked up, for the lake.
    Describe(i64),
    /// The batch is stored in the lake.
    Store(i64, DescribeConfigsResult),
}

/// What [`ProduceStage`] stands for.
pub enum ProduceStageView {
    Topition,
    Epoch(i32),
    Sequence(i32, i16),
    Check(i32, i16, i32),
    Note(i32, i32),
    Watermark(i32),
    Inflate(i32, i64),
    Write(i32, i64, InflatedBatchView, Seq<Civil>),
    Describe(i64),
    Store(i64, DescribeConfigsResultView),
}

impl DeepView for ProduceStage {
    type V = ProduceStageView;

    open spec fn deep_view(&self) -> ProduceStageView {
        match self {
            ProduceStage::Topition => ProduceStageView::Topition,
            ProduceStage::Epoch(a) => ProduceStageView::Epoch(*a),
            ProduceStage::Sequence(a, b) => ProduceStageView::Sequence(*a, *b),
            ProduceStage::Check(a, b, c) => ProduceStageView::Check(*a, *b, *c),
            ProduceStage::Note(a, b) => ProduceStageView::Note(*a, *b),
            ProduceStage::Watermark(a) => ProduceStageView::Watermark(*a),
            ProduceStage::Inflate(a, b) => ProduceStageView::Inflate(*a, *b),
            ProduceStage::Write(a, b, c, d) => ProduceStageView::Write(
                *a,
                *b,
                c.deep_view(),
                d.deep_view(),
            ),
            ProduceStage::Describe(a) => ProduceStageView::Describe(*a),
            ProduceStage::Store(a, b) => ProduceStageView::Store(*a, b.deep_view()),
        }
    }
}

/// A batch that is added to a partition, in a transaction that was begun.
#[derive(Debug)]
pub struct ProduceInTx {
    pub cluster: String,
    /// The transaction of the producer that the batch belongs to.
    pub transaction: Option<String>,
    pub topition: Topition,
    pub header: BatchHeader,
    /// Whether there is a schema registry.
    pub validates: bool,
    /// Whether there is a lake.
    pub stores: bool,
    pub stage: ProduceStage,
}

/// What [`ProduceInTx`] stands for.
pub struct ProduceInTxView {
    pub cluster: Seq<char>,
    pub transaction: Option<Seq<char>>,
    pub topition: TopitionView,
    pub header: BatchHeader,
    pub validates: bool,
    pub stores: bool,
    pub stage: ProduceStageView,
}

impl DeepView for ProduceInTx {
    type V = ProduceInTxView;

    open spec fn deep_view(&self) -> ProduceInTxView {
        ProduceInTxView {
            cluster: self.cluster@,
            transaction: self.transaction.deep_view(),
            topition: self.topition.deep_view(),
            header: self.header,
            validates: self.validates,
            stores: self.stores,
            stage: self.stage.deep_view(),
        }
    }
}

/// The timestamp of a record, in milliseconds since the epoch.
pub open spec fn stamp(batch: InflatedBatchView, k: int) -> int {
    batch.base_timestamp + batch.records[k].timestamp_delta
}

/// Whether the `k`th record of a batch that is added at a high watermark has an offset and a time
/// that can be stored.
pub open spec fn recordable(high: i64, batch: InflatedBatchView, k: int) -> bool {
    &&& k <= i64::MAX
    &&& high + k <= i64::MAX
    &&& 0 <= stamp(batch, k) <= LAST_MILLIS
}

/// The first record, from one on, that cannot be stored, or else the number of records.
pub open spec fn unstored(high: i64, batch: InflatedBatchView, from: int) -> int
    decreases batch.records.len() - from,
{
    if from >= batch.records.len() {
        batch.records.len() as int
    } else if !recordable(high, batch, from) {
        from
    } else {
        unstored(high, batch, from + 1)
    }
}

/// Whether there is a high watermark past the offsets of a batch.
pub open spec fn movable(high: i64, batch: InflatedBatchView) -> bool {
    i64::MIN <= high + batch.last_offset_delta < i64::MAX
}

/// Whether nothing in the writing of a batch is out of the range of its type: all records can be
/// stored and the high watermark can be moved, or else the first record that cannot be stored has
/// an offset, and a timestamp before the epoch. What follows that record does not count.
pub open spec fn storable(high: i64, batch: InflatedBatchView) -> bool {
    let n = unstored(high, batch, 0);
    if n < batch.records.len() {
        &&& n <= i64::MAX
        &&& high + n <= i64::MAX
        &&& i64::MIN <= stamp(batch, n) < 0
    } else {
        movable(high, batch)
    }
}

/// The times of the records up to the first that cannot be stored, as they are stored.
pub open spec fn times_of(high: i64, batch: InflatedBatchView) -> Seq<Civil> {
    Seq::new(unstored(high, batch, 0) as nat, |k: int| civil_at(stamp(batch, k)))
}

/// Whether times, as they are stored, are read back as the timestamps of the records.
pub open spec fn readable(batch: InflatedBatchView, times: Seq<Civil>) -> bool {
    forall|k: int| 0 <= k < times.len() ==> (#[trigger] times[k]).lies_at(stamp(batch, k))
}

/// A header of a record is added.
pub open spec fn header_insert(
    topition_id: i32,
    offset: int,
    header: RecordHeaderView,
) -> RequestView {
    RequestView::Execute(
        statement(
            Sql::HeaderInsert,
            seq![
                int_value(topition_id as int),
                int_value(offset),
                opt_bytes_value(header.key),
                opt_bytes_value(header.value),
            ],
        ),
    )
}

/// A record is added, the `k`th of a batch, at the `k`th offset from the high watermark.
pub open spec fn record_insert(
    topition_id: i32,
    high: i64,
    batch: InflatedBatchView,
    times: Seq<Civil>,
    k: int,
) -> RequestView {
    RequestView::Execute(
        statement(
            Sql::RecordInsert,
            seq![
                int_value(topition_id as int),
                int_value(high + k),
                int_value(batch.attributes as int),
                int_value(batch.producer_id as int),
                int_value(batch.producer_epoch as int),
                ValueView::Time(times[k]),
                opt_bytes_value(batch.records[k].key),
                opt_bytes_value(batch.records[k].value),
            ],
        ),
    )
}

/// The headers of a record are added, each at the offset of the record.
pub open spec fn header_part(
    topition_id: i32,
    offset: int,
    headers: Seq<RecordHeaderView>,
) -> spec_fn(int) -> Seq<RequestView> {
    |j: int| seq![header_insert(topition_id, offset, headers[j])]
}

/// A record is added with its headers.
pub open spec fn record_part(
    topition_id: i32,
    high: i64,
    batch: InflatedBatchView,
    times: Seq<Civil>,
) -> spec_fn(int) -> Seq<RequestView> {
    |k: int|
        seq![record_insert(topition_id, high, batch, times, k)] + gather(
            batch.records[k].headers.len() as int,
            header_part(topition_id, high + k, batch.records[k].headers),
        )
}

impl ProduceInTxView {
    /// The partition is looked up.
    pub open spec fn topition_select_id(self) -> RequestView {
        RequestView::First(
            statement(
                Sql::TopitionSelectId,
                seq![
                    text_value(self.cluster),
                    text_value(self.topition.topic),
                    int_value(self.topition.partition as int),
                ],
            ),
            Shape::Int,
        )
    }

    /// The epoch of the producer is looked up.
    pub open spec fn producer_epoch_select(self) -> RequestView {
        RequestView::First(
            statement(
                Sql::ProducerEpochSelectCurrent,
                seq![text_value(self.cluster), int_value(self.header.producer_id as int)],
            ),
            Shape::Short,
        )
    }

    /// The sequence of the producer is looked up.
    pub open spec fn producer_detail_select(self) -> RequestView {
        RequestView::First(
            statement(
                Sql::ProducerDetailSelectForUpdate,
                seq![
                    text_value(self.cluster),
                    text_value(self.topition.topic),
                    int_value(self.topition.partition as int),
                    int_value(self.header.producer_id as int),
                    int_value(self.header.producer_epoch as int),
                ],
            ),
            Shape::Int,
        )
    }

    /// The sequence of the producer grows.
    pub open spec fn producer_detail_insert(self, increment: i32) -> RequestView {
        RequestView::Execute(
            statement(
                Sql::ProducerDetailInsert,
                seq![
                    text_value(self.cluster),
                    text_value(self.topition.topic),
                    int_value(self.topition.partition as int),
                    int_value(self.header.producer_id as int),
                    int_value(self.header.producer_epoch as int),
                    int_value(increment as int),
                    int_value(increment as int),
                ],
            ),
        )
    }

    /// The watermarks are looked up, and held.
    pub open spec fn watermark_select(self) -> RequestView {
        RequestView::First(
            statement(
                Sql::WatermarkSelectForUpdate,
                seq![
                    text_value(self.cluster),
                    text_value(self.topition.topic),
                    int_value(self.topition.partition as int),
                ],
            ),
            Shape::Watermark,
        )
    }

    /// The high watermark moves.
    pub open spec fn watermark_update(self, high: int) -> RequestView {
        RequestView::Execute(
            statement(
                Sql::WatermarkUpdate,
                seq![
                    int_value(high),
                    text_value(self.cluster),
                    text_value(self.topition.topic),
                    int_value(self.topition.partition as int),
                ],
            ),
        )
    }

    /// The offsets of a batch are noted for its transaction.
    pub open spec fn txn_produce_offset_insert(
        self,
        transaction: Seq<char>,
        batch: InflatedBatchView,
        start: int,
        end: int,
    ) -> RequestView {
        RequestView::Execute(
            statement(
                Sql::TxnProduceOffsetInsert,
                seq![
                    text_value(self.cluster),
                    text_value(transaction),
                    int_value(batch.producer_id as int),
                    int_value(batch.producer_epoch as int),
                    text_value(self.topition.topic),
                    int_value(self.topition.partition as int),
                    int_value(start),
                    int_value(end),
                ],
            ),
        )
    }

    /// A batch that is no control batch is validated, where there is a schema registry.
    pub open spec fn validation(self, batch: InflatedBatchView) -> Seq<RequestView> {
        if self.validates && !batch.control {
            seq![RequestView::Validate(self.topition.topic)]
        } else {
            seq![]
        }
    }

    /// The records are added up to the first that cannot be stored.
    pub open spec fn insertion(
        self,
        topition_id: i32,
        high: i64,
        batch: InflatedBatchView,
        times: Seq<Civil>,
    ) -> Seq<RequestView> {
        gather(times.len() as int, record_part(topition_id, high, batch, times))
    }

    /// The high watermark moves past the batch, and the transaction takes note of its offsets.
    pub open spec fn closing(self, high: i64, batch: InflatedBatchView) -> Seq<RequestView> {
        let end = high + batch.last_offset_delta;
        let moved = seq![self.watermark_update(end + 1)];
        match self.transaction {
            Some(transaction) => moved.push(
                self.txn_produce_offset_insert(transaction, batch, high as int, end),
            ),
            None => moved,
        }
    }

    /// What is written of a batch. The writing breaks off at a record that cannot be stored, and
    /// before a high watermark that cannot be.
    pub open spec fn writing(
        self,
        topition_id: i32,
        high: i64,
        batch: InflatedBatchView,
        times: Seq<Civil>,
    ) -> Seq<RequestView> {
        let written = self.validation(batch) + self.insertion(topition_id, high, batch, times);
        if unstored(high, batch, 0) < batch.records.len() || !movable(high, batch) {
            written
        } else {
            written + self.closing(high, batch)
        }
    }

    /// What becomes of a batch that was written. A timestamp before the epoch fails it.
    pub open spec fn after_writing(self, high: i64, batch: InflatedBatchView) -> Turn<
        ProduceInTxView,
        i64,
    > {
        let n = unstored(high, batch, 0);
        if n < batch.records.len() {
            Turn::End(Err(ErrorView::Timestamp(stamp(batch, n) as i64)))
        } else if self.stores && !batch.control {
            Turn::Next(self.at(ProduceStageView::Describe(high)))
        } else {
            Turn::End(Ok(high))
        }
    }

    /// The same batch at another stage.
    pub open spec fn at(self, stage: ProduceStageView) -> ProduceInTxView {
        ProduceInTxView { stage, ..self }
    }
}

impl ProduceInTx {
    /// The same batch at another stage.
    fn to(self, stage: ProduceStage) -> (operation: ProduceInTx)
        ensures
            operation.deep_view() == self.deep_view().at(stage.deep_view()),
    {
        ProduceInTx {
            cluster: self.cluster,
            transaction: self.transaction,
            topition: self.topition,
            header: self.header,
            validates: self.validates,
            stores: self.stores,
            stage,
        }
    }
}

impl Operation for ProduceInTx {
    type Output = i64;

    open spec fn valid(state: ProduceInTxView) -> bool {
        state.stage matches ProduceStageView::Write(_, high, batch, times) ==> {
            &&& times == times_of(high, batch)
            &&& readable(batch, times)
        }
    }

    open spec fn asked(state: ProduceInTxView) -> Seq<RequestView> {
        match state.stage {
            ProduceStageView::Topition => seq![state.topition_select_id()],
            ProduceStageView::Epoch(_) => seq![state.producer_epoch_select()],
            ProduceStageView::Sequence(_, _) => seq![state.producer_detail_select()],
            ProduceStageView::Check(_, epoch, sequence) => seq![
                RequestView::CheckSequence(epoch, sequence, state.header),
            ],
            ProduceStageView::Note(_, increment) => seq![state.producer_detail_insert(increment)],
            ProduceStageView::Watermark(_) => seq![state.watermark_select()],
            ProduceStageView::Inflate(_, _) => seq![RequestView::Inflate],
            ProduceStageView::Write(topition_id, high, batch, times) => state.writing(
                topition_id,
                high,
                batch,
                times,
            ),
            ProduceStageView::Describe(_) => seq![RequestView::DescribeTopic(state.topition.topic)],
            ProduceStageView::Store(high, config) => seq![
                RequestView::StoreLake(state.topition, high, config),
            ],
        }
    }

    open spec fn turn(state: ProduceInTxView, replies: Seq<ReplyView>) -> Turn<
        ProduceInTxView,
        i64,
    > {
        match state.stage {
            ProduceStageView::Topition => match replies[0]->Int_0 {
                None => refused(ErrorCode::UnknownTopicOrPartition),
                Some(topition_id) => if state.header.idempotent {
                    Turn::Next(state.at(ProduceStageView::Epoch(topition_id)))
                } else {
                    Turn::Next(state.at(ProduceStageView::Watermark(topition_id)))
                },
            },
            ProduceStageView::Epoch(topition_id) => match replies[0]->Short_0 {
                None => refused(ErrorCode::UnknownProducerId),
                Some(epoch) => Turn::Next(
                    state.at(ProduceStageView::Sequence(topition_id, epoch)),
                ),
            },
            ProduceStageView::Sequence(topition_id, epoch) => match replies[0]->Int_0 {
                None => no_rows(),
                Some(sequence) => Turn::Next(
                    state.at(ProduceStageView::Check(topition_id, epoch, sequence)),
                ),
            },
            ProduceStageView::Check(topition_id, _, _) => Turn::Next(
                state.at(ProduceStageView::Note(topition_id, replies[0]->Increment_0)),
            ),
            ProduceStageView::Note(topition_id, _) => Turn::Next(
                state.at(ProduceStageView::Watermark(topition_id)),
            ),
            ProduceStageView::Watermark(topition_id) => match replies[0]->Watermark_0 {
                None => refused(ErrorCode::UnknownTopicOrPartition),
                Some((_, high)) => Turn::Next(
                    state.at(ProduceStageView::Inflate(topition_id, or_zero(high))),
                ),
            },
            ProduceStageView::Inflate(topition_id, high) => {
                let batch = replies[0]->Inflated_0;
                Turn::Next(
                    state.at(
                        ProduceStageView::Write(topition_id, high, batch, times_of(high, batch)),
                    ),
                )
            },
            ProduceStageView::Write(_, high, batch, _) => state.after_writing(high, batch),
            ProduceStageView::Describe(high) => Turn::Next(
                state.at(ProduceStageView::Store(high, replies[0]->Config_0)),
            ),
            ProduceStageView::Store(high, _) => Turn::End(Ok(high)),
        }
    }

    open spec fn in_range(state: ProduceInTxView, replies: Seq<ReplyView>) -> bool {
        state.stage matches ProduceStageView::Write(_, high, batch, _) ==> storable(high, batch)
    }

    fn requests(&self) -> Vec<Request> {
        let mut requests = no_requests();
        match &self.stage {
            ProduceStage::Topition => {
                let made = statement3(
                    Sql::TopitionSelectId,
                    text(&self.cluster),
                    text(&self.topition.topic),
                    int32(self.topition.partition),
                );
                ask(&mut requests, Request::First(made, Shape::Int));
            },
            ProduceStage::Epoch(_) => {
                let made = statement2(
                    Sql::ProducerEpochSelectCurrent,
                    text(&self.cluster),
                    int64(self.header.producer_id),
                );
                ask(&mut requests, Request::First(made, Shape::Short));
            },
            ProduceStage::Sequence(_, _) => {
                let made = statement5(
                    Sql::ProducerDetailSelectForUpdate,
                    text(&self.cluster),
                    text(&self.topition.topic),
                    int32(self.topition.partition),
                    int64(self.header.producer_id),
                    int16(self.header.producer_epoch),
                );
                ask(&mut requests, Request::First(made, Shape::Int));
            },
            ProduceStage::Check(_, epoch, sequence) => {
                ask(&mut requests, Request::CheckSequence(*epoch, *sequence, self.header));
            },
            ProduceStage::Note(_, increment) => {
                let made = statement7(
                    Sql::ProducerDetailInsert,
                    text(&self.cluster),
                    text(&self.topition.topic),
                    int32(self.topition.partition),
                    int64(self.header.producer_id),
                    int16(self.header.producer_epoch),
                    int32(*increment),
                    int32(*increment),
                );
                ask(&mut requests, Request::Execute(made));
            },
            ProduceStage::Watermark(_) => {
                let made = statement3(
                    Sql::WatermarkSelectForUpdate,
                    text(&self.cluster),
                    text(&self.topition.topic),
                    int32(self.topition.partition),
                );
                ask(&mut requests, Request::First(made, Shape::Watermark));
            },
            ProduceStage::Inflate(_, _) => {
                ask(&mut requests, Request::Inflate);
            },
            ProduceStage::Write(topition_id, high, batch, times) => {
                self.write(*topition_id, *high, batch, times, &mut requests);
            },
            ProduceStage::Describe(_) => {
                ask(&mut requests, Request::DescribeTopic(self.topition.topic.clone()));
            },
            ProduceStage::Store(high, config) => {
                ask(
                    &mut requests,
                    Request::StoreLake(self.topition.copy(), *high, config.copy()),
                );
            },
        }
        requests
    }

    fn is_in_range(&self, replies: &Vec<Reply>) -> bool {
        match &self.stage {
            ProduceStage::Write(_, high, batch, _) => is_storable(*high, batch),
            _ => true,
        }
    }

    #[verifier::spinoff_prover]
    fn advance(self, replies: Vec<Reply>) -> Progress<ProduceInTx, i64> {
        match &self.stage {
            ProduceStage::Topition => self.located(replies),
            ProduceStage::Epoch(_) | ProduceStage::Sequence(_, _) | ProduceStage::Check(_, _, _)
            | ProduceStage::Note(_, _) => self.checked(replies),
            ProduceStage::Watermark(_) | ProduceStage::Inflate(_, _) => self.placed(replies),
            ProduceStage::Write(_, _, _, _) => self.written(),
            ProduceStage::Describe(high) => {
                let high: i64 = *high;
                assert(fits(Self::asked(self.deep_view())[0], replies.deep_view()[0]));
                Progress::Next(self.to(ProduceStage::Store(high, config(only(replies)))))
            },
            ProduceStage::Store(high, _) => Progress::End(Ok(*high)),
        }
    }
}

impl ProduceInTx {
    /// Go on with a partition that was looked up.
    fn located(self, replies: Vec<Reply>) -> (progress: Progress<ProduceInTx, i64>)
        requires
            self.deep_view().stage is Topition,
            all_fit(Self::asked(self.deep_view()), replies.deep_view()),
        ensures
            progress.deep_view() == Self::turn(self.deep_view(), replies.deep_view()),
            progress matches Progress::Next(next) ==> Self::valid(next.deep_view()),
    {
        assert(fits(Self::asked(self.deep_view())[0], replies.deep_view()[0]));
        match number(only(replies)) {
            None => Progress::End(Err(Error::Api(ErrorCode::UnknownTopicOrPartition))),
            Some(topition_id) => if self.header.idempotent {
                Progress::Next(self.to(ProduceStage::Epoch(topition_id)))
            } else {
                Progress::Next(self.to(ProduceStage::Watermark(topition_id)))
            },
        }
    }

    /// Go on with what is known of the producer.
    #[verifier::spinoff_prover]
    fn checked(self, replies: Vec<Reply>) -> (progress: Progress<ProduceInTx, i64>)
        requires
            self.deep_view().stage is Epoch || self.deep_view().stage is Sequence
                || self.deep_view().stage is Check || self.deep_view().stage is Note,
            all_fit(Self::asked(self.deep_view()), replies.deep_view()),
        ensures
            progress.deep_view() == Self::turn(self.deep_view(), replies.deep_view()),
            progress matches Progress::Next(next) ==> Self::valid(next.deep_view()),
    {
        assert(fits(Self::asked(self.deep_view())[0], replies.deep_view()[0]));
        match &self.stage {
            ProduceStage::Epoch(topition_id) => {
                let topition_id: i32 = *topition_id;
                match short(only(replies)) {
                    None => Progress::End(Err(Error::Api(ErrorCode::UnknownProducerId))),
                    Some(epoch) => Progress::Next(
                        self.to(ProduceStage::Sequence(topition_id, epoch)),
                    ),
                }
            },
            ProduceStage::Sequence(topition_id, epoch) => {
                let (topition_id, epoch): (i32, i16) = (*topition_id, *epoch);
                match number(only(replies)) {
                    None => Progress::End(Err(Error::Message(NO_ROWS.to_owned()))),
                    Some(sequence) => Progress::Next(
                        self.to(ProduceStage::Check(topition_id, epoch, sequence)),
                    ),
                }
            },
            ProduceStage::Check(topition_id, _, _) => {
                let topition_id: i32 = *topition_id;
                Progress::Next(self.to(ProduceStage::Note(topition_id, increment(only(replies)))))
            },
            ProduceStage::Note(topition_id, _) => {
                let topition_id: i32 = *topition_id;
                Progress::Next(self.to(ProduceStage::Watermark(topition_id)))
            },
            _ => Progress::Next(self),
        }
    }

    /// Go on with the high watermark, or with the inflated batch.
    #[verifier::spinoff_prover]
    fn placed(self, replies: Vec<Reply>) -> (progress: Progress<ProduceInTx, i64>)
        requires
            self.deep_view().stage is Watermark || self.deep_view().stage is Inflate,
            all_fit(Self::asked(self.deep_view()), replies.deep_view()),
        ensures
            progress.deep_view() == Self::turn(self.deep_view(), replies.deep_view()),
            progress matches Progress::Next(next) ==> Self::valid(next.deep_view()),
    {
        assert(fits(Self::asked(self.deep_view())[0], replies.deep_view()[0]));
        match &self.stage {
            ProduceStage::Watermark(topition_id) => {
                let topition_id: i32 = *topition_id;
                match watermark(only(replies)) {
                    None => Progress::End(Err(Error::Api(ErrorCode::UnknownTopicOrPartition))),
                    Some((_, high)) => Progress::Next(
                        self.to(ProduceStage::Inflate(topition_id, offset_or_zero(high))),
                    ),
                }
            },
            ProduceStage::Inflate(topition_id, high) => {
                let (topition_id, high): (i32, i64) = (*topition_id, *high);
                let batch = inflated(only(replies));
                let times = stored_times(high, &batch);
                Progress::Next(self.to(ProduceStage::Write(topition_id, high, batch, times)))
            },
            _ => Progress::Next(self),
        }
    }

    /// Go on with a batch that was written.
    #[verifier::spinoff_prover]
    fn written(self) -> (progress: Progress<ProduceInTx, i64>)
        requires
            self.deep_view().stage matches ProduceStageView::Write(_, high, batch, _) && storable(
                high,
                batch,
            ),
        ensures
            self.deep_view().stage matches ProduceStageView::Write(_, high, batch, _)
                && progress.deep_view() == self.deep_view().after_writing(high, batch),
            progress matches Progress::Next(next) ==> Self::valid(next.deep_view()),
    {
        match &self.stage {
            ProduceStage::Write(_, high, batch, _) => {
                let high: i64 = *high;
                let n: usize = first_unstored(high, batch);
                if n < batch.records.len() {
                    proof {
                        assert(batch.deep_view().records[n as int]
                            == batch.records[n as int].deep_view());
                    }
                    let millis: i64 = batch.base_timestamp + batch.records[n].timestamp_delta;
                    Progress::End(Err(Error::Timestamp(millis)))
                } else if self.stores && !batch.control {
                    Progress::Next(self.to(ProduceStage::Describe(high)))
                } else {
                    Progress::End(Ok(high))
                }
            },
            _ => Progress::Next(self),
        }
    }
}

/// Every record before the first that cannot be stored can be, and that one cannot.
pub proof fn unstored_is_the_first(high: i64, batch: InflatedBatchView, from: int)
    requires
        0 <= from <= batch.records.len(),
    ensures
        from <= unstored(high, batch, from) <= batch.records.len(),
        forall|k: int|
            from <= k < unstored(high, batch, from) ==> #[trigger] recordable(high, batch, k),
        unstored(high, batch, from) < batch.records.len() ==> !recordable(
            high,
            batch,
            unstored(high, batch, from),
        ),
    decreases batch.records.len() - from,
{
    if from < batch.records.len() && recordable(high, batch, from) {
        unstored_is_the_first(high, batch, from + 1);
    }
}

/// Whether the `k`th record of a batch has an offset and a time that can be stored.
fn is_recordable(high: i64, batch: &InflatedBatch, k: usize) -> (fit: bool)
    requires
        k < batch.records.len(),
    ensures
        fit == recordable(high, batch.deep_view(), k as int),
{
    let millis: i128 = batch.base_timestamp as i128 + batch.records[k].timestamp_delta as i128;
    assert(millis == stamp(batch.deep_view(), k as int));
    k as i128 <= i64::MAX as i128 && high as i128 + k as i128 <= i64::MAX as i128 && 0 <= millis
        && millis <= LAST_MILLIS as i128
}

/// The first record that cannot be stored, or else the number of records.
fn first_unstored(high: i64, batch: &InflatedBatch) -> (n: usize)
    ensures
        n == unstored(high, batch.deep_view(), 0) <= batch.records.len(),
{
    proof {
        unstored_is_the_first(high, batch.deep_view(), 0);
    }
    let mut i: usize = 0;
    while i < batch.records.len() && is_recordable(high, batch, i)
        invariant
            i <= batch.records.len(),
            unstored(high, batch.deep_view(), 0) == unstored(high, batch.deep_view(), i as int),
        decreases batch.records.len() - i,
    {
        i = i + 1;
    }
    i
}

/// Whether nothing in the writing of a batch is out of the range of its type.
pub fn is_storable(high: i64, batch: &InflatedBatch) -> (fit: bool)
    ensures
        fit == storable(high, batch.deep_view()),
{
    let n: usize = first_unstored(high, batch);
    if n < batch.records.len() {
        let millis: i128 = batch.base_timestamp as i128 + batch.records[n].timestamp_delta as i128;
        assert(millis == stamp(batch.deep_view(), n as int));
        n as i128 <= i64::MAX as i128 && high as i128 + n as i128 <= i64::MAX as i128
            && i64::MIN as i128 <= millis && millis < 0
    } else {
        let end: i128 = high as i128 + batch.last_offset_delta as i128;
        i64::MIN as i128 <= end && end < i64::MAX as i128
    }
}

/// The times of the records up to the first that cannot be stored, as they are stored.
fn stored_times(high: i64, batch: &InflatedBatch) -> (times: Vec<Civil>)
    ensures
        times.deep_view() == times_of(high, batch.deep_view()),
        readable(batch.deep_view(), times.deep_view()),
{
    let n: usize = first_unstored(high, batch);
    proof {
        unstored_is_the_first(high, batch.deep_view(), 0);
    }
    let ghost all = times_of(high, batch.deep_view());
    let mut times: Vec<Civil> = no_items();
    assert(times.deep_view() =~= all.take(0));
    let mut k: usize = 0;
    while k < n
        invariant
            k <= n == unstored(high, batch.deep_view(), 0) <= batch.records.len(),
            all == times_of(high, batch.deep_view()),
            forall|j: int| 0 <= j < n ==> #[trigger] recordable(high, batch.deep_view(), j),
            times.deep_view() == all.take(k as int),
            readable(batch.deep_view(), times.deep_view()),
        decreases n - k,
    {
        assert(recordable(high, batch.deep_view(), k as int));
        let millis: i64 = batch.base_timestamp + batch.records[k].timestamp_delta;
        add_item(&mut times, Civil::of_millis(millis));
        k = k + 1;
        assert(times.deep_view() =~= all.take(k as int));
    }
    assert(times.deep_view() =~= all);
    times
}

impl ProduceInTx {
    /// Ask for the headers of a record to be added.
    fn write_headers(
        topition_id: i32,
        offset: i64,
        headers: &Vec<RecordHeader>,
        requests: &mut Vec<Request>,
    )
        ensures
            final(requests).deep_view() == old(requests).deep_view() + gather(
                headers.deep_view().len() as int,
                header_part(topition_id, offset as int, headers.deep_view()),
            ),
    {
        let ghost part = header_part(topition_id, offset as int, headers.deep_view());
        let mut j: usize = 0;
        assert(requests.deep_view() =~= old(requests).deep_view() + gather(0, part));
        while j < headers.len()
            invariant
                j <= headers.len(),
                part == header_part(topition_id, offset as int, headers.deep_view()),
                requests.deep_view() == old(requests).deep_view() + gather(j as int, part),
            decreases headers.len() - j,
        {
            let ghost before = requests.deep_view();
            let made = statement4(
                Sql::HeaderInsert,
                int32(topition_id),
                int64(offset),
                opt_bytes(&headers[j].key),
                opt_bytes(&headers[j].value),
            );
            ask(requests, Request::Execute(made));
            j = j + 1;
            assert(requests.deep_view() =~= old(requests).deep_view() + gather(j as int, part));
        }
    }

    /// Ask for the records up to the first that cannot be stored to be added.
    fn write_records(
        topition_id: i32,
        high: i64,
        batch: &InflatedBatch,
        times: &Vec<Civil>,
        requests: &mut Vec<Request>,
    )
        requires
            times.deep_view() == times_of(high, batch.deep_view()),
        ensures
            final(requests).deep_view() == old(requests).deep_view() + gather(
                times.deep_view().len() as int,
                record_part(topition_id, high, batch.deep_view(), times.deep_view()),
            ),
    {
        let n: usize = times.len();
        assert(n == times.deep_view().len());
        let ghost part = record_part(topition_id, high, batch.deep_view(), times.deep_view());
        proof {
            unstored_is_the_first(high, batch.deep_view(), 0);
        }
        let mut k: usize = 0;
        assert(requests.deep_view() =~= old(requests).deep_view() + gather(0, part));
        while k < n
            invariant
                k <= n <= batch.records.len(),
                forall|j: int| 0 <= j < n ==> #[trigger] recordable(high, batch.deep_view(), j),
                n == times.len(),
                part == record_part(topition_id, high, batch.deep_view(), times.deep_view()),
                requests.deep_view() == old(requests).deep_view() + gather(k as int, part),
            decreases n - k,
        {
            let ghost before = requests.deep_view();
            assert(recordable(high, batch.deep_view(), k as int));
            let record = &batch.records[k];
            let offset: i64 = high + k as i64;
            assert(times.deep_view()[k as int] == times[k as int]);
            let made = statement8(
                Sql::RecordInsert,
                int32(topition_id),
                int64(offset),
                int16(batch.attributes),
                int64(batch.producer_id),
                int16(batch.producer_epoch),
                Value::Time(times[k]),
                opt_bytes(&record.key),
                opt_bytes(&record.value),
            );
            ask(requests, Request::Execute(made));
            Self::write_headers(topition_id, offset, &record.headers, requests);
            k = k + 1;
            assert(requests.deep_view() =~= before + part(k - 1));
            assert(requests.deep_view() =~= old(requests).deep_view() + gather(k as int, part));
        }
    }

    /// Ask for a batch to be written.
    fn write(
        &self,
        topition_id: i32,
        high: i64,
        batch: &InflatedBatch,
        times: &Vec<Civil>,
        requests: &mut Vec<Request>,
    )
        requires
            times.deep_view() == times_of(high, batch.deep_view()),
            old(requests).deep_view().len() == 0,
        ensures
            final(requests).deep_view() == self.deep_view().writing(
                topition_id,
                high,
                batch.deep_view(),
                times.deep_view(),
            ),
    {
        if self.validates && !batch.control {
            ask(requests, Request::Validate(self.topition.topic.clone()));
        }
        assert(requests.deep_view() =~= self.deep_view().validation(batch.deep_view()));
        proof {
            unstored_is_the_first(high, batch.deep_view(), 0);
        }
        Self::write_records(topition_id, high, batch, times, requests);
        assert(times.len() == times.deep_view().len());
        let past: i128 = high as i128 + batch.last_offset_delta as i128;
        if times.len() < batch.records.len() || past < i64::MIN as i128 || past
            >= i64::MAX as i128 {
            return ;
        }
        let ghost written = requests.deep_view();
        let end: i64 = high + batch.last_offset_delta as i64;
        let made = statement4(
            Sql::WatermarkUpdate,
            int64(end + 1),
            text(&self.cluster),
            text(&self.topition.topic),
            int32(self.topition.partition),
        );
        ask(requests, Request::Execute(made));
        if let Some(transaction) = &self.transaction {
            let made = statement8(
                Sql::TxnProduceOffsetInsert,
                text(&self.cluster),
                text(transaction),
                int64(batch.producer_id),
                int16(batch.producer_epoch),
                text(&self.topition.topic),
                int32(self.topition.partition),
                int64(high),
                int64(end),
            );
            ask(requests, Request::Execute(made));
        }
        assert(requests.deep_view() =~= written + self.deep_view().closing(
            high,
            batch.deep_view(),
        ));
    }
}

/// What is asked for a batch leaves the transaction that it runs in as it is.
pub proof fn produce_stays_within(state: ProduceInTxView)
    ensures
        stays_within(ProduceInTx::asked(state)),
{
    if let ProduceStageView::Write(topition_id, high, batch, times) = state.stage {
        let part = record_part(topition_id, high, batch, times);
        assert forall|k: int| 0 <= k < times.len() implies stays_within(#[trigger] part(k)) by {
            let headers = header_part(topition_id, high + k, batch.records[k].headers);
            gathered_stays_within(batch.records[k].headers.len() as int, headers);
        }
        gathered_stays_within(times.len() as int, part);
    }
}

/// The replies that take a batch from its high watermark to its end.
pub open spec fn writing_script(
    state: ProduceInTxView,
    low: Option<i64>,
    high: Option<i64>,
    batch: InflatedBatchView,
    written: Seq<ReplyView>,
    config: DescribeConfigsResultView,
) -> Seq<Seq<ReplyView>> {
    let script = seq![
        seq![ReplyView::Watermark(Some((low, high)))],
        seq![ReplyView::Inflated(batch)],
        written,
    ];
    if state.stores && !batch.control {
        script.push(seq![ReplyView::Config(config)]).push(seq![ReplyView::Done])
    } else {
        script
    }
}

/// A batch whose records can all be stored is added at the high watermark of its partition, which
/// is what the client is told.
pub proof fn a_batch_is_added_at_the_high_watermark(
    state: ProduceInTxView,
    topition_id: i32,
    low: Option<i64>,
    high: Option<i64>,
    batch: InflatedBatchView,
    written: Seq<ReplyView>,
    config: DescribeConfigsResultView,
)
    requires
        state.stage == ProduceStageView::Watermark(topition_id),
        storable(or_zero(high), batch),
        unstored(or_zero(high), batch, 0) == batch.records.len(),
    ensures
        completes::<ProduceInTx>(
            state,
            writing_script(state, low, high, batch, written, config),
            or_zero(high),
        ),
{
    let script = writing_script(state, low, high, batch, written, config);
    let inflate = state.at(ProduceStageView::Inflate(topition_id, or_zero(high)));
    let write = state.at(
        ProduceStageView::Write(topition_id, or_zero(high), batch, times_of(or_zero(high), batch)),
    );
    let after1 = script.drop_first();
    let after2 = after1.drop_first();
    assert(ProduceInTx::turn(state, script[0]) == Turn::<ProduceInTxView, i64>::Next(inflate));
    assert(ProduceInTx::turn(inflate, after1[0]) == Turn::<ProduceInTxView, i64>::Next(write));
    if state.stores && !batch.control {
        let describe = state.at(ProduceStageView::Describe(or_zero(high)));
        let store = state.at(ProduceStageView::Store(or_zero(high), config));
        let after3 = after2.drop_first();
        let after4 = after3.drop_first();
        assert(ProduceInTx::turn(write, after2[0]) == Turn::<ProduceInTxView, i64>::Next(describe));
        assert(ProduceInTx::turn(describe, after3[0]) == Turn::<ProduceInTxView, i64>::Next(store));
        assert(completes::<ProduceInTx>(store, after4, or_zero(high)));
        assert(completes::<ProduceInTx>(describe, after3, or_zero(high)));
    }
    assert(completes::<ProduceInTx>(write, after2, or_zero(high)));
    assert(completes::<ProduceInTx>(inflate, after1, or_zero(high)));
}

/// A batch that is not idempotent is added as soon as its partition is found.
pub proof fn a_plain_batch_is_not_checked(state: ProduceInTxView, topition_id: i32)
    requires
        state.stage is Topition,
        !state.header.idempotent,
    ensures
        run::<ProduceInTx>(state, seq![seq![ReplyView::Int(Some(topition_id))]]) == Turn::<
            ProduceInTxView,
            i64,
        >::Next(state.at(ProduceStageView::Watermark(topition_id))),
{
    reveal_with_fuel(run, 3);
}

/// An idempotent batch is held against the epoch and the sequence of its producer, and what the
/// sequence grows by is noted, before the batch is added.
pub proof fn an_idempotent_batch_is_checked_first(
    state: ProduceInTxView,
    topition_id: i32,
    epoch: i16,
    sequence: i32,
    increment: i32,
    rows: u64,
)
    requires
        state.stage is Topition,
        state.header.idempotent,
    ensures
        run::<ProduceInTx>(
            state,
            seq![
                seq![ReplyView::Int(Some(topition_id))],
                seq![ReplyView::Short(Some(epoch))],
                seq![ReplyView::Int(Some(sequence))],
            ],
        ) == Turn::<ProduceInTxView, i64>::Next(
            state.at(ProduceStageView::Check(topition_id, epoch, sequence)),
        ),
        ProduceInTx::asked(state.at(ProduceStageView::Check(topition_id, epoch, sequence)))
            == seq![RequestView::CheckSequence(epoch, sequence, state.header)],
        run::<ProduceInTx>(
            state.at(ProduceStageView::Check(topition_id, epoch, sequence)),
            seq![seq![ReplyView::Increment(increment)], seq![ReplyView::Affected(rows)]],
        ) == Turn::<ProduceInTxView, i64>::Next(
            state.at(ProduceStageView::Watermark(topition_id)),
        ),
        ProduceInTx::asked(state.at(ProduceStageView::Note(topition_id, increment))) == seq![
            state.producer_detail_insert(increment),
        ],
{
    reveal_with_fuel(run, 5);
}

/// The records of a batch take the offsets from the high watermark on, one each, and nothing else
/// is added.
pub proof fn records_take_the_offsets_from_the_high_watermark(
    state: ProduceInTxView,
    topition_id: i32,
    high: i64,
    batch: InflatedBatchView,
    times: Seq<Civil>,
    request: RequestView,
)
    requires
        ProduceInTx::valid(state),
        state.stage == ProduceStageView::Write(topition_id, high, batch, times),
        request matches RequestView::Execute(made) && made.sql is RecordInsert,
    ensures
        ProduceInTx::asked(state).contains(request) <==> exists|k: int|
            0 <= k < unstored(high, batch, 0) && request == #[trigger] record_insert(
                topition_id,
                high,
                batch,
                times,
                k,
            ),
{
    unstored_is_the_first(high, batch, 0);
    let part = record_part(topition_id, high, batch, times);
    let inserted = state.insertion(topition_id, high, batch, times);
    let asked = ProduceInTx::asked(state);
    let validation = state.validation(batch);
    gathered_is_in_a_part(times.len() as int, part, request);
    assert(asked.contains(request) <==> inserted.contains(request)) by {
        let start = validation.len() as int;
        assert(forall|i: int| 0 <= i < inserted.len() ==> asked[start + i] == inserted[i]);
        if asked.contains(request) {
            let i = choose|i: int| 0 <= i < asked.len() && asked[i] == request;
            if i < start {
                assert(asked[i] == validation[i]);
                assert(false);
            } else if i < start + inserted.len() {
                assert(inserted[i - start] == request);
            } else {
                assert(asked[i] == state.closing(high, batch)[i - start - inserted.len()]);
                assert(false);
            }
        }
        if inserted.contains(request) {
            let i = choose|i: int| 0 <= i < inserted.len() && inserted[i] == request;
            assert(asked[start + i] == request);
        }
    }
    assert forall|k: int| 0 <= k < times.len() implies ((#[trigger] part(k)).contains(request)
        <==> request == record_insert(topition_id, high, batch, times, k)) by {
        let headers = header_part(topition_id, high + k, batch.records[k].headers);
        let n = batch.records[k].headers.len() as int;
        gathered_is_in_a_part(n, headers, request);
        let insert = record_insert(topition_id, high, batch, times, k);
        assert(part(k)[0] == insert);
        let both = part(k);
        if both.contains(request) {
            let i = choose|i: int| 0 <= i < both.len() && both[i] == request;
            if i > 0 {
                assert(gather(n, headers)[i - 1] == request);
                let j = choose|j: int| 0 <= j < n && (#[trigger] headers(j)).contains(request);
                assert(headers(j)[0] == request);
            }
        }
    }
    if inserted.contains(request) {
        let k = choose|k: int| 0 <= k < times.len() && (#[trigger] part(k)).contains(request);
        assert(request == record_insert(topition_id, high, batch, times, k));
    }
    if exists|k: int|
        0 <= k < unstored(high, batch, 0) && request == #[trigger] record_insert(
            topition_id,
            high,
            batch,
            times,
            k,
        ) {
        let k = choose|k: int|
            0 <= k < unstored(high, batch, 0) && request == #[trigger] record_insert(
                topition_id,
                high,
                batch,
                times,
                k,
            );
        assert(part(k).contains(request));
    }
}

/// The high watermark moves past the offsets of a batch, and the next batch is added where it is
/// read back. Where a batch has as many offsets as records, the next one follows its last record.
pub proof fn the_next_batch_follows(
    state: ProduceInTxView,
    topition_id: i32,
    high: i64,
    batch: InflatedBatchView,
    times: Seq<Civil>,
    next: ProduceInTxView,
    low: Option<i64>,
)
    requires
        ProduceInTx::valid(state),
        state.stage == ProduceStageView::Write(topition_id, high, batch, times),
        storable(high, batch),
        unstored(high, batch, 0) == batch.records.len(),
        next.stage == ProduceStageView::Watermark(topition_id),
    ensures
        ({
            let moved = high + batch.last_offset_delta + 1;
            &&& ProduceInTx::asked(state).contains(state.watermark_update(moved))
            &&& ProduceInTx::turn(
                next,
                seq![ReplyView::Watermark(Some((low, Some(moved as i64))))],
            ) == Turn::<ProduceInTxView, i64>::Next(
                next.at(ProduceStageView::Inflate(topition_id, moved as i64)),
            )
            &&& batch.last_offset_delta >= 0 ==> moved > high
            &&& batch.last_offset_delta == batch.records.len() - 1 ==> moved == high
                + batch.records.len()
        }),
{
    let closing = state.closing(high, batch);
    let asked = ProduceInTx::asked(state);
    let moved = high + batch.last_offset_delta + 1;
    assert(closing[0] == state.watermark_update(moved));
    assert(asked[asked.len() - closing.len()] == closing[0]);
}

/// The offsets of a batch are noted for its transaction, from its first to its last.
pub proof fn a_transaction_notes_its_offsets(
    state: ProduceInTxView,
    topition_id: i32,
    high: i64,
    batch: InflatedBatchView,
    times: Seq<Civil>,
    transaction: Seq<char>,
)
    requires
        ProduceInTx::valid(state),
        state.stage == ProduceStageView::Write(topition_id, high, batch, times),
        storable(high, batch),
        unstored(high, batch, 0) == batch.records.len(),
        state.transaction == Some(transaction),
    ensures
        ProduceInTx::asked(state).last() == state.txn_produce_offset_insert(
            transaction,
            batch,
            high as int,
            high + batch.last_offset_delta,
        ),
{
    let asked = ProduceInTx::asked(state);
    let closing = state.closing(high, batch);
    assert(asked[asked.len() - 1] == closing[closing.len() - 1]);
}

/// A control batch is neither validated nor stored in the lake.
pub proof fn a_control_batch_is_only_written(
    state: ProduceInTxView,
    topition_id: i32,
    high: i64,
    batch: InflatedBatchView,
    times: Seq<Civil>,
    written: Seq<ReplyView>,
)
    requires
        state.stage == ProduceStageView::Write(topition_id, high, batch, times),
        batch.control,
        unstored(high, batch, 0) == batch.records.len(),
    ensures
        state.validation(batch).len() == 0,
        ProduceInTx::turn(state, written) == Turn::<ProduceInTxView, i64>::End(Ok(high)),
{
}

/// A batch with a record from before the epoch is refused, and the high watermark stays where it
/// is.
pub proof fn an_untimely_batch_is_refused(
    state: ProduceInTxView,
    topition_id: i32,
    high: i64,
    batch: InflatedBatchView,
    times: Seq<Civil>,
    written: Seq<ReplyView>,
    moved: int,
)
    requires
        ProduceInTx::valid(state),
        state.stage == ProduceStageView::Write(topition_id, high, batch, times),
        storable(high, batch),
        unstored(high, batch, 0) < batch.records.len(),
    ensures
        ProduceInTx::turn(state, written) == Turn::<ProduceInTxView, i64>::End(
            Err(ErrorView::Timestamp(stamp(batch, unstored(high, batch, 0)) as i64)),
        ),
        stamp(batch, unstored(high, batch, 0)) < 0,
        !ProduceInTx::asked(state).contains(state.watermark_update(moved)),
{
    unstored_is_the_first(high, batch, 0);
    let request = state.watermark_update(moved);
    let part = record_part(topition_id, high, batch, times);
    let inserted = state.insertion(topition_id, high, batch, times);
    let asked = ProduceInTx::asked(state);
    let validation = state.validation(batch);
    gathered_is_in_a_part(times.len() as int, part, request);
    if asked.contains(request) {
        let i = choose|i: int| 0 <= i < asked.len() && asked[i] == request;
        if i < validation.len() {
            assert(asked[i] == validation[i]);
        } else {
            assert(inserted[i - validation.len()] == request);
            let k = choose|k: int| 0 <= k < times.len() && (#[trigger] part(k)).contains(request);
            let headers = header_part(topition_id, high + k, batch.records[k].headers);
            let n = batch.records[k].headers.len() as int;
            gathered_is_in_a_part(n, headers, request);
            let both = part(k);
            let j = choose|j: int| 0 <= j < both.len() && both[j] == request;
            if j > 0 {
                assert(gather(n, headers)[j - 1] == request);
                let h = choose|h: int| 0 <= h < n && (#[trigger] headers(h)).contains(request);
                assert(headers(h)[0] == request);
            }
        }
    }
}

/// What is written of a record: the record at its offset, under its partition, with the attributes
/// and the producer of its batch, its time, its key and its value.
pub open spec fn stored_record(
    topition_id: i32,
    offset: int,
    batch: InflatedBatchView,
    time: Civil,
    record: RecordView,
) -> RequestView {
    executes(
        Sql::RecordInsert,
        seq![
            ValueView::Int(topition_id as i64),
            ValueView::Int(offset as i64),
            ValueView::Int(batch.attributes as i64),
            ValueView::Int(batch.producer_id),
            ValueView::Int(batch.producer_epoch as i64),
            ValueView::Time(time),
            match record.key {
                Some(key) => ValueView::Bytes(key),
                None => ValueView::Null,
            },
            match record.value {
                Some(value) => ValueView::Bytes(value),
                None => ValueView::Null,
            },
        ],
    )
}

/// What is written of a header: its key and its value, at the offset of its record.
pub open spec fn stored_header(
    topition_id: i32,
    offset: int,
    header: RecordHeaderView,
) -> RequestView {
    executes(
        Sql::HeaderInsert,
        seq![
            ValueView::Int(topition_id as i64),
            ValueView::Int(offset as i64),
            match header.key {
                Some(key) => ValueView::Bytes(key),
                None => ValueView::Null,
            },
            match header.value {
                Some(value) => ValueView::Bytes(value),
                None => ValueView::Null,
            },
        ],
    )
}

/// What is written of the first records of a batch: each record at its own offset, counted from the
/// high watermark, and after it each of its headers at the same offset, in their order.
pub open spec fn stored_records(
    topition_id: i32,
    high: int,
    batch: InflatedBatchView,
    times: Seq<Civil>,
) -> Seq<RequestView> {
    Seq::new(
        times.len(),
        |k: int|
            seq![stored_record(topition_id, high + k, batch, times[k], batch.records[k])]
                + Seq::new(
                batch.records[k].headers.len(),
                |j: int| stored_header(topition_id, high + k, batch.records[k].headers[j]),
            ),
    ).flatten()
}

/// What is written after the records of a batch: the high watermark, past the last offset of the
/// batch, and for its transaction the first and the last offset of the batch.
pub open spec fn stored_offsets(
    cluster: Seq<char>,
    transaction: Option<Seq<char>>,
    topition: TopitionView,
    high: int,
    batch: InflatedBatchView,
) -> Seq<RequestView> {
    let moved = executes(
        Sql::WatermarkUpdate,
        seq![
            ValueView::Int((high + batch.last_offset_delta + 1) as i64),
            ValueView::Text(cluster),
            ValueView::Text(topition.topic),
            ValueView::Int(topition.partition as i64),
        ],
    );
    match transaction {
        None => seq![moved],
        Some(transaction) => seq![
            moved,
            executes(
                Sql::TxnProduceOffsetInsert,
                seq![
                    ValueView::Text(cluster),
                    ValueView::Text(transaction),
                    ValueView::Int(batch.producer_id),
                    ValueView::Int(batch.producer_epoch as i64),
                    ValueView::Text(topition.topic),
                    ValueView::Int(topition.partition as i64),
                    ValueView::Int(high as i64),
                    ValueView::Int((high + batch.last_offset_delta) as i64),
                ],
            ),
        ],
    }
}

/// A batch is held against the schema of its topic where there is a registry, unless it is a
/// control batch.
pub open spec fn held_against_the_schema(
    validates: bool,
    topic: Seq<char>,
    batch: InflatedBatchView,
) -> Seq<RequestView> {
    if validates && !batch.control {
        seq![RequestView::Validate(topic)]
    } else {
        seq![]
    }
}

/// Every record that is stored is stored once, and so is each of its headers.
proof fn records_are_stored_with_their_headers(
    state: ProduceInTxView,
    topition_id: i32,
    high: i64,
    batch: InflatedBatchView,
    times: Seq<Civil>,
)
    ensures
        state.insertion(topition_id, high, batch, times) == stored_records(
            topition_id,
            high as int,
            batch,
            times,
        ),
{
    let part = record_part(topition_id, high, batch, times);
    let wanted = |k: int|
        seq![stored_record(topition_id, high + k, batch, times[k], batch.records[k])] + Seq::new(
            batch.records[k].headers.len(),
            |j: int| stored_header(topition_id, high + k, batch.records[k].headers[j]),
        );
    parts_stand_in_order(times.len() as int, part);
    assert forall|k: int| 0 <= k < times.len() implies #[trigger] part(k) == wanted(k) by {
        let headers = batch.records[k].headers;
        let inserts = header_part(topition_id, high + k, headers);
        let one = |j: int| stored_header(topition_id, high + k, headers[j]);
        assert forall|j: int| 0 <= j < headers.len() implies #[trigger] inserts(j) == seq![
            one(j),
        ] by {
            assert(inserts(j)[0]->Execute_0.params =~= one(j)->Execute_0.params);
            assert(inserts(j) =~= seq![one(j)]);
        }
        parts_hold_one_each(headers.len(), inserts, one);
        let insert = record_insert(topition_id, high, batch, times, k);
        let stored = stored_record(topition_id, high + k, batch, times[k], batch.records[k]);
        assert(insert->Execute_0.params =~= stored->Execute_0.params);
        assert(part(k) =~= wanted(k));
    }
    assert(Seq::new(times.len(), part) =~= Seq::new(times.len(), wanted));
}

/// The headers of a stored record are stored at its offset, as many of them as it has and in their
/// order, right after it.
pub proof fn each_header_is_stored_at_the_offset_of_its_record(
    state: ProduceInTxView,
    topition_id: i32,
    high: i64,
    batch: InflatedBatchView,
    times: Seq<Civil>,
)
    requires
        ProduceInTx::valid(state),
        state.stage == ProduceStageView::Write(topition_id, high, batch, times),
    ensures
        ({
            let schema = held_against_the_schema(state.validates, state.topition.topic, batch);
            let stored = stored_records(topition_id, high as int, batch, times);
            let asked = ProduceInTx::asked(state);
            &&& asked.len() >= schema.len() + stored.len()
            &&& asked.take((schema.len() + stored.len()) as int) == schema + stored
            &&& forall|i: int|
                schema.len() + stored.len() <= i < asked.len() ==> !((#[trigger] asked[i])
                    matches RequestView::Execute(made) && (made.sql is HeaderInsert || made.sql
                    is RecordInsert))
        }),
{
    records_are_stored_with_their_headers(state, topition_id, high, batch, times);
    let schema = held_against_the_schema(state.validates, state.topition.topic, batch);
    let stored = stored_records(topition_id, high as int, batch, times);
    let asked = ProduceInTx::asked(state);
    let n = (schema.len() + stored.len()) as int;
    assert(state.validation(batch) =~= schema);
    assert(asked.take(n) =~= schema + stored);
    assert forall|i: int| n <= i < asked.len() implies !((#[trigger] asked[i])
        matches RequestView::Execute(made) && (made.sql is HeaderInsert || made.sql
        is RecordInsert)) by {
        assert(asked[i] == state.closing(high, batch)[i - n]);
    }
}

/// Times are those of the first records of a batch that can be stored, up to the first that cannot.
pub open spec fn first_times(high: int, batch: InflatedBatchView, times: Seq<Civil>) -> bool {
    &&& times.len() <= batch.records.len()
    &&& forall|k: int|
        0 <= k < times.len() ==> {
            &&& k <= i64::MAX
            &&& high + k <= i64::MAX
            &&& 0 <= batch.base_timestamp + batch.records[k].timestamp_delta <= LAST_MILLIS
            &&& (#[trigger] times[k]).lies_at(
                batch.base_timestamp + batch.records[k].timestamp_delta,
            )
        }
}

/// The times that are stored of a batch are those of its first records.
proof fn times_are_those_of_the_records(high: i64, batch: InflatedBatchView, times: Seq<Civil>)
    requires
        first_times(high as int, batch, times),
        times.len() == batch.records.len() || !recordable(high, batch, times.len() as int),
    ensures
        unstored(high, batch, 0) == times.len(),
        times_of(high, batch) == times,
{
    unstored_is_the_first(high, batch, 0);
    let n = unstored(high, batch, 0);
    if n < times.len() {
        assert(times[n].lies_at(stamp(batch, n)));
        assert(recordable(high, batch, n));
    }
    if n > times.len() {
        assert(recordable(high, batch, times.len() as int));
    }
    let made = times_of(high, batch);
    assert forall|k: int| 0 <= k < n implies made[k] == times[k] by {
        assert(times[k].lies_at(stamp(batch, k)));
        assert(civil_at(stamp(batch, k)).lies_at(stamp(batch, k)));
        a_millisecond_is_one_time(times[k], civil_at(stamp(batch, k)), stamp(batch, k));
    }
    assert(made =~= times);
}

/// The talk in which a batch is added to its partition, once its producer was checked or need not
/// be: the watermarks of the partition are looked up, and held; the batch is inflated; and it is
/// written at the high watermark, or at zero where the partition has none.
pub open spec fn adding_talk(
    state: ProduceInTxView,
    low: Option<i64>,
    high: Option<i64>,
    batch: InflatedBatchView,
    writing: Seq<RequestView>,
    written: Seq<ReplyView>,
) -> Seq<Exchange> {
    seq![
        (
            seq![
                looks_up(
                    Sql::WatermarkSelectForUpdate,
                    seq![
                        ValueView::Text(state.cluster),
                        ValueView::Text(state.topition.topic),
                        ValueView::Int(state.topition.partition as i64),
                    ],
                    Shape::Watermark,
                ),
            ],
            seq![ReplyView::Watermark(Some((low, high)))],
        ),
        (seq![RequestView::Inflate], seq![ReplyView::Inflated(batch)]),
        (writing, written),
    ]
}

/// A batch of which every record can be stored is added at the high watermark: every record with
/// its headers, then the watermark and the offsets of its transaction. Where there is a lake, and
/// it is no control batch, it is stored there as well, from the same offset on and with the
/// configuration of its topic. The client is told the offset of its first record.
pub proof fn a_batch_is_added_as_a_whole(
    state: ProduceInTxView,
    topition_id: i32,
    low: Option<i64>,
    high: Option<i64>,
    batch: InflatedBatchView,
    times: Seq<Civil>,
    written: Seq<ReplyView>,
    config: DescribeConfigsResultView,
)
    requires
        state.stage == ProduceStageView::Watermark(topition_id),
        ({
            let start: i64 = match high {
                Some(high) => high,
                None => 0,
            };
            &&& first_times(start as int, batch, times)
            &&& times.len() == batch.records.len()
            &&& i64::MIN <= start + batch.last_offset_delta < i64::MAX
            &&& all_fit(
                held_against_the_schema(state.validates, state.topition.topic, batch)
                    + stored_records(topition_id, start as int, batch, times) + stored_offsets(
                    state.cluster,
                    state.transaction,
                    state.topition,
                    start as int,
                    batch,
                ),
                written,
            )
        }),
    ensures
        ({
            let start: i64 = match high {
                Some(high) => high,
                None => 0,
            };
            let writing = held_against_the_schema(state.validates, state.topition.topic, batch)
                + stored_records(topition_id, start as int, batch, times) + stored_offsets(
                state.cluster,
                state.transaction,
                state.topition,
                start as int,
                batch,
            );
            let added = adding_talk(state, low, high, batch, writing, written);
            let lake = if state.stores && !batch.control {
                seq![
                    (
                        seq![RequestView::DescribeTopic(state.topition.topic)],
                        seq![ReplyView::Config(config)],
                    ),
                    (
                        seq![RequestView::StoreLake(state.topition, start, config)],
                        seq![ReplyView::Done],
                    ),
                ]
            } else {
                seq![]
            };
            talks::<ProduceInTx>(state, added + lake, Ok(start))
        }),
{
    let start: i64 = match high {
        Some(high) => high,
        None => 0,
    };
    let writing = held_against_the_schema(state.validates, state.topition.topic, batch)
        + stored_records(topition_id, start as int, batch, times) + stored_offsets(
        state.cluster,
        state.transaction,
        state.topition,
        start as int,
        batch,
    );
    let end: Result<i64, ErrorView> = Ok(start);
    let inflate = ProduceInTxView { stage: ProduceStageView::Inflate(topition_id, start), ..state };
    let write = ProduceInTxView {
        stage: ProduceStageView::Write(topition_id, start, batch, times),
        ..state
    };
    let describe = ProduceInTxView { stage: ProduceStageView::Describe(start), ..state };
    let store = ProduceInTxView { stage: ProduceStageView::Store(start, config), ..state };
    let lake: Seq<Exchange> = if state.stores && !batch.control {
        seq![
            (
                seq![RequestView::DescribeTopic(state.topition.topic)],
                seq![ReplyView::Config(config)],
            ),
            (
                seq![RequestView::StoreLake(state.topition, start, config)],
                seq![ReplyView::Done],
            ),
        ]
    } else {
        seq![]
    };
    times_are_those_of_the_records(start, batch, times);
    records_are_stored_with_their_headers(write, topition_id, start, batch, times);
    assert(write.validation(batch) =~= held_against_the_schema(
        state.validates,
        state.topition.topic,
        batch,
    ));
    assert(write.closing(start, batch) =~= stored_offsets(
        state.cluster,
        state.transaction,
        state.topition,
        start as int,
        batch,
    ));
    assert(ProduceInTx::asked(write) =~= writing);
    if state.stores && !batch.control {
        let stored = seq![RequestView::StoreLake(state.topition, start, config)];
        let described = seq![RequestView::DescribeTopic(state.topition.topic)];
        talk_ends::<ProduceInTx>(store, stored, seq![ReplyView::Done], end);
        talk_goes_on::<ProduceInTx>(
            describe,
            described,
            seq![ReplyView::Config(config)],
            store,
            seq![(stored, seq![ReplyView::Done])],
            end,
        );
        assert(lake =~= seq![(described, seq![ReplyView::Config(config)])] + seq![
            (stored, seq![ReplyView::Done]),
        ]);
        talk_goes_on::<ProduceInTx>(write, writing, written, describe, lake, end);
    } else {
        talk_ends::<ProduceInTx>(write, writing, written, end);
        assert(seq![(writing, written)] + lake =~= seq![(writing, written)]);
    }
    the_watermarks_come_first(
        state,
        topition_id,
        low,
        high,
        batch,
        seq![(writing, written)] + lake,
        end,
    );
    let added = adding_talk(state, low, high, batch, writing, written);
    assert(added.take(2) + (seq![(writing, written)] + lake) =~= added + lake);
    assert(added.take(2) =~= adding_talk(state, low, high, batch, seq![], seq![]).take(2));
}

/// The watermarks are looked up and the batch is inflated before it is written.
proof fn the_watermarks_come_first(
    state: ProduceInTxView,
    topition_id: i32,
    low: Option<i64>,
    high: Option<i64>,
    batch: InflatedBatchView,
    rest: Seq<Exchange>,
    end: Result<i64, ErrorView>,
)
    requires
        state.stage == ProduceStageView::Watermark(topition_id),
        ({
            let start: i64 = match high {
                Some(high) => high,
                None => 0,
            };
            talks::<ProduceInTx>(
                ProduceInTxView {
                    stage: ProduceStageView::Write(
                        topition_id,
                        start,
                        batch,
                        times_of(start, batch),
                    ),
                    ..state
                },
                rest,
                end,
            )
        }),
    ensures
        talks::<ProduceInTx>(
            state,
            adding_talk(state, low, high, batch, seq![], seq![]).take(2) + rest,
            end,
        ),
{
    let start: i64 = match high {
        Some(high) => high,
        None => 0,
    };
    let inflate = ProduceInTxView { stage: ProduceStageView::Inflate(topition_id, start), ..state };
    let write = ProduceInTxView {
        stage: ProduceStageView::Write(topition_id, start, batch, times_of(start, batch)),
        ..state
    };
    let lookup = seq![
        looks_up(
            Sql::WatermarkSelectForUpdate,
            seq![
                ValueView::Text(state.cluster),
                ValueView::Text(state.topition.topic),
                ValueView::Int(state.topition.partition as i64),
            ],
            Shape::Watermark,
        ),
    ];
    let looking = seq![ReplyView::Watermark(Some((low, high)))];
    let inflating = seq![ReplyView::Inflated(batch)];
    talk_goes_on::<ProduceInTx>(
        inflate,
        seq![RequestView::Inflate],
        inflating,
        write,
        rest,
        end,
    );
    let after = seq![(seq![RequestView::Inflate], inflating)] + rest;
    talk_goes_on::<ProduceInTx>(state, lookup, looking, inflate, after, end);
    assert(seq![(lookup, looking)] + after =~= adding_talk(
        state,
        low,
        high,
        batch,
        seq![],
        seq![],
    ).take(2) + rest);
}

/// A batch with a record from before the epoch is written up to that record, and then fails with
/// the timestamp of that record. Neither the watermark nor the offsets of a transaction are
/// written.
pub proof fn a_batch_fails_at_a_record_from_before_the_epoch(
    state: ProduceInTxView,
    topition_id: i32,
    low: Option<i64>,
    high: Option<i64>,
    batch: InflatedBatchView,
    times: Seq<Civil>,
    written: Seq<ReplyView>,
)
    requires
        state.stage == ProduceStageView::Watermark(topition_id),
        ({
            let start: i64 = match high {
                Some(high) => high,
                None => 0,
            };
            let n = times.len();
            &&& first_times(start as int, batch, times)
            &&& n < batch.records.len()
            &&& n <= i64::MAX
            &&& start + n <= i64::MAX
            &&& i64::MIN <= batch.base_timestamp + batch.records[n as int].timestamp_delta < 0
            &&& all_fit(
                held_against_the_schema(state.validates, state.topition.topic, batch)
                    + stored_records(topition_id, start as int, batch, times),
                written,
            )
        }),
    ensures
        ({
            let start: i64 = match high {
                Some(high) => high,
                None => 0,
            };
            let writing = held_against_the_schema(state.validates, state.topition.topic, batch)
                + stored_records(topition_id, start as int, batch, times);
            talks::<ProduceInTx>(
                state,
                adding_talk(state, low, high, batch, writing, written),
                Err(
                    ErrorView::Timestamp(
                        (batch.base_timestamp + batch.records[times.len() as int].timestamp_delta)
                            as i64,
                    ),
                ),
            )
        }),
{
    let start: i64 = match high {
        Some(high) => high,
        None => 0,
    };
    let n = times.len() as int;
    let writing = held_against_the_schema(state.validates, state.topition.topic, batch)
        + stored_records(topition_id, start as int, batch, times);
    let end: Result<i64, ErrorView> = Err(ErrorView::Timestamp(stamp(batch, n) as i64));
    let write = ProduceInTxView {
        stage: ProduceStageView::Write(topition_id, start, batch, times),
        ..state
    };
    assert(!recordable(start, batch, n));
    times_are_those_of_the_records(start, batch, times);
    records_are_stored_with_their_headers(write, topition_id, start, batch, times);
    assert(write.validation(batch) =~= held_against_the_schema(
        state.validates,
        state.topition.topic,
        batch,
    ));
    assert(ProduceInTx::asked(write) =~= writing);
    talk_ends::<ProduceInTx>(write, writing, written, end);
    the_watermarks_come_first(
        state,
        topition_id,
        low,
        high,
        batch,
        seq![(writing, written)],
        end,
    );
    let added = adding_talk(state, low, high, batch, writing, written);
    assert(added.take(2) + seq![(writing, written)] =~= added);
    assert(added.take(2) =~= adding_talk(state, low, high, batch, seq![], seq![]).take(2));
}

/// A batch is added to a partition that is there: the partition is looked up by its topic and its
/// number, and where it is not there, or has no watermarks, the batch is refused as one for an
/// unknown partition.
pub proof fn a_partition_has_to_be_there(
    state: ProduceInTxView,
    topition_id: i32,
    found: Option<i32>,
    rest: Seq<Exchange>,
    end: Result<i64, ErrorView>,
)
    requires
        state.stage is Topition,
        found matches Some(id) ==> talks::<ProduceInTx>(
            ProduceInTxView {
                stage: if state.header.idempotent {
                    ProduceStageView::Epoch(id)
                } else {
                    ProduceStageView::Watermark(id)
                },
                ..state
            },
            rest,
            end,
        ),
    ensures
        ({
            let params = seq![
                ValueView::Text(state.cluster),
                ValueView::Text(state.topition.topic),
                ValueView::Int(state.topition.partition as i64),
            ];
            let unknown = Err::<i64, _>(ErrorView::Api(ErrorCode::UnknownTopicOrPartition));
            let lookup = seq![
                (
                    seq![looks_up(Sql::TopitionSelectId, params, Shape::Int)],
                    seq![ReplyView::Int(found)],
                ),
            ];
            &&& match found {
                Some(_) => talks::<ProduceInTx>(state, lookup + rest, end),
                None => talks::<ProduceInTx>(state, lookup, unknown),
            }
            &&& talks::<ProduceInTx>(
                ProduceInTxView { stage: ProduceStageView::Watermark(topition_id), ..state },
                seq![
                    (
                        seq![looks_up(Sql::WatermarkSelectForUpdate, params, Shape::Watermark)],
                        seq![ReplyView::Watermark(None)],
                    ),
                ],
                unknown,
            )
        }),
{
    let params = seq![
        ValueView::Text(state.cluster),
        ValueView::Text(state.topition.topic),
        ValueView::Int(state.topition.partition as i64),
    ];
    let unknown: Result<i64, ErrorView> = Err(ErrorView::Api(ErrorCode::UnknownTopicOrPartition));
    let lookup = seq![looks_up(Sql::TopitionSelectId, params, Shape::Int)];
    let looking = seq![ReplyView::Int(found)];
    match found {
        Some(id) => {
            let next = ProduceInTxView {
                stage: if state.header.idempotent {
                    ProduceStageView::Epoch(id)
                } else {
                    ProduceStageView::Watermark(id)
                },
                ..state
            };
            talk_goes_on::<ProduceInTx>(state, lookup, looking, next, rest, end);
        },
        None => talk_ends::<ProduceInTx>(state, lookup, looking, unknown),
    }
    talk_ends::<ProduceInTx>(
        ProduceInTxView { stage: ProduceStageView::Watermark(topition_id), ..state },
        seq![looks_up(Sql::WatermarkSelectForUpdate, params, Shape::Watermark)],
        seq![ReplyView::Watermark(None)],
        unknown,
    );
}

/// The producer of an idempotent batch is checked before the batch is added: its current epoch is
/// looked up, and a producer without one is refused as unknown; then its sequence in the partition,
/// in the epoch of the batch; the batch is held against both; and what the sequence grows by is
/// noted, for the producer in that epoch and partition.
pub proof fn a_producer_is_checked_before_its_batch_is_added(
    state: ProduceInTxView,
    topition_id: i32,
    epoch: Option<i16>,
    sequence: Option<i32>,
    increment: i32,
    rows: u64,
    rest: Seq<Exchange>,
    end: Result<i64, ErrorView>,
)
    requires
        state.stage == ProduceStageView::Epoch(topition_id),
        epoch is Some && sequence is Some ==> talks::<ProduceInTx>(
            ProduceInTxView { stage: ProduceStageView::Watermark(topition_id), ..state },
            rest,
            end,
        ),
    ensures
        ({
            let place = seq![
                ValueView::Text(state.cluster),
                ValueView::Text(state.topition.topic),
                ValueView::Int(state.topition.partition as i64),
                ValueView::Int(state.header.producer_id),
                ValueView::Int(state.header.producer_epoch as i64),
            ];
            let current = (
                seq![
                    looks_up(
                        Sql::ProducerEpochSelectCurrent,
                        seq![
                            ValueView::Text(state.cluster),
                            ValueView::Int(state.header.producer_id),
                        ],
                        Shape::Short,
                    ),
                ],
                seq![ReplyView::Short(epoch)],
            );
            let last = (
                seq![looks_up(Sql::ProducerDetailSelectForUpdate, place, Shape::Int)],
                seq![ReplyView::Int(sequence)],
            );
            match (epoch, sequence) {
                (None, _) => talks::<ProduceInTx>(
                    state,
                    seq![current],
                    Err(ErrorView::Api(ErrorCode::UnknownProducerId)),
                ),
                (Some(_), None) => talks::<ProduceInTx>(
                    state,
                    seq![current, last],
                    Err(ErrorView::Message("No rows returned"@)),
                ),
                (Some(epoch), Some(sequence)) => talks::<ProduceInTx>(
                    state,
                    seq![
                        current,
                        last,
                        (
                            seq![RequestView::CheckSequence(epoch, sequence, state.header)],
                            seq![ReplyView::Increment(increment)],
                        ),
                        (
                            seq![
                                executes(
                                    Sql::ProducerDetailInsert,
                                    place + seq![
                                        ValueView::Int(increment as i64),
                                        ValueView::Int(increment as i64),
                                    ],
                                ),
                            ],
                            seq![ReplyView::Affected(rows)],
                        ),
                    ] + rest,
                    end,
                ),
            }
        }),
{
    let place = seq![
        ValueView::Text(state.cluster),
        ValueView::Text(state.topition.topic),
        ValueView::Int(state.topition.partition as i64),
        ValueView::Int(state.header.producer_id),
        ValueView::Int(state.header.producer_epoch as i64),
    ];
    let current = seq![
        looks_up(
            Sql::ProducerEpochSelectCurrent,
            seq![ValueView::Text(state.cluster), ValueView::Int(state.header.producer_id)],
            Shape::Short,
        ),
    ];
    let being = seq![ReplyView::Short(epoch)];
    let last = seq![looks_up(Sql::ProducerDetailSelectForUpdate, place, Shape::Int)];
    let lasting = seq![ReplyView::Int(sequence)];
    match (epoch, sequence) {
        (None, _) => {
            talk_ends::<ProduceInTx>(
                state,
                current,
                being,
                Err(ErrorView::Api(ErrorCode::UnknownProducerId)),
            );
        },
        (Some(found), None) => {
            let none: Result<i64, ErrorView> = Err(ErrorView::Message("No rows returned"@));
            let second = ProduceInTxView {
                stage: ProduceStageView::Sequence(topition_id, found),
                ..state
            };
            talk_ends::<ProduceInTx>(second, last, lasting, none);
            talk_goes_on::<ProduceInTx>(
                state,
                current,
                being,
                second,
                seq![(last, lasting)],
                none,
            );
            assert(seq![(current, being)] + seq![(last, lasting)] =~= seq![
                (current, being),
                (last, lasting),
            ]);
        },
        (Some(found), Some(number)) => {
            let second = ProduceInTxView {
                stage: ProduceStageView::Sequence(topition_id, found),
                ..state
            };
            let third = ProduceInTxView {
                stage: ProduceStageView::Check(topition_id, found, number),
                ..state
            };
            let fourth = ProduceInTxView {
                stage: ProduceStageView::Note(topition_id, increment),
                ..state
            };
            let fifth = ProduceInTxView {
                stage: ProduceStageView::Watermark(topition_id),
                ..state
            };
            let check = seq![RequestView::CheckSequence(found, number, state.header)];
            let checking = seq![ReplyView::Increment(increment)];
            let note = seq![
                executes(
                    Sql::ProducerDetailInsert,
                    place + seq![
                        ValueView::Int(increment as i64),
                        ValueView::Int(increment as i64),
                    ],
                ),
            ];
            let noting = seq![ReplyView::Affected(rows)];
            assert(ProduceInTx::asked(fourth)[0]->Execute_0.params
                =~= note[0]->Execute_0.params);
            assert(ProduceInTx::asked(fourth) =~= note);
            let rest4 = seq![(note, noting)] + rest;
            let rest3 = seq![(check, checking)] + rest4;
            let rest2 = seq![(last, lasting)] + rest3;
            talk_goes_on::<ProduceInTx>(fourth, note, noting, fifth, rest, end);
            talk_goes_on::<ProduceInTx>(third, check, checking, fourth, rest4, end);
            talk_goes_on::<ProduceInTx>(second, last, lasting, third, rest3, end);
            talk_goes_on::<ProduceInTx>(state, current, being, second, rest2, end);
            assert(seq![(current, being)] + rest2 =~= seq![
                (current, being),
                (last, lasting),
                (check, checking),
                (note, noting),
            ] + rest);
        },
    }
}

} // verus!
