//! A transaction of a producer ends.

use vstd::prelude::*;

use crate::batch::{BatchHeader, Marker};
use crate::error::{Error, ErrorCode, ErrorView};
use crate::operation::{completes, no_rows, Operation, Progress, Turn, NO_ROWS};
use crate::produce::{
    produce_stays_within, ProduceInTx, ProduceInTxView, ProduceStage, ProduceStageView,
};
use crate::request::{
    ask, batch, fits, no_requests, only, span, topitions, txns, Reply, ReplyView, Request,
    RequestView, Shape,
};
use crate::script::{add_item, gather, gathered_is_in_a_part, parts_stand_in_order};
use crate::sql::Sql;
use crate::talk::{
    affected_fits, all_affected, all_execute, executes, flattened_execute, looks_up, queries,
    talk_ends, talk_goes_on, talks, Exchange,
};
use crate::transaction::{gathered_stays_within, stays_within};
use crate::txn::{
    state_of_text, state_text, state_text_is_read_back, txn_of_row, Txn, TxnState, TxnView,
};
use crate::value::{
    int16, int32, int64, int_value, statement, statement4, statement5, statement6, statement7,
    text, text_value, Value, ValueView,
};
use crate::wire::{Topition, TopitionView};

verus! {

/// How far the end of a transaction is.
#[derive(Debug)]
pub enum EndStage {
    /// The partitions of the transaction are looked up.
    Topitions,
    /// The marker of a partition is encoded.
    Mark(usize),
    /// The marker is added to the partition.
    Produce(usize, ProduceInTx),
    /// The offsets of the transaction in the partition are looked up.
    Range(usize),
    /// The last of these offsets is known; the transactions that overlap are looked up.
    Overlap(usize, i64),
    /// The outcome is brought about, or only prepared.
    Settle,
}

/// What [`EndStage`] stands for.
pub enum EndStageView {
    Topitions,
    Mark(usize),
    Produce(usize, ProduceInTxView),
    Range(usize),
    Overlap(usize, i64),
    Settle,
}

impl DeepView for EndStage {
    type V = EndStageView;

    open spec fn deep_view(&self) -> EndStageView {
        match self {
            EndStage::Topitions => EndStageView::Topitions,
            EndStage::Mark(a) => EndStageView::Mark(*a),
            EndStage::Produce(a, b) => EndStageView::Produce(*a, b.deep_view()),
            EndStage::Range(a) => EndStageView::Range(*a),
            EndStage::Overlap(a, b) => EndStageView::Overlap(*a, *b),
            EndStage::Settle => EndStageView::Settle,
        }
    }
}

/// A transaction of a producer that ends, in a transaction of the database that was begun.
#[derive(Debug)]
pub struct EndTxn {
    pub cluster: String,
    pub name: String,
    pub producer_id: i64,
    pub producer_epoch: i16,
    /// Whether it is committed, or else aborted.
    pub committed: bool,
    /// Whether there is a schema registry.
    pub validates: bool,
    /// Whether there is a lake.
    pub stores: bool,
    /// The partitions of the transaction.
    pub topitions: Vec<(String, i32)>,
    /// The transactions that were found to overlap.
    pub overlaps: Vec<Txn>,
    pub stage: EndStage,
}

/// What [`EndTxn`] stands for.
pub struct EndTxnView {
    pub cluster: Seq<char>,
    pub name: Seq<char>,
    pub producer_id: i64,
    pub producer_epoch: i16,
    pub committed: bool,
    pub validates: bool,
    pub stores: bool,
    pub topitions: Seq<(Seq<char>, i32)>,
    pub overlaps: Seq<TxnView>,
    pub stage: EndStageView,
}

impl DeepView for EndTxn {
    type V = EndTxnView;

    open spec fn deep_view(&self) -> EndTxnView {
        EndTxnView {
            cluster: self.cluster@,
            name: self.name@,
            producer_id: self.producer_id,
            producer_epoch: self.producer_epoch,
            committed: self.committed,
            validates: self.validates,
            stores: self.stores,
            topitions: self.topitions.deep_view(),
            overlaps: self.overlaps.deep_view(),
            stage: self.stage.deep_view(),
        }
    }
}

/// A statement on a transaction of a producer.
pub open spec fn on_txn(sql: Sql, cluster: Seq<char>, txn: TxnView) -> RequestView {
    RequestView::Execute(
        statement(
            sql,
            seq![
                text_value(cluster),
                text_value(txn.name),
                int_value(txn.producer_id as int),
                int_value(txn.producer_epoch as int),
            ],
        ),
    )
}

/// The status of a transaction becomes another.
pub open spec fn status_update(cluster: Seq<char>, txn: TxnView, status: TxnState) -> RequestView {
    RequestView::Execute(
        statement(
            Sql::TxnStatusUpdate,
            seq![
                text_value(state_text(status)),
                text_value(cluster),
                text_value(txn.name),
                int_value(txn.producer_id as int),
                int_value(txn.producer_epoch as int),
            ],
        ),
    )
}

/// The outcome of a transaction is brought about: what was noted of it goes, its offsets become
/// those of its group if it is committed, and its status is final.
pub open spec fn settlement(cluster: Seq<char>, txn: TxnView) -> Seq<RequestView> {
    seq![
        on_txn(Sql::TxnProduceOffsetDelete, cluster, txn),
        on_txn(Sql::TxnTopitionDelete, cluster, txn),
    ] + (if txn.status is PrepareCommit {
        seq![on_txn(Sql::ConsumerOffsetInsertFromTxn, cluster, txn)]
    } else {
        seq![]
    }) + seq![
        on_txn(Sql::TxnOffsetCommitTpDelete, cluster, txn),
        on_txn(Sql::TxnOffsetCommitDelete, cluster, txn),
        status_update(cluster, txn, txn.status.outcome()),
    ]
}

/// The outcomes of transactions are brought about.
pub open spec fn settlement_part(cluster: Seq<char>, txns: Seq<TxnView>) -> spec_fn(int) -> Seq<
    RequestView,
> {
    |i: int| settlement(cluster, txns[i])
}

/// Whether the outcomes of all transactions are decided.
pub open spec fn all_prepared(txns: Seq<TxnView>) -> bool {
    forall|i: int| 0 <= i < txns.len() ==> (#[trigger] txns[i]).status.prepared()
}

/// The transactions that rows tell of, or the error of the first row that tells of none.
pub open spec fn txns_of_rows(rows: Seq<(Seq<char>, i64, i16, Option<Seq<char>>)>) -> Result<
    Seq<TxnView>,
    ErrorView,
>
    decreases rows.len(),
{
    if rows.len() == 0 {
        Ok(Seq::empty())
    } else {
        match (txns_of_rows(rows.drop_last()), txn_of_row(rows.last())) {
            (Err(error), _) => Err(error),
            (Ok(_), Err(error)) => Err(error),
            (Ok(txns), Ok(txn)) => Ok(txns.push(txn)),
        }
    }
}

impl EndTxnView {
    /// The transaction itself, with its outcome decided.
    pub open spec fn own(self) -> TxnView {
        TxnView {
            name: self.name,
            producer_id: self.producer_id,
            producer_epoch: self.producer_epoch,
            status: if self.committed {
                TxnState::PrepareCommit
            } else {
                TxnState::PrepareAbort
            },
        }
    }

    /// The control batch that ends the transaction in a partition.
    pub open spec fn marker(self) -> Marker {
        Marker {
            committed: self.committed,
            control: true,
            transaction: true,
            producer_id: self.producer_id,
            producer_epoch: self.producer_epoch,
            base_sequence: -1 as i32,
        }
    }

    /// The marker is added to a partition.
    pub open spec fn production(self, i: int, header: BatchHeader) -> ProduceInTxView {
        ProduceInTxView {
            cluster: self.cluster,
            transaction: Some(self.name),
            topition: TopitionView { topic: self.topitions[i].0, partition: self.topitions[i].1 },
            header,
            validates: self.validates,
            stores: self.stores,
            stage: ProduceStageView::Topition,
        }
    }

    /// The partitions of the transaction are looked up.
    pub open spec fn topition_select(self) -> RequestView {
        RequestView::Query(
            statement(
                Sql::TxnTopitionSelect,
                seq![
                    text_value(self.cluster),
                    text_value(self.name),
                    int_value(self.producer_id as int),
                    int_value(self.producer_epoch as int),
                ],
            ),
            Shape::Topitions,
        )
    }

    /// The offsets of the transaction in a partition are looked up.
    pub open spec fn range_select(self, i: int) -> RequestView {
        RequestView::First(
            statement(
                Sql::TxnProduceOffsetSelectRange,
                seq![
                    text_value(self.cluster),
                    text_value(self.name),
                    int_value(self.producer_id as int),
                    int_value(self.producer_epoch as int),
                    text_value(self.topitions[i].0),
                    int_value(self.topitions[i].1 as int),
                ],
            ),
            Shape::Span,
        )
    }

    /// The transactions that overlap up to an offset of a partition are looked up.
    pub open spec fn overlap_select(self, i: int, end: i64) -> RequestView {
        RequestView::Query(
            statement(
                Sql::TxnProduceOffsetSelectOverlapping,
                seq![
                    text_value(self.cluster),
                    text_value(self.name),
                    int_value(self.producer_id as int),
                    int_value(self.producer_epoch as int),
                    text_value(self.topitions[i].0),
                    int_value(self.topitions[i].1 as int),
                    int_value(end as int),
                ],
            ),
            Shape::Txns,
        )
    }

    /// With the outcomes of all that overlap decided, these and the own outcome are brought about.
    /// Otherwise the own outcome is only noted as decided.
    pub open spec fn conclusion(self) -> Seq<RequestView> {
        if all_prepared(self.overlaps) {
            let txns = self.overlaps.push(self.own());
            gather(txns.len() as int, settlement_part(self.cluster, txns))
        } else {
            seq![status_update(self.cluster, self.own(), self.own().status)]
        }
    }

    /// The same transaction at another stage.
    pub open spec fn at(self, stage: EndStageView) -> EndTxnView {
        EndTxnView { stage, ..self }
    }

    /// The partition of a number comes next, or else the conclusion.
    pub open spec fn at_topition(self, i: int) -> EndTxnView {
        if i < self.topitions.len() {
            self.at(EndStageView::Mark(i as usize))
        } else {
            self.at(EndStageView::Settle)
        }
    }
}

impl Operation for EndTxn {
    type Output = ErrorCode;

    open spec fn valid(state: EndTxnView) -> bool {
        &&& state.topitions.len() <= usize::MAX
        &&& match state.stage {
            EndStageView::Topitions => state.overlaps.len() == 0,
            EndStageView::Mark(i) => i < state.topitions.len(),
            EndStageView::Produce(i, inner) => i < state.topitions.len() && ProduceInTx::valid(
                inner,
            ),
            EndStageView::Range(i) => i < state.topitions.len(),
            EndStageView::Overlap(i, _) => i < state.topitions.len(),
            EndStageView::Settle => true,
        }
    }

    open spec fn asked(state: EndTxnView) -> Seq<RequestView> {
        match state.stage {
            EndStageView::Topitions => seq![state.topition_select()],
            EndStageView::Mark(_) => seq![RequestView::EncodeMarker(state.marker())],
            EndStageView::Produce(_, inner) => ProduceInTx::asked(inner),
            EndStageView::Range(i) => seq![state.range_select(i as int)],
            EndStageView::Overlap(i, end) => seq![state.overlap_select(i as int, end)],
            EndStageView::Settle => state.conclusion(),
        }
    }

    open spec fn turn(state: EndTxnView, replies: Seq<ReplyView>) -> Turn<EndTxnView, ErrorCode> {
        match state.stage {
            EndStageView::Topitions => Turn::Next(
                (EndTxnView { topitions: replies[0]->Topitions_0, ..state }).at_topition(0),
            ),
            EndStageView::Mark(i) => Turn::Next(
                state.at(
                    EndStageView::Produce(i, state.production(i as int, replies[0]->Batch_0)),
                ),
            ),
            EndStageView::Produce(i, inner) => match ProduceInTx::turn(inner, replies) {
                Turn::Next(inner) => Turn::Next(state.at(EndStageView::Produce(i, inner))),
                Turn::End(Ok(_)) => Turn::Next(state.at(EndStageView::Range(i))),
                Turn::End(Err(error)) => Turn::End(Err(error)),
            },
            EndStageView::Range(i) => match replies[0]->Span_0 {
                None => no_rows(),
                Some((_, end)) => Turn::Next(state.at(EndStageView::Overlap(i, end))),
            },
            EndStageView::Overlap(i, _) => match txns_of_rows(replies[0]->Txns_0) {
                Err(error) => Turn::End(Err(error)),
                Ok(txns) => Turn::Next(
                    (EndTxnView { overlaps: state.overlaps + txns, ..state }).at_topition(i + 1),
                ),
            },
            EndStageView::Settle => Turn::End(Ok(ErrorCode::NoError)),
        }
    }

    open spec fn in_range(state: EndTxnView, replies: Seq<ReplyView>) -> bool {
        state.stage matches EndStageView::Produce(_, inner) ==> ProduceInTx::in_range(
            inner,
            replies,
        )
    }

    fn requests(&self) -> Vec<Request> {
        match &self.stage {
            EndStage::Produce(_, inner) => inner.requests(),
            EndStage::Settle => self.conclude(),
            EndStage::Topitions => {
                let made = statement4(
                    Sql::TxnTopitionSelect,
                    text(&self.cluster),
                    text(&self.name),
                    int64(self.producer_id),
                    int16(self.producer_epoch),
                );
                let mut requests = no_requests();
                ask(&mut requests, Request::Query(made, Shape::Topitions));
                requests
            },
            EndStage::Mark(_) => {
                let mut requests = no_requests();
                ask(
                    &mut requests,
                    Request::EncodeMarker(
                        Marker {
                            committed: self.committed,
                            control: true,
                            transaction: true,
                            producer_id: self.producer_id,
                            producer_epoch: self.producer_epoch,
                            base_sequence: -1,
                        },
                    ),
                );
                requests
            },
            EndStage::Range(i) => {
                let topition = &self.topitions[*i];
                let made = statement6(
                    Sql::TxnProduceOffsetSelectRange,
                    text(&self.cluster),
                    text(&self.name),
                    int64(self.producer_id),
                    int16(self.producer_epoch),
                    text(&topition.0),
                    int32(topition.1),
                );
                let mut requests = no_requests();
                ask(&mut requests, Request::First(made, Shape::Span));
                requests
            },
            EndStage::Overlap(i, end) => {
                let topition = &self.topitions[*i];
                let made = statement7(
                    Sql::TxnProduceOffsetSelectOverlapping,
                    text(&self.cluster),
                    text(&self.name),
                    int64(self.producer_id),
                    int16(self.producer_epoch),
                    text(&topition.0),
                    int32(topition.1),
                    int64(*end),
                );
                let mut requests = no_requests();
                ask(&mut requests, Request::Query(made, Shape::Txns));
                requests
            },
        }
    }

    fn is_in_range(&self, replies: &Vec<Reply>) -> bool {
        match &self.stage {
            EndStage::Produce(_, inner) => inner.is_in_range(replies),
            _ => true,
        }
    }

    fn advance(self, replies: Vec<Reply>) -> Progress<EndTxn, ErrorCode> {
        proof {
            if replies.deep_view().len() > 0 {
                assert(fits(Self::asked(self.deep_view())[0], replies.deep_view()[0]));
            }
        }
        let progress = match self.stage {
            EndStage::Topitions => {
                let topitions = topitions(only(replies));
                let stage = Self::topition_stage(&topitions, 0);
                assert(topitions.deep_view().len() == topitions.len());
                Progress::Next(EndTxn { topitions, stage, ..self })
            },
            EndStage::Mark(i) => {
                let header = batch(only(replies));
                let topition = &self.topitions[i];
                let inner = ProduceInTx {
                    cluster: self.cluster.clone(),
                    transaction: Some(self.name.clone()),
                    topition: Topition { topic: topition.0.clone(), partition: topition.1 },
                    header,
                    validates: self.validates,
                    stores: self.stores,
                    stage: ProduceStage::Topition,
                };
                Progress::Next(EndTxn { stage: EndStage::Produce(i, inner), ..self })
            },
            EndStage::Produce(i, inner) => match inner.advance(replies) {
                Progress::Next(inner) => Progress::Next(
                    EndTxn { stage: EndStage::Produce(i, inner), ..self },
                ),
                Progress::End(Ok(_)) => Progress::Next(
                    EndTxn { stage: EndStage::Range(i), ..self },
                ),
                Progress::End(Err(error)) => Progress::End(Err(error)),
            },
            EndStage::Range(i) => match span(only(replies)) {
                None => Progress::End(Err(Error::Message(NO_ROWS.to_owned()))),
                Some((_, end)) => Progress::Next(
                    EndTxn { stage: EndStage::Overlap(i, end), ..self },
                ),
            },
            EndStage::Overlap(i, _) => {
                let mut overlaps = self.overlaps;
                match note_overlaps(&mut overlaps, &txns(only(replies))) {
                    Some(error) => Progress::End(Err(error)),
                    None => {
                        let stage = Self::topition_stage(&self.topitions, i + 1);
                        Progress::Next(EndTxn { overlaps, stage, ..self })
                    },
                }
            },
            EndStage::Settle => Progress::End(Ok(ErrorCode::NoError)),
        };
        assert(progress.deep_view() == Self::turn(self.deep_view(), replies.deep_view()));
        progress
    }
}

impl EndTxn {
    /// The stage of the partition of a number, or else of the conclusion.
    fn topition_stage(topitions: &Vec<(String, i32)>, i: usize) -> (stage: EndStage)
        ensures
            forall|state: EndTxnView|
                state.topitions == topitions.deep_view() ==> #[trigger] state.at_topition(i as int)
                    == state.at(stage.deep_view()),
    {
        if i < topitions.len() {
            EndStage::Mark(i)
        } else {
            EndStage::Settle
        }
    }

    /// Whether the outcomes of all that overlap are decided.
    fn is_decided(&self) -> (decided: bool)
        ensures
            decided == all_prepared(self.deep_view().overlaps),
    {
        let mut i: usize = 0;
        while i < self.overlaps.len()
            invariant
                i <= self.overlaps.len(),
                forall|j: int|
                    0 <= j < i ==> (#[trigger] self.deep_view().overlaps[j]).status.prepared(),
            decreases self.overlaps.len() - i,
        {
            if !self.overlaps[i].status.is_prepared() {
                assert(!self.deep_view().overlaps[i as int].status.prepared());
                return false;
            }
            i = i + 1;
        }
        true
    }

    /// Ask for a statement on a transaction.
    fn ask_on_txn(cluster: &String, txn: &Txn, sql: Sql, requests: &mut Vec<Request>)
        ensures
            final(requests).deep_view() == old(requests).deep_view().push(
                on_txn(sql, cluster@, txn.deep_view()),
            ),
    {
        let made = statement4(
            sql,
            text(cluster),
            text(&txn.name),
            int64(txn.producer_id),
            int16(txn.producer_epoch),
        );
        ask(requests, Request::Execute(made));
    }

    /// Ask for the status of a transaction to become another.
    fn ask_for_status(cluster: &String, txn: &Txn, status: TxnState, requests: &mut Vec<Request>)
        ensures
            final(requests).deep_view() == old(requests).deep_view().push(
                status_update(cluster@, txn.deep_view(), status),
            ),
    {
        let made = statement5(
            Sql::TxnStatusUpdate,
            Value::Text(status.text()),
            text(cluster),
            text(&txn.name),
            int64(txn.producer_id),
            int16(txn.producer_epoch),
        );
        ask(requests, Request::Execute(made));
    }

    /// Ask for the outcome of a transaction to be brought about.
    fn ask_for_settlement(cluster: &String, txn: &Txn, requests: &mut Vec<Request>)
        ensures
            final(requests).deep_view() == old(requests).deep_view() + settlement(
                cluster@,
                txn.deep_view(),
            ),
    {
        Self::ask_on_txn(cluster, txn, Sql::TxnProduceOffsetDelete, requests);
        Self::ask_on_txn(cluster, txn, Sql::TxnTopitionDelete, requests);
        if let TxnState::PrepareCommit = txn.status {
            Self::ask_on_txn(cluster, txn, Sql::ConsumerOffsetInsertFromTxn, requests);
        }
        Self::ask_on_txn(cluster, txn, Sql::TxnOffsetCommitTpDelete, requests);
        Self::ask_on_txn(cluster, txn, Sql::TxnOffsetCommitDelete, requests);
        Self::ask_for_status(cluster, txn, txn.status.settled(), requests);
        assert(requests.deep_view() =~= old(requests).deep_view() + settlement(
            cluster@,
            txn.deep_view(),
        ));
    }

    /// Ask for what concludes the transaction.
    fn conclude(&self) -> (requests: Vec<Request>)
        ensures
            requests.deep_view() == self.deep_view().conclusion(),
    {
        let mut requests = no_requests();
        let own = Txn {
            name: self.name.clone(),
            producer_id: self.producer_id,
            producer_epoch: self.producer_epoch,
            status: if self.committed {
                TxnState::PrepareCommit
            } else {
                TxnState::PrepareAbort
            },
        };
        if !self.is_decided() {
            Self::ask_for_status(&self.cluster, &own, own.status, &mut requests);
            return requests;
        }
        let ghost txns = self.deep_view().overlaps.push(self.deep_view().own());
        let ghost part = settlement_part(self.cluster@, txns);
        let mut i: usize = 0;
        while i < self.overlaps.len()
            invariant
                i <= self.overlaps.len(),
                txns == self.deep_view().overlaps.push(self.deep_view().own()),
                part == settlement_part(self.cluster@, txns),
                requests.deep_view() == gather(i as int, part),
            decreases self.overlaps.len() - i,
        {
            Self::ask_for_settlement(&self.cluster, &self.overlaps[i], &mut requests);
            assert(part(i as int) == settlement(
                self.cluster@,
                self.overlaps[i as int].deep_view(),
            ));
            i = i + 1;
        }
        Self::ask_for_settlement(&self.cluster, &own, &mut requests);
        assert(part(i as int) == settlement(self.cluster@, own.deep_view()));
        requests
    }
}

/// Add the transactions that rows tell of to others. With an error, some of them may be added.
fn note_overlaps(
    overlaps: &mut Vec<Txn>,
    rows: &Vec<(String, i64, i16, Option<String>)>,
) -> (error: Option<Error>)
    ensures
        match txns_of_rows(rows.deep_view()) {
            Ok(txns) => error is None && final(overlaps).deep_view() == old(overlaps).deep_view()
                + txns,
            Err(fault) => error.deep_view() == Some(fault),
        },
{
    let mut i: usize = 0;
    assert(rows.deep_view().take(0) =~= Seq::empty());
    assert(overlaps.deep_view() =~= old(overlaps).deep_view() + txns_of_rows(
        rows.deep_view().take(0),
    )->Ok_0);
    while i < rows.len()
        invariant
            i <= rows.len(),
            txns_of_rows(rows.deep_view().take(i as int)) matches Ok(txns) && overlaps.deep_view()
                == old(overlaps).deep_view() + txns,
        decreases rows.len() - i,
    {
        let ghost before = rows.deep_view().take(i as int);
        let ghost after = rows.deep_view().take(i as int + 1);
        assert(after.drop_last() =~= before);
        assert(after.last() == rows[i as int].deep_view());
        match Txn::of_row(&rows[i]) {
            Ok(txn) => {
                add_item(overlaps, txn);
                assert(overlaps.deep_view() =~= old(overlaps).deep_view() + txns_of_rows(
                    after,
                )->Ok_0);
            },
            Err(error) => {
                proof {
                    error_of_a_row_stands(rows.deep_view(), i as int + 1);
                }
                return Some(error);
            },
        }
        i = i + 1;
    }
    assert(rows.deep_view().take(i as int) =~= rows.deep_view());
    None
}

/// The error of a row is the error of all rows that begin with it.
proof fn error_of_a_row_stands(rows: Seq<(Seq<char>, i64, i16, Option<Seq<char>>)>, n: int)
    requires
        0 <= n <= rows.len(),
        txns_of_rows(rows.take(n)) is Err,
    ensures
        txns_of_rows(rows) == txns_of_rows(rows.take(n)),
    decreases rows.len() - n,
{
    if n < rows.len() {
        assert(rows.take(n + 1).drop_last() =~= rows.take(n));
        error_of_a_row_stands(rows, n + 1);
    } else {
        assert(rows.take(n) =~= rows);
    }
}

/// What is asked for the end of a transaction leaves the transaction of the database as it is.
pub proof fn end_txn_stays_within(state: EndTxnView)
    ensures
        stays_within(EndTxn::asked(state)),
{
    match state.stage {
        EndStageView::Produce(_, inner) => produce_stays_within(inner),
        EndStageView::Settle => {
            let txns = state.overlaps.push(state.own());
            gathered_stays_within(txns.len() as int, settlement_part(state.cluster, txns));
        },
        _ => {},
    }
}

/// The partitions of a transaction are marked one after the other, each once, and the conclusion
/// comes after the last.
pub proof fn partitions_are_marked_in_order(state: EndTxnView, replies: Seq<ReplyView>)
    requires
        EndTxn::valid(state),
        EndTxn::turn(state, replies) is Next,
    ensures
        ({
            let next = EndTxn::turn(state, replies)->Next_0;
            &&& next.stage matches EndStageView::Mark(i) ==> if i == 0 {
                state.stage is Topitions
            } else {
                state.stage matches EndStageView::Overlap(j, _) && j == i - 1
            }
            &&& next.stage matches EndStageView::Settle ==> if next.topitions.len() == 0 {
                state.stage is Topitions
            } else {
                state.stage matches EndStageView::Overlap(j, _) && j == next.topitions.len() - 1
            }
            &&& next.stage matches EndStageView::Produce(i, inner) ==> (state.stage
                matches EndStageView::Mark(j) && i == j && inner == state.production(
                i as int,
                replies[0]->Batch_0,
            )) || (state.stage matches EndStageView::Produce(j, before) && i == j
                && ProduceInTx::turn(before, replies) == Turn::<ProduceInTxView, i64>::Next(inner))
        }),
{
}

/// With the outcomes of all that overlap decided, every one of these transactions and the own one
/// is brought to its outcome: what was noted of it goes, and its status becomes final.
pub proof fn decided_transactions_are_settled(state: EndTxnView, i: int)
    requires
        state.stage is Settle,
        all_prepared(state.overlaps),
        0 <= i <= state.overlaps.len(),
    ensures
        ({
            let txn = state.overlaps.push(state.own())[i];
            let asked = EndTxn::asked(state);
            &&& txn.status is PrepareCommit || txn.status is PrepareAbort
            &&& asked.contains(on_txn(Sql::TxnProduceOffsetDelete, state.cluster, txn))
            &&& asked.contains(on_txn(Sql::TxnTopitionDelete, state.cluster, txn))
            &&& asked.contains(on_txn(Sql::TxnOffsetCommitTpDelete, state.cluster, txn))
            &&& asked.contains(on_txn(Sql::TxnOffsetCommitDelete, state.cluster, txn))
            &&& asked.contains(
                status_update(
                    state.cluster,
                    txn,
                    if txn.status is PrepareCommit {
                        TxnState::Committed
                    } else {
                        TxnState::Aborted
                    },
                ),
            )
            &&& txn.status is PrepareCommit ==> asked.contains(
                on_txn(Sql::ConsumerOffsetInsertFromTxn, state.cluster, txn),
            )
        }),
{
    let txns = state.overlaps.push(state.own());
    let txn = txns[i];
    let part = settlement_part(state.cluster, txns);
    let settled = settlement(state.cluster, txn);
    let n = settled.len() as int;
    assert(txn.status.prepared());
    assert(part(i) == settled);
    assert forall|j: int| 0 <= j < n implies EndTxn::asked(state).contains(
        #[trigger] settled[j],
    ) by {
        gathered_is_in_a_part(txns.len() as int, part, settled[j]);
        assert(part(i).contains(settled[j]));
    }
    assert(settled[0] == on_txn(Sql::TxnProduceOffsetDelete, state.cluster, txn));
    assert(settled[1] == on_txn(Sql::TxnTopitionDelete, state.cluster, txn));
    assert(settled[n - 3] == on_txn(Sql::TxnOffsetCommitTpDelete, state.cluster, txn));
    assert(settled[n - 2] == on_txn(Sql::TxnOffsetCommitDelete, state.cluster, txn));
    assert(settled[n - 1] == status_update(state.cluster, txn, txn.status.outcome()));
    if txn.status is PrepareCommit {
        assert(settled[2] == on_txn(Sql::ConsumerOffsetInsertFromTxn, state.cluster, txn));
    }
}

/// The last that is brought to its outcome is the own transaction.
pub proof fn the_own_transaction_is_settled_last(state: EndTxnView)
    requires
        state.stage is Settle,
        all_prepared(state.overlaps),
    ensures
        EndTxn::asked(state).last() == status_update(
            state.cluster,
            state.own(),
            if state.committed {
                TxnState::Committed
            } else {
                TxnState::Aborted
            },
        ),
{
    let txns = state.overlaps.push(state.own());
    let part = settlement_part(state.cluster, txns);
    let settled = settlement(state.cluster, state.own());
    let asked = EndTxn::asked(state);
    assert(part(txns.len() - 1) == settled);
    assert(asked[asked.len() - 1] == settled[settled.len() - 1]);
}

/// Only offsets of committed transactions become those of their groups.
pub proof fn only_committed_offsets_are_kept(state: EndTxnView, txn: TxnView)
    requires
        state.stage is Settle,
        EndTxn::asked(state).contains(
            on_txn(Sql::ConsumerOffsetInsertFromTxn, state.cluster, txn),
        ),
    ensures
        all_prepared(state.overlaps),
        exists|i: int|
            0 <= i <= state.overlaps.len() && {
                let there = #[trigger] state.overlaps.push(state.own())[i];
                &&& there.status is PrepareCommit
                &&& there.name == txn.name
                &&& there.producer_id == txn.producer_id
                &&& there.producer_epoch == txn.producer_epoch
            },
{
    let request = on_txn(Sql::ConsumerOffsetInsertFromTxn, state.cluster, txn);
    let txns = state.overlaps.push(state.own());
    let part = settlement_part(state.cluster, txns);
    if !all_prepared(state.overlaps) {
        let asked = EndTxn::asked(state);
        let i = choose|i: int| 0 <= i < asked.len() && asked[i] == request;
        assert(asked[i] == status_update(state.cluster, state.own(), state.own().status));
    } else {
        gathered_is_in_a_part(txns.len() as int, part, request);
        let i = choose|i: int| 0 <= i < txns.len() && (#[trigger] part(i)).contains(request);
        let settled = settlement(state.cluster, txns[i]);
        let j = choose|j: int| 0 <= j < settled.len() && settled[j] == request;
        let there = txns[i];
        assert(there.status is PrepareCommit && j == 2);
        let kept = seq![
            text_value(state.cluster),
            text_value(there.name),
            int_value(there.producer_id as int),
            int_value(there.producer_epoch as int),
        ];
        let asked = seq![
            text_value(state.cluster),
            text_value(txn.name),
            int_value(txn.producer_id as int),
            int_value(txn.producer_epoch as int),
        ];
        assert(kept == asked);
        assert(kept[1] == asked[1] && kept[2] == asked[2] && kept[3] == asked[3]);
    }
}

/// With an outcome of one that overlaps open, the own outcome is noted as decided, and nothing else
/// is done.
pub proof fn an_undecided_transaction_is_only_prepared(state: EndTxnView, i: int)
    requires
        state.stage is Settle,
        0 <= i < state.overlaps.len(),
        !state.overlaps[i].status.prepared(),
    ensures
        EndTxn::asked(state) == seq![
            status_update(
                state.cluster,
                state.own(),
                if state.committed {
                    TxnState::PrepareCommit
                } else {
                    TxnState::PrepareAbort
                },
            ),
        ],
{
}

/// A transaction that wrote to no partition is brought to its outcome at once.
pub proof fn an_empty_transaction_ends(state: EndTxnView, settled: Seq<ReplyView>)
    requires
        EndTxn::valid(state),
        state.stage is Topitions,
    ensures
        completes::<EndTxn>(
            state,
            seq![seq![ReplyView::Topitions(seq![])], settled],
            ErrorCode::NoError,
        ),
        EndTxn::turn(state, seq![ReplyView::Topitions(seq![])]) matches Turn::Next(next)
            && EndTxn::asked(next) == settlement(state.cluster, state.own()),
{
    let script = seq![seq![ReplyView::Topitions(seq![])], settled];
    let next = (EndTxnView { topitions: seq![], ..state }).at_topition(0);
    assert(EndTxn::turn(state, script[0]) == Turn::<EndTxnView, ErrorCode>::Next(next));
    assert(completes::<EndTxn>(next, script.drop_first(), ErrorCode::NoError));
    let txns = next.overlaps.push(next.own());
    let part = settlement_part(next.cluster, txns);
    assert(gather(1, part) == gather(0, part) + part(0));
    assert(EndTxn::asked(next) =~= settlement(state.cluster, state.own()));
}

/// The marker that ends a transaction in each of its partitions says what the transaction ends
/// with: an aborted transaction gets abort markers and a committed one commit markers, as
/// transactional control batches of its own producer in its own epoch, outside of the sequence of
/// the producer.
pub proof fn a_marker_says_how_the_transaction_ends(
    state: EndTxnView,
    i: usize,
    request: RequestView,
)
    requires
        EndTxn::valid(state),
        state.stage == EndStageView::Mark(i),
    ensures
        EndTxn::asked(state).contains(request) <==> request == RequestView::EncodeMarker(
            Marker {
                committed: state.committed,
                control: true,
                transaction: true,
                producer_id: state.producer_id,
                producer_epoch: state.producer_epoch,
                base_sequence: (0 - 1) as i32,
            },
        ),
        EndTxn::asked(state).len() == 1,
{
    assert(EndTxn::asked(state)[0] == RequestView::EncodeMarker(state.marker()));
}

/// The partitions of a transaction are looked up for the transaction, its producer and its epoch.
/// The first of them is dealt with next, or the transaction is settled where there are none.
pub proof fn the_partitions_of_a_transaction_are_looked_up(
    state: EndTxnView,
    topitions: Seq<(Seq<char>, i32)>,
    rest: Seq<Exchange>,
    end: Result<ErrorCode, ErrorView>,
)
    requires
        state.stage is Topitions,
        talks::<EndTxn>(
            EndTxnView {
                topitions,
                stage: if topitions.len() > 0 {
                    EndStageView::Mark(0)
                } else {
                    EndStageView::Settle
                },
                ..state
            },
            rest,
            end,
        ),
    ensures
        talks::<EndTxn>(
            state,
            seq![
                (
                    seq![
                        queries(
                            Sql::TxnTopitionSelect,
                            seq![
                                ValueView::Text(state.cluster),
                                ValueView::Text(state.name),
                                ValueView::Int(state.producer_id),
                                ValueView::Int(state.producer_epoch as i64),
                            ],
                            Shape::Topitions,
                        ),
                    ],
                    seq![ReplyView::Topitions(topitions)],
                ),
            ] + rest,
            end,
        ),
{
    let next = EndTxnView {
        topitions,
        stage: if topitions.len() > 0 {
            EndStageView::Mark(0)
        } else {
            EndStageView::Settle
        },
        ..state
    };
    talk_goes_on::<EndTxn>(
        state,
        seq![
            queries(
                Sql::TxnTopitionSelect,
                seq![
                    ValueView::Text(state.cluster),
                    ValueView::Text(state.name),
                    ValueView::Int(state.producer_id),
                    ValueView::Int(state.producer_epoch as i64),
                ],
                Shape::Topitions,
            ),
        ],
        seq![ReplyView::Topitions(topitions)],
        next,
        rest,
        end,
    );
}

/// Whether a row tells of a transaction: its name, its producer and its epoch, and its status by
/// the name of it, or as begun where there is none.
pub open spec fn tells_of(
    row: (Seq<char>, i64, i16, Option<Seq<char>>),
    txn: TxnView,
) -> bool {
    &&& txn.name == row.0
    &&& txn.producer_id == row.1
    &&& txn.producer_epoch == row.2
    &&& match row.3 {
        None => txn.status == TxnState::Begin,
        Some(text) => text == match txn.status {
            TxnState::Begin => "BEGIN"@,
            TxnState::PrepareCommit => "PREPARE_COMMIT"@,
            TxnState::PrepareAbort => "PREPARE_ABORT"@,
            TxnState::Committed => "COMMITTED"@,
            TxnState::Aborted => "ABORTED"@,
        },
    }
}

/// Rows that tell of transactions are read as these, each in its place.
proof fn rows_are_read_in_order(
    rows: Seq<(Seq<char>, i64, i16, Option<Seq<char>>)>,
    found: Seq<TxnView>,
)
    requires
        rows.len() == found.len(),
        forall|j: int| 0 <= j < rows.len() ==> tells_of(#[trigger] rows[j], found[j]),
    ensures
        txns_of_rows(rows) == Ok::<_, ErrorView>(found),
    decreases rows.len(),
{
    if rows.len() > 0 {
        let n = rows.len() - 1;
        assert forall|j: int| 0 <= j < rows.drop_last().len() implies tells_of(
            #[trigger] rows.drop_last()[j],
            found.drop_last()[j],
        ) by {
            assert(tells_of(rows[j], found[j]));
        }
        rows_are_read_in_order(rows.drop_last(), found.drop_last());
        assert(tells_of(rows[n], found[n]));
        state_text_is_read_back(found[n].status);
        assert(txn_of_row(rows.last()) == Ok::<_, ErrorView>(found[n]));
        assert(found.drop_last().push(found[n]) =~= found);
    } else {
        assert(found =~= Seq::empty());
    }
}

/// The first row whose status names no state fails the rows, with the text of the status.
proof fn a_row_without_a_state_fails(
    rows: Seq<(Seq<char>, i64, i16, Option<Seq<char>>)>,
    found: Seq<TxnView>,
    text: Seq<char>,
)
    requires
        found.len() < rows.len(),
        forall|j: int| 0 <= j < found.len() ==> tells_of(#[trigger] rows[j], found[j]),
        rows[found.len() as int].3 == Some(text),
        state_of_text(text) is None,
    ensures
        txns_of_rows(rows) == Err::<Seq<TxnView>, _>(ErrorView::UnknownTxnState(text)),
{
    let n = found.len() as int;
    let before = rows.take(n);
    assert forall|j: int| 0 <= j < before.len() implies tells_of(
        #[trigger] before[j],
        found[j],
    ) by {
        assert(tells_of(rows[j], found[j]));
    }
    rows_are_read_in_order(before, found);
    assert(rows.take(n + 1).drop_last() =~= before);
    assert(rows.take(n + 1).last() == rows[n]);
    error_of_a_row_stands(rows, n + 1);
}

/// A partition of a transaction is marked, and what overlaps in it is found. The marker is encoded,
/// and added to that partition as a batch of the transaction. The offsets of the transaction in
/// that partition are looked up, and the transactions that overlap up to the last of these. They
/// join those that were found before, and the next partition is dealt with, or the transaction is
/// settled after the last.
pub proof fn a_partition_is_marked(
    state: EndTxnView,
    i: usize,
    header: BatchHeader,
    produced: Seq<Exchange>,
    offset: i64,
    start: i64,
    last: i64,
    rows: Seq<(Seq<char>, i64, i16, Option<Seq<char>>)>,
    found: Seq<TxnView>,
    rest: Seq<Exchange>,
    end: Result<ErrorCode, ErrorView>,
)
    requires
        EndTxn::valid(state),
        state.stage == EndStageView::Mark(i),
        talks::<ProduceInTx>(
            ProduceInTxView {
                cluster: state.cluster,
                transaction: Some(state.name),
                topition: TopitionView {
                    topic: state.topitions[i as int].0,
                    partition: state.topitions[i as int].1,
                },
                header,
                validates: state.validates,
                stores: state.stores,
                stage: ProduceStageView::Topition,
            },
            produced,
            Ok(offset),
        ),
        rows.len() == found.len(),
        forall|j: int| 0 <= j < rows.len() ==> tells_of(#[trigger] rows[j], found[j]),
        talks::<EndTxn>(
            EndTxnView {
                overlaps: state.overlaps + found,
                stage: if i + 1 < state.topitions.len() {
                    EndStageView::Mark((i + 1) as usize)
                } else {
                    EndStageView::Settle
                },
                ..state
            },
            rest,
            end,
        ),
    ensures
        talks::<EndTxn>(
            state,
            marking_talk(state, header) + (produced + (overlapping_talk(
                state,
                i as int,
                start,
                last,
                rows,
            ) + rest)),
            end,
        ),
{
    rows_are_read_in_order(rows, found);
    let next = EndTxnView {
        overlaps: state.overlaps + found,
        stage: if i + 1 < state.topitions.len() {
            EndStageView::Mark((i + 1) as usize)
        } else {
            EndStageView::Settle
        },
        ..state
    };
    let inner = ProduceInTxView {
        cluster: state.cluster,
        transaction: Some(state.name),
        topition: TopitionView {
            topic: state.topitions[i as int].0,
            partition: state.topitions[i as int].1,
        },
        header,
        validates: state.validates,
        stores: state.stores,
        stage: ProduceStageView::Topition,
    };
    let range = EndTxnView { stage: EndStageView::Range(i), ..state };
    let overlap = EndTxnView { stage: EndStageView::Overlap(i, last), ..state };
    let talk = overlapping_talk(state, i as int, start, last, rows);
    assert(EndTxn::asked(overlap)[0]->Query_0.params =~= talk[1].0[0]->Query_0.params);
    assert(EndTxn::asked(overlap) =~= talk[1].0);
    talk_goes_on::<EndTxn>(overlap, talk[1].0, talk[1].1, next, rest, end);
    let after = seq![(talk[1].0, talk[1].1)] + rest;
    assert(EndTxn::asked(range) == talk[0].0);
    talk_goes_on::<EndTxn>(range, talk[0].0, talk[0].1, overlap, after, end);
    assert(seq![(talk[0].0, talk[0].1)] + after =~= talk + rest);
    a_marker_is_added(state, i, inner, produced, Ok(offset), talk + rest, end);
    let added = EndTxnView { stage: EndStageView::Produce(i, inner), ..state };
    let mark = marking_talk(state, header);
    assert(EndTxn::asked(state) == mark[0].0);
    talk_goes_on::<EndTxn>(
        state,
        mark[0].0,
        mark[0].1,
        added,
        produced + (talk + rest),
        end,
    );
    assert(seq![(mark[0].0, mark[0].1)] =~= mark);
}

/// The talk about the marker of a partition.
pub open spec fn marking_talk(state: EndTxnView, header: BatchHeader) -> Seq<Exchange> {
    seq![
        (
            seq![
                RequestView::EncodeMarker(
                    Marker {
                        committed: state.committed,
                        control: true,
                        transaction: true,
                        producer_id: state.producer_id,
                        producer_epoch: state.producer_epoch,
                        base_sequence: (0 - 1) as i32,
                    },
                ),
            ],
            seq![ReplyView::Batch(header)],
        ),
    ]
}

/// The talk about what overlaps in a partition.
pub open spec fn overlapping_talk(
    state: EndTxnView,
    i: int,
    start: i64,
    last: i64,
    rows: Seq<(Seq<char>, i64, i16, Option<Seq<char>>)>,
) -> Seq<Exchange> {
    let place = seq![
        ValueView::Text(state.cluster),
        ValueView::Text(state.name),
        ValueView::Int(state.producer_id),
        ValueView::Int(state.producer_epoch as i64),
        ValueView::Text(state.topitions[i].0),
        ValueView::Int(state.topitions[i].1 as i64),
    ];
    seq![
        (
            seq![looks_up(Sql::TxnProduceOffsetSelectRange, place, Shape::Span)],
            seq![ReplyView::Span(Some((start, last)))],
        ),
        (
            seq![
                queries(
                    Sql::TxnProduceOffsetSelectOverlapping,
                    place.push(ValueView::Int(last)),
                    Shape::Txns,
                ),
            ],
            seq![ReplyView::Txns(rows)],
        ),
    ]
}

/// A marker is added as a batch is. Where it is added, the offsets of the transaction come next;
/// where it is not, the transaction does not end, with the same error.
pub proof fn a_marker_is_added(
    state: EndTxnView,
    i: usize,
    inner: ProduceInTxView,
    produced: Seq<Exchange>,
    found: Result<i64, ErrorView>,
    rest: Seq<Exchange>,
    end: Result<ErrorCode, ErrorView>,
)
    requires
        talks::<ProduceInTx>(inner, produced, found),
        match found {
            Ok(_) => talks::<EndTxn>(
                EndTxnView { stage: EndStageView::Range(i), ..state },
                rest,
                end,
            ),
            Err(error) => rest.len() == 0 && end == Err::<ErrorCode, ErrorView>(error),
        },
    ensures
        talks::<EndTxn>(
            EndTxnView { stage: EndStageView::Produce(i, inner), ..state },
            produced + rest,
            end,
        ),
    decreases produced.len(),
{
    let whole = produced + rest;
    assert(whole[0] == produced[0]);
    assert(whole.drop_first() =~= produced.drop_first() + rest);
    match ProduceInTx::turn(inner, produced[0].1) {
        Turn::Next(next) => a_marker_is_added(
            state,
            i,
            next,
            produced.drop_first(),
            found,
            rest,
            end,
        ),
        Turn::End(_) => {
            assert(whole.drop_first() =~= rest);
        },
    }
}

/// A transaction without offsets in one of its partitions does not end, and neither does one with
/// which a transaction overlaps whose status names no state.
pub proof fn a_transaction_does_not_end_without_its_offsets(
    state: EndTxnView,
    i: usize,
    start: i64,
    last: i64,
    rows: Seq<(Seq<char>, i64, i16, Option<Seq<char>>)>,
    found: Seq<TxnView>,
    text: Seq<char>,
)
    requires
        state.stage == EndStageView::Range(i),
        found.len() < rows.len(),
        forall|j: int| 0 <= j < found.len() ==> tells_of(#[trigger] rows[j], found[j]),
        rows[found.len() as int].3 == Some(text),
        text != "BEGIN"@ && text != "PREPARE_COMMIT"@ && text != "PREPARE_ABORT"@ && text
            != "COMMITTED"@ && text != "ABORTED"@,
    ensures
        talks::<EndTxn>(
            state,
            seq![
                (
                    overlapping_talk(state, i as int, start, last, rows)[0].0,
                    seq![ReplyView::Span(None)],
                ),
            ],
            Err(ErrorView::Message("No rows returned"@)),
        ),
        talks::<EndTxn>(
            state,
            overlapping_talk(state, i as int, start, last, rows),
            Err(ErrorView::UnknownTxnState(text)),
        ),
{
    a_row_without_a_state_fails(rows, found, text);
    let talk = overlapping_talk(state, i as int, start, last, rows);
    let none: Result<ErrorCode, ErrorView> = Err(ErrorView::Message("No rows returned"@));
    let unknown: Result<ErrorCode, ErrorView> = Err(ErrorView::UnknownTxnState(text));
    let overlap = EndTxnView { stage: EndStageView::Overlap(i, last), ..state };
    talk_ends::<EndTxn>(state, talk[0].0, seq![ReplyView::Span(None)], none);
    assert(EndTxn::asked(overlap)[0]->Query_0.params =~= talk[1].0[0]->Query_0.params);
    assert(EndTxn::asked(overlap) =~= talk[1].0);
    talk_ends::<EndTxn>(overlap, talk[1].0, talk[1].1, unknown);
    talk_goes_on::<EndTxn>(
        state,
        talk[0].0,
        talk[0].1,
        overlap,
        seq![(talk[1].0, talk[1].1)],
        unknown,
    );
    assert(seq![(talk[0].0, talk[0].1)] + seq![(talk[1].0, talk[1].1)] =~= talk);
}

/// What brings a transaction to its end: what was noted of its offsets and of its partitions goes;
/// where it is committed, its offsets become those of their groups, and then the note of them goes
/// in any case; and its status becomes final, committed or aborted.
pub open spec fn final_statements(
    cluster: Seq<char>,
    name: Seq<char>,
    producer_id: i64,
    producer_epoch: i16,
    committed: bool,
) -> Seq<RequestView> {
    let place = seq![
        ValueView::Text(cluster),
        ValueView::Text(name),
        ValueView::Int(producer_id),
        ValueView::Int(producer_epoch as i64),
    ];
    seq![executes(Sql::TxnProduceOffsetDelete, place), executes(Sql::TxnTopitionDelete, place)]
        + (if committed {
        seq![executes(Sql::ConsumerOffsetInsertFromTxn, place)]
    } else {
        seq![]
    }) + seq![
        executes(Sql::TxnOffsetCommitTpDelete, place),
        executes(Sql::TxnOffsetCommitDelete, place),
        executes(
            Sql::TxnStatusUpdate,
            seq![
                ValueView::Text(
                    if committed {
                        "COMMITTED"@
                    } else {
                        "ABORTED"@
                    },
                ),
                ValueView::Text(cluster),
                ValueView::Text(name),
                ValueView::Int(producer_id),
                ValueView::Int(producer_epoch as i64),
            ],
        ),
    ]
}

/// A transaction is settled together with those that overlap once all of them are decided: each of
/// them is brought to the end that it is prepared for, in the order in which they were found, and
/// the transaction itself is brought to its own end last. While one of them is not decided, the
/// transaction is only noted as prepared for its end, and nothing else is done.
pub proof fn a_transaction_is_settled_with_what_overlaps(
    state: EndTxnView,
    replies: Seq<ReplyView>,
)
    requires
        state.stage is Settle,
        all_affected(replies, EndTxn::asked(state).len()),
    ensures
        ({
            let decided = forall|j: int|
                0 <= j < state.overlaps.len() ==> (#[trigger] state.overlaps[j]).status
                    == TxnState::PrepareCommit || state.overlaps[j].status
                    == TxnState::PrepareAbort;
            let asked = if decided {
                Seq::new(
                    state.overlaps.len(),
                    |j: int|
                        final_statements(
                            state.cluster,
                            state.overlaps[j].name,
                            state.overlaps[j].producer_id,
                            state.overlaps[j].producer_epoch,
                            state.overlaps[j].status == TxnState::PrepareCommit,
                        ),
                ).flatten() + final_statements(
                    state.cluster,
                    state.name,
                    state.producer_id,
                    state.producer_epoch,
                    state.committed,
                )
            } else {
                seq![
                    executes(
                        Sql::TxnStatusUpdate,
                        seq![
                            ValueView::Text(
                                if state.committed {
                                    "PREPARE_COMMIT"@
                                } else {
                                    "PREPARE_ABORT"@
                                },
                            ),
                            ValueView::Text(state.cluster),
                            ValueView::Text(state.name),
                            ValueView::Int(state.producer_id),
                            ValueView::Int(state.producer_epoch as i64),
                        ],
                    ),
                ]
            };
            talks::<EndTxn>(state, seq![(asked, replies)], Ok(ErrorCode::NoError))
        }),
{
    let decided = forall|j: int|
        0 <= j < state.overlaps.len() ==> (#[trigger] state.overlaps[j]).status
            == TxnState::PrepareCommit || state.overlaps[j].status == TxnState::PrepareAbort;
    let asked = EndTxn::asked(state);
    if decided {
        let txns = state.overlaps.push(state.own());
        let part = settlement_part(state.cluster, txns);
        let one = |j: int|
            final_statements(
                state.cluster,
                state.overlaps[j].name,
                state.overlaps[j].producer_id,
                state.overlaps[j].producer_epoch,
                state.overlaps[j].status == TxnState::PrepareCommit,
            );
        let own = final_statements(
            state.cluster,
            state.name,
            state.producer_id,
            state.producer_epoch,
            state.committed,
        );
        let n = state.overlaps.len();
        assert(all_prepared(state.overlaps));
        assert forall|j: int| 0 <= j < n implies #[trigger] part(j) == one(j) by {
            a_settlement_ends_a_transaction(state.cluster, state.overlaps[j]);
        }
        a_settlement_ends_a_transaction(state.cluster, state.own());
        assert(part(n as int) =~= own);
        parts_stand_in_order(n as int, part);
        assert(Seq::new(n, part) =~= Seq::new(n, one));
        assert(asked =~= gather(n as int, part) + part(n as int));
        assert(asked =~= Seq::new(n, one).flatten() + own);
        assert forall|j: int| 0 <= j < Seq::new(n, one).len() implies all_execute(
            #[trigger] Seq::new(n, one)[j],
        ) by {
            assert(Seq::new(n, one)[j] == one(j));
        }
        flattened_execute(Seq::new(n, one));
        let whole = Seq::new(n, one).flatten();
        assert forall|k: int| 0 <= k < (whole + own).len() implies (#[trigger] (whole + own)[k])
            is Execute by {
            if k < whole.len() {
                assert(whole[k] is Execute);
            } else {
                assert(own[k - whole.len()] is Execute);
            }
        }
        affected_fits(whole + own, replies);
        talk_ends::<EndTxn>(state, whole + own, replies, Ok(ErrorCode::NoError));
    } else {
        assert(!all_prepared(state.overlaps)) by {
            let j = choose|j: int|
                0 <= j < state.overlaps.len() && !((#[trigger] state.overlaps[j]).status
                    == TxnState::PrepareCommit || state.overlaps[j].status
                    == TxnState::PrepareAbort);
            assert(!state.overlaps[j].status.prepared());
        }
        let noted = seq![
            executes(
                Sql::TxnStatusUpdate,
                seq![
                    ValueView::Text(
                        if state.committed {
                            "PREPARE_COMMIT"@
                        } else {
                            "PREPARE_ABORT"@
                        },
                    ),
                    ValueView::Text(state.cluster),
                    ValueView::Text(state.name),
                    ValueView::Int(state.producer_id),
                    ValueView::Int(state.producer_epoch as i64),
                ],
            ),
        ];
        assert(asked[0]->Execute_0.params =~= noted[0]->Execute_0.params);
        assert(asked =~= noted);
        talk_ends::<EndTxn>(state, noted, replies, Ok(ErrorCode::NoError));
    }
}

/// The settlement of a decided transaction brings it to its end.
proof fn a_settlement_ends_a_transaction(cluster: Seq<char>, txn: TxnView)
    requires
        txn.status == TxnState::PrepareCommit || txn.status == TxnState::PrepareAbort,
    ensures
        settlement(cluster, txn) == final_statements(
            cluster,
            txn.name,
            txn.producer_id,
            txn.producer_epoch,
            txn.status == TxnState::PrepareCommit,
        ),
        all_execute(settlement(cluster, txn)),
{
    let made = settlement(cluster, txn);
    let wanted = final_statements(
        cluster,
        txn.name,
        txn.producer_id,
        txn.producer_epoch,
        txn.status == TxnState::PrepareCommit,
    );
    assert(made.last()->Execute_0.params =~= wanted.last()->Execute_0.params);
    assert(made =~= wanted);
}

} // verus!
