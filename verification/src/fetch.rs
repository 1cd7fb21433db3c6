//! Records are read back.

use vstd::prelude::*;

use crate::batch::{
    FetchedBatch, FetchedBatchView, InflatedBatchView, RecordHeader, RecordHeaderView,
};
use crate::clock::Civil;
use crate::engine::Mysql;
use crate::error::ErrorView;
use crate::operation::{a_run_goes_on, completes, run, Operation, Progress, Turn};
use crate::produce::{
    header_insert, record_insert, recordable, stamp, unstored, unstored_is_the_first, ProduceInTx,
    ProduceInTxView, ProduceStageView,
};
use crate::request::{
    ask, fits, headers, no_requests, only, records, Reply, ReplyView, Request, RequestView, Shape,
};
use crate::script::{made_of, no_items};
use crate::sequence::{
    a_sequence_has_the_results_of_its_operations, for_each, in_sequence, joined, InSequence,
    InSequenceView,
};
use crate::sql::Sql;
use crate::talk::{
    a_connection_is_taken_first, a_sequence_talks_in_order, on_a_connection, queries, talk_ends,
    talk_goes_on, talks, Exchange,
};
use crate::transaction::{Connected, ConnectedView};
use crate::value::{
    copy_opt_bytes, int32, int64, int_value, opt_bytes_value, statement, statement4, text,
    text_value, ValueView,
};
use crate::wire::{IsolationLevel, Topition, TopitionView};

verus! {

/// A record that is read back, with its headers.
#[derive(Debug)]
pub struct FetchRecord {
    pub cluster: String,
    pub topition: Topition,
    pub batch: FetchedBatch,
    /// Whether the headers were read.
    pub complete: bool,
}

/// What [`FetchRecord`] stands for.
pub struct FetchRecordView {
    pub cluster: Seq<char>,
    pub topition: TopitionView,
    pub batch: FetchedBatchView,
    pub complete: bool,
}

impl DeepView for FetchRecord {
    type V = FetchRecordView;

    open spec fn deep_view(&self) -> FetchRecordView {
        FetchRecordView {
            cluster: self.cluster@,
            topition: self.topition.deep_view(),
            batch: self.batch.deep_view(),
            complete: self.complete,
        }
    }
}

/// A header that a row tells of.
pub open spec fn header_of_row() -> spec_fn(
    (Option<Seq<u8>>, Option<Seq<u8>>),
) -> RecordHeaderView {
    |row: (Option<Seq<u8>>, Option<Seq<u8>>)| RecordHeaderView { key: row.0, value: row.1 }
}

impl Operation for FetchRecord {
    type Output = FetchedBatch;

    open spec fn valid(state: FetchRecordView) -> bool {
        true
    }

    open spec fn asked(state: FetchRecordView) -> Seq<RequestView> {
        if state.complete {
            seq![RequestView::Assemble(state.batch)]
        } else {
            seq![
                RequestView::Query(
                    statement(
                        Sql::HeaderFetch,
                        seq![
                            text_value(state.cluster),
                            text_value(state.topition.topic),
                            int_value(state.topition.partition as int),
                            int_value(state.batch.base_offset as int),
                        ],
                    ),
                    Shape::Headers,
                ),
            ]
        }
    }

    open spec fn turn(state: FetchRecordView, replies: Seq<ReplyView>) -> Turn<
        FetchRecordView,
        FetchedBatchView,
    > {
        if state.complete {
            Turn::End(Ok(state.batch))
        } else {
            Turn::Next(
                FetchRecordView {
                    batch: FetchedBatchView {
                        headers: replies[0]->Headers_0.map_values(header_of_row()),
                        ..state.batch
                    },
                    complete: true,
                    ..state
                },
            )
        }
    }

    open spec fn in_range(state: FetchRecordView, replies: Seq<ReplyView>) -> bool {
        true
    }

    fn requests(&self) -> Vec<Request> {
        let mut requests = no_requests();
        if self.complete {
            ask(&mut requests, Request::Assemble(self.batch.copy()));
        } else {
            let made = statement4(
                Sql::HeaderFetch,
                text(&self.cluster),
                text(&self.topition.topic),
                int32(self.topition.partition),
                int64(self.batch.base_offset),
            );
            ask(&mut requests, Request::Query(made, Shape::Headers));
        }
        requests
    }

    fn is_in_range(&self, replies: &Vec<Reply>) -> bool {
        true
    }

    fn advance(self, replies: Vec<Reply>) -> Progress<FetchRecord, FetchedBatch> {
        let progress = if self.complete {
            Progress::End(Ok(self.batch))
        } else {
            assert(fits(Self::asked(self.deep_view())[0], replies.deep_view()[0]));
            let make = |row: &(Option<Vec<u8>>, Option<Vec<u8>>)| -> (header: RecordHeader)
                ensures
                    header.deep_view() == header_of_row()(row.deep_view()),
            {
                RecordHeader { key: copy_opt_bytes(&row.0), value: copy_opt_bytes(&row.1) }
            };
            let headers = made_of(&headers(only(replies)), make, Ghost(header_of_row()));
            let batch = FetchedBatch { headers, ..self.batch };
            Progress::Next(FetchRecord { batch, complete: true, ..self })
        };
        assert(progress.deep_view() == Self::turn(self.deep_view(), replies.deep_view()));
        progress
    }
}

/// The record that a row tells of, with a timestamp. Its headers are still to be read.
pub open spec fn record_at(
    cluster: Seq<char>,
    topition: TopitionView,
    row: (i64, i16, i64, i16, Civil, Option<Seq<u8>>, Option<Seq<u8>>),
    millis: i64,
) -> FetchRecordView {
    FetchRecordView {
        cluster,
        topition,
        batch: FetchedBatchView {
            base_offset: row.0,
            attributes: row.1,
            producer_id: row.2,
            producer_epoch: row.3,
            base_timestamp: millis,
            key: row.5,
            value: row.6,
            headers: seq![],
        },
        complete: false,
    }
}

/// The record that a row tells of, with the time in it as its timestamp.
pub open spec fn record_of_row(cluster: Seq<char>, topition: TopitionView) -> spec_fn(
    (i64, i16, i64, i16, Civil, Option<Seq<u8>>, Option<Seq<u8>>),
) -> FetchRecordView {
    |row: (i64, i16, i64, i16, Civil, Option<Seq<u8>>, Option<Seq<u8>>)|
        record_at(cluster, topition, row, row.4.since_epoch() as i64)
}

/// The record that a row tells of, with a timestamp. Its headers are still to be read.
pub fn fetch_record(
    cluster: &String,
    topition: &Topition,
    row: &(i64, i16, i64, i16, Civil, Option<Vec<u8>>, Option<Vec<u8>>),
    millis: i64,
) -> (operation: FetchRecord)
    ensures
        operation.deep_view() == record_at(
            cluster@,
            topition.deep_view(),
            row.deep_view(),
            millis,
        ),
{
    FetchRecord {
        cluster: cluster.clone(),
        topition: topition.copy(),
        batch: FetchedBatch {
            base_offset: row.0,
            attributes: row.1,
            producer_id: row.2,
            producer_epoch: row.3,
            base_timestamp: millis,
            key: copy_opt_bytes(&row.5),
            value: copy_opt_bytes(&row.6),
            headers: no_items(),
        },
        complete: false,
    }
}

/// Records that are read back.
#[derive(Debug)]
pub enum Fetch {
    /// The records of a partition are looked up, from an offset on.
    Rows(String, Topition, i64),
    /// Each is read with its headers.
    Each(InSequence<FetchRecord, FetchedBatch>),
}

/// What [`Fetch`] stands for.
pub enum FetchView {
    Rows(Seq<char>, TopitionView, i64),
    Each(InSequenceView<FetchRecordView, FetchedBatchView>),
}

impl DeepView for Fetch {
    type V = FetchView;

    open spec fn deep_view(&self) -> FetchView {
        match self {
            Fetch::Rows(a, b, c) => FetchView::Rows(a@, b.deep_view(), *c),
            Fetch::Each(a) => FetchView::Each(a.deep_view()),
        }
    }
}

impl Operation for Fetch {
    type Output = Vec<FetchedBatch>;

    open spec fn valid(state: FetchView) -> bool {
        true
    }

    open spec fn asked(state: FetchView) -> Seq<RequestView> {
        match state {
            FetchView::Rows(cluster, topition, offset) => seq![
                RequestView::Query(
                    statement(
                        Sql::RecordFetch,
                        seq![
                            text_value(cluster),
                            text_value(topition.topic),
                            int_value(topition.partition as int),
                            int_value(offset as int),
                        ],
                    ),
                    Shape::Records,
                ),
            ],
            FetchView::Each(inner) => InSequence::<FetchRecord, FetchedBatch>::asked(inner),
        }
    }

    open spec fn turn(state: FetchView, replies: Seq<ReplyView>) -> Turn<
        FetchView,
        Seq<FetchedBatchView>,
    > {
        match state {
            FetchView::Rows(cluster, topition, _) => Turn::Next(
                FetchView::Each(
                    in_sequence(
                        replies[0]->Records_0.map_values(record_of_row(cluster, topition)),
                    ),
                ),
            ),
            FetchView::Each(inner) => match InSequence::<FetchRecord, FetchedBatch>::turn(
                inner,
                replies,
            ) {
                Turn::Next(inner) => Turn::Next(FetchView::Each(inner)),
                Turn::End(end) => Turn::End(end),
            },
        }
    }

    open spec fn in_range(state: FetchView, replies: Seq<ReplyView>) -> bool {
        true
    }

    fn requests(&self) -> Vec<Request> {
        match self {
            Fetch::Rows(cluster, topition, offset) => {
                let made = statement4(
                    Sql::RecordFetch,
                    text(cluster),
                    text(&topition.topic),
                    int32(topition.partition),
                    int64(*offset),
                );
                let mut requests = no_requests();
                ask(&mut requests, Request::Query(made, Shape::Records));
                requests
            },
            Fetch::Each(inner) => inner.requests(),
        }
    }

    fn is_in_range(&self, replies: &Vec<Reply>) -> bool {
        true
    }

    fn advance(self, replies: Vec<Reply>) -> Progress<Fetch, Vec<FetchedBatch>> {
        let progress = match self {
            Fetch::Rows(cluster, topition, _) => {
                assert(fits(Self::asked(self.deep_view())[0], replies.deep_view()[0]));
                let rows = records(only(replies));
                let ghost made = record_of_row(cluster@, topition.deep_view());
                let make = |
                    row: &(i64, i16, i64, i16, Civil, Option<Vec<u8>>, Option<Vec<u8>>),
                | -> (operation: FetchRecord)
                    requires
                        row.4.valid(),
                    ensures
                        operation.deep_view() == made(row.deep_view()),
                {
                    fetch_record(&cluster, &topition, row, row.4.millis())
                };
                assert forall|i: int| 0 <= i < rows@.len() implies #[trigger]
                    rows@[i].4.valid() by {
                    assert(rows.deep_view()[i].4.valid());
                }
                Progress::Next(Fetch::Each(for_each(&rows, make, Ghost(made))))
            },
            Fetch::Each(inner) => match inner.advance(replies) {
                Progress::Next(inner) => Progress::Next(Fetch::Each(inner)),
                Progress::End(end) => Progress::End(end),
            },
        };
        assert(progress.deep_view() == Self::turn(self.deep_view(), replies.deep_view()));
        progress
    }
}

impl<P, S, H> Mysql<P, S, H> {
    /// Read the records of a partition back, from an offset on, each as a batch of its own. All are
    /// read, whatever the bounds on bytes and the isolation level are.
    pub fn fetch(
        &self,
        topition: &Topition,
        offset: i64,
        min_bytes: u32,
        max_bytes: u32,
        isolation: IsolationLevel,
    ) -> (operation: Connected<Fetch>)
        ensures
            operation.deep_view() == ConnectedView::Open(
                FetchView::Rows(self.cluster@, topition.deep_view(), offset),
            ),
            Connected::<Fetch>::valid(operation.deep_view()),
    {
        Connected::Open(Fetch::Rows(self.cluster.clone(), topition.copy(), offset))
    }
}

/// A record that was written is read back as a batch of its own: at its offset, with its timestamp,
/// and with the attributes and the producer of the batch that it was written with.
pub proof fn a_record_is_read_back(
    state: ProduceInTxView,
    topition_id: i32,
    high: i64,
    batch: InflatedBatchView,
    times: Seq<Civil>,
    k: int,
)
    requires
        ProduceInTx::valid(state),
        state.stage == ProduceStageView::Write(topition_id, high, batch, times),
        0 <= k < unstored(high, batch, 0),
    ensures
        ({
            let record = batch.records[k];
            let row = (
                (high + k) as i64,
                batch.attributes,
                batch.producer_id,
                batch.producer_epoch,
                times[k],
                record.key,
                record.value,
            );
            &&& record_insert(topition_id, high, batch, times, k) == RequestView::Execute(
                statement(
                    Sql::RecordInsert,
                    seq![
                        int_value(topition_id as int),
                        int_value(row.0 as int),
                        int_value(row.1 as int),
                        int_value(row.2 as int),
                        int_value(row.3 as int),
                        ValueView::Time(row.4),
                        opt_bytes_value(row.5),
                        opt_bytes_value(row.6),
                    ],
                ),
            )
            &&& record_of_row(state.cluster, state.topition)(row).batch == (FetchedBatchView {
                base_offset: (high + k) as i64,
                attributes: batch.attributes,
                producer_id: batch.producer_id,
                producer_epoch: batch.producer_epoch,
                base_timestamp: stamp(batch, k) as i64,
                key: record.key,
                value: record.value,
                headers: seq![],
            })
        }),
{
    unstored_is_the_first(high, batch, 0);
    assert(recordable(high, batch, k));
    assert(times[k].lies_at(stamp(batch, k)));
}

/// The headers of a record that were written are read back, in their order.
pub proof fn headers_are_read_back(
    fetched: FetchRecordView,
    headers: Seq<RecordHeaderView>,
    rows: Seq<(Option<Seq<u8>>, Option<Seq<u8>>)>,
    topition_id: i32,
    offset: int,
)
    requires
        !fetched.complete,
        rows.len() == headers.len(),
        forall|j: int|
            0 <= j < rows.len() ==> header_insert(topition_id, offset, #[trigger] headers[j])
                == RequestView::Execute(
                statement(
                    Sql::HeaderInsert,
                    seq![
                        int_value(topition_id as int),
                        int_value(offset),
                        opt_bytes_value(rows[j].0),
                        opt_bytes_value(rows[j].1),
                    ],
                ),
            ),
    ensures
        completes::<FetchRecord>(
            fetched,
            seq![seq![ReplyView::Headers(rows)], seq![ReplyView::Done]],
            FetchedBatchView { headers, ..fetched.batch },
        ),
{
    let script = seq![seq![ReplyView::Headers(rows)], seq![ReplyView::Done]];
    let read = rows.map_values(header_of_row());
    assert forall|j: int| 0 <= j < rows.len() implies read[j] == headers[j] by {
        let written = seq![
            int_value(topition_id as int),
            int_value(offset),
            opt_bytes_value(headers[j].key),
            opt_bytes_value(headers[j].value),
        ];
        let stored = seq![
            int_value(topition_id as int),
            int_value(offset),
            opt_bytes_value(rows[j].0),
            opt_bytes_value(rows[j].1),
        ];
        assert(header_insert(topition_id, offset, headers[j]) == RequestView::Execute(
            statement(Sql::HeaderInsert, written),
        ));
        assert(written == stored);
        assert(written[2] == stored[2] && written[3] == stored[3]);
    }
    assert(read =~= headers);
    let next = FetchRecordView {
        batch: FetchedBatchView { headers, ..fetched.batch },
        complete: true,
        ..fetched
    };
    assert(FetchRecord::turn(fetched, script[0]) == Turn::<FetchRecordView, FetchedBatchView>::Next(
        next,
    ));
    assert(completes::<FetchRecord>(next, script.drop_first(), next.batch));
}

/// The row of a record that was written, the `k`th of a batch.
pub open spec fn written_row(
    high: i64,
    batch: InflatedBatchView,
    times: Seq<Civil>,
    k: int,
) -> (i64, i16, i64, i16, Civil, Option<Seq<u8>>, Option<Seq<u8>>) {
    (
        (high + k) as i64,
        batch.attributes,
        batch.producer_id,
        batch.producer_epoch,
        times[k],
        batch.records[k].key,
        batch.records[k].value,
    )
}

/// The rows of the headers that were written with a record.
pub open spec fn written_headers(headers: Seq<RecordHeaderView>) -> Seq<
    (Option<Seq<u8>>, Option<Seq<u8>>),
> {
    Seq::new(headers.len(), |j: int| (headers[j].key, headers[j].value))
}

/// The batch that a record of a batch is read back as.
pub open spec fn read_batch(high: i64, batch: InflatedBatchView, k: int) -> FetchedBatchView {
    FetchedBatchView {
        base_offset: (high + k) as i64,
        attributes: batch.attributes,
        producer_id: batch.producer_id,
        producer_epoch: batch.producer_epoch,
        base_timestamp: stamp(batch, k) as i64,
        key: batch.records[k].key,
        value: batch.records[k].value,
        headers: batch.records[k].headers,
    }
}

/// The replies with which the headers of the records of a batch are read back.
pub open spec fn header_scripts(batch: InflatedBatchView, n: nat) -> Seq<Seq<Seq<ReplyView>>> {
    Seq::new(
        n,
        |k: int|
            seq![
                seq![ReplyView::Headers(written_headers(batch.records[k].headers))],
                seq![ReplyView::Done],
            ],
    )
}

/// The records are read as their sequence is.
proof fn fetch_runs_its_records(
    inner: InSequenceView<FetchRecordView, FetchedBatchView>,
    script: Seq<Seq<ReplyView>>,
)
    ensures
        run::<Fetch>(FetchView::Each(inner), script) == match run::<
            InSequence<FetchRecord, FetchedBatch>,
        >(inner, script) {
            Turn::Next(inner) => Turn::Next(FetchView::Each(inner)),
            Turn::End(end) => Turn::End(end),
        },
    decreases script.len(),
{
    if script.len() > 0 {
        match InSequence::<FetchRecord, FetchedBatch>::turn(inner, script[0]) {
            Turn::Next(next) => fetch_runs_its_records(next, script.drop_first()),
            _ => {},
        }
    }
}

/// The records of a batch that was written are read back, all of them and in their order: each with
/// its offset, its timestamp, its key, its value and its headers.
pub proof fn a_batch_is_read_back(
    state: ProduceInTxView,
    topition_id: i32,
    high: i64,
    batch: InflatedBatchView,
    times: Seq<Civil>,
    offset: i64,
)
    requires
        ProduceInTx::valid(state),
        state.stage == ProduceStageView::Write(topition_id, high, batch, times),
    ensures
        run::<Fetch>(
            FetchView::Rows(state.cluster, state.topition, offset),
            seq![
                seq![
                    ReplyView::Records(
                        Seq::new(times.len(), |k: int| written_row(high, batch, times, k)),
                    ),
                ],
            ] + (joined(header_scripts(batch, times.len())) + seq![seq![]]),
        ) == Turn::<FetchView, Seq<FetchedBatchView>>::End(
            Ok(Seq::new(times.len(), |k: int| read_batch(high, batch, k))),
        ),
{
    unstored_is_the_first(high, batch, 0);
    let n = times.len();
    let rows = Seq::new(n, |k: int| written_row(high, batch, times, k));
    let scripts = header_scripts(batch, n);
    let values = Seq::new(n, |k: int| read_batch(high, batch, k));
    let rest = joined(scripts) + seq![seq![]];
    let lookups = rows.map_values(record_of_row(state.cluster, state.topition));
    let first = FetchView::Rows(state.cluster, state.topition, offset);
    a_run_goes_on::<Fetch>(first, seq![ReplyView::Records(rows)], rest);
    assert forall|k: int| 0 <= k < n implies completes::<FetchRecord>(
        #[trigger] lookups[k],
        scripts[k],
        values[k],
    ) by {
        a_record_is_read_back(state, topition_id, high, batch, times, k);
        let headers = batch.records[k].headers;
        let header_rows = written_headers(headers);
        assert forall|j: int| 0 <= j < header_rows.len() implies header_insert(
            topition_id,
            high + k,
            #[trigger] headers[j],
        ) == RequestView::Execute(
            statement(
                Sql::HeaderInsert,
                seq![
                    int_value(topition_id as int),
                    int_value(high + k),
                    opt_bytes_value(header_rows[j].0),
                    opt_bytes_value(header_rows[j].1),
                ],
            ),
        ) by {}
        headers_are_read_back(lookups[k], headers, header_rows, topition_id, high + k);
        assert(values[k] == (FetchedBatchView { headers, ..lookups[k].batch }));
    }
    a_sequence_has_the_results_of_its_operations::<FetchRecord>(
        lookups,
        Seq::empty(),
        scripts,
        values,
    );
    assert(Seq::<FetchedBatchView>::empty() + values =~= values);
    fetch_runs_its_records(in_sequence(lookups), rest);
}

/// A record is read with its headers, which are looked up by its offset in its partition, and is
/// assembled as a batch of its own, which is what the client gets.
pub proof fn a_record_is_read_with_its_headers(
    cluster: Seq<char>,
    topition: TopitionView,
    row: (i64, i16, i64, i16, Civil, Option<Seq<u8>>, Option<Seq<u8>>),
    headers: Seq<(Option<Seq<u8>>, Option<Seq<u8>>)>,
)
    ensures
        talks::<FetchRecord>(
            record_of_row(cluster, topition)(row),
            record_talk(cluster, topition, row, headers),
            Ok(whole_record(row, headers)),
        ),
        i64::MIN <= row.4.since_epoch() <= i64::MAX ==> whole_record(row, headers).base_timestamp
            == row.4.since_epoch(),
{
    let batch = whole_record(row, headers);
    let state = record_of_row(cluster, topition)(row);
    let next = FetchRecordView { batch, complete: true, ..state };
    let asked = seq![
        queries(
            Sql::HeaderFetch,
            seq![
                ValueView::Text(cluster),
                ValueView::Text(topition.topic),
                ValueView::Int(topition.partition as i64),
                ValueView::Int(row.0),
            ],
            Shape::Headers,
        ),
    ];
    let replies = seq![ReplyView::Headers(headers)];
    let assemble = seq![RequestView::Assemble(batch)];
    let done = seq![ReplyView::Done];
    assert(headers.map_values(header_of_row()) =~= batch.headers);
    talk_ends::<FetchRecord>(next, assemble, done, Ok(batch));
    talk_goes_on::<FetchRecord>(state, asked, replies, next, seq![(assemble, done)], Ok(batch));
    assert(seq![(asked, replies)] + seq![(assemble, done)] =~= seq![
        (asked, replies),
        (assemble, done),
    ]);
}

/// The batch that a row and the rows of its headers tell of.
pub open spec fn whole_record(
    row: (i64, i16, i64, i16, Civil, Option<Seq<u8>>, Option<Seq<u8>>),
    headers: Seq<(Option<Seq<u8>>, Option<Seq<u8>>)>,
) -> FetchedBatchView {
    FetchedBatchView {
        base_offset: row.0,
        attributes: row.1,
        producer_id: row.2,
        producer_epoch: row.3,
        base_timestamp: row.4.since_epoch() as i64,
        key: row.5,
        value: row.6,
        headers: Seq::new(
            headers.len(),
            |j: int| RecordHeaderView { key: headers[j].0, value: headers[j].1 },
        ),
    }
}

/// The talk about a record.
pub open spec fn record_talk(
    cluster: Seq<char>,
    topition: TopitionView,
    row: (i64, i16, i64, i16, Civil, Option<Seq<u8>>, Option<Seq<u8>>),
    headers: Seq<(Option<Seq<u8>>, Option<Seq<u8>>)>,
) -> Seq<Exchange> {
    seq![
        (
            seq![
                queries(
                    Sql::HeaderFetch,
                    seq![
                        ValueView::Text(cluster),
                        ValueView::Text(topition.topic),
                        ValueView::Int(topition.partition as i64),
                        ValueView::Int(row.0),
                    ],
                    Shape::Headers,
                ),
            ],
            seq![ReplyView::Headers(headers)],
        ),
        (seq![RequestView::Assemble(whole_record(row, headers))], seq![ReplyView::Done]),
    ]
}

/// The records of a partition are looked up from the offset that is asked for on. Each row is read
/// with its headers, one after the other and in the order of the rows, and all of them are what the
/// client gets.
pub proof fn the_records_of_a_partition_are_read(
    cluster: Seq<char>,
    topition: TopitionView,
    offset: i64,
    rows: Seq<(i64, i16, i64, i16, Civil, Option<Seq<u8>>, Option<Seq<u8>>)>,
    headers: Seq<Seq<(Option<Seq<u8>>, Option<Seq<u8>>)>>,
)
    requires
        rows.len() == headers.len(),
        forall|i: int| 0 <= i < rows.len() ==> (#[trigger] rows[i]).4.valid(),
    ensures
        talks::<Connected<Fetch>>(
            ConnectedView::Open(FetchView::Rows(cluster, topition, offset)),
            on_a_connection(
                seq![
                    (
                        seq![
                            queries(
                                Sql::RecordFetch,
                                seq![
                                    ValueView::Text(cluster),
                                    ValueView::Text(topition.topic),
                                    ValueView::Int(topition.partition as i64),
                                    ValueView::Int(offset),
                                ],
                                Shape::Records,
                            ),
                        ],
                        seq![ReplyView::Records(rows)],
                    ),
                ] + (Seq::new(
                    rows.len(),
                    |i: int| record_talk(cluster, topition, rows[i], headers[i]),
                ).flatten() + seq![(seq![], seq![])]),
            ),
            Ok(Seq::new(rows.len(), |i: int| whole_record(rows[i], headers[i]))),
        ),
{
    let state = FetchView::Rows(cluster, topition, offset);
    let asked = seq![
        queries(
            Sql::RecordFetch,
            seq![
                ValueView::Text(cluster),
                ValueView::Text(topition.topic),
                ValueView::Int(topition.partition as i64),
                ValueView::Int(offset),
            ],
            Shape::Records,
        ),
    ];
    let replies = seq![ReplyView::Records(rows)];
    let operations = rows.map_values(record_of_row(cluster, topition));
    let parts = Seq::new(
        rows.len(),
        |i: int| record_talk(cluster, topition, rows[i], headers[i]),
    );
    let values = Seq::new(rows.len(), |i: int| whole_record(rows[i], headers[i]));
    assert forall|i: int| 0 <= i < operations.len() implies talks::<FetchRecord>(
        #[trigger] operations[i],
        parts[i],
        Ok(values[i]),
    ) by {
        assert(rows[i].4.valid());
        a_record_is_read_with_its_headers(cluster, topition, rows[i], headers[i]);
    }
    a_sequence_talks_in_order::<FetchRecord>(operations, Seq::empty(), parts, values);
    assert(Seq::<FetchedBatchView>::empty() + values =~= values);
    let rest = parts.flatten() + seq![(seq![], seq![])];
    records_talk_as_a_sequence(in_sequence(operations), rest, Ok(values));
    talk_goes_on::<Fetch>(
        state,
        asked,
        replies,
        FetchView::Each(in_sequence(operations)),
        rest,
        Ok(values),
    );
    a_connection_is_taken_first::<Fetch>(state, seq![(asked, replies)] + rest, Ok(values));
}

/// Records talk as a sequence of them does.
proof fn records_talk_as_a_sequence(
    inner: InSequenceView<FetchRecordView, FetchedBatchView>,
    talk: Seq<Exchange>,
    end: Result<Seq<FetchedBatchView>, ErrorView>,
)
    requires
        talks::<InSequence<FetchRecord, FetchedBatch>>(inner, talk, end),
    ensures
        talks::<Fetch>(FetchView::Each(inner), talk, end),
    decreases talk.len(),
{
    match InSequence::<FetchRecord, FetchedBatch>::turn(inner, talk[0].1) {
        Turn::Next(next) => records_talk_as_a_sequence(next, talk.drop_first(), end),
        _ => {},
    }
}

} // verus!
