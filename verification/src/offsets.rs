//! Offsets of partitions, and of groups in partitions.

use vstd::prelude::*;

use crate::engine::Mysql;
use crate::error::{Error, ErrorCode, ErrorView};
use crate::offset_map::OffsetMap;
use crate::operation::{refused, Operation, Progress, Turn};
use crate::request::{
    ask, fits, no_requests, offset, offset_or_zero, offsets, only, or_zero, watermark, Reply,
    ReplyView, Request, RequestView, Shape,
};
use crate::script::made_of;
use crate::sequence::{for_each, in_sequence, InSequence, InSequenceView};
use crate::sql::Sql;
use crate::talk::{
    a_connection_is_taken_first, a_sequence_talks_in_order, executes, looks_up, on_a_connection,
    queries, talk_ends, talk_goes_on, talks, Exchange,
};
use crate::transaction::{Connected, ConnectedView};
use crate::value::{
    int32, int64, int_value, statement, statement2, statement3, statement4, statement5, text,
    text_value, ValueView,
};
use crate::wire::{
    IsolationLevel, ListOffset, ListOffsetResponse, Moment, OffsetCommitRequest, OffsetStage,
    Topition, TopitionView,
};

verus! {

/// The offsets that bound a partition, looked up.
#[derive(Debug)]
pub struct StageOffsets {
    pub cluster: String,
    pub topition: Topition,
}

/// What [`StageOffsets`] stands for.
pub struct StageOffsetsView {
    pub cluster: Seq<char>,
    pub topition: TopitionView,
}

impl DeepView for StageOffsets {
    type V = StageOffsetsView;

    open spec fn deep_view(&self) -> StageOffsetsView {
        StageOffsetsView {
            cluster: self.cluster@,
            topition: self.topition.deep_view(),
        }
    }
}

/// How far an offset is.
#[derive(Clone, Copy, Debug, PartialEq, Eq, Structural)]
pub enum ListStage {
    /// The watermarks of the partition are looked up.
    Watermark,
    /// The high watermark is known; the offset at a time is looked up.
    Timestamp(i64),
}

impl DeepView for ListStage {
    type V = ListStage;

    open spec fn deep_view(&self) -> ListStage {
        *self
    }
}

/// An offset of a partition, looked up.
#[derive(Debug)]
pub struct ListOne {
    pub cluster: String,
    pub topition: Topition,
    pub which: ListOffset,
    pub stage: ListStage,
}

/// What [`ListOne`] stands for.
pub struct ListOneView {
    pub cluster: Seq<char>,
    pub topition: TopitionView,
    pub which: ListOffset,
    pub stage: ListStage,
}

impl DeepView for ListOne {
    type V = ListOneView;

    open spec fn deep_view(&self) -> ListOneView {
        ListOneView {
            cluster: self.cluster@,
            topition: self.topition.deep_view(),
            which: self.which,
            stage: self.stage,
        }
    }
}

/// The offset of a group in a partition, noted.
#[derive(Debug)]
pub struct CommitOne {
    pub cluster: String,
    pub group: String,
    pub topition: Topition,
    pub offset: i64,
}

/// What [`CommitOne`] stands for.
pub struct CommitOneView {
    pub cluster: Seq<char>,
    pub group: Seq<char>,
    pub topition: TopitionView,
    pub offset: i64,
}

impl DeepView for CommitOne {
    type V = CommitOneView;

    open spec fn deep_view(&self) -> CommitOneView {
        CommitOneView {
            cluster: self.cluster@,
            group: self.group@,
            topition: self.topition.deep_view(),
            offset: self.offset,
        }
    }
}

/// The offset of a group in a partition, looked up.
#[derive(Debug)]
pub struct FetchOne {
    pub cluster: String,
    pub group: String,
    pub topition: Topition,
}

/// What [`FetchOne`] stands for.
pub struct FetchOneView {
    pub cluster: Seq<char>,
    pub group: Seq<char>,
    pub topition: TopitionView,
}

impl DeepView for FetchOne {
    type V = FetchOneView;

    open spec fn deep_view(&self) -> FetchOneView {
        FetchOneView {
            cluster: self.cluster@,
            group: self.group@,
            topition: self.topition.deep_view(),
        }
    }
}

/// All offsets of a group, looked up.
#[derive(Debug)]
pub struct CommittedOffsets {
    pub cluster: String,
    pub group: String,
}

/// What [`CommittedOffsets`] stands for.
pub struct CommittedOffsetsView {
    pub cluster: Seq<char>,
    pub group: Seq<char>,
}

impl DeepView for CommittedOffsets {
    type V = CommittedOffsetsView;

    open spec fn deep_view(&self) -> CommittedOffsetsView {
        CommittedOffsetsView {
            cluster: self.cluster@,
            group: self.group@,
        }
    }
}

/// The watermarks of a partition are looked up.
pub open spec fn watermark_select(cluster: Seq<char>, topition: TopitionView) -> RequestView {
    RequestView::First(
        statement(
            Sql::WatermarkSelect,
            seq![
                text_value(cluster),
                text_value(topition.topic),
                int_value(topition.partition as int),
            ],
        ),
        Shape::Watermark,
    )
}

/// Ask for the watermarks of a partition.
fn select_watermark(cluster: &String, topition: &Topition) -> (requests: Vec<Request>)
    ensures
        requests.deep_view() == seq![watermark_select(cluster@, topition.deep_view())],
{
    let mut requests = no_requests();
    let made = statement3(
        Sql::WatermarkSelect,
        text(cluster),
        text(&topition.topic),
        int32(topition.partition),
    );
    ask(&mut requests, Request::First(made, Shape::Watermark));
    requests
}

impl Operation for StageOffsets {
    type Output = OffsetStage;

    open spec fn valid(state: StageOffsetsView) -> bool {
        true
    }

    open spec fn asked(state: StageOffsetsView) -> Seq<RequestView> {
        seq![watermark_select(state.cluster, state.topition)]
    }

    open spec fn turn(state: StageOffsetsView, replies: Seq<ReplyView>) -> Turn<
        StageOffsetsView,
        OffsetStage,
    > {
        match replies[0]->Watermark_0 {
            Some((low, high)) => Turn::End(
                Ok(
                    OffsetStage {
                        last_stable: or_zero(high),
                        high_watermark: or_zero(high),
                        log_start: or_zero(low),
                    },
                ),
            ),
            None => refused(ErrorCode::UnknownTopicOrPartition),
        }
    }

    open spec fn in_range(state: StageOffsetsView, replies: Seq<ReplyView>) -> bool {
        true
    }

    fn requests(&self) -> Vec<Request> {
        select_watermark(&self.cluster, &self.topition)
    }

    fn is_in_range(&self, replies: &Vec<Reply>) -> bool {
        true
    }

    fn advance(self, replies: Vec<Reply>) -> Progress<StageOffsets, OffsetStage> {
        assert(fits(Self::asked(self.deep_view())[0], replies.deep_view()[0]));
        let progress = match watermark(only(replies)) {
            Some((low, high)) => Progress::End(
                Ok(
                    OffsetStage {
                        last_stable: offset_or_zero(high),
                        high_watermark: offset_or_zero(high),
                        log_start: offset_or_zero(low),
                    },
                ),
            ),
            None => Progress::End(Err(Error::Api(ErrorCode::UnknownTopicOrPartition))),
        };
        assert(progress.deep_view() == Self::turn(self.deep_view(), replies.deep_view()));
        progress
    }
}

/// The milliseconds of a time after the epoch, and zero for a time before it.
pub open spec fn millis_of(moment: Option<Moment>) -> i64 {
    match moment {
        Some(moment) => (moment.secs * 1000 + moment.nanos / 1_000_000) as i64,
        None => 0,
    }
}

/// The milliseconds of a time after the epoch, and zero for a time before it.
fn moment_millis(moment: Option<Moment>) -> (millis: i64)
    ensures
        millis == millis_of(moment),
{
    match moment {
        Some(moment) => #[verifier::truncate]
        ((moment.secs as u128 * 1000 + (moment.nanos / 1_000_000) as u128) as i64),
        None => 0,
    }
}

impl ListOneView {
    /// The time that is asked for.
    pub open spec fn millis(self) -> i64 {
        match self.which {
            ListOffset::Timestamp(moment) => millis_of(moment),
            _ => 0,
        }
    }

    /// The offset at a time is looked up.
    pub open spec fn timestamp_select(self) -> RequestView {
        RequestView::First(
            statement(
                Sql::RecordFetchByTimestamp,
                seq![
                    text_value(self.cluster),
                    text_value(self.topition.topic),
                    int_value(self.topition.partition as int),
                    int_value(self.millis() as int),
                ],
            ),
            Shape::Long,
        )
    }

    /// The partition has that offset.
    pub open spec fn found(self, offset: i64) -> Turn<
        ListOneView,
        (TopitionView, ListOffsetResponse),
    > {
        Turn::End(
            Ok(
                (
                    self.topition,
                    ListOffsetResponse {
                        error_code: ErrorCode::NoError,
                        timestamp: None,
                        offset: Some(offset),
                    },
                ),
            ),
        )
    }
}

impl Operation for ListOne {
    type Output = (Topition, ListOffsetResponse);

    open spec fn valid(state: ListOneView) -> bool {
        true
    }

    open spec fn asked(state: ListOneView) -> Seq<RequestView> {
        match state.stage {
            ListStage::Watermark => seq![watermark_select(state.cluster, state.topition)],
            ListStage::Timestamp(_) => seq![state.timestamp_select()],
        }
    }

    open spec fn turn(state: ListOneView, replies: Seq<ReplyView>) -> Turn<
        ListOneView,
        (TopitionView, ListOffsetResponse),
    > {
        match state.stage {
            ListStage::Watermark => match replies[0]->Watermark_0 {
                None => Turn::End(
                    Ok(
                        (
                            state.topition,
                            ListOffsetResponse {
                                error_code: ErrorCode::UnknownTopicOrPartition,
                                timestamp: None,
                                offset: None,
                            },
                        ),
                    ),
                ),
                Some((low, high)) => match state.which {
                    ListOffset::Earliest => state.found(or_zero(low)),
                    ListOffset::Latest => state.found(or_zero(high)),
                    ListOffset::Timestamp(_) => Turn::Next(
                        ListOneView { stage: ListStage::Timestamp(or_zero(high)), ..state },
                    ),
                },
            },
            ListStage::Timestamp(high) => match replies[0]->Long_0 {
                Some(offset) => state.found(offset),
                None => state.found(high),
            },
        }
    }

    open spec fn in_range(state: ListOneView, replies: Seq<ReplyView>) -> bool {
        true
    }

    fn requests(&self) -> Vec<Request> {
        let requests = match self.stage {
            ListStage::Watermark => select_watermark(&self.cluster, &self.topition),
            ListStage::Timestamp(_) => {
                let millis: i64 = match self.which {
                    ListOffset::Timestamp(moment) => moment_millis(moment),
                    _ => 0,
                };
                assert(millis == self.deep_view().millis());
                let made = statement4(
                    Sql::RecordFetchByTimestamp,
                    text(&self.cluster),
                    text(&self.topition.topic),
                    int32(self.topition.partition),
                    int64(millis),
                );
                let mut requests = no_requests();
                ask(&mut requests, Request::First(made, Shape::Long));
                requests
            },
        };
        assert(requests.deep_view() == Self::asked(self.deep_view()));
        requests
    }

    fn is_in_range(&self, replies: &Vec<Reply>) -> bool {
        true
    }

    fn advance(self, replies: Vec<Reply>) -> Progress<ListOne, (Topition, ListOffsetResponse)> {
        assert(fits(Self::asked(self.deep_view())[0], replies.deep_view()[0]));
        let progress = match self.stage {
            ListStage::Watermark => match watermark(only(replies)) {
                None => Progress::End(
                    Ok(
                        (
                            self.topition,
                            ListOffsetResponse {
                                error_code: ErrorCode::UnknownTopicOrPartition,
                                timestamp: None,
                                offset: None,
                            },
                        ),
                    ),
                ),
                Some((low, high)) => match self.which {
                    ListOffset::Earliest => listed_offset(self.topition, offset_or_zero(low)),
                    ListOffset::Latest => listed_offset(self.topition, offset_or_zero(high)),
                    ListOffset::Timestamp(_) => Progress::Next(
                        ListOne { stage: ListStage::Timestamp(offset_or_zero(high)), ..self },
                    ),
                },
            },
            ListStage::Timestamp(high) => match offset(only(replies)) {
                Some(found) => listed_offset(self.topition, found),
                None => listed_offset(self.topition, high),
            },
        };
        assert(progress.deep_view() == Self::turn(self.deep_view(), replies.deep_view()));
        progress
    }
}

/// A partition has an offset.
fn listed_offset(topition: Topition, found: i64) -> (progress: Progress<
    ListOne,
    (Topition, ListOffsetResponse),
>)
    ensures
        progress.deep_view() == Turn::<ListOneView, (TopitionView, ListOffsetResponse)>::End(
            Ok(
                (
                    topition.deep_view(),
                    ListOffsetResponse {
                        error_code: ErrorCode::NoError,
                        timestamp: None,
                        offset: Some(found),
                    },
                ),
            ),
        ),
{
    Progress::End(
        Ok(
            (
                topition,
                ListOffsetResponse {
                    error_code: ErrorCode::NoError,
                    timestamp: None,
                    offset: Some(found),
                },
            ),
        ),
    )
}

impl Operation for CommitOne {
    type Output = (Topition, ErrorCode);

    open spec fn valid(state: CommitOneView) -> bool {
        true
    }

    open spec fn asked(state: CommitOneView) -> Seq<RequestView> {
        seq![
            RequestView::Execute(
                statement(
                    Sql::ConsumerOffsetInsert,
                    seq![
                        text_value(state.cluster),
                        text_value(state.group),
                        text_value(state.topition.topic),
                        int_value(state.topition.partition as int),
                        int_value(state.offset as int),
                    ],
                ),
            ),
        ]
    }

    open spec fn turn(state: CommitOneView, replies: Seq<ReplyView>) -> Turn<
        CommitOneView,
        (TopitionView, ErrorCode),
    > {
        Turn::End(Ok((state.topition, ErrorCode::NoError)))
    }

    open spec fn in_range(state: CommitOneView, replies: Seq<ReplyView>) -> bool {
        true
    }

    fn requests(&self) -> Vec<Request> {
        let mut requests = no_requests();
        let made = statement5(
            Sql::ConsumerOffsetInsert,
            text(&self.cluster),
            text(&self.group),
            text(&self.topition.topic),
            int32(self.topition.partition),
            int64(self.offset),
        );
        ask(&mut requests, Request::Execute(made));
        requests
    }

    fn is_in_range(&self, replies: &Vec<Reply>) -> bool {
        true
    }

    fn advance(self, replies: Vec<Reply>) -> Progress<CommitOne, (Topition, ErrorCode)> {
        Progress::End(Ok((self.topition, ErrorCode::NoError)))
    }
}

impl Operation for FetchOne {
    type Output = (Topition, Option<i64>);

    open spec fn valid(state: FetchOneView) -> bool {
        true
    }

    open spec fn asked(state: FetchOneView) -> Seq<RequestView> {
        seq![
            RequestView::First(
                statement(
                    Sql::ConsumerOffsetSelect,
                    seq![
                        text_value(state.cluster),
                        text_value(state.group),
                        text_value(state.topition.topic),
                        int_value(state.topition.partition as int),
                    ],
                ),
                Shape::Long,
            ),
        ]
    }

    open spec fn turn(state: FetchOneView, replies: Seq<ReplyView>) -> Turn<
        FetchOneView,
        (TopitionView, Option<i64>),
    > {
        Turn::End(Ok((state.topition, replies[0]->Long_0)))
    }

    open spec fn in_range(state: FetchOneView, replies: Seq<ReplyView>) -> bool {
        true
    }

    fn requests(&self) -> Vec<Request> {
        let mut requests = no_requests();
        let made = statement4(
            Sql::ConsumerOffsetSelect,
            text(&self.cluster),
            text(&self.group),
            text(&self.topition.topic),
            int32(self.topition.partition),
        );
        ask(&mut requests, Request::First(made, Shape::Long));
        requests
    }

    fn is_in_range(&self, replies: &Vec<Reply>) -> bool {
        true
    }

    fn advance(self, replies: Vec<Reply>) -> Progress<FetchOne, (Topition, Option<i64>)> {
        assert(fits(Self::asked(self.deep_view())[0], replies.deep_view()[0]));
        let found = offset(only(replies));
        let progress = Progress::End(Ok((self.topition, found)));
        assert(progress.deep_view() == Self::turn(self.deep_view(), replies.deep_view()));
        progress
    }
}

/// The offsets that were found, by partition. Of several for one partition the last counts.
pub open spec fn collected(found: Seq<(TopitionView, Option<i64>)>) -> Map<TopitionView, i64>
    decreases found.len(),
{
    if found.len() == 0 {
        Map::empty()
    } else {
        match found.last().1 {
            Some(offset) => collected(found.drop_last()).insert(found.last().0, offset),
            None => collected(found.drop_last()),
        }
    }
}

/// The offsets that were found, by partition.
fn collect(found: &Vec<(Topition, Option<i64>)>) -> (map: OffsetMap)
    ensures
        map.deep_view() == collected(found.deep_view()),
{
    let mut map = OffsetMap::new();
    assert(found.deep_view().take(0) =~= Seq::empty());
    let mut i: usize = 0;
    while i < found.len()
        invariant
            i <= found.len(),
            map.deep_view() == collected(found.deep_view().take(i as int)),
        decreases found.len() - i,
    {
        let ghost next = found.deep_view().take(i as int + 1);
        assert(next.drop_last() =~= found.deep_view().take(i as int));
        assert(next.last() == found[i as int].deep_view());
        if let Some(offset) = found[i].1 {
            map = map.with(found[i].0.copy(), offset);
        }
        i = i + 1;
    }
    assert(found.deep_view().take(i as int) =~= found.deep_view());
    map
}

/// The offsets of a group in partitions, looked up.
#[derive(Debug)]
pub struct OffsetFetch {
    pub lookups: InSequence<FetchOne, (Topition, Option<i64>)>,
}

/// What [`OffsetFetch`] stands for.
pub struct OffsetFetchView {
    pub lookups: InSequenceView<FetchOneView, (TopitionView, Option<i64>)>,
}

impl DeepView for OffsetFetch {
    type V = OffsetFetchView;

    open spec fn deep_view(&self) -> OffsetFetchView {
        OffsetFetchView { lookups: self.lookups.deep_view() }
    }
}

impl Operation for OffsetFetch {
    type Output = OffsetMap;

    open spec fn valid(state: OffsetFetchView) -> bool {
        true
    }

    open spec fn asked(state: OffsetFetchView) -> Seq<RequestView> {
        InSequence::<FetchOne, (Topition, Option<i64>)>::asked(state.lookups)
    }

    open spec fn turn(state: OffsetFetchView, replies: Seq<ReplyView>) -> Turn<
        OffsetFetchView,
        Map<TopitionView, i64>,
    > {
        match InSequence::<FetchOne, (Topition, Option<i64>)>::turn(state.lookups, replies) {
            Turn::Next(lookups) => Turn::Next(OffsetFetchView { lookups }),
            Turn::End(Ok(found)) => Turn::End(Ok(collected(found))),
            Turn::End(Err(error)) => Turn::End(Err(error)),
        }
    }

    open spec fn in_range(state: OffsetFetchView, replies: Seq<ReplyView>) -> bool {
        true
    }

    fn requests(&self) -> Vec<Request> {
        self.lookups.requests()
    }

    fn is_in_range(&self, replies: &Vec<Reply>) -> bool {
        true
    }

    fn advance(self, replies: Vec<Reply>) -> Progress<OffsetFetch, OffsetMap> {
        let progress = match self.lookups.advance(replies) {
            Progress::Next(lookups) => Progress::Next(OffsetFetch { lookups }),
            Progress::End(Ok(found)) => Progress::End(Ok(collect(&found))),
            Progress::End(Err(error)) => Progress::End(Err(error)),
        };
        assert(progress.deep_view() == Self::turn(self.deep_view(), replies.deep_view()));
        progress
    }
}

/// An offset that a row tells of.
pub open spec fn offset_of_row() -> spec_fn((Seq<char>, i32, i64)) -> (TopitionView, Option<i64>) {
    |row: (Seq<char>, i32, i64)|
        (TopitionView { topic: row.0, partition: row.1 }, Some(row.2))
}

impl Operation for CommittedOffsets {
    type Output = OffsetMap;

    open spec fn valid(state: CommittedOffsetsView) -> bool {
        true
    }

    open spec fn asked(state: CommittedOffsetsView) -> Seq<RequestView> {
        seq![
            RequestView::Query(
                statement(
                    Sql::ConsumerOffsetSelectByGroup,
                    seq![text_value(state.cluster), text_value(state.group)],
                ),
                Shape::Offsets,
            ),
        ]
    }

    open spec fn turn(state: CommittedOffsetsView, replies: Seq<ReplyView>) -> Turn<
        CommittedOffsetsView,
        Map<TopitionView, i64>,
    > {
        Turn::End(Ok(collected(replies[0]->Offsets_0.map_values(offset_of_row()))))
    }

    open spec fn in_range(state: CommittedOffsetsView, replies: Seq<ReplyView>) -> bool {
        true
    }

    fn requests(&self) -> Vec<Request> {
        let mut requests = no_requests();
        let made = statement2(
            Sql::ConsumerOffsetSelectByGroup,
            text(&self.cluster),
            text(&self.group),
        );
        ask(&mut requests, Request::Query(made, Shape::Offsets));
        requests
    }

    fn is_in_range(&self, replies: &Vec<Reply>) -> bool {
        true
    }

    fn advance(self, replies: Vec<Reply>) -> Progress<CommittedOffsets, OffsetMap> {
        assert(fits(Self::asked(self.deep_view())[0], replies.deep_view()[0]));
        let make = |row: &(String, i32, i64)| -> (found: (Topition, Option<i64>))
            ensures
                found.deep_view() == offset_of_row()(row.deep_view()),
        {
            (Topition { topic: row.0.clone(), partition: row.1 }, Some(row.2))
        };
        let found = made_of(&offsets(only(replies)), make, Ghost(offset_of_row()));
        let progress = Progress::End(Ok(collect(&found)));
        assert(progress.deep_view() == Self::turn(self.deep_view(), replies.deep_view()));
        progress
    }
}

/// An offset of a partition, to be looked up.
pub open spec fn offset_listing(cluster: Seq<char>) -> spec_fn(
    (TopitionView, ListOffset),
) -> ListOneView {
    |item: (TopitionView, ListOffset)|
        ListOneView { cluster, topition: item.0, which: item.1, stage: ListStage::Watermark }
}

/// The offset of a group in a partition, to be noted.
pub open spec fn offset_commitment(cluster: Seq<char>, group: Seq<char>) -> spec_fn(
    (TopitionView, OffsetCommitRequest),
) -> CommitOneView {
    |item: (TopitionView, OffsetCommitRequest)|
        CommitOneView { cluster, group, topition: item.0, offset: item.1.offset }
}

/// The offset of a group in a partition, to be looked up.
pub open spec fn offset_lookup(cluster: Seq<char>, group: Seq<char>) -> spec_fn(
    TopitionView,
) -> FetchOneView {
    |topition: TopitionView| FetchOneView { cluster, group, topition }
}

impl<P, S, H> Mysql<P, S, H> {
    /// The offsets that bound a partition.
    pub fn offset_stage(&self, topition: &Topition) -> (operation: Connected<StageOffsets>)
        ensures
            operation.deep_view() == ConnectedView::Open(
                StageOffsetsView { cluster: self.cluster@, topition: topition.deep_view() },
            ),
            Connected::<StageOffsets>::valid(operation.deep_view()),
    {
        Connected::Open(StageOffsets { cluster: self.cluster.clone(), topition: topition.copy() })
    }

    /// Offsets of partitions, whatever the isolation level is.
    pub fn list_offsets(
        &self,
        isolation_level: IsolationLevel,
        offsets: &[(Topition, ListOffset)],
    ) -> (operation: Connected<InSequence<ListOne, (Topition, ListOffsetResponse)>>)
        ensures
            operation.deep_view() == ConnectedView::Open(
                in_sequence::<ListOneView, (TopitionView, ListOffsetResponse)>(
                    offsets.deep_view().map_values(offset_listing(self.cluster@)),
                ),
            ),
            Connected::<InSequence<ListOne, (Topition, ListOffsetResponse)>>::valid(
                operation.deep_view(),
            ),
    {
        let make = |item: &(Topition, ListOffset)| -> (operation: ListOne)
            ensures
                operation.deep_view() == offset_listing(self.cluster@)(item.deep_view()),
        {
            ListOne {
                cluster: self.cluster.clone(),
                topition: item.0.copy(),
                which: item.1,
                stage: ListStage::Watermark,
            }
        };
        Connected::Open(for_each(offsets, make, Ghost(offset_listing(self.cluster@))))
    }

    /// Note offsets of a group. They are kept, whatever the retention time is.
    pub fn offset_commit(
        &self,
        group_id: &str,
        retention_time_ms: Option<u64>,
        offsets: &[(Topition, OffsetCommitRequest)],
    ) -> (operation: Connected<InSequence<CommitOne, (Topition, ErrorCode)>>)
        ensures
            operation.deep_view() == ConnectedView::Open(
                in_sequence::<CommitOneView, (TopitionView, ErrorCode)>(
                    offsets.deep_view().map_values(offset_commitment(self.cluster@, group_id@)),
                ),
            ),
            Connected::<InSequence<CommitOne, (Topition, ErrorCode)>>::valid(
                operation.deep_view(),
            ),
    {
        let ghost made = offset_commitment(self.cluster@, group_id@);
        let make = |item: &(Topition, OffsetCommitRequest)| -> (operation: CommitOne)
            ensures
                operation.deep_view() == made(item.deep_view()),
        {
            CommitOne {
                cluster: self.cluster.clone(),
                group: group_id.to_owned(),
                topition: item.0.copy(),
                offset: item.1.offset,
            }
        };
        Connected::Open(for_each(offsets, make, Ghost(made)))
    }

    /// The offsets of a group in partitions, stable or not. Without a group there are none.
    pub fn offset_fetch(
        &self,
        group_id: Option<&str>,
        topics: &[Topition],
        require_stable: Option<bool>,
    ) -> (operation: Connected<OffsetFetch>)
        ensures
            operation.deep_view() == ConnectedView::Open(
                OffsetFetchView {
                    lookups: in_sequence(
                        match group_id {
                            Some(group_id) => topics.deep_view().map_values(
                                offset_lookup(self.cluster@, group_id@),
                            ),
                            None => Seq::empty(),
                        },
                    ),
                },
            ),
            Connected::<OffsetFetch>::valid(operation.deep_view()),
    {
        let lookups = match group_id {
            Some(group_id) => {
                let ghost made = offset_lookup(self.cluster@, group_id@);
                let make = |topition: &Topition| -> (operation: FetchOne)
                    ensures
                        operation.deep_view() == made(topition.deep_view()),
                {
                    FetchOne {
                        cluster: self.cluster.clone(),
                        group: group_id.to_owned(),
                        topition: topition.copy(),
                    }
                };
                for_each(topics, make, Ghost(made))
            },
            None => InSequence::new(),
        };
        Connected::Open(OffsetFetch { lookups })
    }

    /// All offsets of a group.
    pub fn committed_offset_topitions(&self, group_id: &str) -> (operation: Connected<
        CommittedOffsets,
    >)
        ensures
            operation.deep_view() == ConnectedView::Open(
                CommittedOffsetsView { cluster: self.cluster@, group: group_id@ },
            ),
            Connected::<CommittedOffsets>::valid(operation.deep_view()),
    {
        Connected::Open(
            CommittedOffsets { cluster: self.cluster.clone(), group: group_id.to_owned() },
        )
    }
}

/// An offset that a group commits in a partition is kept under what it is looked up by, and is what
/// the group is told.
pub proof fn a_committed_offset_is_fetched(committed: CommitOneView, fetched: FetchOneView)
    requires
        committed.cluster == fetched.cluster,
        committed.group == fetched.group,
        committed.topition == fetched.topition,
    ensures
        CommitOne::asked(committed)[0]->Execute_0.params == FetchOne::asked(
            fetched,
        )[0]->First_0.params.push(int_value(committed.offset as int)),
        FetchOne::turn(fetched, seq![ReplyView::Long(Some(committed.offset))]) == Turn::<
            FetchOneView,
            (TopitionView, Option<i64>),
        >::End(Ok((committed.topition, Some(committed.offset)))),
{
    assert(CommitOne::asked(committed)[0]->Execute_0.params =~= FetchOne::asked(
        fetched,
    )[0]->First_0.params.push(int_value(committed.offset as int)));
}

/// The earliest and the latest offset of a partition are the offsets that bound it.
pub proof fn listed_offsets_bound_the_partition(
    earliest: ListOneView,
    latest: ListOneView,
    stage: StageOffsetsView,
    low: Option<i64>,
    high: Option<i64>,
)
    requires
        earliest.stage is Watermark,
        earliest.which is Earliest,
        latest.stage is Watermark,
        latest.which is Latest,
    ensures
        ({
            let row = seq![ReplyView::Watermark(Some((low, high)))];
            StageOffsets::turn(stage, row) matches Turn::End(Ok(bounds)) && {
                &&& ListOne::turn(earliest, row) == earliest.found(bounds.log_start)
                &&& ListOne::turn(latest, row) == latest.found(bounds.high_watermark)
                &&& bounds.last_stable == bounds.high_watermark
            }
        }),
{
}

/// The offset at a time lies at the end of the partition where no record is as late.
pub proof fn an_offset_at_a_time_falls_back_to_the_latest(
    state: ListOneView,
    moment: Option<Moment>,
    low: Option<i64>,
    high: Option<i64>,
)
    requires
        state.stage is Watermark,
        state.which == ListOffset::Timestamp(moment),
    ensures
        ListOne::turn(state, seq![ReplyView::Watermark(Some((low, high)))]) matches Turn::Next(next)
            && ListOne::turn(next, seq![ReplyView::Long(None)]) == state.found(or_zero(high)),
{
}

/// Of several offsets that are found for a partition the last counts, and a partition without one
/// is not there.
pub proof fn the_last_offset_counts(
    found: Seq<(TopitionView, Option<i64>)>,
    topition: TopitionView,
    offset: Option<i64>,
)
    ensures
        ({
            let all = collected(found.push((topition, offset)));
            &&& offset matches Some(offset) ==> all == collected(found).insert(topition, offset)
            &&& offset is None ==> all == collected(found)
        }),
{
    assert(found.push((topition, offset)).drop_last() =~= found);
}

/// A time is asked for by the milliseconds that it lies after the epoch, as far as these are a
/// number that can be asked for, so that a later time never asks for earlier milliseconds. A time
/// before the epoch is asked for as the epoch.
pub proof fn a_time_is_asked_for_by_its_milliseconds(early: Moment, late: Moment)
    requires
        early.secs < late.secs || (early.secs == late.secs && early.nanos <= late.nanos),
        early.nanos < 1_000_000_000,
        late.secs * 1000 + late.nanos as int / 1_000_000 <= i64::MAX,
    ensures
        millis_of(Some(late)) == late.secs * 1000 + late.nanos as int / 1_000_000,
        millis_of(Some(early)) == early.secs * 1000 + early.nanos as int / 1_000_000,
        millis_of(Some(early)) <= millis_of(Some(late)),
        millis_of(None) == 0,
{
}

/// The offset that is listed of a partition. The watermarks of that partition are looked up; one
/// without any is answered as unknown, without an offset. The earliest offset is the low watermark,
/// the latest the high one, and zero where the partition has none. The offset at a time is looked
/// up in that partition by the milliseconds of the time, and is the latest where none is found.
pub proof fn an_offset_is_listed(
    cluster: Seq<char>,
    topition: TopitionView,
    which: ListOffset,
    row: Option<(Option<i64>, Option<i64>)>,
    at: Option<i64>,
)
    ensures
        ({
            let state = offset_listing(cluster)((topition, which));
            let watermarks = (
                seq![
                    looks_up(
                        Sql::WatermarkSelect,
                        seq![
                            ValueView::Text(cluster),
                            ValueView::Text(topition.topic),
                            ValueView::Int(topition.partition as i64),
                        ],
                        Shape::Watermark,
                    ),
                ],
                seq![ReplyView::Watermark(row)],
            );
            let told = |offset: i64|
                (
                    topition,
                    ListOffsetResponse {
                        error_code: ErrorCode::NoError,
                        timestamp: None,
                        offset: Some(offset),
                    },
                );
            match row {
                None => talks::<ListOne>(
                    state,
                    seq![watermarks],
                    Ok(
                        (
                            topition,
                            ListOffsetResponse {
                                error_code: ErrorCode::UnknownTopicOrPartition,
                                timestamp: None,
                                offset: None,
                            },
                        ),
                    ),
                ),
                Some((low, high)) => match which {
                    ListOffset::Earliest => talks::<ListOne>(
                        state,
                        seq![watermarks],
                        Ok(
                            told(
                                match low {
                                    Some(low) => low,
                                    None => 0,
                                },
                            ),
                        ),
                    ),
                    ListOffset::Latest => talks::<ListOne>(
                        state,
                        seq![watermarks],
                        Ok(
                            told(
                                match high {
                                    Some(high) => high,
                                    None => 0,
                                },
                            ),
                        ),
                    ),
                    ListOffset::Timestamp(moment) => talks::<ListOne>(
                        state,
                        seq![
                            watermarks,
                            (
                                seq![
                                    looks_up(
                                        Sql::RecordFetchByTimestamp,
                                        seq![
                                            ValueView::Text(cluster),
                                            ValueView::Text(topition.topic),
                                            ValueView::Int(topition.partition as i64),
                                            ValueView::Int(
                                                match moment {
                                                    Some(moment) => (moment.secs * 1000
                                                        + moment.nanos as int / 1_000_000) as i64,
                                                    None => 0,
                                                },
                                            ),
                                        ],
                                        Shape::Long,
                                    ),
                                ],
                                seq![ReplyView::Long(at)],
                            ),
                        ],
                        Ok(
                            told(
                                match (at, high) {
                                    (Some(at), _) => at,
                                    (None, Some(high)) => high,
                                    (None, None) => 0,
                                },
                            ),
                        ),
                    ),
                },
            }
        }),
{
    let state = offset_listing(cluster)((topition, which));
    let asked = seq![
        looks_up(
            Sql::WatermarkSelect,
            seq![
                ValueView::Text(cluster),
                ValueView::Text(topition.topic),
                ValueView::Int(topition.partition as i64),
            ],
            Shape::Watermark,
        ),
    ];
    let replies = seq![ReplyView::Watermark(row)];
    let told = |offset: i64|
        (
            topition,
            ListOffsetResponse {
                error_code: ErrorCode::NoError,
                timestamp: None,
                offset: Some(offset),
            },
        );
    match row {
        None => {
            talk_ends::<ListOne>(
                state,
                asked,
                replies,
                Ok(
                    (
                        topition,
                        ListOffsetResponse {
                            error_code: ErrorCode::UnknownTopicOrPartition,
                            timestamp: None,
                            offset: None,
                        },
                    ),
                ),
            );
        },
        Some((low, high)) => match which {
            ListOffset::Earliest => {
                talk_ends::<ListOne>(state, asked, replies, Ok(told(or_zero(low))));
            },
            ListOffset::Latest => {
                talk_ends::<ListOne>(state, asked, replies, Ok(told(or_zero(high))));
            },
            ListOffset::Timestamp(moment) => {
                let next = ListOneView { stage: ListStage::Timestamp(or_zero(high)), ..state };
                let end = Ok(
                    told(
                        match (at, high) {
                            (Some(at), _) => at,
                            (None, Some(high)) => high,
                            (None, None) => 0,
                        },
                    ),
                );
                let lookup = seq![
                    looks_up(
                        Sql::RecordFetchByTimestamp,
                        seq![
                            ValueView::Text(cluster),
                            ValueView::Text(topition.topic),
                            ValueView::Int(topition.partition as i64),
                            ValueView::Int(
                                match moment {
                                    Some(moment) => (moment.secs * 1000 + moment.nanos as int
                                        / 1_000_000) as i64,
                                    None => 0,
                                },
                            ),
                        ],
                        Shape::Long,
                    ),
                ];
                let found = seq![ReplyView::Long(at)];
                assert(ListOne::asked(next)[0]->First_0.params =~= lookup[0]->First_0.params);
                assert(ListOne::asked(next) =~= lookup);
                talk_ends::<ListOne>(next, lookup, found, end);
                talk_goes_on::<ListOne>(state, asked, replies, next, seq![(lookup, found)], end);
                assert(seq![(asked, replies)] + seq![(lookup, found)] =~= seq![
                    (asked, replies),
                    (lookup, found),
                ]);
            },
        },
    }
}

/// The offsets that bound a partition: its low and its high watermark, zero where it has none, and
/// all is stable up to the high one. A partition without watermarks is refused as unknown.
pub proof fn a_partition_is_bounded_by_its_watermarks(
    cluster: Seq<char>,
    topition: TopitionView,
    row: Option<(Option<i64>, Option<i64>)>,
)
    ensures
        talks::<Connected<StageOffsets>>(
            ConnectedView::Open(StageOffsetsView { cluster, topition }),
            on_a_connection(
                seq![
                    (
                        seq![
                            looks_up(
                                Sql::WatermarkSelect,
                                seq![
                                    ValueView::Text(cluster),
                                    ValueView::Text(topition.topic),
                                    ValueView::Int(topition.partition as i64),
                                ],
                                Shape::Watermark,
                            ),
                        ],
                        seq![ReplyView::Watermark(row)],
                    ),
                ],
            ),
            match row {
                None => Err(ErrorView::Api(ErrorCode::UnknownTopicOrPartition)),
                Some((low, high)) => Ok(
                    OffsetStage {
                        last_stable: match high {
                            Some(high) => high,
                            None => 0,
                        },
                        high_watermark: match high {
                            Some(high) => high,
                            None => 0,
                        },
                        log_start: match low {
                            Some(low) => low,
                            None => 0,
                        },
                    },
                ),
            },
        ),
{
    let state = StageOffsetsView { cluster, topition };
    let asked = seq![
        looks_up(
            Sql::WatermarkSelect,
            seq![
                ValueView::Text(cluster),
                ValueView::Text(topition.topic),
                ValueView::Int(topition.partition as i64),
            ],
            Shape::Watermark,
        ),
    ];
    let replies = seq![ReplyView::Watermark(row)];
    let end = match row {
        None => Err(ErrorView::Api(ErrorCode::UnknownTopicOrPartition)),
        Some((low, high)) => Ok(
            OffsetStage {
                last_stable: or_zero(high),
                high_watermark: or_zero(high),
                log_start: or_zero(low),
            },
        ),
    };
    talk_ends::<StageOffsets>(state, asked, replies, end);
    a_connection_is_taken_first::<StageOffsets>(state, seq![(asked, replies)], end);
}

/// The offset of a group in a partition is written under the group, the topic and the partition,
/// and looked up under the same. What is found is what the group is told; where nothing is found,
/// the partition is left out.
pub proof fn an_offset_of_a_group_is_kept_by_partition(
    cluster: Seq<char>,
    group: Seq<char>,
    topition: TopitionView,
    commit: OffsetCommitRequest,
    rows: u64,
    found: Option<i64>,
)
    ensures
        ({
            let place = seq![
                ValueView::Text(cluster),
                ValueView::Text(group),
                ValueView::Text(topition.topic),
                ValueView::Int(topition.partition as i64),
            ];
            &&& talks::<CommitOne>(
                offset_commitment(cluster, group)((topition, commit)),
                seq![
                    (
                        seq![
                            executes(
                                Sql::ConsumerOffsetInsert,
                                place.push(ValueView::Int(commit.offset)),
                            ),
                        ],
                        seq![ReplyView::Affected(rows)],
                    ),
                ],
                Ok((topition, ErrorCode::NoError)),
            )
            &&& talks::<FetchOne>(
                offset_lookup(cluster, group)(topition),
                seq![
                    (
                        seq![looks_up(Sql::ConsumerOffsetSelect, place, Shape::Long)],
                        seq![ReplyView::Long(found)],
                    ),
                ],
                Ok((topition, found)),
            )
        }),
{
    let place = seq![
        ValueView::Text(cluster),
        ValueView::Text(group),
        ValueView::Text(topition.topic),
        ValueView::Int(topition.partition as i64),
    ];
    let noted = seq![
        executes(Sql::ConsumerOffsetInsert, place.push(ValueView::Int(commit.offset))),
    ];
    let state = offset_commitment(cluster, group)((topition, commit));
    assert(CommitOne::asked(state)[0]->Execute_0.params =~= noted[0]->Execute_0.params);
    assert(CommitOne::asked(state) =~= noted);
    talk_ends::<CommitOne>(
        state,
        noted,
        seq![ReplyView::Affected(rows)],
        Ok((topition, ErrorCode::NoError)),
    );
    talk_ends::<FetchOne>(
        offset_lookup(cluster, group)(topition),
        seq![looks_up(Sql::ConsumerOffsetSelect, place, Shape::Long)],
        seq![ReplyView::Long(found)],
        Ok((topition, found)),
    );
}

/// A partition has the offset that was found for it last.
pub proof fn a_partition_has_what_was_found_last(
    found: Seq<(TopitionView, Option<i64>)>,
    topition: TopitionView,
    offset: i64,
    i: int,
)
    requires
        0 <= i < found.len(),
        found[i] == (topition, Some(offset)),
        forall|j: int|
            i < j < found.len() ==> (#[trigger] found[j]).0 != topition || found[j].1 is None,
    ensures
        collected(found).dom().contains(topition),
        collected(found)[topition] == offset,
    decreases found.len(),
{
    if i < found.len() - 1 {
        let before = found.drop_last();
        assert(found[found.len() - 1].0 != topition || found[found.len() - 1].1 is None);
        assert forall|j: int| i < j < before.len() implies (#[trigger] before[j]).0 != topition
            || before[j].1 is None by {
            assert(found[j] == before[j]);
        }
        a_partition_has_what_was_found_last(before, topition, offset, i);
    }
}

/// A partition for which nothing was found has no offset.
pub proof fn a_partition_without_an_offset_has_none(
    found: Seq<(TopitionView, Option<i64>)>,
    topition: TopitionView,
)
    requires
        forall|j: int|
            0 <= j < found.len() ==> (#[trigger] found[j]).0 != topition || found[j].1 is None,
    ensures
        !collected(found).dom().contains(topition),
    decreases found.len(),
{
    if found.len() > 0 {
        let before = found.drop_last();
        assert(found[found.len() - 1].0 != topition || found[found.len() - 1].1 is None);
        assert forall|j: int| 0 <= j < before.len() implies (#[trigger] before[j]).0 != topition
            || before[j].1 is None by {
            assert(found[j] == before[j]);
        }
        a_partition_without_an_offset_has_none(before, topition);
    }
}

/// The offsets of a group in partitions are looked up in the order of the partitions, and the
/// answer holds what was found for each.
pub proof fn the_offsets_of_a_group_are_looked_up(
    cluster: Seq<char>,
    group: Seq<char>,
    topitions: Seq<TopitionView>,
    found: Seq<Option<i64>>,
)
    requires
        topitions.len() == found.len(),
    ensures
        talks::<OffsetFetch>(
            OffsetFetchView {
                lookups: in_sequence(topitions.map_values(offset_lookup(cluster, group))),
            },
            Seq::new(
                found.len(),
                |i: int|
                    seq![
                        (
                            seq![
                                looks_up(
                                    Sql::ConsumerOffsetSelect,
                                    seq![
                                        ValueView::Text(cluster),
                                        ValueView::Text(group),
                                        ValueView::Text(topitions[i].topic),
                                        ValueView::Int(topitions[i].partition as i64),
                                    ],
                                    Shape::Long,
                                ),
                            ],
                            seq![ReplyView::Long(found[i])],
                        ),
                    ],
            ).flatten() + seq![(seq![], seq![])],
            Ok(collected(Seq::new(found.len(), |i: int| (topitions[i], found[i])))),
        ),
{
    let operations = topitions.map_values(offset_lookup(cluster, group));
    let parts = Seq::new(
        found.len(),
        |i: int|
            seq![
                (
                    seq![
                        looks_up(
                            Sql::ConsumerOffsetSelect,
                            seq![
                                ValueView::Text(cluster),
                                ValueView::Text(group),
                                ValueView::Text(topitions[i].topic),
                                ValueView::Int(topitions[i].partition as i64),
                            ],
                            Shape::Long,
                        ),
                    ],
                    seq![ReplyView::Long(found[i])],
                ),
            ],
    );
    let values = Seq::new(found.len(), |i: int| (topitions[i], found[i]));
    assert forall|i: int| 0 <= i < operations.len() implies talks::<FetchOne>(
        #[trigger] operations[i],
        parts[i],
        Ok(values[i]),
    ) by {
        an_offset_of_a_group_is_kept_by_partition(
            cluster,
            group,
            topitions[i],
            OffsetCommitRequest { offset: 0 },
            0,
            found[i],
        );
    }
    a_sequence_talks_in_order::<FetchOne>(operations, Seq::empty(), parts, values);
    assert(Seq::<(TopitionView, Option<i64>)>::empty() + values =~= values);
    lookups_talk_as_a_sequence(
        in_sequence(operations),
        parts.flatten() + seq![(seq![], seq![])],
        Ok(values),
    );
}

/// The lookups of offsets talk as a sequence does.
proof fn lookups_talk_as_a_sequence(
    lookups: InSequenceView<FetchOneView, (TopitionView, Option<i64>)>,
    talk: Seq<Exchange>,
    end: Result<Seq<(TopitionView, Option<i64>)>, ErrorView>,
)
    requires
        talks::<InSequence<FetchOne, (Topition, Option<i64>)>>(lookups, talk, end),
    ensures
        talks::<OffsetFetch>(
            OffsetFetchView { lookups },
            talk,
            match end {
                Ok(found) => Ok(collected(found)),
                Err(error) => Err(error),
            },
        ),
    decreases talk.len(),
{
    match InSequence::<FetchOne, (Topition, Option<i64>)>::turn(lookups, talk[0].1) {
        Turn::Next(next) => lookups_talk_as_a_sequence(next, talk.drop_first(), end),
        _ => {},
    }
}

/// All offsets of a group are looked up by the group, and each row gives its partition its offset.
pub proof fn all_offsets_of_a_group_are_told(
    cluster: Seq<char>,
    group: Seq<char>,
    rows: Seq<(Seq<char>, i32, i64)>,
)
    ensures
        talks::<Connected<CommittedOffsets>>(
            ConnectedView::Open(CommittedOffsetsView { cluster, group }),
            on_a_connection(
                seq![
                    (
                        seq![
                            queries(
                                Sql::ConsumerOffsetSelectByGroup,
                                seq![ValueView::Text(cluster), ValueView::Text(group)],
                                Shape::Offsets,
                            ),
                        ],
                        seq![ReplyView::Offsets(rows)],
                    ),
                ],
            ),
            Ok(
                collected(
                    Seq::new(
                        rows.len(),
                        |i: int|
                            (
                                TopitionView { topic: rows[i].0, partition: rows[i].1 },
                                Some(rows[i].2),
                            ),
                    ),
                ),
            ),
        ),
{
    let state = CommittedOffsetsView { cluster, group };
    let asked = seq![
        queries(
            Sql::ConsumerOffsetSelectByGroup,
            seq![ValueView::Text(cluster), ValueView::Text(group)],
            Shape::Offsets,
        ),
    ];
    let replies = seq![ReplyView::Offsets(rows)];
    let found = Seq::new(
        rows.len(),
        |i: int| (TopitionView { topic: rows[i].0, partition: rows[i].1 }, Some(rows[i].2)),
    );
    assert(rows.map_values(offset_of_row()) =~= found);
    talk_ends::<CommittedOffsets>(state, asked, replies, Ok(collected(found)));
    a_connection_is_taken_first::<CommittedOffsets>(
        state,
        seq![(asked, replies)],
        Ok(collected(found)),
    );
}

} // verus!
