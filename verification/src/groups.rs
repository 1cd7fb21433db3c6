//! Consumer groups are listed, described, updated and deleted.

use vstd::prelude::*;

use crate::engine::Mysql;
use crate::error::{Error, ErrorCode, ErrorView};
use crate::ident::{is_v4, uuid_text, Uuid};
use crate::operation::{completes, run, Operation, Progress, Turn};
use crate::request::{
    ask, fits, json, no_requests, only, pair, texts, Reply, ReplyView, Request, RequestView, Shape,
};
use crate::script::{made_of, no_items};
use crate::sequence::{for_each, in_sequence, InSequence, InSequenceView};
use crate::sql::Sql;
use crate::talk::{
    a_connection_is_taken_first, a_transaction_encloses_a_talk, executes, in_a_transaction,
    looks_up, on_a_connection, queries, talk_ends, talk_goes_on, talks, Exchange,
};
use crate::transaction::{
    stays_within, Connected, ConnectedView, Transaction, TransactionView,
};
use crate::value::{
    same_text, statement, statement1, statement2, statement4, text, text_value, StatementView,
    ValueView,
};
use crate::wire::{
    DeletableGroupResult, DeletableGroupResultView, GroupLookup, GroupLookupView, ListedGroup,
    ListedGroupView, NamedGroupDetail, NamedGroupDetailView, Version, VersionView,
};

verus! {

/// The groups, listed.
#[derive(Debug)]
pub struct ListGroups {
    pub cluster: String,
}

/// What [`ListGroups`] stands for.
pub struct ListGroupsView {
    pub cluster: Seq<char>,
}

impl DeepView for ListGroups {
    type V = ListGroupsView;

    open spec fn deep_view(&self) -> ListGroupsView {
        ListGroupsView {
            cluster: self.cluster@,
        }
    }
}

/// A group, deleted with its offsets.
#[derive(Debug)]
pub struct DeleteGroup {
    pub cluster: String,
    pub group: String,
}

/// What [`DeleteGroup`] stands for.
pub struct DeleteGroupView {
    pub cluster: Seq<char>,
    pub group: Seq<char>,
}

impl DeepView for DeleteGroup {
    type V = DeleteGroupView;

    open spec fn deep_view(&self) -> DeleteGroupView {
        DeleteGroupView {
            cluster: self.cluster@,
            group: self.group@,
        }
    }
}

/// How far the description of a group is.
#[derive(Debug)]
pub enum GroupStage {
    /// The group is looked up.
    Lookup,
    /// Its detail is known, and decoded.
    Decode(String),
}

/// What [`GroupStage`] stands for.
pub enum GroupStageView {
    Lookup,
    Decode(Seq<char>),
}

impl DeepView for GroupStage {
    type V = GroupStageView;

    open spec fn deep_view(&self) -> GroupStageView {
        match self {
            GroupStage::Lookup => GroupStageView::Lookup,
            GroupStage::Decode(a) => GroupStageView::Decode(a@),
        }
    }
}

/// A group, described.
#[derive(Debug)]
pub struct DescribeGroup {
    pub cluster: String,
    pub group: String,
    pub stage: GroupStage,
}

/// What [`DescribeGroup`] stands for.
pub struct DescribeGroupView {
    pub cluster: Seq<char>,
    pub group: Seq<char>,
    pub stage: GroupStageView,
}

impl DeepView for DescribeGroup {
    type V = DescribeGroupView;

    open spec fn deep_view(&self) -> DescribeGroupView {
        DescribeGroupView {
            cluster: self.cluster@,
            group: self.group@,
            stage: self.stage.deep_view(),
        }
    }
}

/// How far the update of a group is.
#[derive(Debug)]
pub enum UpdateStage {
    /// The group is noted, and its new detail encoded.
    Insert,
    /// The new detail is known, as JSON; the current version is looked up.
    Select(String),
    /// The current detail, as JSON, and the current version are known, and not those that were
    /// expected; the detail is decoded.
    Decode(String, String),
    /// The new detail is written.
    Write(String),
}

/// What [`UpdateStage`] stands for.
pub enum UpdateStageView {
    Insert,
    Select(Seq<char>),
    Decode(Seq<char>, Seq<char>),
    Write(Seq<char>),
}

impl DeepView for UpdateStage {
    type V = UpdateStageView;

    open spec fn deep_view(&self) -> UpdateStageView {
        match self {
            UpdateStage::Insert => UpdateStageView::Insert,
            UpdateStage::Select(a) => UpdateStageView::Select(a@),
            UpdateStage::Decode(a, b) => UpdateStageView::Decode(a@, b@),
            UpdateStage::Write(a) => UpdateStageView::Write(a@),
        }
    }
}

/// A group, updated from the version that is expected to be its current one.
#[derive(Debug)]
pub struct UpdateGroup {
    pub cluster: String,
    pub group: String,
    /// The version that is expected, any where there is none.
    pub expected: Option<Version>,
    /// The version that the update makes.
    pub new_version: String,
    pub stage: UpdateStage,
}

/// What [`UpdateGroup`] stands for.
pub struct UpdateGroupView {
    pub cluster: Seq<char>,
    pub group: Seq<char>,
    pub expected: Option<VersionView>,
    pub new_version: Seq<char>,
    pub stage: UpdateStageView,
}

impl DeepView for UpdateGroup {
    type V = UpdateGroupView;

    open spec fn deep_view(&self) -> UpdateGroupView {
        UpdateGroupView {
            cluster: self.cluster@,
            group: self.group@,
            expected: self.expected.deep_view(),
            new_version: self.new_version@,
            stage: self.stage.deep_view(),
        }
    }
}

/// A statement on a group.
pub open spec fn on_group(sql: Sql, cluster: Seq<char>, group: Seq<char>) -> StatementView {
    statement(sql, seq![text_value(cluster), text_value(group)])
}

/// A group, listed. Of its state nothing is known.
pub open spec fn listed_group() -> spec_fn(Seq<char>) -> ListedGroupView {
    |group: Seq<char>|
        ListedGroupView {
            group_id: group,
            protocol_type: "consumer"@,
            group_state: Some("unknown"@),
            group_type: Some("classic"@),
        }
}

impl Operation for ListGroups {
    type Output = Vec<ListedGroup>;

    open spec fn valid(state: ListGroupsView) -> bool {
        true
    }

    open spec fn asked(state: ListGroupsView) -> Seq<RequestView> {
        seq![
            RequestView::Query(
                statement(Sql::ConsumerGroupSelectAll, seq![text_value(state.cluster)]),
                Shape::Texts,
            ),
        ]
    }

    open spec fn turn(state: ListGroupsView, replies: Seq<ReplyView>) -> Turn<
        ListGroupsView,
        Seq<ListedGroupView>,
    > {
        Turn::End(Ok(replies[0]->Texts_0.map_values(listed_group())))
    }

    open spec fn in_range(state: ListGroupsView, replies: Seq<ReplyView>) -> bool {
        true
    }

    fn requests(&self) -> Vec<Request> {
        let mut requests = no_requests();
        let made = statement1(Sql::ConsumerGroupSelectAll, text(&self.cluster));
        ask(&mut requests, Request::Query(made, Shape::Texts));
        requests
    }

    fn is_in_range(&self, replies: &Vec<Reply>) -> bool {
        true
    }

    fn advance(self, replies: Vec<Reply>) -> Progress<ListGroups, Vec<ListedGroup>> {
        assert(fits(Self::asked(self.deep_view())[0], replies.deep_view()[0]));
        let make = |group: &String| -> (listed: ListedGroup)
            ensures
                listed.deep_view() == listed_group()(group.deep_view()),
        {
            ListedGroup {
                group_id: group.clone(),
                protocol_type: "consumer".to_owned(),
                group_state: Some("unknown".to_owned()),
                group_type: Some("classic".to_owned()),
            }
        };
        let groups = made_of(&texts(only(replies)), make, Ghost(listed_group()));
        let progress = Progress::End(Ok(groups));
        assert(progress.deep_view() == Self::turn(self.deep_view(), replies.deep_view()));
        progress
    }
}

impl Operation for DeleteGroup {
    type Output = DeletableGroupResult;

    open spec fn valid(state: DeleteGroupView) -> bool {
        true
    }

    open spec fn asked(state: DeleteGroupView) -> Seq<RequestView> {
        seq![
            RequestView::Execute(
                on_group(Sql::ConsumerOffsetDeleteByGroup, state.cluster, state.group),
            ),
            RequestView::Execute(
                on_group(Sql::ConsumerGroupDetailDelete, state.cluster, state.group),
            ),
            RequestView::Execute(on_group(Sql::ConsumerGroupDelete, state.cluster, state.group)),
        ]
    }

    open spec fn turn(state: DeleteGroupView, replies: Seq<ReplyView>) -> Turn<
        DeleteGroupView,
        DeletableGroupResultView,
    > {
        Turn::End(
            Ok(
                DeletableGroupResultView {
                    group_id: state.group,
                    error_code: if replies[2]->Affected_0 == 0 {
                        ErrorCode::GroupIdNotFound
                    } else {
                        ErrorCode::NoError
                    },
                },
            ),
        )
    }

    open spec fn in_range(state: DeleteGroupView, replies: Seq<ReplyView>) -> bool {
        true
    }

    fn requests(&self) -> Vec<Request> {
        let mut requests = no_requests();
        let made = statement2(
            Sql::ConsumerOffsetDeleteByGroup,
            text(&self.cluster),
            text(&self.group),
        );
        ask(&mut requests, Request::Execute(made));
        let made = statement2(
            Sql::ConsumerGroupDetailDelete,
            text(&self.cluster),
            text(&self.group),
        );
        ask(&mut requests, Request::Execute(made));
        let made = statement2(Sql::ConsumerGroupDelete, text(&self.cluster), text(&self.group));
        ask(&mut requests, Request::Execute(made));
        requests
    }

    fn is_in_range(&self, replies: &Vec<Reply>) -> bool {
        true
    }

    fn advance(self, replies: Vec<Reply>) -> Progress<DeleteGroup, DeletableGroupResult> {
        assert(fits(Self::asked(self.deep_view())[2], replies.deep_view()[2]));
        let error_code = match &replies[2] {
            Reply::Affected(rows) if *rows == 0 => ErrorCode::GroupIdNotFound,
            _ => ErrorCode::NoError,
        };
        let progress = Progress::End(Ok(DeletableGroupResult { group_id: self.group, error_code }));
        assert(progress.deep_view() == Self::turn(self.deep_view(), replies.deep_view()));
        progress
    }
}

/// Groups, deleted.
#[derive(Debug)]
pub enum DeleteGroups {
    /// Without a list of groups no connection is taken.
    Nothing,
    Each(Connected<InSequence<DeleteGroup, DeletableGroupResult>>),
}

/// What [`DeleteGroups`] stands for.
pub enum DeleteGroupsView {
    Nothing,
    Each(ConnectedView<InSequenceView<DeleteGroupView, DeletableGroupResultView>>),
}

impl DeepView for DeleteGroups {
    type V = DeleteGroupsView;

    open spec fn deep_view(&self) -> DeleteGroupsView {
        match self {
            DeleteGroups::Nothing => DeleteGroupsView::Nothing,
            DeleteGroups::Each(a) => DeleteGroupsView::Each(a.deep_view()),
        }
    }
}

impl Operation for DeleteGroups {
    type Output = Vec<DeletableGroupResult>;

    open spec fn valid(state: DeleteGroupsView) -> bool {
        true
    }

    open spec fn asked(state: DeleteGroupsView) -> Seq<RequestView> {
        match state {
            DeleteGroupsView::Nothing => seq![],
            DeleteGroupsView::Each(inner) => Connected::<
                InSequence<DeleteGroup, DeletableGroupResult>,
            >::asked(inner),
        }
    }

    open spec fn turn(state: DeleteGroupsView, replies: Seq<ReplyView>) -> Turn<
        DeleteGroupsView,
        Seq<DeletableGroupResultView>,
    > {
        match state {
            DeleteGroupsView::Nothing => Turn::End(Ok(seq![])),
            DeleteGroupsView::Each(inner) => match Connected::<
                InSequence<DeleteGroup, DeletableGroupResult>,
            >::turn(inner, replies) {
                Turn::Next(inner) => Turn::Next(DeleteGroupsView::Each(inner)),
                Turn::End(end) => Turn::End(end),
            },
        }
    }

    open spec fn in_range(state: DeleteGroupsView, replies: Seq<ReplyView>) -> bool {
        true
    }

    fn requests(&self) -> Vec<Request> {
        match self {
            DeleteGroups::Nothing => no_requests(),
            DeleteGroups::Each(inner) => inner.requests(),
        }
    }

    fn is_in_range(&self, replies: &Vec<Reply>) -> bool {
        true
    }

    fn advance(self, replies: Vec<Reply>) -> Progress<DeleteGroups, Vec<DeletableGroupResult>> {
        let progress = match self {
            DeleteGroups::Nothing => Progress::End(Ok(no_items())),
            DeleteGroups::Each(inner) => match inner.advance(replies) {
                Progress::Next(inner) => Progress::Next(DeleteGroups::Each(inner)),
                Progress::End(end) => Progress::End(end),
            },
        };
        assert(progress.deep_view() == Self::turn(self.deep_view(), replies.deep_view()));
        progress
    }
}

/// The text of the error that `serde_json::from_str` gives for a text, or `None` where the text is
/// JSON.
pub uninterp spec fn json_fault(text: Seq<char>) -> Option<Seq<char>>;

/// `serde_json::from_str::<serde_json::Value>`: whether a text is JSON, and the text of the error
/// where it is not, which is [`json_fault`].
#[verifier::external_body]
fn check_json(text: &str) -> (checked: Result<(), String>)
    ensures
        match checked {
            Ok(_) => json_fault(text@) is None,
            Err(fault) => json_fault(text@) == Some(fault@),
        },
{
    serde_json::from_str::<serde_json::Value>(text)
        .map(|_| ())
        .map_err(|fault| fault.to_string())
}

/// What becomes of a group with a detail, which has to be JSON.
pub open spec fn detail_checked(
    state: DescribeGroupView,
    detail: Seq<char>,
    fault: Option<Seq<char>>,
) -> Turn<DescribeGroupView, NamedGroupDetailView> {
    match fault {
        Some(fault) => Turn::End(Err(ErrorView::Json(fault))),
        None => Turn::Next(DescribeGroupView { stage: GroupStageView::Decode(detail), ..state }),
    }
}

impl Operation for DescribeGroup {
    type Output = NamedGroupDetail;

    open spec fn valid(state: DescribeGroupView) -> bool {
        true
    }

    open spec fn asked(state: DescribeGroupView) -> Seq<RequestView> {
        match state.stage {
            GroupStageView::Lookup => seq![
                RequestView::First(
                    on_group(Sql::ConsumerGroupSelect, state.cluster, state.group),
                    Shape::Pair,
                ),
            ],
            GroupStageView::Decode(detail) => seq![RequestView::DecodeGroupValue(detail)],
        }
    }

    open spec fn turn(state: DescribeGroupView, replies: Seq<ReplyView>) -> Turn<
        DescribeGroupView,
        NamedGroupDetailView,
    > {
        match state.stage {
            GroupStageView::Lookup => match replies[0]->Pair_0 {
                None => Turn::End(
                    Ok(
                        NamedGroupDetailView {
                            name: state.group,
                            detail: GroupLookupView::Missing(ErrorCode::GroupIdNotFound),
                        },
                    ),
                ),
                Some((_, detail)) => detail_checked(state, detail, json_fault(detail)),
            },
            GroupStageView::Decode(detail) => Turn::End(
                Ok(
                    NamedGroupDetailView {
                        name: state.group,
                        detail: GroupLookupView::Found(detail),
                    },
                ),
            ),
        }
    }

    open spec fn in_range(state: DescribeGroupView, replies: Seq<ReplyView>) -> bool {
        true
    }

    fn requests(&self) -> Vec<Request> {
        let mut requests = no_requests();
        match &self.stage {
            GroupStage::Lookup => {
                let made = statement2(
                    Sql::ConsumerGroupSelect,
                    text(&self.cluster),
                    text(&self.group),
                );
                ask(&mut requests, Request::First(made, Shape::Pair));
            },
            GroupStage::Decode(detail) => {
                ask(&mut requests, Request::DecodeGroupValue(detail.clone()));
            },
        }
        requests
    }

    fn is_in_range(&self, replies: &Vec<Reply>) -> bool {
        true
    }

    fn advance(self, replies: Vec<Reply>) -> Progress<DescribeGroup, NamedGroupDetail> {
        assert(fits(Self::asked(self.deep_view())[0], replies.deep_view()[0]));
        let progress = match self.stage {
            GroupStage::Lookup => match pair(only(replies)) {
                None => Progress::End(
                    Ok(
                        NamedGroupDetail {
                            name: self.group,
                            detail: GroupLookup::Missing(ErrorCode::GroupIdNotFound),
                        },
                    ),
                ),
                Some((_, detail)) => {
                    let fault = match check_json(detail.as_str()) {
                        Ok(_) => None,
                        Err(fault) => Some(fault),
                    };
                    DescribeGroup { stage: GroupStage::Lookup, ..self }.with_detail(detail, fault)
                },
            },
            GroupStage::Decode(detail) => Progress::End(
                Ok(NamedGroupDetail { name: self.group, detail: GroupLookup::Found(detail) }),
            ),
        };
        assert(progress.deep_view() == Self::turn(self.deep_view(), replies.deep_view()));
        progress
    }
}

impl DescribeGroup {
    /// Go on with a detail, and with what is wrong with it as JSON.
    pub fn with_detail(self, detail: String, fault: Option<String>) -> (progress: Progress<
        DescribeGroup,
        NamedGroupDetail,
    >)
        ensures
            progress.deep_view() == detail_checked(self.deep_view(), detail@, fault.deep_view()),
    {
        match fault {
            Some(fault) => Progress::End(Err(Error::Json(fault))),
            None => Progress::Next(DescribeGroup { stage: GroupStage::Decode(detail), ..self }),
        }
    }
}

impl UpdateGroupView {
    /// The update takes place.
    pub open spec fn group_update(self, json: Seq<char>) -> RequestView {
        RequestView::Execute(
            statement(
                Sql::ConsumerGroupUpdate,
                seq![
                    text_value(json),
                    text_value(self.new_version),
                    text_value(self.cluster),
                    text_value(self.group),
                ],
            ),
        )
    }

    /// The same update at another stage.
    pub open spec fn at(self, stage: UpdateStageView) -> UpdateGroupView {
        UpdateGroupView { stage, ..self }
    }
}

impl Operation for UpdateGroup {
    type Output = Version;

    open spec fn valid(state: UpdateGroupView) -> bool {
        match state.stage {
            UpdateStageView::Select(_) => state.expected is Some,
            UpdateStageView::Decode(_, version) => state.expected matches Some(expected)
                && expected.e_tag != Some(version),
            _ => true,
        }
    }

    open spec fn asked(state: UpdateGroupView) -> Seq<RequestView> {
        match state.stage {
            UpdateStageView::Insert => seq![
                RequestView::Execute(
                    on_group(Sql::ConsumerGroupInsert, state.cluster, state.group),
                ),
                RequestView::EncodeGroup,
            ],
            UpdateStageView::Select(_) => seq![
                RequestView::First(
                    on_group(Sql::ConsumerGroupSelectForUpdate, state.cluster, state.group),
                    Shape::Pair,
                ),
            ],
            UpdateStageView::Decode(detail, _) => seq![RequestView::DecodeGroup(detail)],
            UpdateStageView::Write(json) => seq![state.group_update(json)],
        }
    }

    open spec fn turn(state: UpdateGroupView, replies: Seq<ReplyView>) -> Turn<
        UpdateGroupView,
        VersionView,
    > {
        match state.stage {
            UpdateStageView::Insert => {
                let json = replies[1]->Json_0;
                Turn::Next(
                    state.at(
                        if state.expected is Some {
                            UpdateStageView::Select(json)
                        } else {
                            UpdateStageView::Write(json)
                        },
                    ),
                )
            },
            UpdateStageView::Select(json) => match replies[0]->Pair_0 {
                Some((detail, version)) if state.expected->0.e_tag != Some(version) => Turn::Next(
                    state.at(UpdateStageView::Decode(detail, version)),
                ),
                _ => Turn::Next(state.at(UpdateStageView::Write(json))),
            },
            UpdateStageView::Decode(detail, version) => Turn::End(
                Err(ErrorView::Outdated(detail, version)),
            ),
            UpdateStageView::Write(_) => Turn::End(
                Ok(VersionView { e_tag: Some(state.new_version), version: None }),
            ),
        }
    }

    open spec fn in_range(state: UpdateGroupView, replies: Seq<ReplyView>) -> bool {
        true
    }

    fn requests(&self) -> Vec<Request> {
        let mut requests = no_requests();
        match &self.stage {
            UpdateStage::Insert => {
                let made = statement2(
                    Sql::ConsumerGroupInsert,
                    text(&self.cluster),
                    text(&self.group),
                );
                ask(&mut requests, Request::Execute(made));
                ask(&mut requests, Request::EncodeGroup);
            },
            UpdateStage::Select(_) => {
                let made = statement2(
                    Sql::ConsumerGroupSelectForUpdate,
                    text(&self.cluster),
                    text(&self.group),
                );
                ask(&mut requests, Request::First(made, Shape::Pair));
            },
            UpdateStage::Decode(detail, _) => {
                ask(&mut requests, Request::DecodeGroup(detail.clone()));
            },
            UpdateStage::Write(json) => {
                let made = statement4(
                    Sql::ConsumerGroupUpdate,
                    text(json),
                    text(&self.new_version),
                    text(&self.cluster),
                    text(&self.group),
                );
                ask(&mut requests, Request::Execute(made));
            },
        }
        requests
    }

    fn is_in_range(&self, replies: &Vec<Reply>) -> bool {
        true
    }

    fn advance(self, replies: Vec<Reply>) -> Progress<UpdateGroup, Version> {
        let progress = match self.stage {
            UpdateStage::Insert => {
                assert(fits(Self::asked(self.deep_view())[1], replies.deep_view()[1]));
                let mut replies = replies;
                let json = json(replies.pop().unwrap());
                let stage = match &self.expected {
                    Some(_) => UpdateStage::Select(json),
                    None => UpdateStage::Write(json),
                };
                Progress::Next(UpdateGroup { stage, ..self })
            },
            UpdateStage::Select(json) => {
                assert(fits(Self::asked(self.deep_view())[0], replies.deep_view()[0]));
                let stage = match pair(only(replies)) {
                    Some((detail, version)) => if Self::is_expected(&self.expected, &version) {
                        UpdateStage::Write(json)
                    } else {
                        UpdateStage::Decode(detail, version)
                    },
                    None => UpdateStage::Write(json),
                };
                Progress::Next(UpdateGroup { stage, ..self })
            },
            UpdateStage::Decode(detail, version) => Progress::End(
                Err(Error::Outdated(detail, version)),
            ),
            UpdateStage::Write(_) => Progress::End(
                Ok(Version { e_tag: Some(self.new_version), version: None }),
            ),
        };
        assert(progress.deep_view() == Self::turn(self.deep_view(), replies.deep_view()));
        progress
    }
}

impl UpdateGroup {
    /// Whether a version is the one that is expected.
    fn is_expected(expected: &Option<Version>, version: &String) -> (same: bool)
        requires
            expected is Some,
        ensures
            same == (expected.deep_view()->0.e_tag == Some(version@)),
    {
        match expected {
            Some(expected) => match &expected.e_tag {
                Some(e_tag) => same_text(e_tag, version),
                None => false,
            },
            None => false,
        }
    }
}

/// A group, to be deleted.
pub open spec fn group_deletion(cluster: Seq<char>) -> spec_fn(Seq<char>) -> DeleteGroupView {
    |group: Seq<char>| DeleteGroupView { cluster, group }
}

/// A group, to be described.
pub open spec fn group_description(cluster: Seq<char>) -> spec_fn(Seq<char>) -> DescribeGroupView {
    |group: Seq<char>| DescribeGroupView { cluster, group, stage: GroupStageView::Lookup }
}

impl<P, S, H> Mysql<P, S, H> {
    /// List all groups, whatever states are asked for.
    pub fn list_groups(&self, states_filter: Option<&[String]>) -> (operation: Connected<
        ListGroups,
    >)
        ensures
            operation.deep_view() == ConnectedView::Open(ListGroupsView { cluster: self.cluster@ }),
            Connected::<ListGroups>::valid(operation.deep_view()),
    {
        Connected::Open(ListGroups { cluster: self.cluster.clone() })
    }

    /// Delete groups, with their offsets.
    pub fn delete_groups(&self, group_ids: Option<&[String]>) -> (operation: DeleteGroups)
        ensures
            operation.deep_view() == match group_ids {
                Some(group_ids) => DeleteGroupsView::Each(
                    ConnectedView::Open(
                        in_sequence(
                            group_ids.deep_view().map_values(group_deletion(self.cluster@)),
                        ),
                    ),
                ),
                None => DeleteGroupsView::Nothing,
            },
            DeleteGroups::valid(operation.deep_view()),
    {
        match group_ids {
            Some(group_ids) => {
                let make = |group: &String| -> (operation: DeleteGroup)
                    ensures
                        operation.deep_view() == group_deletion(self.cluster@)(group.deep_view()),
                {
                    DeleteGroup { cluster: self.cluster.clone(), group: group.clone() }
                };
                DeleteGroups::Each(
                    Connected::Open(
                        for_each(group_ids, make, Ghost(group_deletion(self.cluster@))),
                    ),
                )
            },
            None => DeleteGroups::Nothing,
        }
    }

    /// Describe groups. Nothing is said of what is allowed on them.
    pub fn describe_groups(
        &self,
        group_ids: Option<&[String]>,
        include_authorized_operations: bool,
    ) -> (operation: Connected<InSequence<DescribeGroup, NamedGroupDetail>>)
        ensures
            operation.deep_view() == ConnectedView::Open(
                in_sequence::<DescribeGroupView, NamedGroupDetailView>(
                    match group_ids {
                        Some(group_ids) => group_ids.deep_view().map_values(
                            group_description(self.cluster@),
                        ),
                        None => Seq::empty(),
                    },
                ),
            ),
            Connected::<InSequence<DescribeGroup, NamedGroupDetail>>::valid(operation.deep_view()),
    {
        let operations = match group_ids {
            Some(group_ids) => {
                let make = |group: &String| -> (operation: DescribeGroup)
                    ensures
                        operation.deep_view() == group_description(self.cluster@)(
                            group.deep_view(),
                        ),
                {
                    DescribeGroup {
                        cluster: self.cluster.clone(),
                        group: group.clone(),
                        stage: GroupStage::Lookup,
                    }
                };
                for_each(group_ids, make, Ghost(group_description(self.cluster@)))
            },
            None => InSequence::new(),
        };
        Connected::Open(operations)
    }

    /// Update a group to the detail at hand, under a new version. Where a version is expected, it
    /// has to be the current one.
    pub fn update_group(&self, group_id: &str, version: Option<Version>) -> (operation: Transaction<
        UpdateGroup,
        Version,
    >)
        ensures
            exists|id: Seq<u8>|
                is_v4(id) && operation.deep_view() == #[trigger] group_update(
                    self.cluster@,
                    group_id@,
                    version.deep_view(),
                    id,
                ),
            Transaction::<UpdateGroup, Version>::valid(operation.deep_view()),
    {
        let id = Uuid::new_v4();
        let operation = self.update_group_as(group_id, version, id);
        assert(operation.deep_view() == group_update(
            self.cluster@,
            group_id@,
            version.deep_view(),
            id.deep_view(),
        ));
        operation
    }

    /// Update a group to the detail at hand, under a given new version.
    pub fn update_group_as(
        &self,
        group_id: &str,
        version: Option<Version>,
        new_version: Uuid,
    ) -> (operation: Transaction<UpdateGroup, Version>)
        ensures
            operation.deep_view() == group_update(
                self.cluster@,
                group_id@,
                version.deep_view(),
                new_version.deep_view(),
            ),
            Transaction::<UpdateGroup, Version>::valid(operation.deep_view()),
    {
        Transaction::Open(
            UpdateGroup {
                cluster: self.cluster.clone(),
                group: group_id.to_owned(),
                expected: version,
                new_version: new_version.text(),
                stage: UpdateStage::Insert,
            },
        )
    }
}

/// The update of a group, under a new version.
pub open spec fn group_update(
    cluster: Seq<char>,
    group: Seq<char>,
    expected: Option<VersionView>,
    new_version: Seq<u8>,
) -> TransactionView<UpdateGroupView, VersionView> {
    TransactionView::Open(
        UpdateGroupView {
            cluster,
            group,
            expected,
            new_version: uuid_text(new_version),
            stage: UpdateStageView::Insert,
        },
    )
}

/// What is asked for the update of a group leaves the transaction that it runs in as it is.
pub proof fn update_group_stays_within(state: UpdateGroupView)
    ensures
        stays_within(UpdateGroup::asked(state)),
{
}

/// An update from a version that is not the current one is refused, with the current detail and
/// version, and nothing of it is written.
pub proof fn a_stale_update_is_refused(
    state: UpdateGroupView,
    expected: VersionView,
    rows: u64,
    json: Seq<char>,
    detail: Seq<char>,
    version: Seq<char>,
    other: Seq<char>,
)
    requires
        state.stage is Insert,
        state.expected == Some(expected),
        expected.e_tag != Some(version),
    ensures
        run::<UpdateGroup>(
            state,
            seq![
                seq![ReplyView::Affected(rows), ReplyView::Json(json)],
                seq![ReplyView::Pair(Some((detail, version)))],
                seq![ReplyView::Done],
            ],
        ) == Turn::<UpdateGroupView, VersionView>::End(Err(ErrorView::Outdated(detail, version))),
        !UpdateGroup::asked(state).contains(state.group_update(other)),
        !UpdateGroup::asked(state.at(UpdateStageView::Select(json))).contains(
            state.group_update(other),
        ),
        !UpdateGroup::asked(state.at(UpdateStageView::Decode(detail, version))).contains(
            state.group_update(other),
        ),
{
    reveal_with_fuel(run, 5);
    let script = seq![
        seq![ReplyView::Affected(rows), ReplyView::Json(json)],
        seq![ReplyView::Pair(Some((detail, version)))],
        seq![ReplyView::Done],
    ];
    let select = state.at(UpdateStageView::Select(json));
    let decode = state.at(UpdateStageView::Decode(detail, version));
    assert(UpdateGroup::turn(state, script[0]) == Turn::<UpdateGroupView, VersionView>::Next(
        select,
    ));
    assert(UpdateGroup::turn(select, script[1]) == Turn::<UpdateGroupView, VersionView>::Next(
        decode,
    ));
    assert(script.drop_first()[0] == script[1]);
    assert(script.drop_first().drop_first()[0] == script[2]);
}

/// An update from the current version, or of a group without one, is written under its new version,
/// which is what the client is told.
pub proof fn a_current_update_is_written(
    state: UpdateGroupView,
    expected: VersionView,
    rows: u64,
    json: Seq<char>,
    current: Option<(Seq<char>, Seq<char>)>,
    written: Seq<ReplyView>,
)
    requires
        state.stage is Insert,
        state.expected == Some(expected),
        current matches Some(current) ==> expected.e_tag == Some(current.1),
    ensures
        completes::<UpdateGroup>(
            state,
            seq![
                seq![ReplyView::Affected(rows), ReplyView::Json(json)],
                seq![ReplyView::Pair(current)],
                written,
            ],
            VersionView { e_tag: Some(state.new_version), version: None },
        ),
        UpdateGroup::asked(state.at(UpdateStageView::Write(json))) == seq![
            state.group_update(json),
        ],
{
    let script = seq![
        seq![ReplyView::Affected(rows), ReplyView::Json(json)],
        seq![ReplyView::Pair(current)],
        written,
    ];
    let value = VersionView { e_tag: Some(state.new_version), version: None };
    let select = state.at(UpdateStageView::Select(json));
    let write = state.at(UpdateStageView::Write(json));
    let after1 = script.drop_first();
    let after2 = after1.drop_first();
    assert(UpdateGroup::turn(state, script[0]) == Turn::<UpdateGroupView, VersionView>::Next(
        select,
    ));
    assert(UpdateGroup::turn(select, after1[0]) == Turn::<UpdateGroupView, VersionView>::Next(
        write,
    ));
    assert(completes::<UpdateGroup>(write, after2, value));
    assert(completes::<UpdateGroup>(select, after1, value));
}

/// Without an expected version an update is written whatever the current one is.
pub proof fn an_unconditional_update_is_written(
    state: UpdateGroupView,
    rows: u64,
    json: Seq<char>,
    written: Seq<ReplyView>,
)
    requires
        state.stage is Insert,
        state.expected is None,
    ensures
        completes::<UpdateGroup>(
            state,
            seq![seq![ReplyView::Affected(rows), ReplyView::Json(json)], written],
            VersionView { e_tag: Some(state.new_version), version: None },
        ),
{
    let script = seq![seq![ReplyView::Affected(rows), ReplyView::Json(json)], written];
    let write = state.at(UpdateStageView::Write(json));
    assert(UpdateGroup::turn(state, script[0]) == Turn::<UpdateGroupView, VersionView>::Next(
        write,
    ));
    assert(completes::<UpdateGroup>(
        write,
        script.drop_first(),
        VersionView { e_tag: Some(state.new_version), version: None },
    ));
}

/// The version that an update gives is accepted by the next update, and by no other once that was
/// written: of two updates from one version the second is refused, whatever they write.
pub proof fn of_two_updates_the_second_is_refused(
    first: UpdateGroupView,
    second: UpdateGroupView,
    written: Seq<char>,
    json: Seq<char>,
)
    requires
        first.stage == UpdateStageView::Write(written),
        second.stage == UpdateStageView::Select(json),
        first.expected == second.expected,
        first.expected is Some,
        first.expected->0.e_tag != Some(first.new_version),
    ensures
        UpdateGroup::asked(first) == seq![first.group_update(written)],
        run::<UpdateGroup>(
            second,
            seq![
                seq![ReplyView::Pair(Some((written, first.new_version)))],
                seq![ReplyView::Done],
            ],
        ) == Turn::<UpdateGroupView, VersionView>::End(
            Err(ErrorView::Outdated(written, first.new_version)),
        ),
        UpdateGroup::turn(
            UpdateGroupView {
                expected: Some(VersionView { e_tag: Some(first.new_version), version: None }),
                ..second
            },
            seq![ReplyView::Pair(Some((written, first.new_version)))],
        ) matches Turn::Next(next) && next.stage == UpdateStageView::Write(json),
{
    reveal_with_fuel(run, 4);
    let script = seq![
        seq![ReplyView::Pair(Some((written, first.new_version)))],
        seq![ReplyView::Done],
    ];
    assert(script.drop_first()[0] == script[1]);
}

/// A detail that is not JSON ends the description with an error.
pub proof fn a_detail_has_to_be_json(
    state: DescribeGroupView,
    other: Seq<char>,
    detail: Seq<char>,
    fault: Seq<char>,
)
    requires
        state.stage is Lookup,
        json_fault(detail) == Some(fault),
    ensures
        DescribeGroup::turn(state, seq![ReplyView::Pair(Some((other, detail)))]) == Turn::<
            DescribeGroupView,
            NamedGroupDetailView,
        >::End(Err(ErrorView::Json(fault))),
{
}

/// A group is described with the detail that it was updated to.
pub proof fn an_updated_group_is_described(
    updated: UpdateGroupView,
    described: DescribeGroupView,
    json: Seq<char>,
    version: Seq<char>,
)
    requires
        updated.stage == UpdateStageView::Write(json),
        described.stage is Lookup,
        described.group == updated.group,
        json_fault(json) is None,
    ensures
        UpdateGroup::asked(updated)[0]->Execute_0.params[0] == text_value(json),
        completes::<DescribeGroup>(
            described,
            seq![seq![ReplyView::Pair(Some((version, json)))], seq![ReplyView::Done]],
            NamedGroupDetailView { name: updated.group, detail: GroupLookupView::Found(json) },
        ),
{
    let script = seq![seq![ReplyView::Pair(Some((version, json)))], seq![ReplyView::Done]];
    let next = DescribeGroupView { stage: GroupStageView::Decode(json), ..described };
    assert(DescribeGroup::turn(described, script[0]) == Turn::<
        DescribeGroupView,
        NamedGroupDetailView,
    >::Next(next));
    assert(completes::<DescribeGroup>(
        next,
        script.drop_first(),
        NamedGroupDetailView { name: updated.group, detail: GroupLookupView::Found(json) },
    ));
}

/// All groups of the cluster are listed, each once for each row and in the order of the rows, as
/// classic groups of consumers of whose state nothing is known.
pub proof fn every_group_is_listed(cluster: Seq<char>, groups: Seq<Seq<char>>)
    ensures
        talks::<Connected<ListGroups>>(
            ConnectedView::Open(ListGroupsView { cluster }),
            on_a_connection(
                seq![
                    (
                        seq![
                            queries(
                                Sql::ConsumerGroupSelectAll,
                                seq![ValueView::Text(cluster)],
                                Shape::Texts,
                            ),
                        ],
                        seq![ReplyView::Texts(groups)],
                    ),
                ],
            ),
            Ok(
                Seq::new(
                    groups.len(),
                    |i: int|
                        ListedGroupView {
                            group_id: groups[i],
                            protocol_type: "consumer"@,
                            group_state: Some("unknown"@),
                            group_type: Some("classic"@),
                        },
                ),
            ),
        ),
{
    let state = ListGroupsView { cluster };
    let asked = seq![
        queries(Sql::ConsumerGroupSelectAll, seq![ValueView::Text(cluster)], Shape::Texts),
    ];
    let replies = seq![ReplyView::Texts(groups)];
    let listed = Seq::new(
        groups.len(),
        |i: int|
            ListedGroupView {
                group_id: groups[i],
                protocol_type: "consumer"@,
                group_state: Some("unknown"@),
                group_type: Some("classic"@),
            },
    );
    assert(groups.map_values(listed_group()) =~= listed);
    talk_ends::<ListGroups>(state, asked, replies, Ok(listed));
    a_connection_is_taken_first::<ListGroups>(state, seq![(asked, replies)], Ok(listed));
}

/// A group goes with its offsets and its detail, all under its own name. It counts as found where
/// there was a group to delete, whatever went with it.
pub proof fn a_group_goes_with_its_offsets(
    cluster: Seq<char>,
    group: Seq<char>,
    offsets: u64,
    details: u64,
    groups: u64,
)
    ensures
        ({
            let params = seq![ValueView::Text(cluster), ValueView::Text(group)];
            talks::<DeleteGroup>(
                group_deletion(cluster)(group),
                seq![
                    (
                        seq![
                            executes(Sql::ConsumerOffsetDeleteByGroup, params),
                            executes(Sql::ConsumerGroupDetailDelete, params),
                            executes(Sql::ConsumerGroupDelete, params),
                        ],
                        seq![
                            ReplyView::Affected(offsets),
                            ReplyView::Affected(details),
                            ReplyView::Affected(groups),
                        ],
                    ),
                ],
                Ok(
                    DeletableGroupResultView {
                        group_id: group,
                        error_code: if groups > 0 {
                            ErrorCode::NoError
                        } else {
                            ErrorCode::GroupIdNotFound
                        },
                    },
                ),
            )
        }),
{
    let params = seq![ValueView::Text(cluster), ValueView::Text(group)];
    talk_ends::<DeleteGroup>(
        group_deletion(cluster)(group),
        seq![
            executes(Sql::ConsumerOffsetDeleteByGroup, params),
            executes(Sql::ConsumerGroupDetailDelete, params),
            executes(Sql::ConsumerGroupDelete, params),
        ],
        seq![
            ReplyView::Affected(offsets),
            ReplyView::Affected(details),
            ReplyView::Affected(groups),
        ],
        Ok(
            DeletableGroupResultView {
                group_id: group,
                error_code: if groups > 0 {
                    ErrorCode::NoError
                } else {
                    ErrorCode::GroupIdNotFound
                },
            },
        ),
    );
}

/// Without a list of groups nothing is deleted, and no connection is taken. With one, the groups
/// are deleted as a sequence of them is on a connection of its own.
pub proof fn groups_are_deleted_as_they_are_listed(
    inner: ConnectedView<InSequenceView<DeleteGroupView, DeletableGroupResultView>>,
    talk: Seq<Exchange>,
    end: Result<Seq<DeletableGroupResultView>, ErrorView>,
)
    requires
        talks::<Connected<InSequence<DeleteGroup, DeletableGroupResult>>>(inner, talk, end),
    ensures
        talks::<DeleteGroups>(DeleteGroupsView::Nothing, seq![(seq![], seq![])], Ok(seq![])),
        talks::<DeleteGroups>(DeleteGroupsView::Each(inner), talk, end),
    decreases talk.len(),
{
    match Connected::<InSequence<DeleteGroup, DeletableGroupResult>>::turn(inner, talk[0].1) {
        Turn::Next(next) => groups_are_deleted_as_they_are_listed(next, talk.drop_first(), end),
        _ => {},
    }
}

/// A group is looked up by its name and described under it: as not found where there is none, and
/// with the detail that is stored of it where there is one. A detail that is not JSON is an error.
pub proof fn a_group_is_described_as_it_is_stored(
    cluster: Seq<char>,
    group: Seq<char>,
    row: Option<(Seq<char>, Seq<char>)>,
)
    ensures
        ({
            let lookup = (
                seq![
                    looks_up(
                        Sql::ConsumerGroupSelect,
                        seq![ValueView::Text(cluster), ValueView::Text(group)],
                        Shape::Pair,
                    ),
                ],
                seq![ReplyView::Pair(row)],
            );
            match row {
                None => talks::<DescribeGroup>(
                    group_description(cluster)(group),
                    seq![lookup],
                    Ok(
                        NamedGroupDetailView {
                            name: group,
                            detail: GroupLookupView::Missing(ErrorCode::GroupIdNotFound),
                        },
                    ),
                ),
                Some((_, detail)) => match json_fault(detail) {
                    Some(fault) => talks::<DescribeGroup>(
                        group_description(cluster)(group),
                        seq![lookup],
                        Err(ErrorView::Json(fault)),
                    ),
                    None => talks::<DescribeGroup>(
                        group_description(cluster)(group),
                        seq![
                            lookup,
                            (
                                seq![RequestView::DecodeGroupValue(detail)],
                                seq![ReplyView::Done],
                            ),
                        ],
                        Ok(
                            NamedGroupDetailView {
                                name: group,
                                detail: GroupLookupView::Found(detail),
                            },
                        ),
                    ),
                },
            }
        }),
{
    let state = group_description(cluster)(group);
    let asked = seq![
        looks_up(
            Sql::ConsumerGroupSelect,
            seq![ValueView::Text(cluster), ValueView::Text(group)],
            Shape::Pair,
        ),
    ];
    let replies = seq![ReplyView::Pair(row)];
    match row {
        None => {
            talk_ends::<DescribeGroup>(
                state,
                asked,
                replies,
                Ok(
                    NamedGroupDetailView {
                        name: group,
                        detail: GroupLookupView::Missing(ErrorCode::GroupIdNotFound),
                    },
                ),
            );
        },
        Some((_, detail)) => match json_fault(detail) {
            Some(fault) => {
                talk_ends::<DescribeGroup>(state, asked, replies, Err(ErrorView::Json(fault)));
            },
            None => {
                let next = DescribeGroupView {
                    cluster,
                    group,
                    stage: GroupStageView::Decode(detail),
                };
                let told = NamedGroupDetailView {
                    name: group,
                    detail: GroupLookupView::Found(detail),
                };
                let decode = seq![RequestView::DecodeGroupValue(detail)];
                let done = seq![ReplyView::Done];
                talk_ends::<DescribeGroup>(next, decode, done, Ok(told));
                talk_goes_on::<DescribeGroup>(
                    state,
                    asked,
                    replies,
                    next,
                    seq![(decode, done)],
                    Ok(told),
                );
                assert(seq![(asked, replies)] + seq![(decode, done)] =~= seq![
                    (asked, replies),
                    (decode, done),
                ]);
            },
        },
    }
}

/// A group is updated from the version that is expected, or from any where none is. The group is
/// noted and its detail encoded first; where a version is expected, the current one is looked up. A
/// current version that is not the expected one refuses the update with the current detail and
/// version, and nothing is committed. Otherwise the encoded detail is written to the group under
/// the new version, which is committed, and is what the client is told.
pub proof fn a_group_is_updated_from_the_expected_version(
    cluster: Seq<char>,
    group: Seq<char>,
    expected: Option<VersionView>,
    new_version: Seq<u8>,
    noted: u64,
    json: Seq<char>,
    current: Option<(Seq<char>, Seq<char>)>,
    written: u64,
)
    ensures
        ({
            let params = seq![ValueView::Text(cluster), ValueView::Text(group)];
            let note = (
                seq![
                    executes(Sql::ConsumerGroupInsert, params),
                    RequestView::EncodeGroup,
                ],
                seq![ReplyView::Affected(noted), ReplyView::Json(json)],
            );
            let lookup = (
                seq![looks_up(Sql::ConsumerGroupSelectForUpdate, params, Shape::Pair)],
                seq![ReplyView::Pair(current)],
            );
            let write = (
                seq![
                    executes(
                        Sql::ConsumerGroupUpdate,
                        seq![
                            ValueView::Text(json),
                            ValueView::Text(uuid_text(new_version)),
                            ValueView::Text(cluster),
                            ValueView::Text(group),
                        ],
                    ),
                ],
                seq![ReplyView::Affected(written)],
            );
            let told = Ok::<_, ErrorView>(
                VersionView { e_tag: Some(uuid_text(new_version)), version: None },
            );
            match (expected, current) {
                (None, _) => talks::<Transaction<UpdateGroup, Version>>(
                    group_update(cluster, group, expected, new_version),
                    in_a_transaction(seq![note, write], true),
                    told,
                ),
                (Some(expected), Some((detail, version))) if expected.e_tag != Some(
                    version,
                ) => talks::<Transaction<UpdateGroup, Version>>(
                    group_update(cluster, group, Some(expected), new_version),
                    in_a_transaction(
                        seq![
                            note,
                            lookup,
                            (seq![RequestView::DecodeGroup(detail)], seq![ReplyView::Done]),
                        ],
                        false,
                    ),
                    Err(ErrorView::Outdated(detail, version)),
                ),
                (Some(_), _) => talks::<Transaction<UpdateGroup, Version>>(
                    group_update(cluster, group, expected, new_version),
                    in_a_transaction(seq![note, lookup, write], true),
                    told,
                ),
            }
        }),
{
    let params = seq![ValueView::Text(cluster), ValueView::Text(group)];
    let state = UpdateGroupView {
        cluster,
        group,
        expected,
        new_version: uuid_text(new_version),
        stage: UpdateStageView::Insert,
    };
    let note = seq![executes(Sql::ConsumerGroupInsert, params), RequestView::EncodeGroup];
    let noting = seq![ReplyView::Affected(noted), ReplyView::Json(json)];
    let lookup = seq![looks_up(Sql::ConsumerGroupSelectForUpdate, params, Shape::Pair)];
    let looking = seq![ReplyView::Pair(current)];
    let write = seq![
        executes(
            Sql::ConsumerGroupUpdate,
            seq![
                ValueView::Text(json),
                ValueView::Text(uuid_text(new_version)),
                ValueView::Text(cluster),
                ValueView::Text(group),
            ],
        ),
    ];
    let writing = seq![ReplyView::Affected(written)];
    let told: Result<VersionView, ErrorView> = Ok(
        VersionView { e_tag: Some(uuid_text(new_version)), version: None },
    );
    let writes = UpdateGroupView { stage: UpdateStageView::Write(json), ..state };
    let selects = UpdateGroupView { stage: UpdateStageView::Select(json), ..state };
    let last = seq![(write, writing)];
    talk_ends::<UpdateGroup>(writes, write, writing, told);
    match (expected, current) {
        (None, _) => {
            talk_goes_on::<UpdateGroup>(state, note, noting, writes, last, told);
            assert(seq![(note, noting)] + last =~= seq![(note, noting), (write, writing)]);
            a_transaction_encloses_a_talk::<UpdateGroup>(
                state,
                seq![(note, noting), (write, writing)],
                told,
            );
        },
        (Some(wanted), Some((detail, version))) if wanted.e_tag != Some(version) => {
            let decodes = UpdateGroupView {
                stage: UpdateStageView::Decode(detail, version),
                ..state
            };
            let decode = seq![RequestView::DecodeGroup(detail)];
            let done = seq![ReplyView::Done];
            let end: Result<VersionView, ErrorView> = Err(ErrorView::Outdated(detail, version));
            let after = seq![(lookup, looking), (decode, done)];
            talk_ends::<UpdateGroup>(decodes, decode, done, end);
            talk_goes_on::<UpdateGroup>(
                selects,
                lookup,
                looking,
                decodes,
                seq![(decode, done)],
                end,
            );
            assert(seq![(lookup, looking)] + seq![(decode, done)] =~= after);
            talk_goes_on::<UpdateGroup>(state, note, noting, selects, after, end);
            assert(seq![(note, noting)] + after =~= seq![
                (note, noting),
                (lookup, looking),
                (decode, done),
            ]);
            a_transaction_encloses_a_talk::<UpdateGroup>(
                state,
                seq![(note, noting), (lookup, looking), (decode, done)],
                end,
            );
        },
        (Some(_), _) => {
            let after = seq![(lookup, looking), (write, writing)];
            talk_goes_on::<UpdateGroup>(selects, lookup, looking, writes, last, told);
            assert(seq![(lookup, looking)] + last =~= after);
            talk_goes_on::<UpdateGroup>(state, note, noting, selects, after, told);
            assert(seq![(note, noting)] + after =~= seq![
                (note, noting),
                (lookup, looking),
                (write, writing),
            ]);
            a_transaction_encloses_a_talk::<UpdateGroup>(
                state,
                seq![(note, noting), (lookup, looking), (write, writing)],
                told,
            );
        },
    }
}

} // verus!
