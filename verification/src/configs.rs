//! Configurations are described and changed.

use vstd::prelude::*;

use crate::engine::Mysql;
use crate::error::{Error, ErrorCode, ErrorView};
use crate::operation::{Operation, Progress, Turn};
use crate::request::{
    ask, configs, fits, no_requests, number, only, Reply, ReplyView, Request, RequestView, Shape,
};
use crate::script::{add_item, copy_texts, given_by_an_item, in_turn, listed, no_items};
use crate::sequence::{for_each_listed, in_sequence, InSequence, InSequenceView};
use crate::sql::Sql;
use crate::talk::{
    executes, looks_up, queries, talk_ends, talk_goes_on, talks, Exchange,
};
use crate::topics::{config_upsert, on_topic, upsert_config};
use crate::transaction::{Connected, ConnectedView};
use crate::value::{
    copy_opt_text, same_text, statement, statement2, statement3, text, text_value, ValueView,
};
use crate::wire::{
    AlterConfigsResource, AlterConfigsResourceResponse, AlterConfigsResourceResponseView,
    AlterableConfig, AlterableConfigView, ConfigResource, ConfigSource, ConfigType,
    DescribeConfigsResourceResult, DescribeConfigsResourceResultView, DescribeConfigsResult,
    DescribeConfigsResultView, OpType,
};

verus! {

/// How far the description of a configuration is.
#[derive(Clone, Copy, Debug, PartialEq, Eq, Structural)]
pub enum DescribeStage {
    /// The topic is looked up.
    Exists,
    /// Its configuration is looked up.
    Rows,
}

impl DeepView for DescribeStage {
    type V = DescribeStage;

    open spec fn deep_view(&self) -> DescribeStage {
        *self
    }
}

/// The configuration of a resource, described.
#[derive(Debug)]
pub struct DescribeConfig {
    pub cluster: String,
    pub name: String,
    pub resource: ConfigResource,
    /// The entries that are wanted, all where there is no list.
    pub keys: Option<Vec<String>>,
    pub stage: DescribeStage,
}

/// What [`DescribeConfig`] stands for.
pub struct DescribeConfigView {
    pub cluster: Seq<char>,
    pub name: Seq<char>,
    pub resource: ConfigResource,
    pub keys: Option<Seq<Seq<char>>>,
    pub stage: DescribeStage,
}

impl DeepView for DescribeConfig {
    type V = DescribeConfigView;

    open spec fn deep_view(&self) -> DescribeConfigView {
        DescribeConfigView {
            cluster: self.cluster@,
            name: self.name@,
            resource: self.resource,
            keys: self.keys.deep_view(),
            stage: self.stage,
        }
    }
}

/// A configuration entry of a resource, changed.
#[derive(Debug)]
pub struct AlterOne {
    pub cluster: String,
    pub resource_name: String,
    pub config: AlterableConfig,
}

/// What [`AlterOne`] stands for.
pub struct AlterOneView {
    pub cluster: Seq<char>,
    pub resource_name: Seq<char>,
    pub config: AlterableConfigView,
}

impl DeepView for AlterOne {
    type V = AlterOneView;

    open spec fn deep_view(&self) -> AlterOneView {
        AlterOneView {
            cluster: self.cluster@,
            resource_name: self.resource_name@,
            config: self.config.deep_view(),
        }
    }
}

/// Whether an entry is wanted.
pub open spec fn is_wanted(keys: Option<Seq<Seq<char>>>, name: Seq<char>) -> bool {
    keys matches Some(keys) ==> keys.contains(name)
}

/// An entry that a row tells of.
pub open spec fn config_entry(
    row: (Seq<char>, Option<Seq<char>>),
) -> DescribeConfigsResourceResultView {
    DescribeConfigsResourceResultView {
        name: row.0,
        value: row.1,
        read_only: false,
        is_default: Some(false),
        is_sensitive: false,
        config_source: Some(ConfigSource::DynamicTopicConfig),
        config_type: Some(ConfigType::Text),
        documentation: Some(""@),
    }
}

/// The entry that a row tells of, if it is wanted.
pub open spec fn wanted_entry(keys: Option<Seq<Seq<char>>>) -> spec_fn(
    (Seq<char>, Option<Seq<char>>),
) -> Seq<DescribeConfigsResourceResultView> {
    |row: (Seq<char>, Option<Seq<char>>)|
        if is_wanted(keys, row.0) {
            seq![config_entry(row)]
        } else {
            seq![]
        }
}

/// Whether an entry is wanted.
fn wants(keys: &Option<Vec<String>>, name: &String) -> (wanted: bool)
    ensures
        wanted == is_wanted(keys.deep_view(), name@),
{
    match keys {
        None => true,
        Some(list) => {
            let mut i: usize = 0;
            while i < list.len()
                invariant
                    i <= list.len(),
                    *keys == Some(*list),
                    forall|j: int| 0 <= j < i ==> #[trigger] list.deep_view()[j] != name@,
                decreases list.len() - i,
            {
                if same_text(&list[i], name) {
                    assert(list.deep_view()[i as int] == name@);
                    return true;
                }
                i = i + 1;
            }
            false
        },
    }
}

/// The entries that rows tell of, as far as they are wanted.
fn wanted_entries(
    keys: &Option<Vec<String>>,
    rows: &Vec<(String, Option<String>)>,
) -> (entries: Vec<DescribeConfigsResourceResult>)
    ensures
        entries.deep_view() == in_turn(rows.deep_view(), wanted_entry(keys.deep_view())),
{
    let ghost given = wanted_entry(keys.deep_view());
    let mut entries = no_items();
    assert(rows.deep_view().take(0) =~= Seq::empty());
    let mut i: usize = 0;
    while i < rows.len()
        invariant
            i <= rows.len(),
            given == wanted_entry(keys.deep_view()),
            entries.deep_view() == in_turn(rows.deep_view().take(i as int), given),
        decreases rows.len() - i,
    {
        let ghost next = rows.deep_view().take(i as int + 1);
        let row = &rows[i];
        assert(next.drop_last() =~= rows.deep_view().take(i as int));
        assert(next.last() == row.deep_view());
        if wants(keys, &row.0) {
            add_item(
                &mut entries,
                DescribeConfigsResourceResult {
                    name: row.0.clone(),
                    value: copy_opt_text(&row.1),
                    read_only: false,
                    is_default: Some(false),
                    is_sensitive: false,
                    config_source: Some(ConfigSource::DynamicTopicConfig),
                    config_type: Some(ConfigType::Text),
                    documentation: Some("".to_owned()),
                },
            );
        }
        i = i + 1;
        assert(entries.deep_view() =~= in_turn(next, given));
    }
    assert(rows.deep_view().take(i as int) =~= rows.deep_view());
    entries
}

impl DescribeConfigView {
    /// The answer, with the text of its code as the message.
    pub open spec fn result(
        self,
        error_code: ErrorCode,
        configs: Seq<DescribeConfigsResourceResultView>,
    ) -> DescribeConfigsResultView {
        DescribeConfigsResultView {
            error_code,
            error_message: Some(error_code),
            resource: self.resource,
            resource_name: self.name,
            configs,
        }
    }
}

impl Operation for DescribeConfig {
    type Output = DescribeConfigsResult;

    open spec fn valid(state: DescribeConfigView) -> bool {
        true
    }

    open spec fn asked(state: DescribeConfigView) -> Seq<RequestView> {
        match state.stage {
            DescribeStage::Exists => seq![
                RequestView::First(
                    on_topic(Sql::TopicSelectByName, state.cluster, state.name),
                    Shape::Int,
                ),
            ],
            DescribeStage::Rows => seq![
                RequestView::Query(
                    on_topic(Sql::TopicConfigurationSelect, state.cluster, state.name),
                    Shape::Configs,
                ),
            ],
        }
    }

    open spec fn turn(state: DescribeConfigView, replies: Seq<ReplyView>) -> Turn<
        DescribeConfigView,
        DescribeConfigsResultView,
    > {
        match state.stage {
            DescribeStage::Exists => match replies[0]->Int_0 {
                Some(_) => Turn::Next(DescribeConfigView { stage: DescribeStage::Rows, ..state }),
                None => Turn::End(
                    Ok(state.result(ErrorCode::UnknownTopicOrPartition, seq![])),
                ),
            },
            DescribeStage::Rows => Turn::End(
                Ok(
                    state.result(
                        ErrorCode::NoError,
                        in_turn(replies[0]->Configs_0, wanted_entry(state.keys)),
                    ),
                ),
            ),
        }
    }

    open spec fn in_range(state: DescribeConfigView, replies: Seq<ReplyView>) -> bool {
        true
    }

    fn requests(&self) -> Vec<Request> {
        let mut requests = no_requests();
        match self.stage {
            DescribeStage::Exists => {
                let made = statement2(
                    Sql::TopicSelectByName,
                    text(&self.cluster),
                    text(&self.name),
                );
                ask(&mut requests, Request::First(made, Shape::Int));
            },
            DescribeStage::Rows => {
                let made = statement2(
                    Sql::TopicConfigurationSelect,
                    text(&self.cluster),
                    text(&self.name),
                );
                ask(&mut requests, Request::Query(made, Shape::Configs));
            },
        }
        requests
    }

    fn is_in_range(&self, replies: &Vec<Reply>) -> bool {
        true
    }

    fn advance(self, replies: Vec<Reply>) -> Progress<DescribeConfig, DescribeConfigsResult> {
        assert(fits(Self::asked(self.deep_view())[0], replies.deep_view()[0]));
        let progress = match self.stage {
            DescribeStage::Exists => match number(only(replies)) {
                Some(_) => Progress::Next(DescribeConfig { stage: DescribeStage::Rows, ..self }),
                None => Progress::End(
                    Ok(
                        DescribeConfigsResult {
                            error_code: ErrorCode::UnknownTopicOrPartition,
                            error_message: Some(ErrorCode::UnknownTopicOrPartition),
                            resource: self.resource,
                            resource_name: self.name,
                            configs: no_items(),
                        },
                    ),
                ),
            },
            DescribeStage::Rows => {
                let rows = configs(only(replies));
                Progress::End(
                    Ok(
                        DescribeConfigsResult {
                            error_code: ErrorCode::NoError,
                            error_message: Some(ErrorCode::NoError),
                            resource: self.resource,
                            resource_name: self.name,
                            configs: wanted_entries(&self.keys, &rows),
                        },
                    ),
                )
            },
        };
        assert(progress.deep_view() == Self::turn(self.deep_view(), replies.deep_view()));
        progress
    }
}

impl Operation for AlterOne {
    type Output = ();

    open spec fn valid(state: AlterOneView) -> bool {
        true
    }

    open spec fn asked(state: AlterOneView) -> Seq<RequestView> {
        match state.config.config_operation {
            OpType::Put => seq![
                config_upsert(
                    state.cluster,
                    state.resource_name,
                    state.config.name,
                    state.config.value,
                ),
            ],
            OpType::Delete => seq![
                RequestView::Execute(
                    statement(
                        Sql::TopicConfigurationDelete,
                        seq![
                            text_value(state.cluster),
                            text_value(state.resource_name),
                            text_value(state.config.name),
                        ],
                    ),
                ),
            ],
            _ => seq![],
        }
    }

    open spec fn turn(state: AlterOneView, replies: Seq<ReplyView>) -> Turn<AlterOneView, ()> {
        match state.config.config_operation {
            OpType::Unknown(number) => Turn::End(Err(ErrorView::UnknownOpType(number))),
            _ => Turn::End(Ok(())),
        }
    }

    open spec fn in_range(state: AlterOneView, replies: Seq<ReplyView>) -> bool {
        true
    }

    fn requests(&self) -> Vec<Request> {
        match self.config.config_operation {
            OpType::Put => upsert_config(
                &self.cluster,
                &self.resource_name,
                &self.config.name,
                &self.config.value,
            ),
            OpType::Delete => {
                let made = statement3(
                    Sql::TopicConfigurationDelete,
                    text(&self.cluster),
                    text(&self.resource_name),
                    text(&self.config.name),
                );
                let mut requests = no_requests();
                ask(&mut requests, Request::Execute(made));
                requests
            },
            _ => no_requests(),
        }
    }

    fn is_in_range(&self, replies: &Vec<Reply>) -> bool {
        true
    }

    fn advance(self, replies: Vec<Reply>) -> Progress<AlterOne, ()> {
        match self.config.config_operation {
            OpType::Unknown(number) => Progress::End(Err(Error::UnknownOpType(number))),
            _ => Progress::End(Ok(())),
        }
    }
}

/// The configuration of a resource, changed entry by entry.
#[derive(Debug)]
pub struct AlterConfigs {
    pub resource_type: i8,
    pub resource_name: String,
    pub changes: InSequence<AlterOne, ()>,
}

/// What [`AlterConfigs`] stands for.
pub struct AlterConfigsView {
    pub resource_type: i8,
    pub resource_name: Seq<char>,
    pub changes: InSequenceView<AlterOneView, ()>,
}

impl DeepView for AlterConfigs {
    type V = AlterConfigsView;

    open spec fn deep_view(&self) -> AlterConfigsView {
        AlterConfigsView {
            resource_type: self.resource_type,
            resource_name: self.resource_name@,
            changes: self.changes.deep_view(),
        }
    }
}

impl Operation for AlterConfigs {
    type Output = AlterConfigsResourceResponse;

    open spec fn valid(state: AlterConfigsView) -> bool {
        true
    }

    open spec fn asked(state: AlterConfigsView) -> Seq<RequestView> {
        InSequence::<AlterOne, ()>::asked(state.changes)
    }

    open spec fn turn(state: AlterConfigsView, replies: Seq<ReplyView>) -> Turn<
        AlterConfigsView,
        AlterConfigsResourceResponseView,
    > {
        match InSequence::<AlterOne, ()>::turn(state.changes, replies) {
            Turn::Next(changes) => Turn::Next(AlterConfigsView { changes, ..state }),
            Turn::End(Ok(_)) => Turn::End(
                Ok(
                    AlterConfigsResourceResponseView {
                        error_code: ErrorCode::NoError,
                        error_message: None,
                        resource_type: state.resource_type,
                        resource_name: state.resource_name,
                    },
                ),
            ),
            Turn::End(Err(error)) => Turn::End(Err(error)),
        }
    }

    open spec fn in_range(state: AlterConfigsView, replies: Seq<ReplyView>) -> bool {
        true
    }

    fn requests(&self) -> Vec<Request> {
        self.changes.requests()
    }

    fn is_in_range(&self, replies: &Vec<Reply>) -> bool {
        true
    }

    fn advance(self, replies: Vec<Reply>) -> Progress<AlterConfigs, AlterConfigsResourceResponse> {
        let progress = match self.changes.advance(replies) {
            Progress::Next(changes) => Progress::Next(AlterConfigs { changes, ..self }),
            Progress::End(Ok(_)) => Progress::End(
                Ok(
                    AlterConfigsResourceResponse {
                        error_code: ErrorCode::NoError,
                        error_message: None,
                        resource_type: self.resource_type,
                        resource_name: self.resource_name,
                    },
                ),
            ),
            Progress::End(Err(error)) => Progress::End(Err(error)),
        };
        assert(progress.deep_view() == Self::turn(self.deep_view(), replies.deep_view()));
        progress
    }
}

/// A configuration entry, to be changed.
pub open spec fn config_change(cluster: Seq<char>, resource_name: Seq<char>) -> spec_fn(
    AlterableConfigView,
) -> AlterOneView {
    |config: AlterableConfigView| AlterOneView { cluster, resource_name, config }
}

impl<P, S, H> Mysql<P, S, H> {
    /// Describe the configuration of a resource. Only a topic has to exist.
    pub fn describe_config(
        &self,
        name: &str,
        resource: ConfigResource,
        keys: Option<&[String]>,
    ) -> (operation: Connected<DescribeConfig>)
        ensures
            operation.deep_view() == ConnectedView::Open(
                DescribeConfigView {
                    cluster: self.cluster@,
                    name: name@,
                    resource,
                    keys: keys.deep_view(),
                    stage: if resource is Topic {
                        DescribeStage::Exists
                    } else {
                        DescribeStage::Rows
                    },
                },
            ),
            Connected::<DescribeConfig>::valid(operation.deep_view()),
    {
        let stage = match resource {
            ConfigResource::Topic => DescribeStage::Exists,
            ConfigResource::Other(_) => DescribeStage::Rows,
        };
        let keys = match keys {
            Some(keys) => Some(copy_texts(keys)),
            None => None,
        };
        Connected::Open(
            DescribeConfig {
                cluster: self.cluster.clone(),
                name: name.to_owned(),
                resource,
                keys,
                stage,
            },
        )
    }

    /// Change the configuration of a resource, entry by entry.
    pub fn incremental_alter_resource(
        &self,
        resource: AlterConfigsResource,
    ) -> (operation: Connected<AlterConfigs>)
        ensures
            operation.deep_view() == ConnectedView::Open(
                AlterConfigsView {
                    resource_type: resource.resource_type,
                    resource_name: resource.resource_name@,
                    changes: in_sequence(
                        listed(resource.deep_view().configs).map_values(
                            config_change(self.cluster@, resource.resource_name@),
                        ),
                    ),
                },
            ),
            Connected::<AlterConfigs>::valid(operation.deep_view()),
    {
        let ghost made = config_change(self.cluster@, resource.resource_name@);
        let make = |config: &AlterableConfig| -> (operation: AlterOne)
            ensures
                operation.deep_view() == made(config.deep_view()),
        {
            AlterOne {
                cluster: self.cluster.clone(),
                resource_name: resource.resource_name.clone(),
                config: AlterableConfig {
                    name: config.name.clone(),
                    config_operation: config.config_operation,
                    value: copy_opt_text(&config.value),
                },
            }
        };
        let changes = for_each_listed(&resource.configs, make, Ghost(made));
        Connected::Open(
            AlterConfigs {
                resource_type: resource.resource_type,
                resource_name: resource.resource_name.clone(),
                changes,
            },
        )
    }
}

/// The entries that are described are those that are wanted, and no others.
pub proof fn only_wanted_entries_are_described(
    keys: Option<Seq<Seq<char>>>,
    rows: Seq<(Seq<char>, Option<Seq<char>>)>,
    entry: DescribeConfigsResourceResultView,
)
    ensures
        in_turn(rows, wanted_entry(keys)).contains(entry) <==> exists|i: int|
            0 <= i < rows.len() && is_wanted(keys, rows[i].0) && entry == config_entry(
                #[trigger] rows[i],
            ),
{
    let given = wanted_entry(keys);
    given_by_an_item(rows, given, entry);
    assert forall|i: int| 0 <= i < rows.len() implies (given(#[trigger] rows[i]).contains(entry)
        <==> is_wanted(keys, rows[i].0) && entry == config_entry(rows[i])) by {
        let one = given(rows[i]);
        if is_wanted(keys, rows[i].0) {
            assert(one[0] == config_entry(rows[i]));
        }
    }
}

/// The entry of each row, in the order of the rows.
proof fn each_row_is_an_entry(rows: Seq<(Seq<char>, Option<Seq<char>>)>)
    ensures
        in_turn(rows, wanted_entry(None)) == rows.map_values(
            |row: (Seq<char>, Option<Seq<char>>)| config_entry(row),
        ),
    decreases rows.len(),
{
    let entries = rows.map_values(|row: (Seq<char>, Option<Seq<char>>)| config_entry(row));
    if rows.len() > 0 {
        each_row_is_an_entry(rows.drop_last());
        assert(in_turn(rows, wanted_entry(None)) =~= entries);
    } else {
        assert(in_turn(rows, wanted_entry(None)) =~= entries);
    }
}

/// The wanted entries are those of all entries whose names are wanted, in their order.
proof fn wanted_entries_are_filtered(
    keys: Seq<Seq<char>>,
    rows: Seq<(Seq<char>, Option<Seq<char>>)>,
)
    ensures
        in_turn(rows, wanted_entry(Some(keys))) == in_turn(rows, wanted_entry(None)).filter(
            |entry: DescribeConfigsResourceResultView| keys.contains(entry.name),
        ),
    decreases rows.len(),
{
    reveal(Seq::filter);
    let wanted = |entry: DescribeConfigsResourceResultView| keys.contains(entry.name);
    let all = in_turn(rows, wanted_entry(None));
    if rows.len() > 0 {
        wanted_entries_are_filtered(keys, rows.drop_last());
        assert(all.drop_last() =~= in_turn(rows.drop_last(), wanted_entry(None)));
        assert(all.last() == config_entry(rows.last()));
        assert(in_turn(rows, wanted_entry(Some(keys))) =~= all.filter(wanted));
    } else {
        assert(in_turn(rows, wanted_entry(Some(keys))) =~= all.filter(wanted));
    }
}

/// Without a list of keys every entry is described. With one, those of these entries whose names
/// are in the list are described. Both keep the order of the rows.
pub proof fn entries_are_described_in_order(
    state: DescribeConfigView,
    keys: Seq<Seq<char>>,
    rows: Seq<(Seq<char>, Option<Seq<char>>)>,
)
    requires
        state.stage is Rows,
        state.keys == Some(keys),
    ensures
        ({
            let all = rows.map_values(|row: (Seq<char>, Option<Seq<char>>)| config_entry(row));
            let replies = seq![ReplyView::Configs(rows)];
            &&& DescribeConfig::turn(DescribeConfigView { keys: None, ..state }, replies) == Turn::<
                DescribeConfigView,
                DescribeConfigsResultView,
            >::End(Ok(state.result(ErrorCode::NoError, all)))
            &&& DescribeConfig::turn(state, replies) == Turn::<
                DescribeConfigView,
                DescribeConfigsResultView,
            >::End(
                Ok(
                    state.result(
                        ErrorCode::NoError,
                        all.filter(
                            |entry: DescribeConfigsResourceResultView| keys.contains(entry.name),
                        ),
                    ),
                ),
            )
        }),
{
    each_row_is_an_entry(rows);
    wanted_entries_are_filtered(keys, rows);
}

/// An entry that is set by a change is asked for with the value that is described afterwards.
pub proof fn a_change_is_described(state: AlterOneView, keys: Option<Seq<Seq<char>>>)
    requires
        state.config.config_operation is Put,
        is_wanted(keys, state.config.name),
    ensures
        AlterOne::asked(state) == seq![
            config_upsert(
                state.cluster,
                state.resource_name,
                state.config.name,
                state.config.value,
            ),
        ],
        in_turn(seq![(state.config.name, state.config.value)], wanted_entry(keys)) == seq![
            config_entry((state.config.name, state.config.value)),
        ],
{
    let rows = seq![(state.config.name, state.config.value)];
    assert(rows.drop_last() =~= Seq::empty());
    assert(in_turn(rows.drop_last(), wanted_entry(keys)) =~= Seq::empty());
    assert(in_turn(rows, wanted_entry(keys)) =~= seq![config_entry(rows[0])]);
}

/// An entry of a configuration, as it is described: under its name and with its value, as one that
/// was set for the topic and can be changed.
pub open spec fn described_entry(
    name: Seq<char>,
    value: Option<Seq<char>>,
) -> DescribeConfigsResourceResultView {
    DescribeConfigsResourceResultView {
        name,
        value,
        read_only: false,
        is_default: Some(false),
        is_sensitive: false,
        config_source: Some(ConfigSource::DynamicTopicConfig),
        config_type: Some(ConfigType::Text),
        documentation: Some(""@),
    }
}

/// A configuration is described by the entries that are stored of it, those whose names are asked
/// for or all where no names are, in their order and with their values. A topic is looked up first,
/// and one that is not there has no entries. Another resource is not looked up.
pub proof fn a_configuration_is_described_as_it_is_stored(
    cluster: Seq<char>,
    name: Seq<char>,
    resource: ConfigResource,
    keys: Option<Seq<Seq<char>>>,
    found: Option<i32>,
    rows: Seq<(Seq<char>, Option<Seq<char>>)>,
)
    ensures
        ({
            let params = seq![ValueView::Text(cluster), ValueView::Text(name)];
            let exists = (
                seq![looks_up(Sql::TopicSelectByName, params, Shape::Int)],
                seq![ReplyView::Int(found)],
            );
            let select = (
                seq![queries(Sql::TopicConfigurationSelect, params, Shape::Configs)],
                seq![ReplyView::Configs(rows)],
            );
            let all = Seq::new(rows.len(), |i: int| described_entry(rows[i].0, rows[i].1));
            let described = Ok::<_, ErrorView>(
                DescribeConfigsResultView {
                    error_code: ErrorCode::NoError,
                    error_message: Some(ErrorCode::NoError),
                    resource,
                    resource_name: name,
                    configs: match keys {
                        Some(keys) => all.filter(
                            |entry: DescribeConfigsResourceResultView| keys.contains(entry.name),
                        ),
                        None => all,
                    },
                },
            );
            let at = |stage: DescribeStage|
                DescribeConfigView { cluster, name, resource, keys, stage };
            &&& talks::<DescribeConfig>(at(DescribeStage::Rows), seq![select], described)
            &&& match found {
                Some(_) => talks::<DescribeConfig>(
                    at(DescribeStage::Exists),
                    seq![exists, select],
                    described,
                ),
                None => talks::<DescribeConfig>(
                    at(DescribeStage::Exists),
                    seq![exists],
                    Ok(
                        DescribeConfigsResultView {
                            error_code: ErrorCode::UnknownTopicOrPartition,
                            error_message: Some(ErrorCode::UnknownTopicOrPartition),
                            resource,
                            resource_name: name,
                            configs: seq![],
                        },
                    ),
                ),
            }
        }),
{
    let params = seq![ValueView::Text(cluster), ValueView::Text(name)];
    let exists = seq![looks_up(Sql::TopicSelectByName, params, Shape::Int)];
    let existing = seq![ReplyView::Int(found)];
    let select = seq![queries(Sql::TopicConfigurationSelect, params, Shape::Configs)];
    let selecting = seq![ReplyView::Configs(rows)];
    let all = Seq::new(rows.len(), |i: int| described_entry(rows[i].0, rows[i].1));
    let configs = match keys {
        Some(keys) => all.filter(
            |entry: DescribeConfigsResourceResultView| keys.contains(entry.name),
        ),
        None => all,
    };
    let described: Result<DescribeConfigsResultView, ErrorView> = Ok(
        DescribeConfigsResultView {
            error_code: ErrorCode::NoError,
            error_message: Some(ErrorCode::NoError),
            resource,
            resource_name: name,
            configs,
        },
    );
    let first = DescribeConfigView { cluster, name, resource, keys, stage: DescribeStage::Exists };
    let second = DescribeConfigView { cluster, name, resource, keys, stage: DescribeStage::Rows };
    each_row_is_an_entry(rows);
    assert(in_turn(rows, wanted_entry(None)) =~= all);
    match keys {
        Some(list) => wanted_entries_are_filtered(list, rows),
        None => {},
    }
    talk_ends::<DescribeConfig>(second, select, selecting, described);
    match found {
        Some(_) => {
            talk_goes_on::<DescribeConfig>(
                first,
                exists,
                existing,
                second,
                seq![(select, selecting)],
                described,
            );
            assert(seq![(exists, existing)] + seq![(select, selecting)] =~= seq![
                (exists, existing),
                (select, selecting),
            ]);
        },
        None => {
            talk_ends::<DescribeConfig>(
                first,
                exists,
                existing,
                Ok(
                    DescribeConfigsResultView {
                        error_code: ErrorCode::UnknownTopicOrPartition,
                        error_message: Some(ErrorCode::UnknownTopicOrPartition),
                        resource,
                        resource_name: name,
                        configs: seq![],
                    },
                ),
            );
        },
    }
}

/// An entry that is to be set is written under its name with its value, one that is to be deleted
/// is deleted under its name, and for another known change nothing is done. A change that is not
/// known is an error, which holds its number.
pub proof fn an_entry_is_changed_as_it_is_asked_for(
    cluster: Seq<char>,
    resource_name: Seq<char>,
    name: Seq<char>,
    value: Option<Seq<char>>,
    operation: OpType,
    rows: u64,
)
    ensures
        ({
            let state = config_change(cluster, resource_name)(
                AlterableConfigView { name, config_operation: operation, value },
            );
            let place = seq![
                ValueView::Text(cluster),
                ValueView::Text(resource_name),
                ValueView::Text(name),
            ];
            match operation {
                OpType::Put => talks::<AlterOne>(
                    state,
                    seq![
                        (
                            seq![
                                executes(
                                    Sql::TopicConfigurationUpsert,
                                    place.push(
                                        match value {
                                            Some(value) => ValueView::Text(value),
                                            None => ValueView::Null,
                                        },
                                    ),
                                ),
                            ],
                            seq![ReplyView::Affected(rows)],
                        ),
                    ],
                    Ok(()),
                ),
                OpType::Delete => talks::<AlterOne>(
                    state,
                    seq![
                        (
                            seq![executes(Sql::TopicConfigurationDelete, place)],
                            seq![ReplyView::Affected(rows)],
                        ),
                    ],
                    Ok(()),
                ),
                OpType::Unknown(number) => talks::<AlterOne>(
                    state,
                    seq![(seq![], seq![])],
                    Err(ErrorView::UnknownOpType(number)),
                ),
                _ => talks::<AlterOne>(state, seq![(seq![], seq![])], Ok(())),
            }
        }),
{
    let state = config_change(cluster, resource_name)(
        AlterableConfigView { name, config_operation: operation, value },
    );
    let place = seq![
        ValueView::Text(cluster),
        ValueView::Text(resource_name),
        ValueView::Text(name),
    ];
    match operation {
        OpType::Put => {
            let asked = seq![
                executes(
                    Sql::TopicConfigurationUpsert,
                    place.push(
                        match value {
                            Some(value) => ValueView::Text(value),
                            None => ValueView::Null,
                        },
                    ),
                ),
            ];
            assert(AlterOne::asked(state)[0]->Execute_0.params =~= asked[0]->Execute_0.params);
            assert(AlterOne::asked(state) =~= asked);
            talk_ends::<AlterOne>(state, asked, seq![ReplyView::Affected(rows)], Ok(()));
        },
        OpType::Delete => {
            talk_ends::<AlterOne>(
                state,
                seq![executes(Sql::TopicConfigurationDelete, place)],
                seq![ReplyView::Affected(rows)],
                Ok(()),
            );
        },
        _ => {},
    }
}

/// The changes of a configuration talk as a sequence of them does, and the answer names the
/// resource that was changed. The first change that fails is the last.
pub proof fn a_configuration_is_changed_entry_by_entry(
    resource_type: i8,
    resource_name: Seq<char>,
    changes: InSequenceView<AlterOneView, ()>,
    talk: Seq<Exchange>,
    end: Result<Seq<()>, ErrorView>,
)
    requires
        talks::<InSequence<AlterOne, ()>>(changes, talk, end),
    ensures
        talks::<AlterConfigs>(
            AlterConfigsView { resource_type, resource_name, changes },
            talk,
            match end {
                Ok(_) => Ok(
                    AlterConfigsResourceResponseView {
                        error_code: ErrorCode::NoError,
                        error_message: None,
                        resource_type,
                        resource_name,
                    },
                ),
                Err(error) => Err(error),
            },
        ),
    decreases talk.len(),
{
    match InSequence::<AlterOne, ()>::turn(changes, talk[0].1) {
        Turn::Next(next) => a_configuration_is_changed_entry_by_entry(
            resource_type,
            resource_name,
            next,
            talk.drop_first(),
            end,
        ),
        _ => {},
    }
}

} // verus!
