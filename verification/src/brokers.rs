//! Brokers are made known, and the database is asked whether it answers.

use vstd::prelude::*;

use crate::engine::Mysql;
use crate::error::{Error, ErrorView};
use crate::operation::{no_rows, Operation, Progress, Turn, NO_ROWS};
use crate::request::{
    ask, fits, no_requests, number, only, Reply, ReplyView, Request, RequestView, PING,
};
use crate::sql::Sql;
use crate::talk::{a_connection_is_taken_first, executes, on_a_connection, talk_ends, talks};
use crate::transaction::{Connected, ConnectedView};
use crate::value::{statement, statement1, text, text_value, ValueView};
use crate::wire::BrokerRegistrationRequest;

verus! {

/// A broker, made known with its cluster.
#[derive(Debug)]
pub struct RegisterBroker {
    pub cluster_id: String,
}

/// What [`RegisterBroker`] stands for.
pub struct RegisterBrokerView {
    pub cluster_id: Seq<char>,
}

impl DeepView for RegisterBroker {
    type V = RegisterBrokerView;

    open spec fn deep_view(&self) -> RegisterBrokerView {
        RegisterBrokerView {
            cluster_id: self.cluster_id@,
        }
    }
}

impl Operation for RegisterBroker {
    type Output = ();

    open spec fn valid(state: RegisterBrokerView) -> bool {
        true
    }

    open spec fn asked(state: RegisterBrokerView) -> Seq<RequestView> {
        seq![
            RequestView::Execute(
                statement(Sql::ClusterInsert, seq![text_value(state.cluster_id)]),
            ),
        ]
    }

    open spec fn turn(state: RegisterBrokerView, replies: Seq<ReplyView>) -> Turn<
        RegisterBrokerView,
        (),
    > {
        Turn::End(Ok(()))
    }

    open spec fn in_range(state: RegisterBrokerView, replies: Seq<ReplyView>) -> bool {
        true
    }

    fn requests(&self) -> Vec<Request> {
        let mut requests = no_requests();
        let made = statement1(Sql::ClusterInsert, text(&self.cluster_id));
        ask(&mut requests, Request::Execute(made));
        requests
    }

    fn is_in_range(&self, replies: &Vec<Reply>) -> bool {
        true
    }

    fn advance(self, replies: Vec<Reply>) -> Progress<RegisterBroker, ()> {
        Progress::End(Ok(()))
    }
}

/// The database, asked whether it answers.
#[derive(Clone, Copy, Debug, PartialEq, Eq, Structural)]
pub struct Ping {}

impl DeepView for Ping {
    type V = Ping;

    open spec fn deep_view(&self) -> Ping {
        *self
    }
}

impl Operation for Ping {
    type Output = ();

    open spec fn valid(state: Ping) -> bool {
        true
    }

    open spec fn asked(state: Ping) -> Seq<RequestView> {
        seq![RequestView::Ping]
    }

    open spec fn turn(state: Ping, replies: Seq<ReplyView>) -> Turn<Ping, ()> {
        match replies[0]->Int_0 {
            Some(_) => Turn::End(Ok(())),
            None => no_rows(),
        }
    }

    open spec fn in_range(state: Ping, replies: Seq<ReplyView>) -> bool {
        true
    }

    fn requests(&self) -> Vec<Request> {
        let mut requests = no_requests();
        ask(&mut requests, Request::Ping);
        requests
    }

    fn is_in_range(&self, replies: &Vec<Reply>) -> bool {
        true
    }

    fn advance(self, replies: Vec<Reply>) -> Progress<Ping, ()> {
        assert(fits(Self::asked(self.deep_view())[0], replies.deep_view()[0]));
        let progress = match number(only(replies)) {
            Some(_) => Progress::End(Ok(())),
            None => Progress::End(Err(Error::Message(NO_ROWS.to_owned()))),
        };
        assert(progress.deep_view() == Self::turn(self.deep_view(), replies.deep_view()));
        progress
    }
}

impl<P, S, H> Mysql<P, S, H> {
    /// Make a broker known with its cluster.
    pub fn register_broker(
        &self,
        broker_registration: BrokerRegistrationRequest,
    ) -> (operation: Connected<RegisterBroker>)
        ensures
            operation.deep_view() == ConnectedView::Open(
                RegisterBrokerView { cluster_id: broker_registration.cluster_id@ },
            ),
            Connected::<RegisterBroker>::valid(operation.deep_view()),
    {
        Connected::Open(RegisterBroker { cluster_id: broker_registration.cluster_id })
    }

    /// Ask the database whether it answers.
    pub fn ping(&self) -> (operation: Connected<Ping>)
        ensures
            operation.deep_view() == ConnectedView::Open(Ping {  }),
            Connected::<Ping>::valid(operation.deep_view()),
    {
        Connected::Open(Ping {  })
    }
}

/// A broker that registers notes the cluster that it names, and nothing else.
pub proof fn a_registration_notes_the_cluster(cluster_id: Seq<char>, rows: u64)
    ensures
        talks::<Connected<RegisterBroker>>(
            ConnectedView::Open(RegisterBrokerView { cluster_id }),
            on_a_connection(
                seq![
                    (
                        seq![executes(Sql::ClusterInsert, seq![ValueView::Text(cluster_id)])],
                        seq![ReplyView::Affected(rows)],
                    ),
                ],
            ),
            Ok(()),
        ),
{
    let state = RegisterBrokerView { cluster_id };
    let asked = seq![executes(Sql::ClusterInsert, seq![ValueView::Text(cluster_id)])];
    talk_ends::<RegisterBroker>(state, asked, seq![ReplyView::Affected(rows)], Ok(()));
    a_connection_is_taken_first::<RegisterBroker>(
        state,
        seq![(asked, seq![ReplyView::Affected(rows)])],
        Ok(()),
    );
}

/// A ping succeeds where the database answers with a row, whatever number is in it, and fails where
/// it answers with none.
pub proof fn a_ping_succeeds_with_a_row(row: Option<i32>)
    ensures
        talks::<Connected<Ping>>(
            ConnectedView::Open(Ping {  }),
            on_a_connection(seq![(seq![RequestView::Ping], seq![ReplyView::Int(row)])]),
            match row {
                Some(_) => Ok(()),
                None => Err(ErrorView::Message("No rows returned"@)),
            },
        ),
        PING@ == "SELECT 1 + 1"@,
{
    let end: Result<(), ErrorView> = match row {
        Some(_) => Ok(()),
        None => Err(ErrorView::Message("No rows returned"@)),
    };
    talk_ends::<Ping>(Ping {  }, seq![RequestView::Ping], seq![ReplyView::Int(row)], end);
    a_connection_is_taken_first::<Ping>(
        Ping {  },
        seq![(seq![RequestView::Ping], seq![ReplyView::Int(row)])],
        end,
    );
}

} // verus!
