//! The engine and how it is built.

use std::marker::PhantomData;

use vstd::prelude::*;

use crate::error::{Error, ErrorView};
use crate::listener::{url_of_text, Listener, DEFAULT_LISTENER};
use crate::value::copy_opt_text;
use crate::wire::{DescribeClusterBroker, DescribeClusterBrokerView};

verus! {

/// The most connections that are kept to the database.
pub const POOL_MAX_SIZE: usize = 16;

/// The MySQL storage engine, with its pool, its schema registry and its lake.
#[derive(Debug)]
pub struct Mysql<P, S, H> {
    pub cluster: String,
    pub node: i32,
    pub advertised_listener: Listener,
    pub pool: P,
    pub schemas: Option<S>,
    pub lake: Option<H>,
}

/// Builds the engine.
#[derive(Debug)]
pub struct Builder<C, N, L, P, S, H> {
    pub cluster: C,
    pub node: N,
    pub advertised_listener: L,
    pub pool: P,
    pub schemas: Option<S>,
    pub lake: Option<H>,
}

impl<C: Default, N: Default, L: Default, P: Default, S, H> Default for Builder<
    C,
    N,
    L,
    P,
    S,
    H,
> {
    fn default() -> (builder: Self)
        ensures
            call_ensures(C::default, (), builder.cluster),
            call_ensures(N::default, (), builder.node),
            call_ensures(L::default, (), builder.advertised_listener),
            call_ensures(P::default, (), builder.pool),
            builder.schemas is None,
            builder.lake is None,
    {
        Builder {
            cluster: C::default(),
            node: N::default(),
            advertised_listener: L::default(),
            pool: P::default(),
            schemas: None,
            lake: None,
        }
    }
}

impl<C, N, L, P, S, H> Builder<C, N, L, P, S, H> {
    /// Name the cluster.
    pub fn cluster<T: Into<String>>(self, cluster: T) -> (builder: Builder<String, N, L, P, S, H>)
        ensures
            call_ensures(T::into, (cluster,), builder.cluster),
            builder == (Builder {
                cluster: builder.cluster,
                node: self.node,
                advertised_listener: self.advertised_listener,
                pool: self.pool,
                schemas: self.schemas,
                lake: self.lake,
            }),
    {
        Builder {
            cluster: cluster.into(),
            node: self.node,
            advertised_listener: self.advertised_listener,
            pool: self.pool,
            schemas: self.schemas,
            lake: self.lake,
        }
    }

    /// Number the node.
    pub fn node(self, node: i32) -> (builder: Builder<C, i32, L, P, S, H>)
        ensures
            builder == (Builder {
                cluster: self.cluster,
                node,
                advertised_listener: self.advertised_listener,
                pool: self.pool,
                schemas: self.schemas,
                lake: self.lake,
            }),
    {
        Builder {
            cluster: self.cluster,
            node,
            advertised_listener: self.advertised_listener,
            pool: self.pool,
            schemas: self.schemas,
            lake: self.lake,
        }
    }

    /// Give the address under which the engine is reached.
    pub fn advertised_listener(self, advertised_listener: Listener) -> (builder: Builder<
        C,
        N,
        Listener,
        P,
        S,
        H,
    >)
        ensures
            builder == (Builder {
                cluster: self.cluster,
                node: self.node,
                advertised_listener,
                pool: self.pool,
                schemas: self.schemas,
                lake: self.lake,
            }),
    {
        Builder {
            cluster: self.cluster,
            node: self.node,
            advertised_listener,
            pool: self.pool,
            schemas: self.schemas,
            lake: self.lake,
        }
    }

    /// Give the pool of connections.
    pub fn pool<Q>(self, pool: Q) -> (builder: Builder<C, N, L, Q, S, H>)
        ensures
            builder == (Builder {
                cluster: self.cluster,
                node: self.node,
                advertised_listener: self.advertised_listener,
                pool,
                schemas: self.schemas,
                lake: self.lake,
            }),
    {
        Builder {
            cluster: self.cluster,
            node: self.node,
            advertised_listener: self.advertised_listener,
            pool,
            schemas: self.schemas,
            lake: self.lake,
        }
    }

    /// Give the schema registry, if there is one.
    pub fn schemas(self, schemas: Option<S>) -> (builder: Builder<C, N, L, P, S, H>)
        ensures
            builder == (Builder { schemas, ..self }),
    {
        Builder { schemas, ..self }
    }

    /// Give the lake, if there is one.
    pub fn lake(self, lake: Option<H>) -> (builder: Self)
        ensures
            builder == (Builder { lake, ..self }),
    {
        Builder { lake, ..self }
    }
}

impl<P, S, H> Builder<String, i32, Listener, P, S, H> {
    /// The engine.
    pub fn build(self) -> (engine: Mysql<P, S, H>)
        ensures
            engine == (Mysql {
                cluster: self.cluster,
                node: self.node,
                advertised_listener: self.advertised_listener,
                pool: self.pool,
                schemas: self.schemas,
                lake: self.lake,
            }),
    {
        Mysql {
            cluster: self.cluster,
            node: self.node,
            advertised_listener: self.advertised_listener,
            pool: self.pool,
            schemas: self.schemas,
            lake: self.lake,
        }
    }
}

/// The text of the error that `mysql_async::Opts::from_url` gives for a text, or `None` where the
/// text is the URL of a database.
pub uninterp spec fn connection_fault(text: Seq<char>) -> Option<Seq<char>>;

/// `mysql_async::Opts::from_url`: the text of the error where a text is not the URL of a database,
/// which is [`connection_fault`].
#[verifier::external_body]
fn check_connection(url: &str) -> (fault: Option<String>)
    ensures
        fault.deep_view() == connection_fault(url@),
{
    mysql_async::Opts::from_url(url).err().map(|fault| fault.to_string())
}

/// A builder of an engine on the database at a URL. Where the pool is to be, it holds the URL.
pub type UrlBuilder<S, H> = Builder<
    PhantomData<String>,
    PhantomData<i32>,
    Listener,
    String,
    S,
    H,
>;

/// What a URL, what is wrong with it, and the default address make.
pub open spec fn builder_made<S, H>(
    builder: Result<UrlBuilder<S, H>, Error>,
    connection: Seq<char>,
    fault: Option<Seq<char>>,
    listener: Result<(Seq<char>, Option<Seq<char>>, Option<u16>), Seq<char>>,
) -> bool {
    match (fault, listener) {
        (Some(fault), _) => builder matches Err(error) && error.deep_view()
            == ErrorView::Message(fault),
        (None, Err(fault)) => builder matches Err(error) && error.deep_view() == ErrorView::Url(
            fault,
        ),
        (None, Ok(listener)) => builder matches Ok(builder) && {
            &&& builder.pool@ == connection
            &&& builder.advertised_listener.deep_view() == listener
            &&& builder.schemas is None
            &&& builder.lake is None
        },
    }
}

impl<S, H> Mysql<String, S, H> {
    /// A builder of an engine on the database at a URL, with the default address.
    pub fn builder(connection: &str) -> (builder: Result<UrlBuilder<S, H>, Error>)
        ensures
            builder_made(
                builder,
                connection@,
                connection_fault(connection@),
                url_of_text(DEFAULT_LISTENER@),
            ),
    {
        let fault = check_connection(connection);
        Self::builder_at(connection, fault, Listener::parse(DEFAULT_LISTENER))
    }

    /// A builder of an engine on the database at a URL, with what is wrong with the URL, if
    /// anything is, and with the address, if there is one.
    pub fn builder_at(
        connection: &str,
        fault: Option<String>,
        listener: Result<Listener, Error>,
    ) -> (builder: Result<UrlBuilder<S, H>, Error>)
        ensures
            match (fault, listener) {
                (Some(fault), _) => builder matches Err(error) && error.deep_view()
                    == ErrorView::Message(fault@),
                (None, Err(error)) => builder matches Err(same) && same == error,
                (None, Ok(listener)) => builder matches Ok(builder) && {
                    &&& builder.pool@ == connection@
                    &&& builder.advertised_listener == listener
                    &&& builder.schemas is None
                    &&& builder.lake is None
                },
            },
    {
        match (fault, listener) {
            (Some(fault), _) => Err(Error::Message(fault)),
            (None, Err(error)) => Err(error),
            (None, Ok(advertised_listener)) => Ok(
                Builder {
                    cluster: PhantomData,
                    node: PhantomData,
                    advertised_listener,
                    pool: connection.to_owned(),
                    schemas: None,
                    lake: None,
                },
            ),
        }
    }
}

/// The host that is told where the advertised address has none.
pub const DEFAULT_HOST: &'static str = "0.0.0.0";

/// The port that is told where the advertised address has none.
pub const DEFAULT_PORT: u16 = 9092;

impl<P, S, H> Mysql<P, S, H> {
    /// The brokers of the cluster: this node alone, at its advertised address.
    pub open spec fn broker_list(&self) -> Seq<DescribeClusterBrokerView> {
        seq![
            DescribeClusterBrokerView {
                broker_id: self.node,
                host: match self.advertised_listener.host {
                    Some(host) => host@,
                    None => DEFAULT_HOST@,
                },
                port: match self.advertised_listener.port {
                    Some(port) => port as i32,
                    None => DEFAULT_PORT as i32,
                },
                rack: None,
            },
        ]
    }

    /// The brokers of the cluster.
    pub(crate) fn own_brokers(&self) -> (brokers: Vec<DescribeClusterBroker>)
        ensures
            brokers.deep_view() == self.broker_list(),
    {
        let host = match &self.advertised_listener.host {
            Some(host) => host.clone(),
            None => DEFAULT_HOST.to_owned(),
        };
        let port: i32 = match self.advertised_listener.port {
            Some(port) => port as i32,
            None => DEFAULT_PORT as i32,
        };
        let brokers = vec![DescribeClusterBroker { broker_id: self.node, host, port, rack: None }];
        assert(brokers.deep_view() =~= self.broker_list());
        brokers
    }

    /// The brokers of the cluster.
    pub fn brokers(&self) -> (brokers: Result<Vec<DescribeClusterBroker>, Error>)
        ensures
            brokers matches Ok(brokers) && brokers.deep_view() == self.broker_list(),
    {
        Ok(self.own_brokers())
    }

    /// What a measurement of a statement is told with: its text and the cluster.
    pub fn attributes_for_sql(&self, sql: &str) -> (attributes: Vec<(String, String)>)
        ensures
            attributes.deep_view() == seq![("sql"@, sql@), ("cluster_id"@, self.cluster@)],
    {
        let attributes = vec![
            ("sql".to_owned(), sql.to_owned()),
            ("cluster_id".to_owned(), self.cluster.clone()),
        ];
        assert(attributes.deep_view() =~= seq![("sql"@, sql@), ("cluster_id"@, self.cluster@)]);
        attributes
    }

    /// The name of the cluster.
    pub fn cluster_id(&self) -> (cluster: Result<String, Error>)
        ensures
            cluster matches Ok(cluster) && cluster@ == self.cluster@,
    {
        Ok(self.cluster.clone())
    }

    /// The number of the node.
    pub fn node(&self) -> (node: Result<i32, Error>)
        ensures
            node matches Ok(node) && node == self.node,
    {
        Ok(self.node)
    }

    /// The address under which the engine is reached.
    pub fn advertised_listener(&self) -> (listener: Result<Listener, Error>)
        ensures
            listener matches Ok(listener) && listener.deep_view()
                == self.advertised_listener.deep_view(),
    {
        Ok(
            Listener {
                url: self.advertised_listener.url.clone(),
                host: copy_opt_text(&self.advertised_listener.host),
                port: self.advertised_listener.port,
            },
        )
    }
}

/// The cluster has one broker: this node, at the host and the port of its advertised address, or at
/// any address and the usual port where that names none.
pub proof fn the_node_is_the_only_broker<P, S, H>(engine: Mysql<P, S, H>)
    ensures
        engine.broker_list() == seq![
            DescribeClusterBrokerView {
                broker_id: engine.node,
                host: match engine.advertised_listener.host {
                    Some(host) => host@,
                    None => "0.0.0.0"@,
                },
                port: match engine.advertised_listener.port {
                    Some(port) => port as i32,
                    None => 9092i32,
                },
                rack: None,
            },
        ],
{
}

/// A builder on a database holds the URL of the database and the address that was parsed, without a
/// schema registry or a lake. What is wrong with the URL comes before what is wrong with the
/// address.
pub proof fn a_builder_holds_what_it_was_made_of<S, H>(
    builder: Result<UrlBuilder<S, H>, Error>,
    connection: Seq<char>,
    fault: Option<Seq<char>>,
    listener: Result<(Seq<char>, Option<Seq<char>>, Option<u16>), Seq<char>>,
)
    requires
        builder_made(builder, connection, fault, listener),
    ensures
        builder is Ok <==> fault is None && listener is Ok,
        builder matches Ok(made) ==> {
            &&& made.pool@ == connection
            &&& made.advertised_listener.url@ == (listener->Ok_0).0
            &&& made.advertised_listener.host.deep_view() == (listener->Ok_0).1
            &&& made.advertised_listener.port == (listener->Ok_0).2
            &&& made.schemas is None
            &&& made.lake is None
        },
        builder matches Err(error) ==> error.deep_view() == match fault {
            Some(fault) => ErrorView::Message(fault),
            None => ErrorView::Url(listener->Err_0),
        },
{
}

/// Where nothing else was said, an engine advertises the local address, is reached at any address
/// and the usual port, and keeps up to sixteen connections.
pub proof fn an_engine_has_its_defaults()
    ensures
        DEFAULT_LISTENER@ == "tcp://127.0.0.1/"@,
        DEFAULT_HOST@ == "0.0.0.0"@,
        DEFAULT_PORT == 9092,
        POOL_MAX_SIZE == 16,
{
}

} // verus!
