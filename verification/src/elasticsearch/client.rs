//! The session with one cluster.
//!
//! A session binds a transport handle to the settings it was built from and
//! to the connection's identity. It exists only for settings that passed
//! validation and a cluster that answered the probe. The network is not
//! used here: each operation takes the outcome of the call that its caller
//! made, and says what the caller gets for it.

use crate::config::{
    has_http_scheme, lemma_validation_accepts_valid_hosts, validation_error, ElasticsearchConfig,
};
use crate::error::{AppError, AppErrorView, AppResult};
use crate::json::{items_view, Json};
use crate::text::{
    copy_strings, join, joined, lemma_joined_holds_each_part, lemma_occurs_in_itself,
    lemma_occurs_in_longer, occurs_in, texts, views,
};
use vstd::prelude::*;
use vstd::string::*;

pub use crate::elasticsearch::cluster::{ClusterHealth, ClusterInfo, NodeInfo};
pub use crate::elasticsearch::indices::{IndexInfo, ShardInfo};
pub use crate::elasticsearch::snapshots::{
    RepositoryRequest, Snapshot, SnapshotDeletion, SnapshotRepository, SnapshotRequest,
    SnapshotShards,
};

use crate::elasticsearch::cluster::{cluster_health, cluster_info};
use crate::elasticsearch::indices::{index_infos, shard_infos};
use crate::elasticsearch::snapshots::{
    optional_texts, repositories, repository_body, snapshot_body, snapshots,
};

verus! {

/// `elasticsearch::Elasticsearch`, the client handle that a session owns.
/// Nothing inside a handle is visible here; a session only carries it.
#[verifier::external_type_specification]
#[verifier::external_body]
pub struct ExElasticsearch(::elasticsearch::Elasticsearch);

/// Who a connection is: its id, the name it is shown under, its hosts.
#[derive(Debug, PartialEq, Eq)]
pub struct ConnectionInfo {
    pub id: String,
    pub name: String,
    pub hosts: Vec<String>,
    pub is_active: bool,
}

/// A [`ConnectionInfo`] over sequences.
pub struct ConnectionInfoView {
    pub id: Seq<char>,
    pub name: Seq<char>,
    pub hosts: Seq<Seq<char>>,
    pub is_active: bool,
}

impl View for ConnectionInfo {
    type V = ConnectionInfoView;

    open spec fn view(&self) -> ConnectionInfoView {
        ConnectionInfoView {
            id: self.id@,
            name: self.name@,
            hosts: texts(self.hosts@),
            is_active: self.is_active,
        }
    }
}

impl Clone for ConnectionInfo {
    /// A copy with the same view.
    fn clone(&self) -> (copy: ConnectionInfo)
        ensures
            copy@ == self@,
    {
        ConnectionInfo {
            id: self.id.clone(),
            name: self.name.clone(),
            hosts: copy_strings(&self.hosts),
            is_active: self.is_active,
        }
    }
}

/// Why a transport could not be built, or why the cluster did not answer:
/// the failure in its short and in its detailed form.
#[derive(Debug, Clone, PartialEq, Eq)]
pub struct TransportFailure {
    pub message: String,
    pub detail: String,
}

/// How the transport of a session is to be built.
#[derive(Debug, Clone, PartialEq, Eq)]
pub enum TransportPlan {
    /// Bound to the one host that the settings name.
    SingleNode(String),
    /// Bound to all the hosts that the settings name.
    NodeList(Vec<String>),
}

/// The message for a transport that could not be built.
pub open spec fn transport_failure_message(message: Seq<char>, detail: Seq<char>) -> Seq<char> {
    "传输层错误: "@ + message + ". 详细信息: "@ + detail
}

/// The message for a cluster that did not answer the probe when the session
/// was built: the hosts that were tried, then the failure in its short and
/// in its detailed form, then what to look at.
pub open spec fn probe_failure_message(
    hosts: Seq<Seq<char>>,
    message: Seq<char>,
    detail: Seq<char>,
) -> Seq<char> {
    "无法连接到 Elasticsearch ("@ + joined(hosts, ", "@) + "): "@ + message + "。\n详细错误: "@ + detail
        + "\n请检查:\n1. 服务器地址是否正确\n2. Elasticsearch 是否正在运行\n3. 网络连接是否正常"@
}

/// The message for a failed probe names every host of the settings, and
/// holds the failure in both its forms.
pub proof fn lemma_probe_failure_describes(
    hosts: Seq<Seq<char>>,
    message: Seq<char>,
    detail: Seq<char>,
    at: int,
)
    ensures
        occurs_in(message, probe_failure_message(hosts, message, detail)),
        occurs_in(detail, probe_failure_message(hosts, message, detail)),
        0 <= at < hosts.len() ==> occurs_in(hosts[at], probe_failure_message(hosts, message, detail)),
{
    let opening = "无法连接到 Elasticsearch ("@;
    let list = joined(hosts, ", "@);
    let middle = "。\n详细错误: "@;
    let advice = "\n请检查:\n1. 服务器地址是否正确\n2. Elasticsearch 是否正在运行\n3. 网络连接是否正常"@;
    let whole = probe_failure_message(hosts, message, detail);
    lemma_occurs_in_itself(message);
    lemma_occurs_in_longer(message, opening + list + "): "@, message, middle + detail + advice);
    assert((opening + list + "): "@) + message + (middle + detail + advice) =~= whole);
    lemma_occurs_in_itself(detail);
    lemma_occurs_in_longer(detail, opening + list + "): "@ + message + middle, detail, advice);
    assert((opening + list + "): "@ + message + middle) + detail + advice =~= whole);
    if 0 <= at < hosts.len() {
        lemma_joined_holds_each_part(hosts, ", "@, at);
        lemma_occurs_in_longer(
            hosts[at],
            opening,
            list,
            "): "@ + message + middle + detail + advice,
        );
        assert(opening + list + ("): "@ + message + middle + detail + advice) =~= whole);
    }
}

/// What an operation gives for a call that failed: the failure's message
/// as an error of the admin API.
pub open spec fn api_failure(message: Seq<char>) -> AppErrorView {
    AppErrorView::ElasticsearchError(message)
}

/// `elasticsearch::http::transport::Transport`, what a client handle sends
/// its requests through. Nothing inside a transport is visible here; it is
/// only handed from the function that builds it to the one that makes the
/// handle.
#[verifier::external_type_specification]
#[verifier::external_body]
pub struct ExTransport(::elasticsearch::http::transport::Transport);

/// Builds a transport for one host, by `Transport::single_node`. Nothing is
/// claimed of the outcome. A failure is handed back as the text of the
/// error, by its `Display` and by its `Debug`. The URL is asked to be an
/// `http://` or `https://` one: for such a URL that it can read,
/// `single_node` finds a host to take credentials off.
#[verifier::external_body]
fn single_node_transport(url: &str) -> (built: Result<
    ::elasticsearch::http::transport::Transport,
    TransportFailure,
>)
    requires
        has_http_scheme(url@),
{
    ::elasticsearch::http::transport::Transport::single_node(url).map_err(
        |error| TransportFailure { message: error.to_string(), detail: format!("{:?}", error) },
    )
}

/// Builds a transport for a list of hosts, by `Transport::static_node_list`.
/// Nothing is claimed of the outcome. A failure is handed back as the text
/// of the error, by its `Display` and by its `Debug`.
#[verifier::external_body]
fn node_list_transport(urls: &Vec<String>) -> (built: Result<
    ::elasticsearch::http::transport::Transport,
    TransportFailure,
>)
    requires
        forall|at: int| 0 <= at < urls@.len() ==> has_http_scheme(#[trigger] urls@[at]@),
{
    ::elasticsearch::http::transport::Transport::static_node_list(
        urls.iter().map(|url| url.as_str()).collect(),
    ).map_err(
        |error| TransportFailure { message: error.to_string(), detail: format!("{:?}", error) },
    )
}

/// Makes the client handle for a transport, by `Elasticsearch::new`.
/// Nothing is claimed of it.
#[verifier::external_body]
fn handle_for(transport: ::elasticsearch::http::transport::Transport) -> ::elasticsearch::Elasticsearch {
    ::elasticsearch::Elasticsearch::new(transport)
}

/// A second handle to the same transport, by `Clone` of
/// `elasticsearch::Elasticsearch`. Nothing is claimed of it.
#[verifier::external_body]
fn clone_handle(handle: &::elasticsearch::Elasticsearch) -> ::elasticsearch::Elasticsearch {
    handle.clone()
}

/// A live binding to one cluster.
#[derive(Debug)]
pub struct ESClient {
    client: ::elasticsearch::Elasticsearch,
    config: ElasticsearchConfig,
    connection_info: ConnectionInfo,
}

impl Clone for ESClient {
    /// A second binding to the same cluster, with a handle of its own.
    fn clone(&self) -> (copy: ESClient)
        ensures
            copy.config()@ == self.config()@,
            copy.info()@ == self.info()@,
    {
        proof {
            use_type_invariant(self);
        }
        ESClient {
            client: clone_handle(&self.client),
            config: self.config.clone(),
            connection_info: self.connection_info.clone(),
        }
    }
}

impl ESClient {
    /// Every session holds settings that pass validation.
    #[verifier::type_invariant]
    spec fn settings_valid(self) -> bool {
        self.config@.is_valid()
    }

    /// The transport handle of the session.
    pub closed spec fn client(self) -> ::elasticsearch::Elasticsearch {
        self.client
    }

    /// The settings the session was built from.
    pub closed spec fn config(self) -> ElasticsearchConfig {
        self.config
    }

    /// The identity of the connection.
    pub closed spec fn info(self) -> ConnectionInfo {
        self.connection_info
    }

    /// The id under which the session is registered.
    pub open spec fn id(self) -> Seq<char> {
        self.info()@.id
    }

    /// Decides how the transport is to be built: for one host bound to that
    /// host, else to the whole list. Settings that do not pass validation
    /// give the validation error and no plan.
    pub fn transport_plan(config: &ElasticsearchConfig) -> (plan: AppResult<TransportPlan>)
        ensures
            match plan {
                Ok(TransportPlan::SingleNode(host)) => config@.is_valid() && config@.hosts.len()
                    == 1 && host@ == config@.hosts[0],
                Ok(TransportPlan::NodeList(hosts)) => config@.is_valid() && config@.hosts.len()
                    != 1 && texts(hosts@) == config@.hosts,
                Err(error) => validation_error(config@.hosts) == Some(error@),
            },
    {
        match config.validate() {
            Err(error) => Err(error),
            Ok(_) => {
                if config.hosts.len() == 1 {
                    Ok(TransportPlan::SingleNode(config.hosts[0].clone()))
                } else {
                    Ok(TransportPlan::NodeList(copy_strings(&config.hosts)))
                }
            },
        }
    }

    /// Builds the client handle for the settings: validates them, builds the
    /// transport that the plan asks for, and makes the handle. Settings that
    /// do not pass validation give the validation error. For settings that
    /// pass, the only failure is that the transport could not be built, and
    /// its error is the one that `transport_error` gives for it.
    pub fn prepare(config: &ElasticsearchConfig) -> (handle: AppResult<
        ::elasticsearch::Elasticsearch,
    >)
        ensures
            !config@.is_valid() ==> (handle matches Err(error) && validation_error(config@.hosts)
                == Some(error@)),
            config@.is_valid() ==> (handle matches Err(error) ==> error@ is ConnectionError
                && "传输层错误: "@.is_prefix_of(error@.message())),
    {
        proof {
            lemma_validation_accepts_valid_hosts(config@.hosts);
        }
        let built = match ESClient::transport_plan(config) {
            Err(error) => {
                return Err(error);
            },
            Ok(TransportPlan::SingleNode(host)) => single_node_transport(host.as_str()),
            Ok(TransportPlan::NodeList(hosts)) => {
                assert forall|at: int| 0 <= at < hosts@.len() implies has_http_scheme(
                    #[trigger] hosts@[at]@,
                ) by {
                    assert(hosts@[at]@ == texts(hosts@)[at]);
                }
                node_list_transport(&hosts)
            },
        };
        match built {
            Ok(transport) => Ok(handle_for(transport)),
            Err(failure) => {
                let error = ESClient::transport_error(&failure);
                proof {
                    let prefix = "传输层错误: "@;
                    let whole = transport_failure_message(failure.message@, failure.detail@);
                    assert(whole.subrange(0, prefix.len() as int) =~= prefix);
                }
                Err(error)
            },
        }
    }

    /// The error for a transport that could not be built.
    pub fn transport_error(failure: &TransportFailure) -> (error: AppError)
        ensures
            error@ == AppErrorView::ConnectionError(
                transport_failure_message(failure.message@, failure.detail@),
            ),
    {
        let message = String::from_str("传输层错误: ").concat(failure.message.as_str()).concat(
            ". 详细信息: ",
        ).concat(failure.detail.as_str());
        AppError::ConnectionError(message)
    }

    /// Binds a session. The settings are validated first and their error is
    /// handed on as it is; then the probe decides: a cluster that did not
    /// answer gives a connection error that names the hosts and the failure,
    /// and no session.
    pub fn new(
        client: ::elasticsearch::Elasticsearch,
        config: ElasticsearchConfig,
        connection_info: ConnectionInfo,
        probe: Result<(), TransportFailure>,
    ) -> (session: AppResult<ESClient>)
        ensures
            match session {
                Ok(bound) => config@.is_valid() && probe is Ok && bound.client() == client
                    && bound.config() == config && bound.info() == connection_info,
                Err(error) => if !config@.is_valid() {
                    validation_error(config@.hosts) == Some(error@)
                } else {
                    probe matches Err(failure) && error@ == AppErrorView::ConnectionError(
                        probe_failure_message(config@.hosts, failure.message@, failure.detail@),
                    )
                },
            },
            config@.is_valid() && probe is Err ==> session is Err && forall|at: int|
                0 <= at < config@.hosts.len() ==> occurs_in(
                    #[trigger] config@.hosts[at],
                    session->Err_0@.message(),
                ),
    {
        match config.validate() {
            Err(error) => Err(error),
            Ok(_) => match probe {
                Ok(_) => Ok(ESClient { client, config, connection_info }),
                Err(failure) => {
                    proof {
                        assert forall|at: int| 0 <= at < config@.hosts.len() implies occurs_in(
                            #[trigger] config@.hosts[at],
                            probe_failure_message(
                                config@.hosts,
                                failure.message@,
                                failure.detail@,
                            ),
                        ) by {
                            lemma_probe_failure_describes(
                                config@.hosts,
                                failure.message@,
                                failure.detail@,
                                at,
                            );
                        }
                    }
                    let message = String::from_str("无法连接到 Elasticsearch (").concat(
                        join(&config.hosts, ", ").as_str(),
                    ).concat("): ").concat(failure.message.as_str()).concat("。\n详细错误: ").concat(failure.detail.as_str()).concat(
                        "\n请检查:\n1. 服务器地址是否正确\n2. Elasticsearch 是否正在运行\n3. 网络连接是否正常",
                    );
                    Err(AppError::ConnectionError(message))
                },
            },
        }
    }

    /// The identity of the connection.
    pub fn get_connection_info(&self) -> (info: &ConnectionInfo)
        ensures
            *info == self.info(),
    {
        &self.connection_info
    }

    /// The transport handle.
    pub fn get_client(&self) -> (client: &::elasticsearch::Elasticsearch)
        ensures
            *client == self.client(),
    {
        &self.client
    }

    /// The settings the session was built from. They pass validation.
    pub fn get_config(&self) -> (config: &ElasticsearchConfig)
        ensures
            *config == self.config(),
            config@.is_valid(),
    {
        proof {
            use_type_invariant(self);
        }
        &self.config
    }

    /// Whether the cluster answered a probe. A probe that failed gives
    /// `false`, not an error.
    pub fn test_connection(&self, probe: Result<(), TransportFailure>) -> (reachable: AppResult<
        bool,
    >)
        ensures
            reachable == Ok::<bool, AppError>(probe is Ok),
    {
        match probe {
            Ok(_) => Ok(true),
            Err(_) => Ok(false),
        }
    }

    /// The index summaries for the rows that the cluster answered with.
    pub fn list_indices(&self, answer: Result<Vec<Json>, String>) -> (listed: AppResult<
        Vec<IndexInfo>,
    >)
        ensures
            match answer {
                Ok(rows) => listed matches Ok(infos) && views(infos@) == index_infos(
                    items_view(rows@),
                ),
                Err(message) => listed matches Err(error) && error@ == api_failure(message@),
            },
    {
        match answer {
            Ok(rows) => Ok(IndexInfo::list_from_json(&rows)),
            Err(message) => Err(AppError::ElasticsearchError(message)),
        }
    }

    /// The cluster summary for the answers to the health query and to the
    /// node query. Where both calls failed, the health query's failure is
    /// the one reported.
    pub fn get_cluster_info(
        &self,
        health: Result<Json, String>,
        nodes: Result<Json, String>,
    ) -> (summary: AppResult<ClusterInfo>)
        ensures
            match (health, nodes) {
                (Ok(health_answer), Ok(nodes_answer)) => summary matches Ok(info) && info@
                    == cluster_info(health_answer@, nodes_answer@),
                (Err(message), _) => summary matches Err(error) && error@ == api_failure(message@),
                (Ok(_), Err(message)) => summary matches Err(error) && error@ == api_failure(
                    message@,
                ),
            },
    {
        match health {
            Err(message) => Err(AppError::ElasticsearchError(message)),
            Ok(health_answer) => match nodes {
                Err(message) => Err(AppError::ElasticsearchError(message)),
                Ok(nodes_answer) => Ok(ClusterInfo::from_json(&health_answer, &nodes_answer)),
            },
        }
    }

    /// The shard summaries for the rows that the cluster answered with.
    pub fn get_shards_info(&self, answer: Result<Vec<Json>, String>) -> (listed: AppResult<
        Vec<ShardInfo>,
    >)
        ensures
            match answer {
                Ok(rows) => listed matches Ok(infos) && views(infos@) == shard_infos(
                    items_view(rows@),
                ),
                Err(message) => listed matches Err(error) && error@ == api_failure(message@),
            },
    {
        match answer {
            Ok(rows) => Ok(ShardInfo::list_from_json(&rows)),
            Err(message) => Err(AppError::ElasticsearchError(message)),
        }
    }

    /// The repositories that the cluster's answer lists.
    pub fn list_snapshot_repositories(&self, answer: Result<Json, String>) -> (listed: AppResult<
        Vec<SnapshotRepository>,
    >)
        ensures
            match answer {
                Ok(document) => listed matches Ok(found) && views(found@) == repositories(
                    document@,
                ),
                Err(message) => listed matches Err(error) && error@ == api_failure(message@),
            },
    {
        match answer {
            Ok(document) => Ok(SnapshotRepository::list_from_json(&document)),
            Err(message) => Err(AppError::ElasticsearchError(message)),
        }
    }

    /// The snapshots that the cluster's answer lists.
    pub fn list_snapshots(&self, answer: Result<Json, String>) -> (listed: AppResult<
        Vec<Snapshot>,
    >)
        ensures
            match answer {
                Ok(document) => listed matches Ok(found) && views(found@) == snapshots(document@),
                Err(message) => listed matches Err(error) && error@ == api_failure(message@),
            },
    {
        match answer {
            Ok(document) => Ok(Snapshot::list_from_json(&document)),
            Err(message) => Err(AppError::ElasticsearchError(message)),
        }
    }

    /// The request that registers the repository `name`.
    pub fn create_snapshot_repository(&self, name: &str, type_: &str, settings: Json) -> (request:
        RepositoryRequest)
        ensures
            request.name@ == name@,
            request.body@ == repository_body(type_@, settings@),
    {
        RepositoryRequest::new(name, type_, settings)
    }

    /// The request that takes `snapshot` into `repository`: of the chosen
    /// indices, or of all where none are chosen; without the global state;
    /// passing over what is unavailable; not waiting for the end.
    pub fn create_snapshot(
        &self,
        repository: &str,
        snapshot: &str,
        indices: Option<Vec<String>>,
    ) -> (request: SnapshotRequest)
        ensures
            request.repository@ == repository@,
            request.snapshot@ == snapshot@,
            request.body@ == snapshot_body(optional_texts(indices)),
            !request.wait_for_completion,
    {
        SnapshotRequest::new(repository, snapshot, indices)
    }

    /// The request that deletes `snapshot` of `repository`.
    pub fn delete_snapshot(&self, repository: &str, snapshot: &str) -> (request: SnapshotDeletion)
        ensures
            request.repository@ == repository@,
            texts(request.snapshots@) == seq![snapshot@],
    {
        SnapshotDeletion::new(repository, snapshot)
    }

    /// The request that restores `snapshot` of `repository`, under the same
    /// policy as taking one.
    pub fn restore_snapshot(
        &self,
        repository: &str,
        snapshot: &str,
        indices: Option<Vec<String>>,
    ) -> (request: SnapshotRequest)
        ensures
            request.repository@ == repository@,
            request.snapshot@ == snapshot@,
            request.body@ == snapshot_body(optional_texts(indices)),
            !request.wait_for_completion,
    {
        SnapshotRequest::new(repository, snapshot, indices)
    }

    /// The health record for the cluster's answer.
    pub fn get_cluster_health(&self, answer: Result<Json, String>) -> (health: AppResult<
        ClusterHealth,
    >)
        ensures
            match answer {
                Ok(document) => health matches Ok(record) && record@ == cluster_health(document@),
                Err(message) => health matches Err(error) && error@ == api_failure(message@),
            },
    {
        match answer {
            Ok(document) => Ok(ClusterHealth::from_json(&document)),
            Err(message) => Err(AppError::ElasticsearchError(message)),
        }
    }

    /// The cluster's statistics, as it wrote them.
    pub fn get_cluster_stats(&self, answer: Result<Json, String>) -> (stats: AppResult<Json>)
        ensures
            match answer {
                Ok(document) => stats matches Ok(same) && same == document,
                Err(message) => stats matches Err(error) && error@ == api_failure(message@),
            },
    {
        match answer {
            Ok(document) => Ok(document),
            Err(message) => Err(AppError::ElasticsearchError(message)),
        }
    }

    /// What a request that only changes the cluster gives: nothing where it
    /// was accepted, the failure as an error of the admin API where not.
    pub fn acknowledge(&self, outcome: Result<(), String>) -> (done: AppResult<()>)
        ensures
            match outcome {
                Ok(_) => done is Ok,
                Err(message) => done matches Err(error) && error@ == api_failure(message@),
            },
    {
        match outcome {
            Ok(_) => Ok(()),
            Err(message) => Err(AppError::ElasticsearchError(message)),
        }
    }
}

} // verus!
