//! What each operation of the application decides.
//!
//! An operation looks its session up, has a call made to the cluster, and
//! turns the outcome into its result. The calls are made by the caller; the
//! functions of this module take their outcomes and decide the rest. For an
//! id without a session no call is made, and the outcome that is handed in
//! is not looked at.

use crate::config::ElasticsearchConfig;
use crate::db::{parse_host, parsed_host, saved_record, SavedConnection, SavedConnectionView};
use crate::elasticsearch::client::{
    api_failure, ClusterHealth, ClusterInfo, ConnectionInfo, ESClient, IndexInfo,
    RepositoryRequest, ShardInfo, Snapshot, SnapshotDeletion, SnapshotRepository,
    SnapshotRequest, TransportFailure,
};
use crate::elasticsearch::cluster::{cluster_health, cluster_info};
use crate::elasticsearch::indices::{index_infos, shard_infos};
use crate::elasticsearch::snapshots::{
    optional_texts, repositories, repository_body, snapshot_body, snapshots,
};
use crate::error::{AppError, AppErrorView, AppResult};
use crate::json::{
    items_view, lemma_member_index_is_last, lemma_object_view, lemma_with_member, member,
    member_index, members_view, parse_json,
    parsed_json, set_member, with_member, Json, JsonNumber, JsonView,
};
use crate::state::{
    listed_after_register, listed_after_unregister, listing, registered, registry_valid,
    unregistered, AppState,
};
use crate::text::{texts, views};
use vstd::prelude::*;
use vstd::string::*;

verus! {

/// The error for an id without a session.
pub open spec fn not_connected() -> AppErrorView {
    AppErrorView::ConnectionError("Not connected to Elasticsearch"@)
}

/// The number of hits that a search asks for where the query names none.
pub const DEFAULT_SEARCH_SIZE: u64 = 100;

/// The session registered under `connection_id`, or the error that says
/// that there is none.
pub fn connected<'a>(state: &'a AppState, connection_id: &str) -> (session: AppResult<
    &'a ESClient,
>)
    ensures
        match session {
            Ok(found) => state@.contains_key(connection_id@) && *found == state@[connection_id@],
            Err(error) => !state@.contains_key(connection_id@) && error@ == not_connected(),
        },
{
    match state.lookup(connection_id) {
        Some(found) => Ok(found),
        None => Err(
            AppError::ConnectionError(String::from_str("Not connected to Elasticsearch")),
        ),
    }
}

/// Registers a session that was just built, under the id of its
/// connection, if the cluster answered the probe that followed. If it did
/// not, nothing is registered.
pub fn connect_elasticsearch(state: &mut AppState, client: ESClient, is_connected: bool) -> (done:
    AppResult<bool>)
    ensures
        is_connected ==> done == Ok::<bool, AppError>(true),
        is_connected ==> final(state)@ == registered(old(state)@, client),
        is_connected ==> final(state).ids() == listed_after_register(
            old(state).ids(),
            old(state)@.contains_key(client.id()),
            client.id(),
        ),
        is_connected ==> registry_valid(final(state)@, final(state).ids()),
        !is_connected ==> (done matches Err(error) && error@ == AppErrorView::ConnectionError(
            "无法连接到 Elasticsearch 服务器"@,
        )),
        !is_connected ==> final(state)@ == old(state)@ && final(state).ids() == old(state).ids(),
{
    if is_connected {
        state.register(client);
        Ok(true)
    } else {
        Err(AppError::ConnectionError(String::from_str("无法连接到 Elasticsearch 服务器")))
    }
}

/// Removes the session of `connection_id`. Succeeds whether or not there
/// was one.
pub fn disconnect_elasticsearch(state: &mut AppState, connection_id: &str) -> (done: AppResult<
    bool,
>)
    ensures
        done == Ok::<bool, AppError>(true),
        final(state)@ == unregistered(old(state)@, connection_id@),
        final(state).ids() == listed_after_unregister(
            old(state).ids(),
            old(state)@.contains_key(connection_id@),
            connection_id@,
        ),
        registry_valid(final(state)@, final(state).ids()),
{
    state.unregister(connection_id);
    Ok(true)
}

/// The identities of all registered sessions: one for each registered id,
/// in the order of `ids`. No id is listed twice, and each session is listed
/// under the id of its connection.
pub fn list_connections(state: &AppState) -> (listed: AppResult<Vec<ConnectionInfo>>)
    ensures
        listed matches Ok(infos) && views(infos@) == listing(state@, state.ids()),
        registry_valid(state@, state.ids()),
{
    Ok(state.list_all())
}

/// Whether `connection_id` has a session whose cluster answered the probe.
pub fn test_connection(
    state: &AppState,
    connection_id: &str,
    probe: Result<(), TransportFailure>,
) -> (reachable: AppResult<bool>)
    ensures
        reachable == Ok::<bool, AppError>(state@.contains_key(connection_id@) && probe is Ok),
{
    match state.lookup(connection_id) {
        Some(session) => session.test_connection(probe),
        None => Ok(false),
    }
}

/// The settings of the session of `connection_id`, if there is one.
pub fn get_current_config(state: &AppState, connection_id: &str) -> (config: AppResult<
    Option<ElasticsearchConfig>,
>)
    ensures
        match config {
            Ok(Some(found)) => state@.contains_key(connection_id@) && found@
                == state@[connection_id@].config()@,
            Ok(None) => !state@.contains_key(connection_id@),
            Err(_) => false,
        },
{
    match state.lookup(connection_id) {
        Some(session) => Ok(Some(session.get_config().clone())),
        None => Ok(None),
    }
}

/// The index summaries of the cluster of `connection_id`.
pub fn list_indices(
    state: &AppState,
    connection_id: &str,
    answer: Result<Vec<Json>, String>,
) -> (listed: AppResult<Vec<IndexInfo>>)
    ensures
        !state@.contains_key(connection_id@) ==> (listed matches Err(error) && error@
            == not_connected()),
        state@.contains_key(connection_id@) ==> (match answer {
            Ok(rows) => listed matches Ok(infos) && views(infos@) == index_infos(items_view(rows@)),
            Err(message) => listed matches Err(error) && error@ == api_failure(message@),
        }),
{
    match connected(state, connection_id) {
        Ok(session) => session.list_indices(answer),
        Err(error) => Err(error),
    }
}

/// The summary of the cluster of `connection_id`.
pub fn get_cluster_info(
    state: &AppState,
    connection_id: &str,
    health: Result<Json, String>,
    nodes: Result<Json, String>,
) -> (summary: AppResult<ClusterInfo>)
    ensures
        !state@.contains_key(connection_id@) ==> (summary matches Err(error) && error@
            == not_connected()),
        state@.contains_key(connection_id@) ==> (match (health, nodes) {
            (Ok(health_answer), Ok(nodes_answer)) => summary matches Ok(info) && info@
                == cluster_info(health_answer@, nodes_answer@),
            (Err(message), _) => summary matches Err(error) && error@ == api_failure(message@),
            (Ok(_), Err(message)) => summary matches Err(error) && error@ == api_failure(message@),
        }),
{
    match connected(state, connection_id) {
        Ok(session) => session.get_cluster_info(health, nodes),
        Err(error) => Err(error),
    }
}

/// The shard summaries of the cluster of `connection_id`.
pub fn get_shards_info(
    state: &AppState,
    connection_id: &str,
    answer: Result<Vec<Json>, String>,
) -> (listed: AppResult<Vec<ShardInfo>>)
    ensures
        !state@.contains_key(connection_id@) ==> (listed matches Err(error) && error@
            == not_connected()),
        state@.contains_key(connection_id@) ==> (match answer {
            Ok(rows) => listed matches Ok(infos) && views(infos@) == shard_infos(items_view(rows@)),
            Err(message) => listed matches Err(error) && error@ == api_failure(message@),
        }),
{
    match connected(state, connection_id) {
        Ok(session) => session.get_shards_info(answer),
        Err(error) => Err(error),
    }
}

/// The body that a search sends for a query: the query itself, with 100 as
/// its `size` where it names none, and with `track_scores` set to `true`
/// whatever the query said of it. A query that is no object is sent as it is.
pub open spec fn search_body(query: JsonView) -> JsonView {
    match query {
        JsonView::Object(members) => {
            let sized = if member(members, "size"@) is Some {
                members
            } else {
                members.push(("size"@, JsonView::Integer(DEFAULT_SEARCH_SIZE as int)))
            };
            JsonView::Object(with_member(sized, "track_scores"@, JsonView::Bool(true)))
        },
        other => other,
    }
}

/// Builds the body that a search sends for `query`.
pub fn augment_search_query(query: Json) -> (body: Json)
    ensures
        body@ == search_body(query@),
{
    match query {
        Json::Object(members) => {
            let mut members = members;
            proof {
                lemma_object_view(members);
            }
            let ghost given = members_view(members@);
            let has_size: bool = Json::object_has(&members, "size");
            if !has_size {
                members.push(
                    (String::from_str("size"), Json::Number(JsonNumber::PosInt(DEFAULT_SEARCH_SIZE))),
                );
                assert(members_view(members@) =~= given.push(
                    ("size"@, JsonView::Integer(DEFAULT_SEARCH_SIZE as int)),
                ));
            }
            set_member(&mut members, "track_scores", Json::Bool(true));
            Json::object(members)
        },
        other => other,
    }
}

/// In the body of a search for a query that is an object, `track_scores` is
/// `true`, `size` is what the query gave or else 100, and every other
/// member is what the query gave.
pub proof fn lemma_search_body_members(members: Seq<(Seq<char>, JsonView)>, key: Seq<char>)
    ensures
        search_body(JsonView::Object(members)).field("track_scores"@) == Some(JsonView::Bool(true)),
        search_body(JsonView::Object(members)).field("size"@) == if member(members, "size"@)
            is Some {
            member(members, "size"@)
        } else {
            Some(JsonView::Integer(100))
        },
        key != "size"@ && key != "track_scores"@ ==> search_body(JsonView::Object(members)).field(
            key,
        ) == member(members, key),
{
    reveal_strlit("size");
    reveal_strlit("track_scores");
    assert("size"@ != "track_scores"@) by {
        assert("size"@.len() != "track_scores"@.len());
    }
    let sized = if member(members, "size"@) is Some {
        members
    } else {
        members.push(("size"@, JsonView::Integer(100)))
    };
    lemma_with_member(sized, "track_scores"@, JsonView::Bool(true), "size"@);
    lemma_with_member(sized, "track_scores"@, JsonView::Bool(true), key);
    if member(members, "size"@) is None {
        assert(sized.drop_last() =~= members);
        assert(sized.last().0 == "size"@);
        if key != "size"@ {
            lemma_member_index_is_last(members, key);
            assert(member_index(sized, key) == member_index(members, key));
        }
    }
}

/// A search that is ready to be sent.
#[derive(Debug, Clone, PartialEq, Eq)]
pub struct SearchRequest {
    pub index: String,
    pub body: Json,
}

/// The message for a query that is no JSON.
pub open spec fn invalid_query_message(reason: Seq<char>) -> Seq<char> {
    "无效的查询JSON: "@ + reason
}

/// What a search gives for a query text that was read as `parsed`: the body
/// to send, or the error that rejects the text.
pub open spec fn search_outcome(parsed: Result<JsonView, Seq<char>>) -> Result<
    JsonView,
    AppErrorView,
> {
    match parsed {
        Ok(query) => Ok(search_body(query)),
        Err(reason) => Err(AppErrorView::ValidationError(invalid_query_message(reason))),
    }
}

/// Turns a query that was read, or the reason why it could not be, into the
/// search to send to `index`.
pub fn search_request(index: &str, parsed: Result<Json, String>) -> (request: AppResult<
    SearchRequest,
>)
    ensures
        match parsed {
            Ok(query) => request matches Ok(ready) && ready.index@ == index@ && ready.body@
                == search_body(query@),
            Err(reason) => request matches Err(error) && error@ == AppErrorView::ValidationError(
                invalid_query_message(reason@),
            ),
        },
{
    match parsed {
        Ok(query) => Ok(
            SearchRequest { index: String::from_str(index), body: augment_search_query(query) },
        ),
        Err(reason) => Err(
            AppError::ValidationError(String::from_str("无效的查询JSON: ").concat(reason.as_str())),
        ),
    }
}

/// Prepares a search of `index` on the cluster of `connection_id`. The
/// query text is read as JSON before anything is sent; a text that is no
/// JSON is rejected. An id without a session is rejected first.
pub fn search(state: &AppState, connection_id: &str, index: &str, query: &str) -> (request:
    AppResult<SearchRequest>)
    ensures
        !state@.contains_key(connection_id@) ==> (request matches Err(error) && error@
            == not_connected()),
        state@.contains_key(connection_id@) ==> (match search_outcome(parsed_json(query@)) {
            Ok(body) => request matches Ok(ready) && ready.index@ == index@ && ready.body@ == body,
            Err(rejected) => request matches Err(error) && error@ == rejected,
        }),
{
    match connected(state, connection_id) {
        Ok(_) => search_request(index, parse_json(query)),
        Err(error) => Err(error),
    }
}

/// What a search gives for the cluster's answer: the answer as it is, or
/// the failure as an error of the admin API.
pub fn search_response(answer: Result<Json, String>) -> (result: AppResult<Json>)
    ensures
        match answer {
            Ok(document) => result matches Ok(same) && same == document,
            Err(message) => result matches Err(error) && error@ == api_failure(message@),
        },
{
    match answer {
        Ok(document) => Ok(document),
        Err(message) => Err(AppError::ElasticsearchError(message)),
    }
}

/// The record to store for a connection that was created at `created_at`
/// and last used at `last_used_at`, both in seconds since the epoch. Fails
/// for settings without a host, for a first host that is no URL, and for a
/// URL that names no host.
pub fn save_connection_info(
    connection_info: &ConnectionInfo,
    config: &ElasticsearchConfig,
    created_at: i64,
    last_used_at: i64,
) -> (record: AppResult<SavedConnection>)
    ensures
        match record {
            Ok(saved) => saved_connection(*connection_info, *config, created_at, last_used_at)
                == Ok::<SavedConnectionView, AppErrorView>(saved@),
            Err(error) => saved_connection(*connection_info, *config, created_at, last_used_at)
                == Err::<SavedConnectionView, AppErrorView>(error@),
        },
{
    if config.hosts.len() == 0 {
        return Err(AppError::ValidationError(String::from_str("No host provided")));
    }
    let parsed = parse_host(config.hosts[0].as_str());
    SavedConnection::from_address(connection_info, config, parsed, created_at, last_used_at)
}

/// The record that is stored for a connection, or the error that rejects
/// it. The address is what the first host of the settings is read as.
pub open spec fn saved_connection(
    connection_info: ConnectionInfo,
    config: ElasticsearchConfig,
    created_at: i64,
    last_used_at: i64,
) -> Result<SavedConnectionView, AppErrorView> {
    if config@.hosts.len() == 0 {
        Err(AppErrorView::ValidationError("No host provided"@))
    } else {
        saved_record(
            connection_info,
            config,
            parsed_host(config@.hosts[0]),
            created_at,
            last_used_at,
        )
    }
}

/// The text of the error for an id without a session, for the operations
/// that report their failures as text.
pub open spec fn not_connected_text() -> Seq<char> {
    "Not connected to Elasticsearch"@
}

/// The session of `connection_id`, or the text that says that there is none.
fn connected_or_text<'a>(state: &'a AppState, connection_id: &str) -> (session: Result<
    &'a ESClient,
    String,
>)
    ensures
        match session {
            Ok(found) => state@.contains_key(connection_id@) && *found == state@[connection_id@],
            Err(text) => !state@.contains_key(connection_id@) && text@ == not_connected_text(),
        },
{
    match state.lookup(connection_id) {
        Some(found) => Ok(found),
        None => Err(String::from_str("Not connected to Elasticsearch")),
    }
}

/// The snapshot repositories of the cluster of `connection_id`. A call that
/// failed gives the failure's own text.
pub fn list_snapshot_repositories(
    state: &AppState,
    connection_id: &str,
    answer: Result<Json, String>,
) -> (listed: Result<Vec<SnapshotRepository>, String>)
    ensures
        !state@.contains_key(connection_id@) ==> (listed matches Err(text) && text@
            == not_connected_text()),
        state@.contains_key(connection_id@) ==> (match answer {
            Ok(document) => listed matches Ok(found) && views(found@) == repositories(document@),
            Err(message) => listed matches Err(text) && text@ == message@,
        }),
{
    match connected_or_text(state, connection_id) {
        Err(text) => Err(text),
        Ok(_) => match answer {
            Ok(document) => Ok(SnapshotRepository::list_from_json(&document)),
            Err(message) => Err(message),
        },
    }
}

/// The message for a repository that has no session to be registered with.
pub open spec fn no_client_message(connection_id: Seq<char>) -> Seq<char> {
    "No client found for connection_id: "@ + connection_id
}

/// The message for a repository that the cluster did not register.
pub open spec fn repository_failure_message(reason: Seq<char>) -> Seq<char> {
    "Failed to create snapshot repository: "@ + reason
}

/// The request that registers a repository with the cluster of
/// `connection_id`.
pub fn create_snapshot_repository(
    state: &AppState,
    connection_id: &str,
    name: &str,
    type_: &str,
    settings: Json,
) -> (request: Result<RepositoryRequest, String>)
    ensures
        !state@.contains_key(connection_id@) ==> (request matches Err(text) && text@
            == no_client_message(connection_id@)),
        state@.contains_key(connection_id@) ==> (request matches Ok(ready) && ready.name@ == name@
            && ready.body@ == repository_body(type_@, settings@)),
{
    match state.lookup(connection_id) {
        Some(session) => Ok(session.create_snapshot_repository(name, type_, settings)),
        None => Err(String::from_str("No client found for connection_id: ").concat(connection_id)),
    }
}

/// What registering a repository gives for the outcome of the call.
pub fn repository_created(outcome: Result<(), String>) -> (done: Result<(), String>)
    ensures
        match outcome {
            Ok(_) => done is Ok,
            Err(reason) => done matches Err(text) && text@ == repository_failure_message(reason@),
        },
{
    match outcome {
        Ok(_) => Ok(()),
        Err(reason) => Err(
            String::from_str("Failed to create snapshot repository: ").concat(reason.as_str()),
        ),
    }
}

/// The snapshots of a repository of the cluster of `connection_id`.
pub fn list_snapshots(state: &AppState, connection_id: &str, answer: Result<Json, String>) -> (listed:
    Result<Vec<Snapshot>, String>)
    ensures
        !state@.contains_key(connection_id@) ==> (listed matches Err(text) && text@
            == not_connected_text()),
        state@.contains_key(connection_id@) ==> (match answer {
            Ok(document) => listed matches Ok(found) && views(found@) == snapshots(document@),
            Err(message) => listed matches Err(text) && text@ == message@,
        }),
{
    match connected_or_text(state, connection_id) {
        Err(text) => Err(text),
        Ok(_) => match answer {
            Ok(document) => Ok(Snapshot::list_from_json(&document)),
            Err(message) => Err(message),
        },
    }
}

/// The request that takes a snapshot on the cluster of `connection_id`.
pub fn create_snapshot(
    state: &AppState,
    connection_id: &str,
    repository: &str,
    snapshot: &str,
    indices: Option<Vec<String>>,
) -> (request: Result<SnapshotRequest, String>)
    ensures
        !state@.contains_key(connection_id@) ==> (request matches Err(text) && text@
            == not_connected_text()),
        state@.contains_key(connection_id@) ==> (request matches Ok(ready) && ready.repository@
            == repository@ && ready.snapshot@ == snapshot@ && ready.body@ == snapshot_body(
            optional_texts(indices),
        ) && !ready.wait_for_completion),
{
    match connected_or_text(state, connection_id) {
        Err(text) => Err(text),
        Ok(session) => Ok(session.create_snapshot(repository, snapshot, indices)),
    }
}

/// The request that deletes a snapshot on the cluster of `connection_id`.
pub fn delete_snapshot(state: &AppState, connection_id: &str, repository: &str, snapshot: &str) -> (request:
    Result<SnapshotDeletion, String>)
    ensures
        !state@.contains_key(connection_id@) ==> (request matches Err(text) && text@
            == not_connected_text()),
        state@.contains_key(connection_id@) ==> (request matches Ok(ready) && ready.repository@
            == repository@ && texts(ready.snapshots@) == seq![snapshot@]),
{
    match connected_or_text(state, connection_id) {
        Err(text) => Err(text),
        Ok(session) => Ok(session.delete_snapshot(repository, snapshot)),
    }
}

/// The request that restores a snapshot on the cluster of `connection_id`.
pub fn restore_snapshot(
    state: &AppState,
    connection_id: &str,
    repository: &str,
    snapshot: &str,
    indices: Option<Vec<String>>,
) -> (request: Result<SnapshotRequest, String>)
    ensures
        !state@.contains_key(connection_id@) ==> (request matches Err(text) && text@
            == not_connected_text()),
        state@.contains_key(connection_id@) ==> (request matches Ok(ready) && ready.repository@
            == repository@ && ready.snapshot@ == snapshot@ && ready.body@ == snapshot_body(
            optional_texts(indices),
        ) && !ready.wait_for_completion),
{
    match connected_or_text(state, connection_id) {
        Err(text) => Err(text),
        Ok(session) => Ok(session.restore_snapshot(repository, snapshot, indices)),
    }
}

/// The health of the cluster of `connection_id`.
pub fn get_cluster_health(state: &AppState, connection_id: &str, answer: Result<Json, String>) -> (health:
    Result<ClusterHealth, String>)
    ensures
        !state@.contains_key(connection_id@) ==> (health matches Err(text) && text@
            == not_connected_text()),
        state@.contains_key(connection_id@) ==> (match answer {
            Ok(document) => health matches Ok(record) && record@ == cluster_health(document@),
            Err(message) => health matches Err(text) && text@ == message@,
        }),
{
    match connected_or_text(state, connection_id) {
        Err(text) => Err(text),
        Ok(_) => match answer {
            Ok(document) => Ok(ClusterHealth::from_json(&document)),
            Err(message) => Err(message),
        },
    }
}

/// The statistics of the cluster of `connection_id`, as it wrote them.
pub fn get_cluster_stats(state: &AppState, connection_id: &str, answer: Result<Json, String>) -> (stats:
    Result<Json, String>)
    ensures
        !state@.contains_key(connection_id@) ==> (stats matches Err(text) && text@
            == not_connected_text()),
        state@.contains_key(connection_id@) ==> (stats == answer),
{
    match connected_or_text(state, connection_id) {
        Err(text) => Err(text),
        Ok(_) => answer,
    }
}

} // verus!
