use elastic_eye::commands::{
    augment_search_query, connect_elasticsearch, connected, create_snapshot,
    create_snapshot_repository, delete_snapshot, disconnect_elasticsearch, get_cluster_health,
    get_cluster_info, get_cluster_stats, get_current_config, get_shards_info, list_connections,
    list_indices, list_snapshot_repositories, list_snapshots, repository_created,
    restore_snapshot, save_connection_info, search, search_request, search_response,
    test_connection,
};
use elastic_eye::config::ElasticsearchConfig;
use elastic_eye::db::{HostAddress, SavedConnection};
use elastic_eye::elasticsearch::client::{ConnectionInfo, ESClient, TransportFailure};
use elastic_eye::error::AppError;
use elastic_eye::json::{Json, JsonNumber};
use elastic_eye::AppState;

fn config(hosts: &[&str]) -> ElasticsearchConfig {
    ElasticsearchConfig {
        hosts: hosts.iter().map(|host| host.to_string()).collect(),
        username: Some("elastic".to_string()),
        password: Some("secret".to_string()),
        api_key: None,
        ca_cert_path: None,
        timeout_secs: Some(30),
    }
}

fn info(id: &str) -> ConnectionInfo {
    ConnectionInfo {
        id: id.to_string(),
        name: format!("cluster {}", id),
        hosts: vec!["https://a:9200".to_string(), "https://b:9200".to_string()],
        is_active: true,
    }
}

fn session(id: &str) -> ESClient {
    ESClient::new(
        elasticsearch::Elasticsearch::default(),
        config(&["https://a:9200", "https://b:9200"]),
        info(id),
        Ok(()),
    )
    .unwrap()
}

fn state_with(id: &str) -> AppState {
    let mut state = AppState::new();
    assert_eq!(connect_elasticsearch(&mut state, session(id), true), Ok(true));
    state
}

fn record(members: Vec<(&str, Json)>) -> Json {
    Json::object(members.into_iter().map(|(key, value)| (key.to_string(), value)).collect())
}

fn failed<T>(reason: &str) -> Result<T, String> {
    Err(reason.to_string())
}

fn not_connected() -> AppError {
    AppError::ConnectionError("Not connected to Elasticsearch".to_string())
}

#[test]
fn connect_list_disconnect_end_to_end() {
    let mut state = AppState::new();
    assert_eq!(connect_elasticsearch(&mut state, session("c1"), true), Ok(true));
    assert_eq!(state.len(), 1);
    assert!(state.lookup("c1").is_some());
    assert_eq!(list_connections(&state), Ok(vec![info("c1")]));
    assert_eq!(disconnect_elasticsearch(&mut state, "c1"), Ok(true));
    assert_eq!(state.len(), 0);
    assert_eq!(list_connections(&state), Ok(Vec::new()));
    assert_eq!(list_indices(&state, "c1", Ok(Vec::new())), Err(not_connected()));
}

#[test]
fn connect_registers_nothing_when_the_cluster_did_not_answer() {
    let mut state = AppState::new();
    assert_eq!(
        connect_elasticsearch(&mut state, session("c1"), false),
        Err(AppError::ConnectionError("无法连接到 Elasticsearch 服务器".to_string()))
    );
    assert_eq!(state.len(), 0);
}

#[test]
fn connect_twice_keeps_one_session() {
    let mut state = state_with("c1");
    assert_eq!(connect_elasticsearch(&mut state, session("c1"), true), Ok(true));
    assert_eq!(state.len(), 1);
}

#[test]
fn disconnect_of_an_unknown_id_succeeds() {
    let mut state = state_with("c1");
    assert_eq!(disconnect_elasticsearch(&mut state, "other"), Ok(true));
    assert_eq!(state.len(), 1);
}

#[test]
fn connected_reports_a_missing_session() {
    let state = state_with("c1");
    assert!(connected(&state, "c1").is_ok());
    assert_eq!(connected(&state, "c2").err(), Some(not_connected()));
}

#[test]
fn test_connection_is_false_without_a_session() {
    let state = state_with("c1");
    let failed = TransportFailure { message: "m".to_string(), detail: "d".to_string() };
    assert_eq!(test_connection(&state, "c1", Ok(())), Ok(true));
    assert_eq!(test_connection(&state, "c1", Err(failed)), Ok(false));
    assert_eq!(test_connection(&state, "c2", Ok(())), Ok(false));
}

#[test]
fn current_config_is_that_of_the_session() {
    let state = state_with("c1");
    assert_eq!(
        get_current_config(&state, "c1"),
        Ok(Some(config(&["https://a:9200", "https://b:9200"])))
    );
    assert_eq!(get_current_config(&state, "c2"), Ok(None));
}

#[test]
fn list_indices_normalizes_the_rows() {
    let state = state_with("c1");
    let rows = vec![record(vec![("index", Json::string("logs")), ("docs.count", Json::string("42"))])];
    let listed = list_indices(&state, "c1", Ok(rows)).unwrap();
    assert_eq!(listed.len(), 1);
    assert_eq!(listed[0].name, "logs");
    assert_eq!(listed[0].docs_count, 42);
}

#[test]
fn a_failed_call_is_an_error_of_the_admin_api() {
    let state = state_with("c1");
    let wrapped = AppError::ElasticsearchError("connection reset".to_string());
    assert_eq!(list_indices(&state, "c1", failed("connection reset")), Err(wrapped.clone()));
    assert_eq!(get_shards_info(&state, "c1", failed("connection reset")), Err(wrapped.clone()));
    assert_eq!(
        get_cluster_info(&state, "c1", failed("connection reset"), Ok(Json::Null)),
        Err(wrapped.clone())
    );
    assert_eq!(
        get_cluster_info(&state, "c1", Ok(Json::Null), failed("connection reset")),
        Err(wrapped.clone())
    );
    assert_eq!(search_response(failed("connection reset")), Err(wrapped));
}

#[test]
fn cluster_info_reports_the_failure_of_the_health_query_first() {
    let state = state_with("c1");
    assert_eq!(
        get_cluster_info(&state, "c1", Err("first".to_string()), Err("second".to_string())),
        Err(AppError::ElasticsearchError("first".to_string()))
    );
}

#[test]
fn operations_without_a_session_report_not_connected() {
    let state = AppState::new();
    assert_eq!(get_shards_info(&state, "c1", Ok(Vec::new())), Err(not_connected()));
    assert_eq!(get_cluster_info(&state, "c1", Ok(Json::Null), Ok(Json::Null)), Err(not_connected()));
    assert_eq!(search(&state, "c1", "logs", "{}"), Err(not_connected()));
    let text = "Not connected to Elasticsearch";
    assert_eq!(list_snapshot_repositories(&state, "c1", Ok(Json::Null)), failed(text));
    assert_eq!(list_snapshots(&state, "c1", Ok(Json::Null)), failed(text));
    assert_eq!(get_cluster_health(&state, "c1", Ok(Json::Null)), failed(text));
    assert_eq!(get_cluster_stats(&state, "c1", Ok(Json::Null)), failed(text));
    assert_eq!(create_snapshot(&state, "c1", "repo", "snap", None), failed(text));
    assert_eq!(restore_snapshot(&state, "c1", "repo", "snap", None), failed(text));
    assert_eq!(delete_snapshot(&state, "c1", "repo", "snap"), failed(text));
}

#[test]
fn search_adds_size_and_score_tracking() {
    let state = state_with("c1");
    let request = search(&state, "c1", "logs", "{\"query\":{\"match_all\":{}}}").unwrap();
    assert_eq!(request.index, "logs");
    assert_eq!(request.body.get("size"), Some(&Json::Number(JsonNumber::PosInt(100))));
    assert_eq!(request.body.get("track_scores"), Some(&Json::Bool(true)));
    assert_eq!(
        request.body.get("query"),
        Some(&record(vec![("match_all", Json::Object(Vec::new()))]))
    );
    assert_eq!(request.body.as_object().map(|members| members.len()), Some(3));
}

#[test]
fn search_keeps_the_size_that_the_query_names() {
    let state = state_with("c1");
    let request =
        search(&state, "c1", "logs", "{\"size\":5,\"query\":{\"match_all\":{}}}").unwrap();
    assert_eq!(request.body.get("size"), Some(&Json::Number(JsonNumber::PosInt(5))));
    assert_eq!(request.body.get("track_scores"), Some(&Json::Bool(true)));
}

#[test]
fn search_forces_score_tracking_on() {
    let state = state_with("c1");
    let request = search(&state, "c1", "logs", "{\"track_scores\":false,\"size\":0}").unwrap();
    assert_eq!(request.body.get("track_scores"), Some(&Json::Bool(true)));
    assert_eq!(request.body.get("size"), Some(&Json::Number(JsonNumber::PosInt(0))));
    assert_eq!(request.body.as_object().map(|members| members.len()), Some(2));
}

#[test]
fn search_reads_every_kind_of_value() {
    let state = state_with("c1");
    let query = "{\"a\":null,\"b\":[1,-2,1.5,\"x\",true],\"c\":{\"d\":18446744073709551615}}";
    let request = search(&state, "c1", "logs", query).unwrap();
    assert_eq!(request.body.get("a"), Some(&Json::Null));
    assert_eq!(
        request.body.get("b"),
        Some(&Json::Array(vec![
            Json::Number(JsonNumber::PosInt(1)),
            Json::Number(JsonNumber::NegInt(-2)),
            Json::Number(JsonNumber::Float("1.5".to_string())),
            Json::String("x".to_string()),
            Json::Bool(true),
        ]))
    );
    assert_eq!(
        request.body.get("c"),
        Some(&record(vec![("d", Json::Number(JsonNumber::PosInt(u64::MAX)))]))
    );
}

#[test]
fn search_keeps_the_members_in_the_order_of_the_query() {
    let state = state_with("c1");
    let request = search(&state, "c1", "logs", "{\"z\":1,\"a\":2,\"m\":3}").unwrap();
    let names: Vec<&str> = match &request.body {
        Json::Object(members) => members.iter().map(|(name, _)| name.as_str()).collect(),
        _ => Vec::new(),
    };
    assert_eq!(names, vec!["z", "a", "m", "size", "track_scores"]);
}

#[test]
fn connecting_again_lists_the_new_identity_alone() {
    let renamed = |name: &str| {
        let mut identity = info("k");
        identity.name = name.to_string();
        identity
    };
    let session_named = |name: &str| {
        ESClient::new(
            elasticsearch::Elasticsearch::default(),
            config(&["https://a:9200"]),
            renamed(name),
            Ok(()),
        )
        .unwrap()
    };
    let mut state = state_with("other");
    assert_eq!(connect_elasticsearch(&mut state, session_named("old"), true), Ok(true));
    assert_eq!(connect_elasticsearch(&mut state, session_named("new"), true), Ok(true));
    let listed = list_connections(&state).unwrap();
    assert_eq!(listed, vec![info("other"), renamed("new")]);
    assert_eq!(listed.iter().filter(|identity| identity.id == "k").count(), 1);
    assert!(!listed.contains(&renamed("old")));
}

#[test]
fn search_sends_a_query_that_is_no_object_as_it_is() {
    let state = state_with("c1");
    assert_eq!(search(&state, "c1", "logs", "[1]").unwrap().body, Json::Array(vec![Json::from_i64(1)]));
    assert_eq!(search(&state, "c1", "logs", "null").unwrap().body, Json::Null);
    assert_eq!(augment_search_query(Json::string("q")), Json::string("q"));
}

#[test]
fn search_rejects_a_query_that_is_no_json() {
    let state = state_with("c1");
    for query in ["not json", "{", "", "{\"size\":}"] {
        let reason = serde_json::from_str::<serde_json::Value>(query).unwrap_err().to_string();
        assert_eq!(
            search(&state, "c1", "logs", query),
            Err(AppError::ValidationError(format!("无效的查询JSON: {}", reason)))
        );
    }
}

#[test]
fn search_request_wraps_the_reason_of_a_rejected_query() {
    assert_eq!(
        search_request("logs", Err("expected value at line 1 column 1".to_string())),
        Err(AppError::ValidationError(
            "无效的查询JSON: expected value at line 1 column 1".to_string()
        ))
    );
}

#[test]
fn augment_search_query_of_an_empty_object_adds_both_members() {
    assert_eq!(
        augment_search_query(Json::object(Vec::new())),
        record(vec![("size", Json::from_i64(100)), ("track_scores", Json::Bool(true))])
    );
}

#[test]
fn search_response_hands_the_answer_on() {
    let answer = record(vec![("took", Json::from_i64(3))]);
    assert_eq!(search_response(Ok(answer.clone())), Ok(answer));
}

#[test]
fn cluster_stats_are_handed_on_as_they_are() {
    let state = state_with("c1");
    let stats = record(vec![("indices", record(vec![("count", Json::from_i64(9))]))]);
    assert_eq!(get_cluster_stats(&state, "c1", Ok(stats.clone())), Ok(stats.clone()));
    assert_eq!(get_cluster_stats(&state, "c1", Err("down".to_string())), Err("down".to_string()));
    assert_eq!(state.lookup("c1").unwrap().get_cluster_stats(Ok(stats.clone())), Ok(stats));
    assert_eq!(
        state.lookup("c1").unwrap().get_cluster_stats(Err("down".to_string())),
        Err(AppError::ElasticsearchError("down".to_string()))
    );
}

#[test]
fn snapshot_operations_report_a_failed_call_by_its_own_text() {
    let state = state_with("c1");
    assert_eq!(list_snapshot_repositories(&state, "c1", failed("down")), failed("down"));
    assert_eq!(list_snapshots(&state, "c1", failed("down")), failed("down"));
    assert_eq!(get_cluster_health(&state, "c1", failed("down")), failed("down"));
}

#[test]
fn session_operations_wrap_a_failed_call() {
    let bound = session("c1");
    let wrapped = AppError::ElasticsearchError("down".to_string());
    assert_eq!(bound.list_snapshot_repositories(failed("down")), Err(wrapped.clone()));
    assert_eq!(bound.list_snapshots(failed("down")), Err(wrapped.clone()));
    assert_eq!(bound.get_cluster_health(failed("down")), Err(wrapped.clone()));
    assert_eq!(bound.acknowledge(failed("down")), Err(wrapped));
    assert_eq!(bound.acknowledge(Ok(())), Ok(()));
    assert_eq!(bound.list_snapshots(Ok(Json::Null)), Ok(Vec::new()));
    assert_eq!(bound.list_snapshot_repositories(Ok(Json::Null)), Ok(Vec::new()));
    assert!(bound.get_cluster_health(Ok(Json::Null)).is_ok());
}

#[test]
fn create_snapshot_submits_without_waiting() {
    let state = state_with("c1");
    let request = create_snapshot(&state, "c1", "repo", "snap-1", None).unwrap();
    assert_eq!(request.repository, "repo");
    assert_eq!(request.snapshot, "snap-1");
    assert!(!request.wait_for_completion);
    assert_eq!(
        request.body,
        record(vec![
            ("ignore_unavailable", Json::Bool(true)),
            ("include_global_state", Json::Bool(false)),
        ])
    );
}

#[test]
fn create_snapshot_names_the_chosen_indices() {
    let state = state_with("c1");
    let indices = Some(vec!["logs".to_string(), "metrics".to_string()]);
    let request = create_snapshot(&state, "c1", "repo", "snap-1", indices).unwrap();
    assert_eq!(
        request.body,
        record(vec![
            ("ignore_unavailable", Json::Bool(true)),
            ("include_global_state", Json::Bool(false)),
            ("indices", Json::array(vec![Json::string("logs"), Json::string("metrics")])),
        ])
    );
    let none_chosen = create_snapshot(&state, "c1", "repo", "snap-1", Some(Vec::new())).unwrap();
    assert_eq!(none_chosen.body.get("indices"), Some(&Json::Array(Vec::new())));
}

#[test]
fn restore_snapshot_follows_the_same_policy() {
    let state = state_with("c1");
    let indices = Some(vec!["logs".to_string()]);
    let taken = create_snapshot(&state, "c1", "repo", "snap-1", indices.clone()).unwrap();
    let restored = restore_snapshot(&state, "c1", "repo", "snap-1", indices).unwrap();
    assert_eq!(restored, taken);
    assert!(!restored.wait_for_completion);
    assert_eq!(restored.body.get("include_global_state"), Some(&Json::Bool(false)));
    assert_eq!(restored.body.get("ignore_unavailable"), Some(&Json::Bool(true)));
}

#[test]
fn delete_snapshot_names_that_snapshot_alone() {
    let state = state_with("c1");
    let request = delete_snapshot(&state, "c1", "repo", "snap-1").unwrap();
    assert_eq!(request.repository, "repo");
    assert_eq!(request.snapshots, vec!["snap-1".to_string()]);
}

#[test]
fn create_snapshot_repository_sends_type_and_settings() {
    let state = state_with("c1");
    let settings = record(vec![("location", Json::string("/backups"))]);
    let request =
        create_snapshot_repository(&state, "c1", "nightly", "fs", settings.clone()).unwrap();
    assert_eq!(request.name, "nightly");
    assert_eq!(request.body, record(vec![("type", Json::string("fs")), ("settings", settings)]));
}

#[test]
fn create_snapshot_repository_names_the_id_without_session() {
    let state = state_with("c1");
    assert_eq!(
        create_snapshot_repository(&state, "c9", "nightly", "fs", Json::Null),
        Err("No client found for connection_id: c9".to_string())
    );
}

#[test]
fn repository_created_wraps_the_reason_of_a_failure() {
    assert_eq!(repository_created(Ok(())), Ok(()));
    assert_eq!(
        repository_created(Err("denied".to_string())),
        Err("Failed to create snapshot repository: denied".to_string())
    );
}

#[test]
fn save_connection_info_reads_host_and_port_of_the_first_host() {
    let saved =
        save_connection_info(&info("c1"), &config(&["https://es.example.com:9243", "x"]), 10, 20)
            .unwrap();
    assert_eq!(saved.id, "c1");
    assert_eq!(saved.name, "cluster c1");
    assert_eq!(saved.host, "es.example.com");
    assert_eq!(saved.port, 9243);
    assert_eq!(saved.username, Some("elastic".to_string()));
    assert_eq!(saved.password, Some("secret".to_string()));
    assert_eq!(saved.created_at, 10);
    assert_eq!(saved.last_used_at, 20);
}

#[test]
fn save_connection_info_falls_back_to_the_default_port() {
    let plain = save_connection_info(&info("c1"), &config(&["http://localhost"]), 0, 0).unwrap();
    assert_eq!(plain.host, "localhost");
    assert_eq!(plain.port, 9200);
    let scheme_default =
        save_connection_info(&info("c1"), &config(&["https://es.example.com:443"]), 0, 0).unwrap();
    assert_eq!(scheme_default.port, 9200);
    let address = save_connection_info(&info("c1"), &config(&["http://10.0.0.7:9201/"]), 0, 0).unwrap();
    assert_eq!(address.host, "10.0.0.7");
    assert_eq!(address.port, 9201);
}

#[test]
fn save_connection_info_needs_a_host() {
    assert_eq!(
        save_connection_info(&info("c1"), &config(&[]), 1, 2),
        Err(AppError::ValidationError("No host provided".to_string()))
    );
}

#[test]
fn save_connection_info_rejects_what_is_no_url() {
    assert_eq!(
        save_connection_info(&info("c1"), &config(&["localhost"]), 1, 2),
        Err(AppError::ValidationError(
            "Invalid host URL: relative URL without a base".to_string()
        ))
    );
    assert_eq!(
        save_connection_info(&info("c1"), &config(&["http://"]), 1, 2),
        Err(AppError::ValidationError("Invalid host URL: empty host".to_string()))
    );
}

#[test]
fn save_connection_info_rejects_a_url_without_host() {
    assert_eq!(
        save_connection_info(&info("c1"), &config(&["mailto:admin@example.com"]), 1, 2),
        Err(AppError::ValidationError("Invalid host".to_string()))
    );
}

#[test]
fn saved_connection_is_built_from_an_address() {
    let address = HostAddress { host: Some("h".to_string()), port: None };
    assert_eq!(
        SavedConnection::from_address(&info("c1"), &config(&["http://h"]), Ok(address), 10, 20),
        Ok(SavedConnection {
            id: "c1".to_string(),
            name: "cluster c1".to_string(),
            host: "h".to_string(),
            port: 9200,
            username: Some("elastic".to_string()),
            password: Some("secret".to_string()),
            created_at: 10,
            last_used_at: 20,
        })
    );
    let no_host = HostAddress { host: None, port: Some(1) };
    assert_eq!(
        SavedConnection::from_address(&info("c1"), &config(&[]), Ok(no_host), 0, 0),
        Err(AppError::ValidationError("Invalid host".to_string()))
    );
    assert_eq!(
        SavedConnection::from_address(&info("c1"), &config(&[]), Err("bad".to_string()), 0, 0),
        Err(AppError::ValidationError("Invalid host URL: bad".to_string()))
    );
}
