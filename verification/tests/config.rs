use elastic_eye::config::ElasticsearchConfig;
use elastic_eye::error::AppError;

fn config_with_hosts(hosts: &[&str]) -> ElasticsearchConfig {
    ElasticsearchConfig {
        hosts: hosts.iter().map(|host| host.to_string()).collect(),
        username: None,
        password: None,
        api_key: None,
        ca_cert_path: None,
        timeout_secs: None,
    }
}

#[test]
fn default_config_names_one_local_host() {
    let config = ElasticsearchConfig::default();
    assert_eq!(config.hosts, vec!["http://localhost:9200".to_string()]);
    assert_eq!(config.username, None);
    assert_eq!(config.password, None);
    assert_eq!(config.api_key, None);
    assert_eq!(config.ca_cert_path, None);
    assert_eq!(config.timeout_secs, Some(30));
}

#[test]
fn default_config_is_valid() {
    assert_eq!(ElasticsearchConfig::default().validate(), Ok(()));
}

#[test]
fn validate_rejects_an_empty_host_list() {
    let config = config_with_hosts(&[]);
    assert_eq!(
        config.validate(),
        Err(AppError::ValidationError("No Elasticsearch hosts provided".to_string()))
    );
}

#[test]
fn validate_rejects_a_host_without_scheme() {
    let config = config_with_hosts(&["localhost:9200"]);
    assert_eq!(
        config.validate(),
        Err(AppError::ValidationError(
            "Invalid host URL: localhost:9200. Must start with http:// or https://".to_string()
        ))
    );
}

#[test]
fn validate_rejects_another_scheme() {
    let config = config_with_hosts(&["ftp://example.com"]);
    assert_eq!(
        config.validate(),
        Err(AppError::ValidationError(
            "Invalid host URL: ftp://example.com. Must start with http:// or https://".to_string()
        ))
    );
}

#[test]
fn validate_reports_the_first_invalid_host() {
    let config = config_with_hosts(&["https://a:9200", "b:9200", "c:9200"]);
    assert_eq!(
        config.validate(),
        Err(AppError::ValidationError(
            "Invalid host URL: b:9200. Must start with http:// or https://".to_string()
        ))
    );
}

#[test]
fn validate_accepts_a_single_https_host() {
    let config = config_with_hosts(&["https://host:9200"]);
    assert_eq!(config.validate(), Ok(()));
}

#[test]
fn validate_accepts_several_hosts_of_both_schemes() {
    let config = config_with_hosts(&["http://a:9200", "https://b:9200"]);
    assert_eq!(config.validate(), Ok(()));
}

#[test]
fn validate_rejects_a_prefix_that_is_cut_short() {
    assert!(config_with_hosts(&["http:/"]).validate().is_err());
    assert!(config_with_hosts(&["https:/host"]).validate().is_err());
    assert!(config_with_hosts(&[""]).validate().is_err());
}

#[test]
fn validate_is_case_sensitive() {
    assert!(config_with_hosts(&["HTTP://host:9200"]).validate().is_err());
}

#[test]
fn validate_accepts_a_host_that_is_no_ascii() {
    assert_eq!(config_with_hosts(&["http://münchen.example:9200"]).validate(), Ok(()));
    assert!(config_with_hosts(&["ｈttp://host"]).validate().is_err());
}

#[test]
fn config_clone_keeps_every_field() {
    let config = ElasticsearchConfig {
        hosts: vec!["https://a:9200".to_string(), "https://b:9200".to_string()],
        username: Some("elastic".to_string()),
        password: Some("changeme".to_string()),
        api_key: Some("key".to_string()),
        ca_cert_path: Some("/etc/ca.pem".to_string()),
        timeout_secs: Some(5),
    };
    assert_eq!(config.clone(), config);
}
