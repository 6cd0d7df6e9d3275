//! The settings of a connection to one cluster, and their validation.

use crate::error::{AppError, AppErrorView, AppResult};
use crate::text::{copy_optional_string, copy_strings, optional_text, starts_with, texts};
use vstd::prelude::*;
use vstd::string::*;

verus! {

/// The settings a session is built from.
#[derive(Debug, PartialEq, Eq)]
pub struct ElasticsearchConfig {
    /// The URLs of the cluster's nodes, in the order of preference.
    pub hosts: Vec<String>,
    pub username: Option<String>,
    pub password: Option<String>,
    pub api_key: Option<String>,
    pub ca_cert_path: Option<String>,
    pub timeout_secs: Option<u64>,
}

/// An [`ElasticsearchConfig`] over sequences.
pub struct ElasticsearchConfigView {
    pub hosts: Seq<Seq<char>>,
    pub username: Option<Seq<char>>,
    pub password: Option<Seq<char>>,
    pub api_key: Option<Seq<char>>,
    pub ca_cert_path: Option<Seq<char>>,
    pub timeout_secs: Option<u64>,
}

impl View for ElasticsearchConfig {
    type V = ElasticsearchConfigView;

    open spec fn view(&self) -> ElasticsearchConfigView {
        ElasticsearchConfigView {
            hosts: texts(self.hosts@),
            username: optional_text(self.username),
            password: optional_text(self.password),
            api_key: optional_text(self.api_key),
            ca_cert_path: optional_text(self.ca_cert_path),
            timeout_secs: self.timeout_secs,
        }
    }
}

/// Whether a host is written as an `http://` or `https://` URL.
pub open spec fn has_http_scheme(host: Seq<char>) -> bool {
    "http://"@.is_prefix_of(host) || "https://"@.is_prefix_of(host)
}

/// The place of the first host that lacks an `http://` or `https://` prefix.
pub open spec fn first_invalid_host(hosts: Seq<Seq<char>>) -> Option<int>
    decreases hosts.len(),
{
    if hosts.len() == 0 {
        None
    } else if !has_http_scheme(hosts[0]) {
        Some(0)
    } else {
        match first_invalid_host(hosts.drop_first()) {
            Some(at) => Some(at + 1),
            None => None,
        }
    }
}

/// The message that rejects `host`.
pub open spec fn invalid_host_message(host: Seq<char>) -> Seq<char> {
    "Invalid host URL: "@ + host + ". Must start with http:// or https://"@
}

/// The error that validation reports for a list of hosts, if it reports one:
/// for an empty list, else for the first host without an accepted prefix.
pub open spec fn validation_error(hosts: Seq<Seq<char>>) -> Option<AppErrorView> {
    if hosts.len() == 0 {
        Some(AppErrorView::ValidationError("No Elasticsearch hosts provided"@))
    } else {
        match first_invalid_host(hosts) {
            Some(at) => Some(AppErrorView::ValidationError(invalid_host_message(hosts[at]))),
            None => None,
        }
    }
}

/// Whether a list of hosts passes validation: it is not empty, and every
/// host begins with `http://` or `https://`.
pub open spec fn hosts_valid(hosts: Seq<Seq<char>>) -> bool {
    hosts.len() > 0 && forall|i: int| 0 <= i < hosts.len() ==> has_http_scheme(#[trigger] hosts[i])
}

/// `first_invalid_host` gives the place of a host without an accepted prefix
/// before which every host has one; it gives nothing exactly where every
/// host has one.
pub proof fn lemma_first_invalid_host(hosts: Seq<Seq<char>>)
    ensures
        match first_invalid_host(hosts) {
            Some(at) => 0 <= at < hosts.len() && !has_http_scheme(hosts[at]) && forall|i: int|
                0 <= i < at ==> has_http_scheme(#[trigger] hosts[i]),
            None => forall|i: int| 0 <= i < hosts.len() ==> has_http_scheme(#[trigger] hosts[i]),
        },
    decreases hosts.len(),
{
    if hosts.len() > 0 && has_http_scheme(hosts[0]) {
        let rest = hosts.drop_first();
        lemma_first_invalid_host(rest);
        assert forall|i: int| 0 <= i < rest.len() implies rest[i] == hosts[i + 1] by {}
        match first_invalid_host(rest) {
            Some(at) => {
                assert forall|i: int| 0 <= i < at + 1 implies has_http_scheme(
                    #[trigger] hosts[i],
                ) by {
                    if i > 0 {
                        assert(has_http_scheme(rest[i - 1]));
                    }
                }
            },
            None => {
                assert forall|i: int| 0 <= i < hosts.len() implies has_http_scheme(
                    #[trigger] hosts[i],
                ) by {
                    if i > 0 {
                        assert(has_http_scheme(rest[i - 1]));
                    }
                }
            },
        }
    }
}

/// Validation reports no error exactly for the lists of hosts that are valid.
pub proof fn lemma_validation_accepts_valid_hosts(hosts: Seq<Seq<char>>)
    ensures
        validation_error(hosts) is None <==> hosts_valid(hosts),
{
    lemma_first_invalid_host(hosts);
}

/// Validation rejects the empty list, and rejects every list that holds a
/// host without an `http://` or `https://` prefix.
pub proof fn lemma_validation_rejects(hosts: Seq<Seq<char>>, at: int)
    ensures
        hosts.len() == 0 ==> validation_error(hosts) is Some,
        0 <= at < hosts.len() && !has_http_scheme(hosts[at]) ==> validation_error(hosts) is Some,
{
    lemma_first_invalid_host(hosts);
}

/// Validation accepts a single host that is written with an accepted prefix.
pub proof fn lemma_validation_accepts_single_host(host: Seq<char>)
    requires
        has_http_scheme(host),
    ensures
        validation_error(seq![host]) is None,
{
    lemma_validation_accepts_valid_hosts(seq![host]);
}

impl ElasticsearchConfigView {
    /// Whether the settings pass validation.
    pub open spec fn is_valid(self) -> bool {
        hosts_valid(self.hosts)
    }
}

impl Clone for ElasticsearchConfig {
    /// A copy with the same view.
    fn clone(&self) -> (copy: ElasticsearchConfig)
        ensures
            copy@ == self@,
    {
        ElasticsearchConfig {
            hosts: copy_strings(&self.hosts),
            username: copy_optional_string(&self.username),
            password: copy_optional_string(&self.password),
            api_key: copy_optional_string(&self.api_key),
            ca_cert_path: copy_optional_string(&self.ca_cert_path),
            timeout_secs: self.timeout_secs,
        }
    }
}

impl Default for ElasticsearchConfig {
    /// One local node over plain HTTP, no credentials, a timeout of thirty seconds.
    fn default() -> (config: ElasticsearchConfig)
        ensures
            config@ == (ElasticsearchConfigView {
                hosts: seq!["http://localhost:9200"@],
                username: None,
                password: None,
                api_key: None,
                ca_cert_path: None,
                timeout_secs: Some(30u64),
            }),
    {
        let mut hosts: Vec<String> = Vec::new();
        hosts.push(String::from_str("http://localhost:9200"));
        let config = ElasticsearchConfig {
            hosts,
            username: None,
            password: None,
            api_key: None,
            ca_cert_path: None,
            timeout_secs: Some(30),
        };
        assert(config@.hosts =~= seq!["http://localhost:9200"@]);
        config
    }
}

impl ElasticsearchConfig {
    /// Checks the settings before any use of the network. Fails on an empty
    /// list of hosts, and on the first host that does not begin with
    /// `http://` or `https://`.
    pub fn validate(&self) -> (checked: AppResult<()>)
        ensures
            match checked {
                Ok(_) => validation_error(self@.hosts) is None,
                Err(error) => validation_error(self@.hosts) == Some(error@),
            },
            checked is Ok <==> self@.is_valid(),
    {
        proof {
            lemma_validation_accepts_valid_hosts(self@.hosts);
        }
        if self.hosts.len() == 0 {
            return Err(
                AppError::ValidationError(String::from_str("No Elasticsearch hosts provided")),
            );
        }
        let mut at: usize = 0;
        while at < self.hosts.len()
            invariant
                at <= self.hosts.len(),
                forall|i: int| 0 <= i < at ==> has_http_scheme(#[trigger] self@.hosts[i]),
            decreases self.hosts.len() - at,
        {
            let host: &str = self.hosts[at].as_str();
            if !starts_with(host, "http://") && !starts_with(host, "https://") {
                let message = String::from_str("Invalid host URL: ").concat(host).concat(
                    ". Must start with http:// or https://",
                );
                proof {
                    lemma_first_invalid_host(self@.hosts);
                    assert(!has_http_scheme(self@.hosts[at as int]));
                }
                return Err(AppError::ValidationError(message));
            }
            assert(has_http_scheme(self@.hosts[at as int]));
            at += 1;
        }
        proof {
            lemma_first_invalid_host(self@.hosts);
        }
        Ok(())
    }
}

} // verus!
