//! The record of a saved connection, as the store of connections keeps it.
//!
//! The store itself lies outside the library. What is decided here is the
//! record that is written for a connection: its host and port are read off
//! the first host URL of the settings.

use crate::config::ElasticsearchConfig;
use crate::elasticsearch::client::ConnectionInfo;
use crate::error::{AppError, AppErrorView, AppResult};
use crate::text::{copy_optional_string, optional_text};
use vstd::prelude::*;
use vstd::string::*;

verus! {

/// A connection as it is stored for later use.
#[derive(Debug, Clone, PartialEq, Eq)]
pub struct SavedConnection {
    pub id: String,
    pub name: String,
    pub host: String,
    pub port: u16,
    pub username: Option<String>,
    pub password: Option<String>,
    /// Seconds since the epoch.
    pub created_at: i64,
    /// Seconds since the epoch.
    pub last_used_at: i64,
}

/// A [`SavedConnection`] over sequences.
pub struct SavedConnectionView {
    pub id: Seq<char>,
    pub name: Seq<char>,
    pub host: Seq<char>,
    pub port: u16,
    pub username: Option<Seq<char>>,
    pub password: Option<Seq<char>>,
    pub created_at: i64,
    pub last_used_at: i64,
}

impl View for SavedConnection {
    type V = SavedConnectionView;

    open spec fn view(&self) -> SavedConnectionView {
        SavedConnectionView {
            id: self.id@,
            name: self.name@,
            host: self.host@,
            port: self.port,
            username: optional_text(self.username),
            password: optional_text(self.password),
            created_at: self.created_at,
            last_used_at: self.last_used_at,
        }
    }
}

/// The host and the port that a URL names. The port is the one written in
/// the URL; a URL that leaves it out, or writes the default port of its
/// scheme, has none.
#[derive(Debug, Clone, PartialEq, Eq)]
pub struct HostAddress {
    pub host: Option<String>,
    pub port: Option<u16>,
}

/// A [`HostAddress`] over sequences.
pub struct HostAddressView {
    pub host: Option<Seq<char>>,
    pub port: Option<u16>,
}

impl View for HostAddress {
    type V = HostAddressView;

    open spec fn view(&self) -> HostAddressView {
        HostAddressView { host: optional_text(self.host), port: self.port }
    }
}

/// What `url::Url::parse` makes of a text: the host and the port of the URL
/// it reads, as `Url::host_str` and `Url::port` give them, or the message of
/// the error it reports.
pub uninterp spec fn parsed_host(text: Seq<char>) -> Result<HostAddressView, Seq<char>>;

/// Reads a URL with `url::Url::parse` and takes its host and port with
/// `Url::host_str` and `Url::port`. The contract gives the outcome its name,
/// [`parsed_host`], and claims nothing else of it.
#[verifier::external_body]
pub(crate) fn parse_host(text: &str) -> (parsed: Result<HostAddress, String>)
    ensures
        match parsed {
            Ok(address) => parsed_host(text@) == Ok::<HostAddressView, Seq<char>>(address@),
            Err(message) => parsed_host(text@) == Err::<HostAddressView, Seq<char>>(message@),
        },
{
    match url::Url::parse(text) {
        Ok(parsed) => Ok(
            HostAddress { host: parsed.host_str().map(String::from), port: parsed.port() },
        ),
        Err(error) => Err(error.to_string()),
    }
}

/// The port of a cluster whose URL names none.
pub const DEFAULT_PORT: u16 = 9200;

/// The record for a connection whose first host was read as `parsed`, or
/// the error that rejects it: a URL that could not be read, or one that
/// names no host.
pub open spec fn saved_record(
    connection_info: ConnectionInfo,
    config: ElasticsearchConfig,
    parsed: Result<HostAddressView, Seq<char>>,
    created_at: i64,
    last_used_at: i64,
) -> Result<SavedConnectionView, AppErrorView> {
    match parsed {
        Err(message) => Err(AppErrorView::ValidationError("Invalid host URL: "@ + message)),
        Ok(address) => match address.host {
            None => Err(AppErrorView::ValidationError("Invalid host"@)),
            Some(host) => Ok(
                SavedConnectionView {
                    id: connection_info@.id,
                    name: connection_info@.name,
                    host,
                    port: match address.port {
                        Some(port) => port,
                        None => DEFAULT_PORT,
                    },
                    username: config@.username,
                    password: config@.password,
                    created_at,
                    last_used_at,
                },
            ),
        },
    }
}

impl SavedConnection {
    /// Builds the record for a connection from the address that its first
    /// host was read as and from the times of its creation and last use.
    pub fn from_address(
        connection_info: &ConnectionInfo,
        config: &ElasticsearchConfig,
        parsed: Result<HostAddress, String>,
        created_at: i64,
        last_used_at: i64,
    ) -> (record: AppResult<SavedConnection>)
        ensures
            match record {
                Ok(saved) => saved_record(
                    *connection_info,
                    *config,
                    address_view(parsed),
                    created_at,
                    last_used_at,
                ) == Ok::<SavedConnectionView, AppErrorView>(saved@),
                Err(error) => saved_record(
                    *connection_info,
                    *config,
                    address_view(parsed),
                    created_at,
                    last_used_at,
                ) == Err::<SavedConnectionView, AppErrorView>(error@),
            },
    {
        match parsed {
            Err(message) => Err(
                AppError::ValidationError(
                    String::from_str("Invalid host URL: ").concat(message.as_str()),
                ),
            ),
            Ok(address) => match address.host {
                None => Err(AppError::ValidationError(String::from_str("Invalid host"))),
                Some(host) => Ok(
                    SavedConnection {
                        id: connection_info.id.clone(),
                        name: connection_info.name.clone(),
                        host,
                        port: match address.port {
                            Some(port) => port,
                            None => DEFAULT_PORT,
                        },
                        username: copy_optional_string(&config.username),
                        password: copy_optional_string(&config.password),
                        created_at,
                        last_used_at,
                    },
                ),
            },
        }
    }
}

/// The outcome of reading a host, over sequences.
pub open spec fn address_view(parsed: Result<HostAddress, String>) -> Result<
    HostAddressView,
    Seq<char>,
> {
    match parsed {
        Ok(address) => Ok(address@),
        Err(message) => Err(message@),
    }
}

} // verus!
