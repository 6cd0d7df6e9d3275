//! The error kinds that every operation of the library reports.

use vstd::prelude::*;
use vstd::string::*;

verus! {

/// A failure, by kind, with the message that describes it.
#[derive(Debug, Clone, PartialEq, Eq)]
pub enum AppError {
    /// The caller's input is malformed: a bad configuration, a query that is not JSON.
    ValidationError(String),
    /// No transport could be built, the cluster did not answer the probe,
    /// or no session is registered under the id.
    ConnectionError(String),
    /// The cluster rejected or failed a request of an established session.
    ElasticsearchError(String),
    /// The store of saved connections failed.
    StateError(String),
}

/// An [`AppError`] with its message as a sequence of characters.
pub enum AppErrorView {
    ValidationError(Seq<char>),
    ConnectionError(Seq<char>),
    ElasticsearchError(Seq<char>),
    StateError(Seq<char>),
}

impl AppErrorView {
    /// The message without the kind.
    pub open spec fn message(self) -> Seq<char> {
        match self {
            AppErrorView::ValidationError(message) => message,
            AppErrorView::ConnectionError(message) => message,
            AppErrorView::ElasticsearchError(message) => message,
            AppErrorView::StateError(message) => message,
        }
    }

    /// The label that the rendered text opens with.
    pub open spec fn label(self) -> Seq<char> {
        match self {
            AppErrorView::ValidationError(_) => "验证错误: "@,
            AppErrorView::ConnectionError(_) => "连接错误: "@,
            AppErrorView::ElasticsearchError(_) => "Elasticsearch错误: "@,
            AppErrorView::StateError(_) => "状态错误: "@,
        }
    }

    /// The text shown to the user: the kind's label, then the message.
    pub open spec fn rendered(self) -> Seq<char> {
        self.label() + self.message()
    }
}

impl View for AppError {
    type V = AppErrorView;

    open spec fn view(&self) -> AppErrorView {
        match self {
            AppError::ValidationError(message) => AppErrorView::ValidationError(message@),
            AppError::ConnectionError(message) => AppErrorView::ConnectionError(message@),
            AppError::ElasticsearchError(message) => AppErrorView::ElasticsearchError(message@),
            AppError::StateError(message) => AppErrorView::StateError(message@),
        }
    }
}

pub type AppResult<T> = Result<T, AppError>;

impl AppError {
    /// The message that the error carries, without the kind's label.
    pub fn message(&self) -> (message: &str)
        ensures
            message@ == self@.message(),
    {
        match self {
            AppError::ValidationError(message) => message.as_str(),
            AppError::ConnectionError(message) => message.as_str(),
            AppError::ElasticsearchError(message) => message.as_str(),
            AppError::StateError(message) => message.as_str(),
        }
    }

    /// Renders the error as the user sees it.
    pub fn to_string(&self) -> (text: String)
        ensures
            text@ == self@.rendered(),
    {
        let label: &str = match self {
            AppError::ValidationError(_) => "验证错误: ",
            AppError::ConnectionError(_) => "连接错误: ",
            AppError::ElasticsearchError(_) => "Elasticsearch错误: ",
            AppError::StateError(_) => "状态错误: ",
        };
        String::from_str(label).concat(self.message())
    }
}

} // verus!
