//! The one error type of the library.

use vstd::prelude::*;
use vstd::std_specs::convert::FromSpecImpl;
use crate::text::followed;

verus! {

/// What went wrong, by the part of the system it went wrong in.
#[derive(Debug, Clone)]
pub enum AppError {
    /// The relational database failed.
    Database { message: String },
    /// The vector store failed, or answered against its contract.
    VectorDatabase { message: String },
    /// The embedding provider failed, or answered against its contract.
    EmbeddingService { message: String },
    /// The rerank provider failed, or answered against its contract.
    RerankService { message: String },
    /// The generation provider failed, or answered against its contract.
    LLMService { message: String },
    /// The configuration cannot be used.
    Configuration { message: String },
    /// A field of a request breaks a rule.
    Validation { field: String, message: String },
    /// Nothing of that kind has that id.
    NotFound { resource: String, id: String },
    /// The caller may not do this.
    Permission { action: String },
    /// A request over the network failed.
    Network { message: String },
    /// Anything else.
    Internal { message: String },
}

pub type AppResult<T> = Result<T, AppError>;

/// An error as contracts speak of it: the variant, and its texts as
/// sequences of characters.
pub enum ErrorView {
    Database { message: Seq<char> },
    VectorDatabase { message: Seq<char> },
    EmbeddingService { message: Seq<char> },
    RerankService { message: Seq<char> },
    LLMService { message: Seq<char> },
    Configuration { message: Seq<char> },
    Validation { field: Seq<char>, message: Seq<char> },
    NotFound { resource: Seq<char>, id: Seq<char> },
    Permission { action: Seq<char> },
    Network { message: Seq<char> },
    Internal { message: Seq<char> },
}

impl View for AppError {
    type V = ErrorView;

    open spec fn view(&self) -> ErrorView {
        match self {
            AppError::Database { message } => ErrorView::Database { message: message@ },
            AppError::VectorDatabase { message } => ErrorView::VectorDatabase {
                message: message@,
            },
            AppError::EmbeddingService { message } => ErrorView::EmbeddingService {
                message: message@,
            },
            AppError::RerankService { message } => ErrorView::RerankService { message: message@ },
            AppError::LLMService { message } => ErrorView::LLMService { message: message@ },
            AppError::Configuration { message } => ErrorView::Configuration { message: message@ },
            AppError::Validation { field, message } => ErrorView::Validation {
                field: field@,
                message: message@,
            },
            AppError::NotFound { resource, id } => ErrorView::NotFound {
                resource: resource@,
                id: id@,
            },
            AppError::Permission { action } => ErrorView::Permission { action: action@ },
            AppError::Network { message } => ErrorView::Network { message: message@ },
            AppError::Internal { message } => ErrorView::Internal { message: message@ },
        }
    }
}

impl ErrorView {
    /// The line that describes the error to a reader.
    pub open spec fn text(self) -> Seq<char> {
        match self {
            ErrorView::Database { message } => "数据库操作失败: "@ + message,
            ErrorView::VectorDatabase { message } => "向量数据库操作失败: "@ + message,
            ErrorView::EmbeddingService { message } => "Embedding服务错误: "@ + message,
            ErrorView::RerankService { message } => "Rerank服务错误: "@ + message,
            ErrorView::LLMService { message } => "LLM服务错误: "@ + message,
            ErrorView::Configuration { message } => "配置错误: "@ + message,
            ErrorView::Validation { field, message } => "验证错误: "@ + field + ": "@ + message,
            ErrorView::NotFound { resource, id } => "资源未找到: "@ + resource + ": "@ + id,
            ErrorView::Permission { action } => "权限不足: "@ + action,
            ErrorView::Network { message } => "网络请求失败: "@ + message,
            ErrorView::Internal { message } => "内部错误: "@ + message,
        }
    }
}

/// `sqlx::Error`, carried as an opaque value.
#[verifier::external_type_specification]
#[verifier::external_body]
pub struct ExSqlxError(sqlx::Error);

/// `reqwest::Error`, carried as an opaque value.
#[verifier::external_type_specification]
#[verifier::external_body]
pub struct ExReqwestError(reqwest::Error);

/// `serde_json::Error`, carried as an opaque value.
#[verifier::external_type_specification]
#[verifier::external_body]
pub struct ExJsonError(serde_json::Error);

/// `anyhow::Error`, carried as an opaque value.
#[verifier::external_type_specification]
#[verifier::external_body]
pub struct ExAnyhowError(anyhow::Error);

impl From<sqlx::Error> for AppError {
    /// A failure of the relational database, with the line of the error for
    /// its message.
    fn from(error: sqlx::Error) -> (e: AppError)
        ensures
            e is Database,
    {
        AppError::database(error.to_string().as_str())
    }
}

impl FromSpecImpl<sqlx::Error> for AppError {
    open spec fn obeys_from_spec() -> bool {
        false
    }

    open spec fn from_spec(error: sqlx::Error) -> AppError {
        AppError::Database { message: arbitrary() }
    }
}

impl From<reqwest::Error> for AppError {
    /// A failure on the network, with the line of the error for its
    /// message.
    fn from(error: reqwest::Error) -> (e: AppError)
        ensures
            e is Network,
    {
        AppError::network(error.to_string().as_str())
    }
}

impl FromSpecImpl<reqwest::Error> for AppError {
    open spec fn obeys_from_spec() -> bool {
        false
    }

    open spec fn from_spec(error: reqwest::Error) -> AppError {
        AppError::Network { message: arbitrary() }
    }
}

impl From<serde_json::Error> for AppError {
    /// An internal error, with the line of the error behind the words that
    /// say that JSON was being handled.
    fn from(error: serde_json::Error) -> (e: AppError)
        ensures
            e matches AppError::Internal { message } && exists|line: Seq<char>|
                message@ == "JSON处理错误: "@ + line,
    {
        AppError::json(error.to_string().as_str())
    }
}

impl FromSpecImpl<serde_json::Error> for AppError {
    open spec fn obeys_from_spec() -> bool {
        false
    }

    open spec fn from_spec(error: serde_json::Error) -> AppError {
        AppError::Internal { message: arbitrary() }
    }
}

impl From<anyhow::Error> for AppError {
    /// An internal error, with the line of the error for its message.
    fn from(error: anyhow::Error) -> (e: AppError)
        ensures
            e is Internal,
    {
        AppError::internal(error.to_string().as_str())
    }
}

impl FromSpecImpl<anyhow::Error> for AppError {
    open spec fn obeys_from_spec() -> bool {
        false
    }

    open spec fn from_spec(error: anyhow::Error) -> AppError {
        AppError::Internal { message: arbitrary() }
    }
}

impl AppError {
    /// A failure on the network.
    pub fn network(message: &str) -> (e: AppError)
        ensures
            e@ == (ErrorView::Network { message: message@ }),
    {
        AppError::Network { message: message.to_owned() }
    }

    /// An internal error.
    pub fn internal(message: &str) -> (e: AppError)
        ensures
            e@ == (ErrorView::Internal { message: message@ }),
    {
        AppError::Internal { message: message.to_owned() }
    }

    /// The internal error for a failure in handling JSON, of which `line`
    /// tells.
    pub fn json(line: &str) -> (e: AppError)
        ensures
            e@ == (ErrorView::Internal { message: "JSON处理错误: "@ + line@ }),
    {
        AppError::Internal { message: followed("JSON处理错误: ", line) }
    }

    /// A failure of the relational database.
    pub fn database(message: &str) -> (e: AppError)
        ensures
            e@ == (ErrorView::Database { message: message@ }),
    {
        AppError::Database { message: message.to_owned() }
    }

    /// A broken rule on `field`.
    pub fn validation(field: &str, message: &str) -> (e: AppError)
        ensures
            e@ == (ErrorView::Validation { field: field@, message: message@ }),
    {
        AppError::Validation { field: field.to_owned(), message: message.to_owned() }
    }

    /// A missing `resource` with the given `id`.
    pub fn not_found(resource: &str, id: &str) -> (e: AppError)
        ensures
            e@ == (ErrorView::NotFound { resource: resource@, id: id@ }),
    {
        AppError::NotFound { resource: resource.to_owned(), id: id.to_owned() }
    }

    /// The line that describes the error to a reader.
    pub fn to_string(&self) -> (line: String)
        ensures
            line@ == self@.text(),
    {
        match self {
            AppError::Database { message } => followed("数据库操作失败: ", message.as_str()),
            AppError::VectorDatabase { message } => followed("向量数据库操作失败: ", message.as_str()),
            AppError::EmbeddingService { message } => followed(
                "Embedding服务错误: ",
                message.as_str(),
            ),
            AppError::RerankService { message } => followed("Rerank服务错误: ", message.as_str()),
            AppError::LLMService { message } => followed("LLM服务错误: ", message.as_str()),
            AppError::Configuration { message } => followed("配置错误: ", message.as_str()),
            AppError::Validation { field, message } => {
                let head = followed("验证错误: ", field.as_str());
                let head = followed(head.as_str(), ": ");
                followed(head.as_str(), message.as_str())
            },
            AppError::NotFound { resource, id } => {
                let head = followed("资源未找到: ", resource.as_str());
                let head = followed(head.as_str(), ": ");
                followed(head.as_str(), id.as_str())
            },
            AppError::Permission { action } => followed("权限不足: ", action.as_str()),
            AppError::Network { message } => followed("网络请求失败: ", message.as_str()),
            AppError::Internal { message } => followed("内部错误: ", message.as_str()),
        }
    }
}

} // verus!
