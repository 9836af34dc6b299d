//! The settings of the application, as a loader hands them over.

use vstd::prelude::*;
use crate::errors::AppError;
use crate::single::Single;

verus! {

/// Where the server listens.
#[derive(Debug, Clone)]
pub struct ServerConfig {
    pub host: String,
    pub port: u16,
    pub workers: Option<usize>,
}

/// The relational database.
#[derive(Debug, Clone)]
pub struct DatabaseConfig {
    pub url: String,
    pub max_connections: u32,
    pub min_connections: u32,
    /// In seconds.
    pub acquire_timeout: u64,
}

/// The vector store; `provider` is one of `sqlite`, `qdrant`, `postgres`.
#[derive(Debug, Clone)]
pub struct VectorDbConfig {
    pub provider: String,
    pub connection_string: String,
    pub dimension: usize,
    pub collection_name: Option<String>,
    pub table_name: Option<String>,
}

/// The embedding provider.
#[derive(Debug, Clone)]
pub struct EmbeddingConfig {
    pub provider: String,
    pub model: String,
    pub api_key: String,
    pub endpoint: String,
    pub dimension: usize,
    pub batch_size: usize,
    /// In seconds.
    pub timeout: u64,
}

/// The rerank provider.
#[derive(Debug, Clone)]
pub struct RerankingConfig {
    pub provider: String,
    pub model: String,
    pub api_key: String,
    pub endpoint: String,
    pub max_documents: usize,
    /// In seconds.
    pub timeout: u64,
}

/// The generation provider.
#[derive(Debug, Clone)]
pub struct LLMConfig {
    pub provider: String,
    pub model: String,
    pub api_key: String,
    pub endpoint: String,
    pub max_tokens: usize,
    pub temperature: Single,
    /// In seconds.
    pub timeout: u64,
}

/// What is logged, and where.
#[derive(Debug, Clone)]
pub struct LoggingConfig {
    pub level: String,
    pub file: Option<String>,
    pub json_format: bool,
}

/// All settings.
#[derive(Debug, Clone)]
pub struct AppConfig {
    pub server: ServerConfig,
    pub database: DatabaseConfig,
    pub vector_db: VectorDbConfig,
    pub embedding: EmbeddingConfig,
    pub reranking: RerankingConfig,
    pub llm: LLMConfig,
    pub logging: LoggingConfig,
}

impl AppConfig {
    /// Accepts every configuration; the rules on credentials are those of
    /// `ConfigurationLoader::validate_config`.
    pub fn validate(&self) -> (r: Result<(), AppError>)
        ensures
            r is Ok,
    {
        Ok(())
    }
}

impl Default for ServerConfig {
    /// Every address of the machine, port 8080, and no fixed number of
    /// workers.
    fn default() -> (config: ServerConfig)
        ensures
            config.host@ == "0.0.0.0"@,
            config.port == 8080,
            config.workers is None,
    {
        ServerConfig { host: "0.0.0.0".to_owned(), port: 8080, workers: None }
    }
}

impl Default for LoggingConfig {
    /// Level `info`, no file, plain lines.
    fn default() -> (config: LoggingConfig)
        ensures
            config.level@ == "info"@,
            config.file is None,
            !config.json_format,
    {
        LoggingConfig { level: "info".to_owned(), file: None, json_format: false }
    }
}

} // verus!
