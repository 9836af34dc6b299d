//! What happens to a configuration between the file and its use: values
//! from the environment replace values from the file, and the credentials
//! are checked.

use vstd::prelude::*;
use crate::config::{AppConfig, EmbeddingConfig, LLMConfig, RerankingConfig, ServerConfig};
use crate::config::DatabaseConfig;
use crate::errors::{AppError, ErrorView};
use crate::text::{blank, decimal_u16, is_blank, parse_u16};

verus! {

/// The values that the environment may hold, each under its variable; a
/// variable that is not set, or not text, is `None`.
#[derive(Debug, Clone)]
pub struct EnvOverrides {
    /// `RAG_SERVER_HOST`
    pub server_host: Option<String>,
    /// `RAG_SERVER_PORT`
    pub server_port: Option<String>,
    /// `RAG_DATABASE_URL`
    pub database_url: Option<String>,
    /// `RAG_EMBEDDING_API_KEY`
    pub embedding_api_key: Option<String>,
    /// `RAG_EMBEDDING_ENDPOINT`
    pub embedding_endpoint: Option<String>,
    /// `RAG_RERANK_API_KEY`
    pub rerank_api_key: Option<String>,
    /// `RAG_LLM_API_KEY`
    pub llm_api_key: Option<String>,
}

/// `given` where there is one, else `current`.
pub open spec fn replaced(current: String, given: Option<String>) -> String {
    match given {
        Some(value) => value,
        None => current,
    }
}

/// The port that `given` writes, where it writes one; else `current`.
pub open spec fn replaced_port(current: u16, given: Option<String>) -> u16 {
    match given {
        Some(text) => match decimal_u16(text@) {
            Some(port) => port,
            None => current,
        },
        None => current,
    }
}

/// `config` with the values of `env` in place of its own.
pub open spec fn overridden(config: AppConfig, env: EnvOverrides) -> AppConfig {
    AppConfig {
        server: ServerConfig {
            host: replaced(config.server.host, env.server_host),
            port: replaced_port(config.server.port, env.server_port),
            ..config.server
        },
        database: DatabaseConfig {
            url: replaced(config.database.url, env.database_url),
            ..config.database
        },
        embedding: EmbeddingConfig {
            api_key: replaced(config.embedding.api_key, env.embedding_api_key),
            endpoint: replaced(config.embedding.endpoint, env.embedding_endpoint),
            ..config.embedding
        },
        reranking: RerankingConfig {
            api_key: replaced(config.reranking.api_key, env.rerank_api_key),
            ..config.reranking
        },
        llm: LLMConfig { api_key: replaced(config.llm.api_key, env.llm_api_key), ..config.llm },
        ..config
    }
}

/// The first credential of `config` that is missing, as the error that
/// names it; none where all are there.
pub open spec fn missing_credential(config: AppConfig) -> Option<ErrorView> {
    if blank(config.embedding.api_key@) {
        Some(ErrorView::Configuration { message: "嵌入服务API密钥不能为空"@ })
    } else if blank(config.reranking.api_key@) {
        Some(ErrorView::Configuration { message: "重排序服务API密钥不能为空"@ })
    } else if blank(config.llm.api_key@) {
        Some(ErrorView::Configuration { message: "LLM服务API密钥不能为空"@ })
    } else if blank(config.database.url@) {
        Some(ErrorView::Configuration { message: "数据库连接字符串不能为空"@ })
    } else {
        None
    }
}

/// Brings a configuration from its sources into use.
pub struct ConfigurationLoader;

impl ConfigurationLoader {
    /// Puts the values of the environment in place of those of the file. A
    /// port that is no number below 65536 in decimal digits is passed over.
    pub fn apply_env_overrides(config: AppConfig, env: EnvOverrides) -> (r: Result<
        AppConfig,
        AppError,
    >)
        ensures
            r matches Ok(result) && result == overridden(config, env),
    {
        let mut config = config;
        if let Some(host) = env.server_host {
            config.server.host = host;
        }
        if let Some(port) = env.server_port {
            if let Some(number) = parse_u16(port.as_str()) {
                config.server.port = number;
            }
        }
        if let Some(url) = env.database_url {
            config.database.url = url;
        }
        if let Some(api_key) = env.embedding_api_key {
            config.embedding.api_key = api_key;
        }
        if let Some(endpoint) = env.embedding_endpoint {
            config.embedding.endpoint = endpoint;
        }
        if let Some(api_key) = env.rerank_api_key {
            config.reranking.api_key = api_key;
        }
        if let Some(api_key) = env.llm_api_key {
            config.llm.api_key = api_key;
        }
        Ok(config)
    }

    /// Checks that the keys of the three providers and the address of the
    /// database are there: none of them empty or blank.
    pub fn validate_config(config: &AppConfig) -> (r: Result<(), AppError>)
        ensures
            match missing_credential(*config) {
                None => r is Ok,
                Some(error) => r matches Err(e) && e@ == error,
            },
    {
        if is_blank(config.embedding.api_key.as_str()) {
            return Err(AppError::Configuration { message: "嵌入服务API密钥不能为空".to_owned() });
        }
        if is_blank(config.reranking.api_key.as_str()) {
            return Err(
                AppError::Configuration { message: "重排序服务API密钥不能为空".to_owned() },
            );
        }
        if is_blank(config.llm.api_key.as_str()) {
            return Err(AppError::Configuration { message: "LLM服务API密钥不能为空".to_owned() });
        }
        if is_blank(config.database.url.as_str()) {
            return Err(
                AppError::Configuration { message: "数据库连接字符串不能为空".to_owned() },
            );
        }
        Ok(())
    }
}

} // verus!
