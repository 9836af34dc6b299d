//! From a configuration to the backends it selects.

use vstd::prelude::*;
use crate::config::{AppConfig, EmbeddingConfig, LLMConfig, RerankingConfig, VectorDbConfig};
use crate::configuration::{missing_credential, ConfigurationLoader};
use crate::errors::{AppError, ErrorView};
use crate::services::{
    PostgresVectorDB,
    QdrantVectorDB,
    QwenEmbeddingService,
    QwenLLMService,
    QwenRerankService,
    SqliteVectorDB,
};
use crate::text::{followed, same_text};
use crate::vector_db::DatabaseInfo;

verus! {

/// The vector store that a configuration selects.
#[derive(Debug, Clone)]
pub enum VectorBackend {
    Sqlite(SqliteVectorDB),
    Qdrant(QdrantVectorDB),
    Postgres(PostgresVectorDB),
}

impl VectorBackend {
    /// What the selected store says of itself.
    pub fn database_info(&self) -> (info: DatabaseInfo)
        ensures
            self is Sqlite ==> info.name@ == "SQLite + vec0"@ && !info.supports_hybrid_search,
            self is Qdrant ==> info.name@ == "Qdrant"@ && info.supports_hybrid_search,
            self is Postgres ==> info.name@ == "PostgreSQL + pgvector"@
                && info.supports_hybrid_search,
    {
        match self {
            VectorBackend::Sqlite(store) => store.database_info(),
            VectorBackend::Qdrant(store) => store.database_info(),
            VectorBackend::Postgres(store) => store.database_info(),
        }
    }
}

/// The four backends that a configuration selects.
#[derive(Debug, Clone)]
pub struct ProviderSet {
    pub embedding: QwenEmbeddingService,
    pub reranking: QwenRerankService,
    pub vector_db: VectorBackend,
    pub llm: QwenLLMService,
}

/// The error for an embedding provider that the factory does not know.
pub open spec fn unknown_embedding_provider(provider: Seq<char>) -> ErrorView {
    ErrorView::Configuration { message: "不支持的嵌入服务提供商: "@ + provider }
}

/// The error for a rerank provider that the factory does not know.
pub open spec fn unknown_rerank_provider(provider: Seq<char>) -> ErrorView {
    ErrorView::Configuration { message: "不支持的重排序服务提供商: "@ + provider }
}

/// The error for a vector store that the factory does not know.
pub open spec fn unknown_vector_database(provider: Seq<char>) -> ErrorView {
    ErrorView::Configuration { message: "不支持的向量数据库提供商: "@ + provider }
}

/// The error for a generation provider that the factory does not know.
pub open spec fn unknown_llm_provider(provider: Seq<char>) -> ErrorView {
    ErrorView::Configuration { message: "不支持的LLM服务提供商: "@ + provider }
}

/// The embedding backend that `config` selects, set up with every value of
/// the configuration.
pub open spec fn selected_embedding(config: EmbeddingConfig) -> Result<
    QwenEmbeddingService,
    ErrorView,
> {
    if config.provider@ == "qwen"@ {
        Ok(
            QwenEmbeddingService {
                api_key: config.api_key,
                model: config.model,
                dimension: config.dimension,
                endpoint: config.endpoint,
                batch_size: config.batch_size,
                timeout: config.timeout,
            },
        )
    } else {
        Err(unknown_embedding_provider(config.provider@))
    }
}

/// The rerank backend that `config` selects, set up with every value of the
/// configuration.
pub open spec fn selected_reranking(config: RerankingConfig) -> Result<
    QwenRerankService,
    ErrorView,
> {
    if config.provider@ == "qwen"@ {
        Ok(
            QwenRerankService {
                api_key: config.api_key,
                model: config.model,
                endpoint: config.endpoint,
                max_documents: config.max_documents,
                timeout: config.timeout,
            },
        )
    } else {
        Err(unknown_rerank_provider(config.provider@))
    }
}

/// The generation backend that `config` selects, set up with every value of
/// the configuration.
pub open spec fn selected_llm(config: LLMConfig) -> Result<QwenLLMService, ErrorView> {
    if config.provider@ == "qwen"@ {
        Ok(
            QwenLLMService {
                api_key: config.api_key,
                model: config.model,
                endpoint: config.endpoint,
                max_tokens: config.max_tokens,
                temperature: config.temperature,
                timeout: config.timeout,
            },
        )
    } else {
        Err(unknown_llm_provider(config.provider@))
    }
}

/// The configured name where there is one, else the name that the store
/// goes by when none is configured.
pub open spec fn name_or(configured: Option<String>, fallback: Seq<char>) -> Seq<char> {
    match configured {
        Some(name) => name@,
        None => fallback,
    }
}

/// Whether `backend` is the vector store that `config` selects: the SQLite
/// store, the Qdrant store or the PostgreSQL store, at the configured
/// address and of the configured dimension, with its vectors in the
/// configured table or collection; where none is configured, the tables are
/// `ticket_vectors` and the collection is `tickets`.
pub open spec fn is_selected_vector_db(config: VectorDbConfig, backend: VectorBackend) -> bool {
    match backend {
        VectorBackend::Sqlite(store) => {
            &&& config.provider@ == "sqlite"@
            &&& store.database_path@ == config.connection_string@
            &&& store.dimension == config.dimension
            &&& store.table_name@ == name_or(config.table_name, "ticket_vectors"@)
        },
        VectorBackend::Qdrant(store) => {
            &&& config.provider@ == "qdrant"@
            &&& store.endpoint@ == config.connection_string@
            &&& store.dimension == config.dimension
            &&& store.collection_name@ == name_or(config.collection_name, "tickets"@)
        },
        VectorBackend::Postgres(store) => {
            &&& config.provider@ == "postgres"@
            &&& store.database_url@ == config.connection_string@
            &&& store.dimension == config.dimension
            &&& store.table_name@ == name_or(config.table_name, "ticket_vectors"@)
        },
    }
}

/// The configured name where there is one, else `fallback`.
fn configured_name(configured: &Option<String>, fallback: &str) -> (name: String)
    ensures
        name@ == name_or(*configured, fallback@),
{
    match configured {
        Some(name) => name.clone(),
        None => fallback.to_owned(),
    }
}

/// Whether the factory knows the vector store named `provider`.
pub open spec fn known_vector_database(provider: Seq<char>) -> bool {
    provider == "sqlite"@ || provider == "qdrant"@ || provider == "postgres"@
}

/// The first reason for which no set of backends can be made from
/// `config`: a missing credential, or else the first provider, in the order
/// embedding, reranking, vector store, generation, that the factory does not
/// know. None where the set can be made.
pub open spec fn selection_failure(config: AppConfig) -> Option<ErrorView> {
    if missing_credential(config) is Some {
        missing_credential(config)
    } else if config.embedding.provider@ != "qwen"@ {
        Some(unknown_embedding_provider(config.embedding.provider@))
    } else if config.reranking.provider@ != "qwen"@ {
        Some(unknown_rerank_provider(config.reranking.provider@))
    } else if !known_vector_database(config.vector_db.provider@) {
        Some(unknown_vector_database(config.vector_db.provider@))
    } else if config.llm.provider@ != "qwen"@ {
        Some(unknown_llm_provider(config.llm.provider@))
    } else {
        None
    }
}

/// Makes backends from configurations.
pub struct ServiceFactory;

impl ServiceFactory {
    /// The embedding backend that `config` selects: Qwen for the provider
    /// `qwen`, and an error for every other.
    pub fn create_embedding_service(config: &EmbeddingConfig) -> (r: Result<
        QwenEmbeddingService,
        AppError,
    >)
        ensures
            match selected_embedding(*config) {
                Ok(service) => r == Ok::<QwenEmbeddingService, AppError>(service),
                Err(error) => r matches Err(e) && e@ == error,
            },
    {
        if same_text(config.provider.as_str(), "qwen") {
            Ok(
                QwenEmbeddingService::new(
                    config.api_key.clone(),
                    config.model.clone(),
                    config.dimension,
                    config.endpoint.clone(),
                    config.batch_size,
                    config.timeout,
                ),
            )
        } else {
            Err(
                AppError::Configuration {
                    message: followed("不支持的嵌入服务提供商: ", config.provider.as_str()),
                },
            )
        }
    }

    /// The rerank backend that `config` selects: Qwen for the provider
    /// `qwen`, and an error for every other.
    pub fn create_rerank_service(config: &RerankingConfig) -> (r: Result<
        QwenRerankService,
        AppError,
    >)
        ensures
            match selected_reranking(*config) {
                Ok(service) => r == Ok::<QwenRerankService, AppError>(service),
                Err(error) => r matches Err(e) && e@ == error,
            },
    {
        if same_text(config.provider.as_str(), "qwen") {
            Ok(
                QwenRerankService::new(
                    config.api_key.clone(),
                    config.model.clone(),
                    config.endpoint.clone(),
                    config.max_documents,
                    config.timeout,
                ),
            )
        } else {
            Err(
                AppError::Configuration {
                    message: followed("不支持的重排序服务提供商: ", config.provider.as_str()),
                },
            )
        }
    }

    /// The vector store that `config` selects: one of `sqlite`, `qdrant`
    /// and `postgres`, set up with every value of the configuration, and an
    /// error for every other provider.
    pub fn create_vector_database(config: &VectorDbConfig) -> (r: Result<VectorBackend, AppError>)
        ensures
            known_vector_database(config.provider@) ==> (r matches Ok(backend)
                && is_selected_vector_db(*config, backend)),
            !known_vector_database(config.provider@) ==> (r matches Err(e) && e@
                == unknown_vector_database(config.provider@)),
    {
        if same_text(config.provider.as_str(), "sqlite") {
            match SqliteVectorDB::new(config.connection_string.as_str(), config.dimension) {
                Ok(store) => {
                    let mut store = store;
                    store.table_name = configured_name(&config.table_name, "ticket_vectors");
                    Ok(VectorBackend::Sqlite(store))
                },
                Err(e) => Err(e),
            }
        } else if same_text(config.provider.as_str(), "qdrant") {
            match QdrantVectorDB::new(
                config.connection_string.as_str(),
                configured_name(&config.collection_name, "tickets"),
                config.dimension,
            ) {
                Ok(store) => Ok(VectorBackend::Qdrant(store)),
                Err(e) => Err(e),
            }
        } else if same_text(config.provider.as_str(), "postgres") {
            match PostgresVectorDB::new(
                config.connection_string.as_str(),
                configured_name(&config.table_name, "ticket_vectors"),
                config.dimension,
            ) {
                Ok(store) => Ok(VectorBackend::Postgres(store)),
                Err(e) => Err(e),
            }
        } else {
            Err(
                AppError::Configuration {
                    message: followed("不支持的向量数据库提供商: ", config.provider.as_str()),
                },
            )
        }
    }

    /// The generation backend that `config` selects: Qwen for the provider
    /// `qwen`, and an error for every other.
    pub fn create_llm_service(config: &LLMConfig) -> (r: Result<QwenLLMService, AppError>)
        ensures
            match selected_llm(*config) {
                Ok(service) => r == Ok::<QwenLLMService, AppError>(service),
                Err(error) => r matches Err(e) && e@ == error,
            },
    {
        if same_text(config.provider.as_str(), "qwen") {
            Ok(
                QwenLLMService::new(
                    config.api_key.clone(),
                    config.model.clone(),
                    config.endpoint.clone(),
                    config.max_tokens,
                    config.temperature,
                    config.timeout,
                ),
            )
        } else {
            Err(
                AppError::Configuration {
                    message: followed("不支持的LLM服务提供商: ", config.provider.as_str()),
                },
            )
        }
    }

    /// The backends that `config` selects, for a container to be made of.
    /// Nothing is made where a credential is missing or a provider is not
    /// known: the first such fault is the error.
    pub fn create_service_container(config: &AppConfig) -> (r: Result<ProviderSet, AppError>)
        ensures
            match selection_failure(*config) {
                Some(error) => r matches Err(e) && e@ == error,
                None => r matches Ok(set) && Ok::<QwenEmbeddingService, ErrorView>(set.embedding)
                    == selected_embedding(config.embedding) && Ok::<QwenRerankService, ErrorView>(
                    set.reranking,
                ) == selected_reranking(config.reranking) && is_selected_vector_db(
                    config.vector_db,
                    set.vector_db,
                ) && Ok::<QwenLLMService, ErrorView>(set.llm) == selected_llm(config.llm),
            },
    {
        match ConfigurationLoader::validate_config(config) {
            Ok(()) => {},
            Err(e) => {
                return Err(e);
            },
        }
        let embedding = match Self::create_embedding_service(&config.embedding) {
            Ok(service) => service,
            Err(e) => {
                return Err(e);
            },
        };
        let reranking = match Self::create_rerank_service(&config.reranking) {
            Ok(service) => service,
            Err(e) => {
                return Err(e);
            },
        };
        let vector_db = match Self::create_vector_database(&config.vector_db) {
            Ok(backend) => backend,
            Err(e) => {
                return Err(e);
            },
        };
        let llm = match Self::create_llm_service(&config.llm) {
            Ok(service) => service,
            Err(e) => {
                return Err(e);
            },
        };
        Ok(ProviderSet { embedding, reranking, vector_db, llm })
    }
}

} // verus!
