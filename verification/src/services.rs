//! The backends that the factory knows: what each is set up with, and what
//! each says of itself. The calls over the network are made elsewhere.

use vstd::prelude::*;
use crate::embedding::ModelInfo;
use crate::errors::AppError;
use crate::single::Single;
use crate::vector_db::DatabaseInfo;

verus! {

/// The encoding of one ten-thousandth, the cost of one embedding call.
pub const EMBEDDING_COST_BITS: u32 = 0x38d1_b717;

/// The encoding of two ten-thousandths, the cost of one rerank call.
pub const RERANK_COST_BITS: u32 = 0x3951_b717;

/// The encoding of one thousandth, the cost of one generation call.
pub const GENERATION_COST_BITS: u32 = 0x3a83_126f;

/// The Qwen embedding backend.
#[derive(Debug, Clone)]
pub struct QwenEmbeddingService {
    pub api_key: String,
    pub model: String,
    pub dimension: usize,
    pub endpoint: String,
    pub batch_size: usize,
    /// How long a call may take, in seconds.
    pub timeout: u64,
}

impl QwenEmbeddingService {
    pub fn new(
        api_key: String,
        model: String,
        dimension: usize,
        endpoint: String,
        batch_size: usize,
        timeout: u64,
    ) -> (service: Self)
        ensures
            service == (QwenEmbeddingService {
                api_key,
                model,
                dimension,
                endpoint,
                batch_size,
                timeout,
            }),
    {
        QwenEmbeddingService { api_key, model, dimension, endpoint, batch_size, timeout }
    }

    /// The length of the vectors of this backend.
    pub fn dimension(&self) -> (dimension: usize)
        ensures
            dimension == self.dimension,
    {
        self.dimension
    }

    /// The model as configured, version 3.0 of Qwen, with room for 8192
    /// tokens.
    pub fn model_info(&self) -> (info: ModelInfo)
        ensures
            info.name == self.model,
            info.version@ == "3.0"@,
            info.provider@ == "Qwen"@,
            info.max_tokens == 8192,
            info.cost_per_call == Some(Single { bits: EMBEDDING_COST_BITS }),
    {
        ModelInfo {
            name: self.model.clone(),
            version: "3.0".to_owned(),
            provider: "Qwen".to_owned(),
            max_tokens: 8192,
            cost_per_call: Some(Single::from_bits(EMBEDDING_COST_BITS)),
        }
    }
}

/// The Qwen rerank backend.
#[derive(Debug, Clone)]
pub struct QwenRerankService {
    pub api_key: String,
    pub model: String,
    pub endpoint: String,
    /// How many documents one call takes.
    pub max_documents: usize,
    /// How long a call may take, in seconds.
    pub timeout: u64,
}

impl QwenRerankService {
    pub fn new(
        api_key: String,
        model: String,
        endpoint: String,
        max_documents: usize,
        timeout: u64,
    ) -> (service: Self)
        ensures
            service == (QwenRerankService { api_key, model, endpoint, max_documents, timeout }),
    {
        QwenRerankService { api_key, model, endpoint, max_documents, timeout }
    }

    /// How many documents one call takes: as many as the backend was set
    /// up with.
    pub fn max_documents(&self) -> (max: usize)
        ensures
            max == self.max_documents,
    {
        self.max_documents
    }

    /// The model as configured, version 1.0 of Qwen, with room for 512
    /// tokens.
    pub fn model_info(&self) -> (info: ModelInfo)
        ensures
            info.name == self.model,
            info.version@ == "1.0"@,
            info.provider@ == "Qwen"@,
            info.max_tokens == 512,
            info.cost_per_call == Some(Single { bits: RERANK_COST_BITS }),
    {
        ModelInfo {
            name: self.model.clone(),
            version: "1.0".to_owned(),
            provider: "Qwen".to_owned(),
            max_tokens: 512,
            cost_per_call: Some(Single::from_bits(RERANK_COST_BITS)),
        }
    }
}

/// The Qwen generation backend.
#[derive(Debug, Clone)]
pub struct QwenLLMService {
    pub api_key: String,
    pub model: String,
    pub endpoint: String,
    pub max_tokens: usize,
    pub temperature: Single,
    /// How long a call may take, in seconds.
    pub timeout: u64,
}

impl QwenLLMService {
    pub fn new(
        api_key: String,
        model: String,
        endpoint: String,
        max_tokens: usize,
        temperature: Single,
        timeout: u64,
    ) -> (service: Self)
        ensures
            service == (QwenLLMService {
                api_key,
                model,
                endpoint,
                max_tokens,
                temperature,
                timeout,
            }),
    {
        QwenLLMService { api_key, model, endpoint, max_tokens, temperature, timeout }
    }

    /// The model as configured, version 2.5 of Qwen, with the room for
    /// tokens that the backend was set up with.
    pub fn model_info(&self) -> (info: ModelInfo)
        ensures
            info.name == self.model,
            info.version@ == "2.5"@,
            info.provider@ == "Qwen"@,
            info.max_tokens == self.max_tokens,
            info.cost_per_call == Some(Single { bits: GENERATION_COST_BITS }),
    {
        ModelInfo {
            name: self.model.clone(),
            version: "2.5".to_owned(),
            provider: "Qwen".to_owned(),
            max_tokens: self.max_tokens,
            cost_per_call: Some(Single::from_bits(GENERATION_COST_BITS)),
        }
    }
}

/// A vector store in SQLite with the vec0 extension: for development and
/// small installations.
#[derive(Debug, Clone)]
pub struct SqliteVectorDB {
    pub database_path: String,
    pub dimension: usize,
    pub table_name: String,
}

impl SqliteVectorDB {
    /// The store at `database_path`, with its vectors in the table
    /// `ticket_vectors`.
    pub fn new(database_path: &str, dimension: usize) -> (r: Result<Self, AppError>)
        ensures
            r matches Ok(store) && store.database_path@ == database_path@ && store.dimension
                == dimension && store.table_name@ == "ticket_vectors"@,
    {
        Ok(
            SqliteVectorDB {
                database_path: database_path.to_owned(),
                dimension,
                table_name: "ticket_vectors".to_owned(),
            },
        )
    }

    pub fn database_info(&self) -> (info: DatabaseInfo)
        ensures
            info.name@ == "SQLite + vec0"@,
            info.version@ == "0.1.0"@,
            !info.supports_hybrid_search,
            info.supports_filtering,
            info.max_dimension == 4096,
            info.recommended_batch_size == 100,
    {
        DatabaseInfo {
            name: "SQLite + vec0".to_owned(),
            version: "0.1.0".to_owned(),
            supports_hybrid_search: false,
            supports_filtering: true,
            max_dimension: 4096,
            recommended_batch_size: 100,
        }
    }
}

/// A vector store in Qdrant: for production.
#[derive(Debug, Clone)]
pub struct QdrantVectorDB {
    pub endpoint: String,
    pub collection_name: String,
    pub dimension: usize,
}

impl QdrantVectorDB {
    /// The store at `endpoint`, with its vectors in the given collection.
    pub fn new(endpoint: &str, collection_name: String, dimension: usize) -> (r: Result<
        Self,
        AppError,
    >)
        ensures
            r matches Ok(store) && store.endpoint@ == endpoint@ && store.collection_name
                == collection_name && store.dimension == dimension,
    {
        Ok(QdrantVectorDB { endpoint: endpoint.to_owned(), collection_name, dimension })
    }

    pub fn database_info(&self) -> (info: DatabaseInfo)
        ensures
            info.name@ == "Qdrant"@,
            info.version@ == "1.7.0"@,
            info.supports_hybrid_search,
            info.supports_filtering,
            info.max_dimension == 65536,
            info.recommended_batch_size == 1000,
    {
        DatabaseInfo {
            name: "Qdrant".to_owned(),
            version: "1.7.0".to_owned(),
            supports_hybrid_search: true,
            supports_filtering: true,
            max_dimension: 65536,
            recommended_batch_size: 1000,
        }
    }
}

/// A vector store in PostgreSQL with pgvector.
#[derive(Debug, Clone)]
pub struct PostgresVectorDB {
    pub database_url: String,
    pub table_name: String,
    pub dimension: usize,
}

impl PostgresVectorDB {
    /// The store at `database_url`, with its vectors in the given table.
    pub fn new(database_url: &str, table_name: String, dimension: usize) -> (r: Result<
        Self,
        AppError,
    >)
        ensures
            r matches Ok(store) && store.database_url@ == database_url@ && store.table_name
                == table_name && store.dimension == dimension,
    {
        Ok(PostgresVectorDB { database_url: database_url.to_owned(), table_name, dimension })
    }

    pub fn database_info(&self) -> (info: DatabaseInfo)
        ensures
            info.name@ == "PostgreSQL + pgvector"@,
            info.version@ == "0.5.0"@,
            info.supports_hybrid_search,
            info.supports_filtering,
            info.max_dimension == 16000,
            info.recommended_batch_size == 500,
    {
        DatabaseInfo {
            name: "PostgreSQL + pgvector".to_owned(),
            version: "0.5.0".to_owned(),
            supports_hybrid_search: true,
            supports_filtering: true,
            max_dimension: 16000,
            recommended_batch_size: 500,
        }
    }
}

} // verus!
