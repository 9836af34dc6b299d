//! The container: one instance of each provider and the processor made of
//! them, with the health of the whole.

use vstd::prelude::*;
use std::sync::Arc;
use crate::clock::{now, Timestamp};
use crate::embedding::{EmbeddingService, ModelInfo};
use crate::errors::AppError;
use crate::llm::LLMService;
use crate::processors::TicketProcessor;
use crate::reranking::RerankService;
use crate::vector_db::{DatabaseInfo, VectorDatabase};

verus! {

/// `Arc::clone`: another handle to the same value.
#[verifier::external_body]
fn share<T>(handle: &Arc<T>) -> (shared: Arc<T>)
    ensures
        shared == *handle,
{
    Arc::clone(handle)
}

/// What a health check says: only a plain "yes" counts, a "no" and a
/// failure of the check are both unhealthy.
pub open spec fn healthy(check: Result<bool, AppError>) -> bool {
    check matches Ok(true)
}

/// The health of the four providers, each for itself and all together.
#[derive(Debug, Clone)]
pub struct HealthStatus {
    pub overall: bool,
    pub embedding_service: bool,
    pub rerank_service: bool,
    pub vector_database: bool,
    pub llm_service: bool,
    pub timestamp: Timestamp,
}

impl HealthStatus {
    /// The whole is healthy exactly when each of the four is.
    pub open spec fn wf(&self) -> bool {
        self.overall == (self.embedding_service && self.rerank_service && self.vector_database
            && self.llm_service)
    }

    /// The status that the four checks add up to.
    pub open spec fn aggregate(
        embedding: Result<bool, AppError>,
        rerank: Result<bool, AppError>,
        vector_db: Result<bool, AppError>,
        llm: Result<bool, AppError>,
        at: Timestamp,
    ) -> HealthStatus {
        HealthStatus {
            overall: healthy(embedding) && healthy(rerank) && healthy(vector_db) && healthy(llm),
            embedding_service: healthy(embedding),
            rerank_service: healthy(rerank),
            vector_database: healthy(vector_db),
            llm_service: healthy(llm),
            timestamp: at,
        }
    }

    /// Adds the four checks up, as of the moment `at`.
    pub fn from_checks(
        embedding: Result<bool, AppError>,
        rerank: Result<bool, AppError>,
        vector_db: Result<bool, AppError>,
        llm: Result<bool, AppError>,
        at: Timestamp,
    ) -> (status: HealthStatus)
        ensures
            status == HealthStatus::aggregate(embedding, rerank, vector_db, llm, at),
            status.wf(),
    {
        let embedding_service = is_healthy(embedding);
        let rerank_service = is_healthy(rerank);
        let vector_database = is_healthy(vector_db);
        let llm_service = is_healthy(llm);
        HealthStatus {
            overall: embedding_service && rerank_service && vector_database && llm_service,
            embedding_service,
            rerank_service,
            vector_database,
            llm_service,
            timestamp: at,
        }
    }
}

/// Whether a health check says "healthy".
pub fn is_healthy(check: Result<bool, AppError>) -> (b: bool)
    ensures
        b == healthy(check),
{
    match check {
        Ok(answer) => answer,
        Err(_) => false,
    }
}

/// What a model says of itself, as far as operators are shown it.
#[derive(Debug, Clone)]
pub struct ModelSummary {
    pub name: String,
    pub provider: String,
    pub version: String,
    pub max_tokens: usize,
}

/// What a vector store says of itself, as far as operators are shown it.
#[derive(Debug, Clone)]
pub struct StoreSummary {
    pub name: String,
    pub version: String,
    pub supports_hybrid_search: bool,
}

/// What the four providers say of themselves.
#[derive(Debug, Clone)]
pub struct ServicesStatus {
    pub embedding_service: ModelSummary,
    pub rerank_service: ModelSummary,
    pub vector_database: StoreSummary,
    pub llm_service: ModelSummary,
}

impl ModelSummary {
    /// Name, provider, version and room for tokens of `info`.
    pub fn of(info: ModelInfo) -> (summary: ModelSummary)
        ensures
            summary == (ModelSummary {
                name: info.name,
                provider: info.provider,
                version: info.version,
                max_tokens: info.max_tokens,
            }),
    {
        ModelSummary {
            name: info.name,
            provider: info.provider,
            version: info.version,
            max_tokens: info.max_tokens,
        }
    }
}

impl ServicesStatus {
    /// The summaries of the four descriptions.
    pub fn from_infos(
        embedding: ModelInfo,
        rerank: ModelInfo,
        vector_db: DatabaseInfo,
        llm: ModelInfo,
    ) -> (status: ServicesStatus)
        ensures
            status == summed_up(embedding, rerank, vector_db, llm),
    {
        ServicesStatus {
            embedding_service: ModelSummary::of(embedding),
            rerank_service: ModelSummary::of(rerank),
            vector_database: StoreSummary {
                name: vector_db.name,
                version: vector_db.version,
                supports_hybrid_search: vector_db.supports_hybrid_search,
            },
            llm_service: ModelSummary::of(llm),
        }
    }
}

/// One instance of each provider, the relational database, and the
/// processor over the same four providers.
pub struct ServiceContainer<E, R, V, L, D> {
    pub embedding_service: Arc<E>,
    pub rerank_service: Arc<R>,
    pub vector_db: Arc<V>,
    pub llm_service: Arc<L>,
    pub database: Arc<D>,
    pub ticket_processor: Arc<TicketProcessor<E, R, V, L>>,
}

impl<E: EmbeddingService, R: RerankService, V: VectorDatabase, L: LLMService, D> ServiceContainer<
    E,
    R,
    V,
    L,
    D,
> {
    /// The container of the given providers; its processor works with the
    /// very same four.
    pub fn new(
        embedding_service: Arc<E>,
        rerank_service: Arc<R>,
        vector_db: Arc<V>,
        llm_service: Arc<L>,
        database: Arc<D>,
    ) -> (container: Self)
        ensures
            container.embedding_service == embedding_service,
            container.rerank_service == rerank_service,
            container.vector_db == vector_db,
            container.llm_service == llm_service,
            container.database == database,
            container.ticket_processor.embedding_service == embedding_service,
            container.ticket_processor.rerank_service == rerank_service,
            container.ticket_processor.vector_db == vector_db,
            container.ticket_processor.llm_service == llm_service,
    {
        let ticket_processor = Arc::new(
            TicketProcessor::new(
                share(&embedding_service),
                share(&rerank_service),
                share(&vector_db),
                share(&llm_service),
            ),
        );
        ServiceContainer {
            embedding_service,
            rerank_service,
            vector_db,
            llm_service,
            database,
            ticket_processor,
        }
    }

    /// Another handle on the same container.
    pub fn share(&self) -> (other: Self)
        ensures
            other == *self,
    {
        ServiceContainer {
            embedding_service: share(&self.embedding_service),
            rerank_service: share(&self.rerank_service),
            vector_db: share(&self.vector_db),
            llm_service: share(&self.llm_service),
            database: share(&self.database),
            ticket_processor: share(&self.ticket_processor),
        }
    }

    /// Asks each of the four providers for its health, whatever the others
    /// answered, and adds the answers up: a provider that says "no", or
    /// whose check fails, is unhealthy, and the whole is healthy only if all
    /// four are. The call itself never fails.
    pub fn health_check(&self) -> (r: Result<HealthStatus, AppError>)
        ensures
            r matches Ok(status) && status.wf() && health_outcome(
                &*self.embedding_service,
                &*self.rerank_service,
                &*self.vector_db,
                &*self.llm_service,
                status,
            ),
    {
        let embedding = self.embedding_service.health_check();
        let rerank = self.rerank_service.health_check();
        let vector_db = self.vector_db.health_check();
        let llm = self.llm_service.health_check();
        Ok(HealthStatus::from_checks(embedding, rerank, vector_db, llm, now()))
    }

    /// What the four providers say of themselves: each is asked for its
    /// description, and the four descriptions are summed up.
    pub fn services_status(&self) -> (status: ServicesStatus)
        ensures
            services_outcome(
                &*self.embedding_service,
                &*self.rerank_service,
                &*self.vector_db,
                &*self.llm_service,
                status,
            ),
    {
        let embedding = self.embedding_service.model_info();
        let rerank = self.rerank_service.model_info();
        let vector_db = self.vector_db.database_info();
        let llm = self.llm_service.model_info();
        ServicesStatus::from_infos(embedding, rerank, vector_db, llm)
    }
}

/// Whether `status` is what comes of asking the four providers for their
/// health: each of the four was asked, and the status is what the four
/// answers add up to, as [`HealthStatus::aggregate`] says, at some moment.
pub open spec fn health_outcome<
    E: EmbeddingService,
    R: RerankService,
    V: VectorDatabase,
    L: LLMService,
>(embedder: &E, reranker: &R, store: &V, model: &L, status: HealthStatus) -> bool {
    exists|
        embedding: Result<bool, AppError>,
        rerank: Result<bool, AppError>,
        vector_db: Result<bool, AppError>,
        llm: Result<bool, AppError>,
    |
        #![trigger
            call_ensures(E::health_check, (embedder,), embedding),
            call_ensures(R::health_check, (reranker,), rerank),
            call_ensures(V::health_check, (store,), vector_db),
            call_ensures(L::health_check, (model,), llm),
        ]
        call_ensures(E::health_check, (embedder,), embedding) && call_ensures(
            R::health_check,
            (reranker,),
            rerank,
        ) && call_ensures(V::health_check, (store,), vector_db) && call_ensures(
            L::health_check,
            (model,),
            llm,
        ) && status == HealthStatus::aggregate(embedding, rerank, vector_db, llm, status.timestamp)
}

/// The summary of the four descriptions.
pub open spec fn summed_up(
    embedding: ModelInfo,
    rerank: ModelInfo,
    vector_db: DatabaseInfo,
    llm: ModelInfo,
) -> ServicesStatus {
    ServicesStatus {
        embedding_service: ModelSummary {
            name: embedding.name,
            provider: embedding.provider,
            version: embedding.version,
            max_tokens: embedding.max_tokens,
        },
        rerank_service: ModelSummary {
            name: rerank.name,
            provider: rerank.provider,
            version: rerank.version,
            max_tokens: rerank.max_tokens,
        },
        vector_database: StoreSummary {
            name: vector_db.name,
            version: vector_db.version,
            supports_hybrid_search: vector_db.supports_hybrid_search,
        },
        llm_service: ModelSummary {
            name: llm.name,
            provider: llm.provider,
            version: llm.version,
            max_tokens: llm.max_tokens,
        },
    }
}

/// Whether `status` is what comes of asking the four providers for their
/// descriptions: each of the four was asked, and the status is the summary
/// of the four answers, as [`summed_up`] says.
pub open spec fn services_outcome<
    E: EmbeddingService,
    R: RerankService,
    V: VectorDatabase,
    L: LLMService,
>(embedder: &E, reranker: &R, store: &V, model: &L, status: ServicesStatus) -> bool {
    exists|embedding: ModelInfo, rerank: ModelInfo, vector_db: DatabaseInfo, llm: ModelInfo|
        #![trigger
            call_ensures(E::model_info, (embedder,), embedding),
            call_ensures(R::model_info, (reranker,), rerank),
            call_ensures(V::database_info, (store,), vector_db),
            call_ensures(L::model_info, (model,), llm),
        ]
        call_ensures(E::model_info, (embedder,), embedding) && call_ensures(
            R::model_info,
            (reranker,),
            rerank,
        ) && call_ensures(V::database_info, (store,), vector_db) && call_ensures(
            L::model_info,
            (model,),
            llm,
        ) && status == summed_up(embedding, rerank, vector_db, llm)
}

/// How many of the four checks are unhealthy.
pub open spec fn unhealthy_count(
    embedding: Result<bool, AppError>,
    rerank: Result<bool, AppError>,
    vector_db: Result<bool, AppError>,
    llm: Result<bool, AppError>,
) -> nat {
    let e: nat = if healthy(embedding) { 0 } else { 1 };
    let r: nat = if healthy(rerank) { 0 } else { 1 };
    let v: nat = if healthy(vector_db) { 0 } else { 1 };
    let l: nat = if healthy(llm) { 0 } else { 1 };
    e + r + v + l
}

/// How many of the four providers a status reports healthy.
pub open spec fn reported_healthy(status: HealthStatus) -> nat {
    let e: nat = if status.embedding_service { 1 } else { 0 };
    let r: nat = if status.rerank_service { 1 } else { 0 };
    let v: nat = if status.vector_database { 1 } else { 0 };
    let l: nat = if status.llm_service { 1 } else { 0 };
    e + r + v + l
}

/// If exactly one of the four checks says "no" or fails, the whole is
/// reported unhealthy, the three others are still reported healthy, and
/// each provider is reported as its own check says.
pub proof fn lemma_one_unhealthy(
    embedding: Result<bool, AppError>,
    rerank: Result<bool, AppError>,
    vector_db: Result<bool, AppError>,
    llm: Result<bool, AppError>,
    at: Timestamp,
)
    requires
        unhealthy_count(embedding, rerank, vector_db, llm) == 1,
    ensures
        ({
            let status = HealthStatus::aggregate(embedding, rerank, vector_db, llm, at);
            &&& !status.overall
            &&& reported_healthy(status) == 3
            &&& status.embedding_service == healthy(embedding)
            &&& status.rerank_service == healthy(rerank)
            &&& status.vector_database == healthy(vector_db)
            &&& status.llm_service == healthy(llm)
        }),
{
}

/// The whole is reported healthy exactly when none of the four checks says
/// "no" or fails.
pub proof fn lemma_overall_is_conjunction(
    embedding: Result<bool, AppError>,
    rerank: Result<bool, AppError>,
    vector_db: Result<bool, AppError>,
    llm: Result<bool, AppError>,
    at: Timestamp,
)
    ensures
        HealthStatus::aggregate(embedding, rerank, vector_db, llm, at).overall <==> unhealthy_count(
            embedding,
            rerank,
            vector_db,
            llm,
        ) == 0,
{
}

} // verus!
