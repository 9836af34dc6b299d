//! The pipeline: from a ticket to similar earlier tickets and a suggested
//! resolution.

use vstd::prelude::*;
use std::sync::Arc;
use uuid::Uuid;
use crate::clock::{elapsed_since, start_stopwatch, whole_millis};
use crate::embedding::{checked_embed, embed_outcome, EmbeddingService};
use crate::errors::AppError;
use crate::llm::{checked_generate, generate_outcome, valid_response, LLMResponse, LLMService};
use crate::reranking::{
    checked_rerank,
    indices_in_range,
    rerank_outcome,
    scores_descend,
    RerankResult,
    RerankService,
};
use crate::solution::{rerank_scores_descend, ProcessResult, SimilarTicket, TOP_SIMILAR};
use crate::text::{join_with_space, spaced};
use crate::ticket::{NewTicket, Ticket, TicketStatus};
use crate::validators::{new_ticket_violation, TicketValidator};
use crate::single::Single;
use crate::vector_db::{checked_search, search_outcome, SearchResult, VectorDatabase};

verus! {

/// How many candidates the pipeline asks the vector store for: more than it
/// will show, so that the reranker has material to choose from.
pub const CANDIDATE_POOL: usize = 100;

/// The smaller of the two.
pub open spec fn least(a: nat, b: nat) -> nat {
    if a <= b {
        a
    } else {
        b
    }
}

/// The text that stands for a ticket in embedding and reranking: title and
/// description with a space between.
pub open spec fn ticket_text(ticket: Ticket) -> Seq<char> {
    spaced(ticket.title@, ticket.description@)
}

/// The text that stands for a candidate in reranking: its title and
/// description with a space between.
pub open spec fn candidate_text(candidate: SearchResult) -> Seq<char> {
    spaced(candidate.metadata.title@, candidate.metadata.description@)
}

/// The summary of `candidate` as the reranker's entry `ranked` places it:
/// identity, title, description and similarity of the candidate, the score
/// of the entry, and no known solution.
pub open spec fn similar_of(candidate: SearchResult, ranked: RerankResult) -> SimilarTicket {
    SimilarTicket {
        ticket_id: candidate.id,
        title: candidate.metadata.title,
        description: candidate.metadata.description,
        similarity_score: candidate.score,
        rerank_score: ranked.score,
        solution: None,
    }
}

/// How many similar tickets are shown for the given numbers of candidates
/// and of reranked entries: as many as the shorter list has, and ten at most.
pub open spec fn shown_count(candidates: nat, reranked: nat) -> nat {
    least(least(candidates, reranked), TOP_SIMILAR as nat)
}

/// The similar tickets: entry by entry of the reranking, the candidate that
/// the entry names, with the entry's score.
pub open spec fn paired(candidates: Seq<SearchResult>, reranked: Seq<RerankResult>) -> Seq<
    SimilarTicket,
> {
    Seq::new(
        shown_count(candidates.len(), reranked.len()),
        |i: int| similar_of(candidates[reranked[i].index as int], reranked[i]),
    )
}

/// Whether `documents` are the texts of `candidates`, one for one and in
/// their order.
pub open spec fn are_documents_of(documents: Seq<String>, candidates: Seq<SearchResult>) -> bool {
    documents.len() == candidates.len() && forall|i: int|
        0 <= i < documents.len() ==> (#[trigger] documents[i])@ == candidate_text(candidates[i])
}

/// Whether `result` is put together for the ticket `ticket_id` from the
/// candidates, their reranking and the response: the similar tickets are
/// those paired from candidates and reranking, and solution, confidence and
/// reasoning are those of the response, untouched. The time is left open.
pub open spec fn assembled(
    ticket_id: Uuid,
    candidates: Seq<SearchResult>,
    reranked: Seq<RerankResult>,
    response: LLMResponse,
    result: ProcessResult,
) -> bool {
    &&& result.ticket_id == ticket_id
    &&& result.similar_tickets@ == paired(candidates, reranked)
    &&& result.suggested_solution == response.content
    &&& result.confidence == response.confidence
    &&& result.reasoning == response.reasoning
}

/// Whether `r` is what comes of the last step for `ticket`, once the
/// candidates and their reranking are there: the model is asked for a
/// resolution from the ticket and the reranking; its failure, or the fault of
/// its answer, is the outcome, and else the result assembled from
/// candidates, reranking and response.
pub open spec fn generation_step<L: LLMService>(
    model: &L,
    ticket: &Ticket,
    candidates: Seq<SearchResult>,
    reranked: Seq<RerankResult>,
    r: Result<ProcessResult, AppError>,
) -> bool {
    exists|generated: Result<LLMResponse, AppError>| #[trigger]
        generate_outcome(model, ticket, reranked, generated) && match generated {
            Err(failure) => r == Err::<ProcessResult, AppError>(failure),
            Ok(response) => r matches Ok(result) && assembled(
                ticket.id,
                candidates,
                reranked,
                response,
                result,
            ),
        }
}

/// Whether `r` is what comes of the steps for `ticket` from reranking on,
/// once the candidates are there: the reranker is asked to order the texts
/// of the candidates for the text of the ticket; its failure, or the fault of
/// its answer, is the outcome, and else what comes of the last step.
pub open spec fn rerank_step<R: RerankService, L: LLMService>(
    reranker: &R,
    model: &L,
    ticket: &Ticket,
    candidates: Seq<SearchResult>,
    r: Result<ProcessResult, AppError>,
) -> bool {
    exists|documents: Seq<String>, reranked: Result<Vec<RerankResult>, AppError>|
        are_documents_of(documents, candidates) && #[trigger] rerank_outcome(
            reranker,
            ticket_text(*ticket),
            documents,
            reranked,
        ) && match reranked {
            Err(failure) => r == Err::<ProcessResult, AppError>(failure),
            Ok(entries) => generation_step(model, ticket, candidates, entries@, r),
        }
}

/// Whether `r` is what comes of the steps for `ticket` from the search on,
/// once the embedding is there: the store is searched for
/// [`CANDIDATE_POOL`] candidates near the embedding, without a filter; its
/// failure, or the fault of its answer, is the outcome, and else what comes
/// of the steps from reranking on.
pub open spec fn search_step<V: VectorDatabase, R: RerankService, L: LLMService>(
    store: &V,
    reranker: &R,
    model: &L,
    ticket: &Ticket,
    embedding: Seq<Single>,
    r: Result<ProcessResult, AppError>,
) -> bool {
    exists|found: Result<Vec<SearchResult>, AppError>| #[trigger]
        search_outcome(store, embedding, CANDIDATE_POOL, None, found) && match found {
            Err(failure) => r == Err::<ProcessResult, AppError>(failure),
            Ok(candidates) => rerank_step(reranker, model, ticket, candidates@, r),
        }
}

/// Whether `r` is what comes of processing `ticket` with the four
/// providers: the embedder is asked for the embedding of the text of the
/// ticket; its failure, or the fault of its answer, is the outcome, and else
/// what comes of the steps from the search on. So each provider is asked
/// only once the one before it has answered well, each is handed what the
/// step before it yielded, and the first failure is the outcome, as it came.
pub open spec fn process_outcome<
    E: EmbeddingService,
    R: RerankService,
    V: VectorDatabase,
    L: LLMService,
>(embedder: &E, reranker: &R, store: &V, model: &L, ticket: &Ticket, r: Result<
    ProcessResult,
    AppError,
>) -> bool {
    exists|embedded: Result<Vec<Single>, AppError>| #[trigger]
        embed_outcome(embedder, ticket_text(*ticket), embedded) && match embedded {
            Err(failure) => r == Err::<ProcessResult, AppError>(failure),
            Ok(embedding) => search_step(store, reranker, model, ticket, embedding@, r),
        }
}

/// The successful outcomes, in their order.
pub open spec fn successes(outcomes: Seq<Result<ProcessResult, AppError>>) -> Seq<ProcessResult>
    decreases outcomes.len(),
{
    if outcomes.len() == 0 {
        Seq::empty()
    } else {
        match outcomes.last() {
            Ok(result) => successes(outcomes.drop_last()).push(result),
            Err(_) => successes(outcomes.drop_last()),
        }
    }
}

/// Nothing is kept but what succeeded: there are no more results than
/// outcomes.
pub proof fn lemma_successes_are_no_more(outcomes: Seq<Result<ProcessResult, AppError>>)
    ensures
        successes(outcomes).len() <= outcomes.len(),
    decreases outcomes.len(),
{
    if outcomes.len() > 0 {
        lemma_successes_are_no_more(outcomes.drop_last());
    }
}

/// Where every ticket succeeded, the results are the outcomes, one for one.
pub proof fn lemma_all_succeeded(outcomes: Seq<Result<ProcessResult, AppError>>)
    requires
        forall|i: int| 0 <= i < outcomes.len() ==> (#[trigger] outcomes[i]) is Ok,
    ensures
        successes(outcomes).len() == outcomes.len(),
        forall|i: int|
            0 <= i < outcomes.len() ==> outcomes[i] == Ok::<ProcessResult, AppError>(
                #[trigger] successes(outcomes)[i],
            ),
    decreases outcomes.len(),
{
    if outcomes.len() > 0 {
        let head = outcomes.drop_last();
        assert forall|i: int| 0 <= i < head.len() implies (#[trigger] head[i]) is Ok by {
            assert(head[i] == outcomes[i]);
        }
        lemma_all_succeeded(head);
        assert(outcomes.last() is Ok);
        assert forall|i: int| 0 <= i < outcomes.len() implies outcomes[i] == Ok::<
            ProcessResult,
            AppError,
        >(#[trigger] successes(outcomes)[i]) by {
            if i < head.len() {
                assert(head[i] == outcomes[i]);
                assert(successes(outcomes)[i] == successes(head)[i]);
            }
        }
    }
}

/// Where the ticket at place `failed` is the only one that failed, the batch
/// hands back one result less than there were tickets: the results of the
/// tickets before it, then those of the tickets after it, each in its place
/// and untouched.
pub proof fn lemma_one_failure_is_left_out(
    outcomes: Seq<Result<ProcessResult, AppError>>,
    failed: int,
)
    requires
        0 <= failed < outcomes.len(),
        outcomes[failed] is Err,
        forall|i: int|
            0 <= i < outcomes.len() && i != failed ==> (#[trigger] outcomes[i]) is Ok,
    ensures
        successes(outcomes).len() == outcomes.len() - 1,
        forall|i: int|
            0 <= i < failed ==> outcomes[i] == Ok::<ProcessResult, AppError>(
                #[trigger] successes(outcomes)[i],
            ),
        forall|i: int|
            failed <= i < outcomes.len() - 1 ==> outcomes[i + 1] == Ok::<ProcessResult, AppError>(
                #[trigger] successes(outcomes)[i],
            ),
    decreases outcomes.len(),
{
    let head = outcomes.drop_last();
    if failed == outcomes.len() - 1 {
        assert forall|i: int| 0 <= i < head.len() implies (#[trigger] head[i]) is Ok by {
            assert(head[i] == outcomes[i]);
        }
        lemma_all_succeeded(head);
        assert forall|i: int| 0 <= i < failed implies outcomes[i] == Ok::<ProcessResult, AppError>(
            #[trigger] successes(outcomes)[i],
        ) by {
            assert(head[i] == outcomes[i]);
        }
    } else {
        assert(head[failed] == outcomes[failed]);
        assert forall|i: int| 0 <= i < head.len() && i != failed implies (
        #[trigger] head[i]) is Ok by {
            assert(head[i] == outcomes[i]);
        }
        lemma_one_failure_is_left_out(head, failed);
        assert(outcomes.last() is Ok);
        assert forall|i: int| 0 <= i < failed implies outcomes[i] == Ok::<ProcessResult, AppError>(
            #[trigger] successes(outcomes)[i],
        ) by {
            assert(head[i] == outcomes[i]);
            assert(successes(outcomes)[i] == successes(head)[i]);
        }
        assert forall|i: int| failed <= i < outcomes.len() - 1 implies outcomes[i + 1] == Ok::<
            ProcessResult,
            AppError,
        >(#[trigger] successes(outcomes)[i]) by {
            if i < head.len() - 1 {
                assert(head[i + 1] == outcomes[i + 1]);
                assert(successes(outcomes)[i] == successes(head)[i]);
            }
        }
    }
}

/// The text that stands for `ticket` in embedding and reranking.
pub fn embedding_text(ticket: &Ticket) -> (text: String)
    ensures
        text@ == ticket_text(*ticket),
{
    join_with_space(ticket.title.as_str(), ticket.description.as_str())
}

/// The documents for the reranker: the texts of the candidates, in the
/// order of the candidates.
pub fn rerank_documents(candidates: &Vec<SearchResult>) -> (documents: Vec<String>)
    ensures
        documents@.len() == candidates@.len(),
        forall|i: int|
            0 <= i < documents@.len() ==> (#[trigger] documents@[i])@ == candidate_text(
                candidates@[i],
            ),
{
    let mut documents: Vec<String> = Vec::new();
    let mut i: usize = 0;
    while i < candidates.len()
        invariant
            i <= candidates.len(),
            documents@.len() == i,
            forall|k: int|
                0 <= k < i ==> (#[trigger] documents@[k])@ == candidate_text(candidates@[k]),
        decreases candidates.len() - i,
    {
        let candidate = &candidates[i];
        documents.push(
            join_with_space(candidate.metadata.title.as_str(), candidate.metadata.description.as_str()),
        );
        i = i + 1;
    }
    documents
}

/// Pairs the reranker's entries with the candidates they name.
pub fn pair_similar(candidates: &Vec<SearchResult>, reranked: &Vec<RerankResult>) -> (similar: Vec<
    SimilarTicket,
>)
    requires
        indices_in_range(reranked@, candidates@.len()),
    ensures
        similar@ == paired(candidates@, reranked@),
{
    let mut similar: Vec<SimilarTicket> = Vec::new();
    let mut i: usize = 0;
    while i < reranked.len() && i < candidates.len() && i < TOP_SIMILAR
        invariant
            i <= reranked.len(),
            i <= candidates.len(),
            i <= TOP_SIMILAR,
            indices_in_range(reranked@, candidates@.len()),
            similar@.len() == i,
            forall|k: int|
                0 <= k < i ==> #[trigger] similar@[k] == similar_of(
                    candidates@[reranked@[k].index as int],
                    reranked@[k],
                ),
        decreases reranked.len() - i,
    {
        let ranked = &reranked[i];
        assert(reranked@[i as int].index < candidates@.len());
        let candidate = &candidates[ranked.index];
        similar.push(
            SimilarTicket {
                ticket_id: candidate.id,
                title: candidate.metadata.title.clone(),
                description: candidate.metadata.description.clone(),
                similarity_score: candidate.score,
                rerank_score: ranked.score,
                solution: None,
            },
        );
        i = i + 1;
    }
    assert(similar@ =~= paired(candidates@, reranked@));
    similar
}

/// The similar ticket at place `i` is the candidate that the reranker's
/// entry at place `i` names, whatever the order in which the reranker hands
/// its entries back: it has that candidate's identity, title, description and
/// similarity, and the score of the entry.
pub proof fn lemma_pairing_follows_indices(
    candidates: Seq<SearchResult>,
    reranked: Seq<RerankResult>,
    i: int,
)
    requires
        0 <= i < shown_count(candidates.len(), reranked.len()),
    ensures
        paired(candidates, reranked).len() == shown_count(candidates.len(), reranked.len()),
        paired(candidates, reranked)[i].ticket_id == candidates[reranked[i].index as int].id,
        paired(candidates, reranked)[i].title == candidates[reranked[i].index as int].metadata.title,
        paired(candidates, reranked)[i].description
            == candidates[reranked[i].index as int].metadata.description,
        paired(candidates, reranked)[i].similarity_score
            == candidates[reranked[i].index as int].score,
        paired(candidates, reranked)[i].rerank_score == reranked[i].score,
{
}

/// Where the scores of a reranking never rise, the rerank scores of the
/// similar tickets paired from it never rise either.
pub proof fn lemma_paired_keeps_order(candidates: Seq<SearchResult>, reranked: Seq<RerankResult>)
    requires
        scores_descend(reranked),
    ensures
        rerank_scores_descend(paired(candidates, reranked)),
{
    let similar = paired(candidates, reranked);
    assert forall|i: int, j: int| 0 <= i < j < similar.len() implies (
    #[trigger] similar[j]).rerank_score.le(&(#[trigger] similar[i]).rerank_score) by {
        assert(reranked[j].score.le(&reranked[i].score));
    }
}

/// Puts the result for the ticket `ticket_id` together from the answers of
/// the providers and the time it took.
pub fn assemble(
    ticket_id: Uuid,
    candidates: &Vec<SearchResult>,
    reranked: &Vec<RerankResult>,
    response: LLMResponse,
    elapsed_ms: u64,
) -> (result: ProcessResult)
    requires
        indices_in_range(reranked@, candidates@.len()),
    ensures
        result.ticket_id == ticket_id,
        result.similar_tickets@ == paired(candidates@, reranked@),
        result.suggested_solution == response.content,
        result.confidence == response.confidence,
        result.reasoning == response.reasoning,
        result.processing_time_ms == elapsed_ms,
        scores_descend(reranked@) && valid_response(response) ==> result.wf(),
{
    proof {
        if scores_descend(reranked@) {
            lemma_paired_keeps_order(candidates@, reranked@);
        }
    }
    ProcessResult {
        ticket_id,
        similar_tickets: pair_similar(candidates, reranked),
        suggested_solution: response.content,
        confidence: response.confidence,
        reasoning: response.reasoning,
        processing_time_ms: elapsed_ms,
    }
}

/// The successful outcomes, in their order.
pub fn keep_successes(outcomes: Vec<Result<ProcessResult, AppError>>) -> (results: Vec<
    ProcessResult,
>)
    ensures
        results@ == successes(outcomes@),
{
    let ghost all = outcomes@;
    let mut results: Vec<ProcessResult> = Vec::new();
    for outcome in it: outcomes
        invariant
            it.seq() == all,
            results@ == successes(all.subrange(0, it.index())),
    {
        let ghost seen = all.subrange(0, it.index());
        let ghost next = all.subrange(0, it.index() + 1);
        assert(next.drop_last() == seen);
        assert(next.last() == outcome);
        match outcome {
            Ok(result) => {
                results.push(result);
            },
            Err(_) => {},
        }
    }
    assert(all.subrange(0, all.len() as int) == all);
    results
}

/// Sequences the four providers for one ticket after another.
pub struct TicketProcessor<E, R, V, L> {
    pub embedding_service: Arc<E>,
    pub rerank_service: Arc<R>,
    pub vector_db: Arc<V>,
    pub llm_service: Arc<L>,
}

impl<E: EmbeddingService, R: RerankService, V: VectorDatabase, L: LLMService> TicketProcessor<
    E,
    R,
    V,
    L,
> {
    /// A processor over the given providers.
    pub fn new(
        embedding_service: Arc<E>,
        rerank_service: Arc<R>,
        vector_db: Arc<V>,
        llm_service: Arc<L>,
    ) -> (processor: Self)
        ensures
            processor.embedding_service == embedding_service,
            processor.rerank_service == rerank_service,
            processor.vector_db == vector_db,
            processor.llm_service == llm_service,
    {
        TicketProcessor { embedding_service, rerank_service, vector_db, llm_service }
    }

    /// Whether `r` is what comes of processing `ticket` with the providers
    /// of this processor, as [`process_outcome`] says.
    pub open spec fn outcome(&self, ticket: &Ticket, r: Result<ProcessResult, AppError>) -> bool {
        process_outcome(
            &*self.embedding_service,
            &*self.rerank_service,
            &*self.vector_db,
            &*self.llm_service,
            ticket,
            r,
        )
    }

    /// Opens a ticket for the request, once the request has passed the
    /// rules on new tickets: no provider ever sees a ticket that was made
    /// here from a request that breaks them.
    pub fn create_ticket(&self, new_ticket: NewTicket) -> (r: Result<Ticket, AppError>)
        ensures
            match new_ticket_violation(new_ticket) {
                Some(broken) => r matches Err(e) && e@ == broken.error(),
                None => r matches Ok(ticket) && ticket.title == new_ticket.title
                    && ticket.description == new_ticket.description && ticket.category
                    == new_ticket.category && ticket.priority == new_ticket.priority && ticket.tags
                    == new_ticket.tags && ticket.status == TicketStatus::New
                    && ticket.embedding is None,
            },
    {
        match TicketValidator::validate_new_ticket(&new_ticket) {
            Ok(()) => Ok(Ticket::new(new_ticket)),
            Err(e) => Err(e),
        }
    }

    /// Processes one ticket: embeds its text, searches the store for
    /// [`CANDIDATE_POOL`] candidates without a filter, lets the reranker
    /// order the texts of the candidates, as many as it takes, lets the model
    /// suggest a
    /// resolution from the ticket and the reranking, and puts the result
    /// together.
    ///
    /// The first provider that fails ends the processing, and its error is
    /// handed back as it came. An answer that breaks the contract of its
    /// provider ends the processing too, with the error of that provider's
    /// kind. So whatever the providers do, a result that is handed out is
    /// well formed and belongs to the ticket; [`process_outcome`] says step
    /// by step what is handed to whom and what comes of each answer.
    pub fn process(&self, ticket: &Ticket) -> (r: Result<ProcessResult, AppError>)
        ensures
            self.outcome(ticket, r),
            r matches Ok(result) ==> result.wf() && result.ticket_id == ticket.id
                && forall|i: int|
                0 <= i < result.similar_tickets@.len() ==> (
                #[trigger] result.similar_tickets@[i]).solution is None,
    {
        let stopwatch = start_stopwatch();
        let text = embedding_text(ticket);

        let embedded = checked_embed(&*self.embedding_service, text.as_str());
        let embedding = match embedded {
            Ok(embedding) => embedding,
            Err(e) => {
                return Err(e);
            },
        };

        let found = checked_search(&*self.vector_db, embedding.as_slice(), CANDIDATE_POOL, None);
        let candidates = match found {
            Ok(candidates) => candidates,
            Err(e) => {
                let failed: Result<ProcessResult, AppError> = Err(e);
                assert(search_step(
                    &*self.vector_db,
                    &*self.rerank_service,
                    &*self.llm_service,
                    ticket,
                    embedding@,
                    failed,
                ));
                return failed;
            },
        };

        let documents = rerank_documents(&candidates);
        assert(are_documents_of(documents@, candidates@));
        let ranked = checked_rerank(&*self.rerank_service, text.as_str(), documents.as_slice());
        let reranked = match ranked {
            Ok(reranked) => reranked,
            Err(e) => {
                let failed: Result<ProcessResult, AppError> = Err(e);
                assert(rerank_step(
                    &*self.rerank_service,
                    &*self.llm_service,
                    ticket,
                    candidates@,
                    failed,
                ));
                assert(search_step(
                    &*self.vector_db,
                    &*self.rerank_service,
                    &*self.llm_service,
                    ticket,
                    embedding@,
                    failed,
                ));
                return failed;
            },
        };

        let generated = checked_generate(&*self.llm_service, ticket, reranked.as_slice());
        let response = match generated {
            Ok(response) => response,
            Err(e) => {
                let failed: Result<ProcessResult, AppError> = Err(e);
                assert(generation_step(
                    &*self.llm_service,
                    ticket,
                    candidates@,
                    reranked@,
                    failed,
                ));
                assert(rerank_step(
                    &*self.rerank_service,
                    &*self.llm_service,
                    ticket,
                    candidates@,
                    failed,
                ));
                assert(search_step(
                    &*self.vector_db,
                    &*self.rerank_service,
                    &*self.llm_service,
                    ticket,
                    embedding@,
                    failed,
                ));
                return failed;
            },
        };

        let elapsed_ms = whole_millis(&elapsed_since(&stopwatch));
        let done: Result<ProcessResult, AppError> = Ok(
            assemble(ticket.id, &candidates, &reranked, response, elapsed_ms),
        );
        assert(generation_step(&*self.llm_service, ticket, candidates@, reranked@, done));
        assert(rerank_step(&*self.rerank_service, &*self.llm_service, ticket, candidates@, done));
        assert(search_step(
            &*self.vector_db,
            &*self.rerank_service,
            &*self.llm_service,
            ticket,
            embedding@,
            done,
        ));
        done
    }

    /// Processes the tickets one after another, each for itself, and hands
    /// back what became of each: the outcome at a place is that of the
    /// ticket at that place, and a failure of one ticket stops no other.
    pub fn process_each(&self, tickets: &[Ticket]) -> (outcomes: Vec<
        Result<ProcessResult, AppError>,
    >)
        ensures
            outcomes@.len() == tickets@.len(),
            forall|i: int|
                0 <= i < outcomes@.len() ==> self.outcome(&tickets@[i], #[trigger] outcomes@[i]),
            forall|i: int|
                0 <= i < outcomes@.len() ==> ((#[trigger] outcomes@[i]) matches Ok(result)
                    ==> result.wf() && result.ticket_id == tickets@[i].id),
    {
        let mut outcomes: Vec<Result<ProcessResult, AppError>> = Vec::new();
        let mut i: usize = 0;
        while i < tickets.len()
            invariant
                i <= tickets.len(),
                outcomes@.len() == i,
                forall|k: int| 0 <= k < i ==> self.outcome(&tickets@[k], #[trigger] outcomes@[k]),
                forall|k: int|
                    0 <= k < i ==> ((#[trigger] outcomes@[k]) matches Ok(result) ==> result.wf()
                        && result.ticket_id == tickets@[k].id),
            decreases tickets.len() - i,
        {
            let outcome = self.process(&tickets[i]);
            outcomes.push(outcome);
            i = i + 1;
        }
        outcomes
    }

    /// Processes the tickets one after another and keeps what succeeded: a
    /// ticket whose processing fails is left out, and the others are not
    /// touched by it. The call itself never fails.
    pub fn process_tickets_batch(&self, tickets: &[Ticket]) -> (r: Result<
        Vec<ProcessResult>,
        AppError,
    >)
        ensures
            r matches Ok(results) && exists|outcomes: Seq<Result<ProcessResult, AppError>>|
                {
                    &&& outcomes.len() == tickets@.len()
                    &&& forall|i: int|
                        0 <= i < outcomes.len() ==> self.outcome(
                            &tickets@[i],
                            #[trigger] outcomes[i],
                        )
                    &&& forall|i: int|
                        0 <= i < outcomes.len() ==> ((#[trigger] outcomes[i]) matches Ok(result)
                            ==> result.wf() && result.ticket_id == tickets@[i].id)
                    &&& results@ == successes(outcomes)
                },
    {
        let outcomes = self.process_each(tickets);
        let ghost witness = outcomes@;
        let results = keep_successes(outcomes);
        assert(results@ == successes(witness));
        Ok(results)
    }
}

} // verus!
