//! The vector store: vectors with what is known of their tickets, and the
//! search for the nearest of them.

use vstd::prelude::*;
use uuid::Uuid;
use crate::clock::Timestamp;
use crate::errors::{AppError, ErrorView};
use crate::single::Single;

verus! {

/// What the store knows of a ticket besides its vector.
#[derive(Debug, Clone)]
pub struct VectorMetadata {
    pub title: String,
    pub description: String,
    pub category: String,
    pub priority: i32,
    pub created_at: Timestamp,
    pub tags: Vec<String>,
}

/// A vector as it is stored.
#[derive(Debug, Clone)]
pub struct VectorRecord {
    pub id: Uuid,
    pub vector: Vec<Single>,
    pub metadata: VectorMetadata,
}

/// One candidate of a search: the stored record's id, how similar it is to
/// the query, and what the store knows of it.
#[derive(Debug, Clone)]
pub struct SearchResult {
    pub id: Uuid,
    pub score: Single,
    pub metadata: VectorMetadata,
    pub vector: Option<Vec<Single>>,
}

/// What a search may be narrowed by.
#[derive(Debug, Clone)]
pub struct VectorFilter {
    pub category: Option<String>,
    pub priority_range: Option<(i32, i32)>,
    pub date_range: Option<(Timestamp, Timestamp)>,
    pub tags: Option<Vec<String>>,
}

/// How much the store holds.
#[derive(Debug)]
pub struct DatabaseStats {
    pub total_vectors: u64,
    pub dimension: usize,
    pub storage_size: u64,
    pub index_type: String,
}

/// What a store can do; callers choose the kind of search by it.
#[derive(Debug, Clone)]
pub struct DatabaseInfo {
    pub name: String,
    pub version: String,
    pub supports_hybrid_search: bool,
    pub supports_filtering: bool,
    pub max_dimension: usize,
    pub recommended_batch_size: usize,
}

/// Stores vectors and finds the nearest.
///
/// `search` answers with at most `limit` candidates, the most similar
/// first; `hybrid_search` answers with at most `limit` candidates, in the
/// order in which the store ranks them by vector and keywords together. A
/// vector that comes with a candidate is as long as the query vector. `health_check` reports trouble as `Ok(false)` or as an
/// error; callers read both as "unhealthy".
///
/// None of this is taken on trust: [`checked_search`] and
/// [`checked_hybrid_search`] test each answer before they hand it on.
pub trait VectorDatabase {
    fn insert(&self, id: Uuid, vector: &[Single], metadata: VectorMetadata) -> Result<
        (),
        AppError,
    >;

    fn insert_batch(&self, records: &[VectorRecord]) -> Result<(), AppError>;

    fn search(&self, query_vector: &[Single], limit: usize, filter: Option<VectorFilter>) -> Result<
        Vec<SearchResult>,
        AppError,
    >;

    fn hybrid_search(
        &self,
        query_vector: &[Single],
        keywords: &[String],
        limit: usize,
        filter: Option<VectorFilter>,
    ) -> Result<Vec<SearchResult>, AppError>;

    fn delete(&self, id: Uuid) -> Result<(), AppError>;

    fn update(&self, id: Uuid, vector: &[Single], metadata: Option<VectorMetadata>) -> Result<
        (),
        AppError,
    >;

    fn get(&self, id: Uuid) -> Result<Option<VectorRecord>, AppError>;

    fn stats(&self) -> Result<DatabaseStats, AppError>;

    fn health_check(&self) -> Result<bool, AppError>;

    fn database_info(&self) -> DatabaseInfo;
}

/// The similarity never rises along the list, and where there are two or
/// more candidates, each similarity is a number.
pub open spec fn similarity_descends(candidates: Seq<SearchResult>) -> bool {
    forall|i: int, j: int|
        0 <= i < j < candidates.len() ==> (#[trigger] candidates[j]).score.le(
            &(#[trigger] candidates[i]).score,
        )
}

/// The answer to a search for at most `limit` candidates is valid when it
/// holds no more than that, the most similar first.
pub open spec fn valid_candidates(candidates: Seq<SearchResult>, limit: nat) -> bool {
    candidates.len() <= limit && similarity_descends(candidates)
}

/// The error that stands for more candidates than were asked for.
pub open spec fn too_many_candidates() -> ErrorView {
    ErrorView::VectorDatabase { message: "检索结果数量超过了请求的上限"@ }
}

/// The error that stands for candidates whose similarity rises somewhere.
pub open spec fn candidates_out_of_order() -> ErrorView {
    ErrorView::VectorDatabase { message: "检索结果未按相似度降序排列"@ }
}

/// Whether the similarity never rises along the list.
pub fn is_by_similarity(candidates: &Vec<SearchResult>) -> (b: bool)
    ensures
        b == similarity_descends(candidates@),
{
    let mut i: usize = 1;
    while i < candidates.len()
        invariant
            1 <= i,
            i <= candidates.len() || candidates.len() == 0,
            similarity_descends(candidates@.subrange(0, i as int)) || candidates.len() == 0,
        decreases candidates.len() - i,
    {
        let ghost before = candidates@.subrange(0, i as int);
        let ghost after = candidates@.subrange(0, i + 1);
        if !candidates[i].score.is_le(&candidates[i - 1].score) {
            assert(!similarity_descends(candidates@)) by {
                assert(!candidates@[i as int].score.le(&candidates@[i - 1].score));
            }
            return false;
        }
        assert(similarity_descends(after)) by {
            assert forall|p: int, q: int| 0 <= p < q < after.len() implies (
            #[trigger] after[q]).score.le(&(#[trigger] after[p]).score) by {
                if q < i {
                    assert(after[p] == before[p]);
                    assert(after[q] == before[q]);
                } else if p < i - 1 {
                    assert(before[i - 1].score.le(&before[p].score));
                    assert(after[p] == before[p]);
                    assert(after[i - 1] == before[i - 1]);
                } else {
                    assert(after[p] == candidates@[i - 1]);
                }
            }
        }
        i = i + 1;
    }
    if candidates.len() > 0 {
        assert(candidates@.subrange(0, candidates.len() as int) == candidates@);
    }
    true
}

/// Accepts `candidates` as the answer to a search for at most `limit`
/// candidates, or says why not.
pub fn check_candidates(candidates: &Vec<SearchResult>, limit: usize) -> (r: Result<(), AppError>)
    ensures
        r is Ok <==> valid_candidates(candidates@, limit as nat),
        r matches Err(e) ==> e@ == (if candidates@.len() > limit {
            too_many_candidates()
        } else {
            candidates_out_of_order()
        }),
{
    if candidates.len() > limit {
        Err(AppError::VectorDatabase { message: "检索结果数量超过了请求的上限".to_owned() })
    } else if !is_by_similarity(candidates) {
        Err(AppError::VectorDatabase { message: "检索结果未按相似度降序排列".to_owned() })
    } else {
        Ok(())
    }
}

/// Whether `r` is what becomes of the answer to a search for at most
/// `limit` candidates: the failure of the store is handed on as it came, its
/// candidates are handed on if they are valid, and anything else is an error
/// of the vector store.
pub open spec fn candidates_accepted(
    answer: Result<Vec<SearchResult>, AppError>,
    limit: nat,
    r: Result<Vec<SearchResult>, AppError>,
) -> bool {
    match answer {
        Err(failure) => r == Err::<Vec<SearchResult>, AppError>(failure),
        Ok(candidates) => if valid_candidates(candidates@, limit) {
            r == Ok::<Vec<SearchResult>, AppError>(candidates)
        } else {
            r matches Err(e) && e@ == (if candidates@.len() > limit {
                too_many_candidates()
            } else {
                candidates_out_of_order()
            })
        },
    }
}

/// What becomes of the answer to a search for at most `limit` candidates,
/// as [`candidates_accepted`] says.
pub fn accept_candidates(answer: Result<Vec<SearchResult>, AppError>, limit: usize) -> (r: Result<
    Vec<SearchResult>,
    AppError,
>)
    ensures
        candidates_accepted(answer, limit as nat, r),
{
    match answer {
        Ok(candidates) => match check_candidates(&candidates, limit) {
            Ok(()) => Ok(candidates),
            Err(e) => Err(e),
        },
        Err(failure) => Err(failure),
    }
}

/// Every vector that comes with a candidate has `dimension` numbers.
pub open spec fn vectors_have_dimension(candidates: Seq<SearchResult>, dimension: nat) -> bool {
    forall|i: int|
        0 <= i < candidates.len() ==> ((#[trigger] candidates[i]).vector matches Some(vector)
            ==> vector@.len() == dimension)
}

/// The error that stands for a candidate whose vector has another length
/// than the vector that was searched for.
pub open spec fn candidate_dimension_mismatch() -> ErrorView {
    ErrorView::VectorDatabase { message: "检索结果的向量维度与查询向量不一致"@ }
}

/// Whether `r` is what becomes of candidates that were found for a query
/// vector of `dimension` numbers: a failure is handed on as it came, the
/// candidates are handed on if every vector among them has that length, and
/// anything else is an error of the vector store.
pub open spec fn vectors_accepted(
    answer: Result<Vec<SearchResult>, AppError>,
    dimension: nat,
    r: Result<Vec<SearchResult>, AppError>,
) -> bool {
    match answer {
        Err(failure) => r == Err::<Vec<SearchResult>, AppError>(failure),
        Ok(candidates) => if vectors_have_dimension(candidates@, dimension) {
            r == Ok::<Vec<SearchResult>, AppError>(candidates)
        } else {
            r matches Err(e) && e@ == candidate_dimension_mismatch()
        },
    }
}

/// What becomes of candidates that were found for a query vector of
/// `dimension` numbers, as [`vectors_accepted`] says.
pub fn accept_vectors(answer: Result<Vec<SearchResult>, AppError>, dimension: usize) -> (r: Result<
    Vec<SearchResult>,
    AppError,
>)
    ensures
        vectors_accepted(answer, dimension as nat, r),
{
    match answer {
        Err(failure) => Err(failure),
        Ok(candidates) => {
            let mut i: usize = 0;
            while i < candidates.len()
                invariant
                    i <= candidates.len(),
                    answer == Ok::<Vec<SearchResult>, AppError>(candidates),
                    forall|k: int|
                        0 <= k < i ==> ((#[trigger] candidates@[k]).vector matches Some(vector)
                            ==> vector@.len() == dimension),
                decreases candidates.len() - i,
            {
                let fits = match &candidates[i].vector {
                    Some(vector) => vector.len() == dimension,
                    None => true,
                };
                if !fits {
                    assert(candidates@[i as int].vector is Some);
                    return Err(
                        AppError::VectorDatabase {
                            message: "检索结果的向量维度与查询向量不一致".to_owned(),
                        },
                    );
                }
                i = i + 1;
            }
            Ok(candidates)
        },
    }
}

/// Whether `r` is what comes of searching `store` for at most `limit`
/// candidates near `query` under `filter`: the store was handed that vector,
/// that limit and that filter, and `r` is what becomes of its answer, as
/// [`candidates_accepted`] and then [`vectors_accepted`] say.
pub open spec fn search_outcome<V: VectorDatabase>(
    store: &V,
    query: Seq<Single>,
    limit: usize,
    filter: Option<VectorFilter>,
    r: Result<Vec<SearchResult>, AppError>,
) -> bool {
    exists|
        handed: &[Single],
        answer: Result<Vec<SearchResult>, AppError>,
        counted: Result<Vec<SearchResult>, AppError>,
    |
        handed@ == query && #[trigger] call_ensures(V::search, (store, handed, limit, filter), answer)
            && #[trigger] candidates_accepted(answer, limit as nat, counted) && vectors_accepted(
            counted,
            query.len(),
            r,
        )
}

/// Whether `r` is what comes of searching `store` by vector and keywords
/// for at most `limit` candidates under `filter`: the store was handed that
/// vector, those keywords, that limit and that filter, and `r` is what
/// becomes of its answer, as [`hybrid_candidates_accepted`] and then
/// [`vectors_accepted`] say.
pub open spec fn hybrid_search_outcome<V: VectorDatabase>(
    store: &V,
    query: Seq<Single>,
    keywords: &[String],
    limit: usize,
    filter: Option<VectorFilter>,
    r: Result<Vec<SearchResult>, AppError>,
) -> bool {
    exists|
        handed: &[Single],
        answer: Result<Vec<SearchResult>, AppError>,
        counted: Result<Vec<SearchResult>, AppError>,
    |
        handed@ == query && #[trigger] call_ensures(
            V::hybrid_search,
            (store, handed, keywords, limit, filter),
            answer,
        ) && #[trigger] hybrid_candidates_accepted(answer, limit as nat, counted)
            && vectors_accepted(counted, query.len(), r)
}

/// Searches `store` and accepts only an answer that keeps the contract. So
/// what is handed out never holds more than `limit` candidates, whatever the
/// limit and whatever the store, and no vector of another length than the
/// query vector.
pub fn checked_search<V: VectorDatabase>(
    store: &V,
    query_vector: &[Single],
    limit: usize,
    filter: Option<VectorFilter>,
) -> (r: Result<Vec<SearchResult>, AppError>)
    ensures
        search_outcome(store, query_vector@, limit, filter, r),
        r matches Ok(candidates) ==> candidates@.len() <= limit && valid_candidates(
            candidates@,
            limit as nat,
        ) && vectors_have_dimension(candidates@, query_vector@.len()),
{
    let answer = store.search(query_vector, limit, filter);
    let counted = accept_candidates(answer, limit);
    accept_vectors(counted, query_vector.len())
}

/// Whether `r` is what becomes of the answer to a search by vector and
/// keywords for at most `limit` candidates: the failure of the store is
/// handed on as it came, its candidates are handed on if there are no more
/// than `limit` of them, in whatever order the store ranks them, and more
/// than that is an error of the vector store.
pub open spec fn hybrid_candidates_accepted(
    answer: Result<Vec<SearchResult>, AppError>,
    limit: nat,
    r: Result<Vec<SearchResult>, AppError>,
) -> bool {
    match answer {
        Err(failure) => r == Err::<Vec<SearchResult>, AppError>(failure),
        Ok(candidates) => if candidates@.len() <= limit {
            r == Ok::<Vec<SearchResult>, AppError>(candidates)
        } else {
            r matches Err(e) && e@ == too_many_candidates()
        },
    }
}

/// What becomes of the answer to a search by vector and keywords for at
/// most `limit` candidates, as [`hybrid_candidates_accepted`] says.
pub fn accept_hybrid_candidates(answer: Result<Vec<SearchResult>, AppError>, limit: usize) -> (r:
    Result<Vec<SearchResult>, AppError>)
    ensures
        hybrid_candidates_accepted(answer, limit as nat, r),
{
    match answer {
        Ok(candidates) => {
            if candidates.len() > limit {
                Err(
                    AppError::VectorDatabase {
                        message: "检索结果数量超过了请求的上限".to_owned(),
                    },
                )
            } else {
                Ok(candidates)
            }
        },
        Err(failure) => Err(failure),
    }
}

/// Searches `store` by vector and keywords and accepts only an answer that
/// keeps the contract. So what is handed out never holds more than `limit`
/// candidates, and no vector of another length than the query vector.
pub fn checked_hybrid_search<V: VectorDatabase>(
    store: &V,
    query_vector: &[Single],
    keywords: &[String],
    limit: usize,
    filter: Option<VectorFilter>,
) -> (r: Result<Vec<SearchResult>, AppError>)
    ensures
        hybrid_search_outcome(store, query_vector@, keywords, limit, filter, r),
        r matches Ok(candidates) ==> candidates@.len() <= limit && vectors_have_dimension(
            candidates@,
            query_vector@.len(),
        ),
{
    let answer = store.hybrid_search(query_vector, keywords, limit, filter);
    let counted = accept_hybrid_candidates(answer, limit);
    accept_vectors(counted, query_vector.len())
}

} // verus!
