//! The rerank provider: a query and candidate documents in, the documents
//! that matter out, best first.

use vstd::prelude::*;
use vstd::slice::slice_subrange;
use crate::embedding::ModelInfo;
use crate::errors::{AppError, ErrorView};
use crate::single::Single;

verus! {

/// One document as the reranker ranks it: where it stood in the list that
/// was handed in, how relevant it is to the query, and its text.
#[derive(Debug, Clone)]
pub struct RerankResult {
    pub index: usize,
    pub score: Single,
    pub document: String,
}

/// Orders documents by their relevance to a query.
///
/// `rerank` answers with entries for some or all of the documents, each
/// document at most once, each entry naming the place of its document in
/// `documents` and carrying its text, with scores that never rise along the
/// list; for no documents it answers with no entries. `rerank_batch` answers with one
/// such list for each query, in the order of the queries. Callers hand over
/// no more than `max_documents()` documents for a query.
///
/// None of this is taken on trust: [`checked_rerank`] and
/// [`checked_rerank_batch`] test each answer before they hand it on, and hold
/// to the limit on documents themselves.
pub trait RerankService {
    fn rerank(&self, query: &str, documents: &[String]) -> Result<Vec<RerankResult>, AppError>;

    fn rerank_batch(&self, queries: &[String], documents: &[Vec<String>]) -> Result<
        Vec<Vec<RerankResult>>,
        AppError,
    >;

    fn max_documents(&self) -> usize;

    fn model_info(&self) -> ModelInfo;

    fn health_check(&self) -> Result<bool, AppError>;
}

/// Every entry names a document that was handed in.
pub open spec fn indices_in_range(results: Seq<RerankResult>, documents: nat) -> bool {
    forall|i: int| 0 <= i < results.len() ==> (#[trigger] results[i]).index < documents
}

/// No document is named twice.
pub open spec fn indices_distinct(results: Seq<RerankResult>) -> bool {
    forall|i: int, j: int|
        0 <= i < j < results.len() ==> (#[trigger] results[i]).index != (
        #[trigger] results[j]).index
}

/// The scores never rise along the list, and where there are two or more,
/// each is a number.
pub open spec fn scores_descend(results: Seq<RerankResult>) -> bool {
    forall|i: int, j: int|
        0 <= i < j < results.len() ==> (#[trigger] results[j]).score.le(
            &(#[trigger] results[i]).score,
        )
}

/// The entries are a selection of `documents` documents: no more entries
/// than documents, each naming a document that was handed in, and none
/// named twice.
pub open spec fn selects(results: Seq<RerankResult>, documents: nat) -> bool {
    &&& results.len() <= documents
    &&& indices_in_range(results, documents)
    &&& indices_distinct(results)
}

/// Every entry that names one of the documents carries the text of that
/// document.
pub open spec fn carries_documents(results: Seq<RerankResult>, documents: Seq<String>) -> bool {
    forall|i: int|
        0 <= i < results.len() && (#[trigger] results[i]).index < documents.len()
            ==> results[i].document@ == documents[results[i].index as int]@
}

/// A reranking of `documents` is valid when it is a selection of them,
/// each named by its place and none named twice, each entry with the text of
/// the document it names, in the order of falling score.
pub open spec fn valid_reranking(results: Seq<RerankResult>, documents: Seq<String>) -> bool {
    &&& selects(results, documents.len())
    &&& carries_documents(results, documents)
    &&& scores_descend(results)
}

/// The error that stands for a reranking that is no selection of the
/// documents handed in.
pub open spec fn reranking_not_a_selection() -> ErrorView {
    ErrorView::RerankService { message: "重排序结果不是所提交文档的子集"@ }
}

/// The error that stands for an entry with another text than that of the
/// document it names.
pub open spec fn reranking_wrong_document() -> ErrorView {
    ErrorView::RerankService { message: "重排序结果的文档内容与所提交的文档不一致"@ }
}

/// The error that stands for a reranking whose scores rise somewhere.
pub open spec fn reranking_out_of_order() -> ErrorView {
    ErrorView::RerankService { message: "重排序结果未按分数降序排列"@ }
}

/// Whether the entries name documents among the first `documents`, none
/// twice.
fn is_selection(results: &Vec<RerankResult>, documents: usize) -> (b: bool)
    ensures
        b == selects(results@, documents as nat),
{
    if results.len() > documents {
        return false;
    }
    let mut named: Vec<bool> = Vec::new();
    let mut k: usize = 0;
    while k < documents
        invariant
            k <= documents,
            named@.len() == k,
            forall|d: int| 0 <= d < k ==> !(#[trigger] named@[d]),
        decreases documents - k,
    {
        named.push(false);
        k = k + 1;
    }
    let mut i: usize = 0;
    while i < results.len()
        invariant
            i <= results.len(),
            named@.len() == documents,
            indices_in_range(results@.subrange(0, i as int), documents as nat),
            indices_distinct(results@.subrange(0, i as int)),
            forall|d: int|
                0 <= d < documents ==> (#[trigger] named@[d] <==> exists|p: int|
                    0 <= p < i && (#[trigger] results@[p]).index == d),
        decreases results.len() - i,
    {
        let at = results[i].index;
        let ghost before = results@.subrange(0, i as int);
        let ghost after = results@.subrange(0, i + 1);
        if at >= documents {
            assert(!indices_in_range(results@, documents as nat)) by {
                assert(results@[i as int].index >= documents);
            }
            return false;
        }
        if named[at] {
            assert(!indices_distinct(results@)) by {
                let p = choose|p: int| 0 <= p < i && (#[trigger] results@[p]).index == at;
                assert(results@[p].index == results@[i as int].index);
            }
            return false;
        }
        assert(indices_in_range(after, documents as nat)) by {
            assert forall|q: int| 0 <= q < after.len() implies (#[trigger] after[q]).index
                < documents by {
                if q < i {
                    assert(after[q] == before[q]);
                }
            }
        }
        assert(indices_distinct(after)) by {
            assert forall|p: int, q: int| 0 <= p < q < after.len() implies (
            #[trigger] after[p]).index != (#[trigger] after[q]).index by {
                if q < i {
                    assert(after[p] == before[p]);
                    assert(after[q] == before[q]);
                } else {
                    assert(after[p] == results@[p]);
                }
            }
        }
        named.set(at, true);
        assert forall|d: int| 0 <= d < documents implies (#[trigger] named@[d] <==> exists|p: int|
            0 <= p < i + 1 && (#[trigger] results@[p]).index == d) by {
            if d == at {
                assert(results@[i as int].index == d);
            } else if named@[d] {
                let p = choose|p: int| 0 <= p < i && (#[trigger] results@[p]).index == d;
                assert(0 <= p < i + 1 && results@[p].index == d);
            }
        }
        i = i + 1;
    }
    assert(results@.subrange(0, results.len() as int) == results@);
    true
}

/// Whether the scores never rise along the list.
pub fn is_descending(results: &Vec<RerankResult>) -> (b: bool)
    ensures
        b == scores_descend(results@),
{
    let mut i: usize = 1;
    while i < results.len()
        invariant
            1 <= i,
            i <= results.len() || results.len() == 0,
            scores_descend(results@.subrange(0, i as int)) || results.len() == 0,
        decreases results.len() - i,
    {
        let ghost before = results@.subrange(0, i as int);
        let ghost after = results@.subrange(0, i + 1);
        if !results[i].score.is_le(&results[i - 1].score) {
            assert(!scores_descend(results@)) by {
                assert(!results@[i as int].score.le(&results@[i - 1].score));
            }
            return false;
        }
        assert(scores_descend(after)) by {
            assert forall|p: int, q: int| 0 <= p < q < after.len() implies (
            #[trigger] after[q]).score.le(&(#[trigger] after[p]).score) by {
                if q < i {
                    assert(after[p] == before[p]);
                    assert(after[q] == before[q]);
                } else if p < i - 1 {
                    assert(before[i - 1].score.le(&before[p].score));
                    assert(after[p] == before[p]);
                    assert(after[i - 1] == before[i - 1]);
                } else {
                    assert(after[p] == results@[i - 1]);
                }
            }
        }
        i = i + 1;
    }
    if results.len() > 0 {
        assert(results@.subrange(0, results.len() as int) == results@);
    }
    true
}

/// Whether every entry carries the text of the document it names.
fn has_texts_of(results: &Vec<RerankResult>, documents: &[String]) -> (b: bool)
    requires
        indices_in_range(results@, documents@.len()),
    ensures
        b == carries_documents(results@, documents@),
{
    let mut i: usize = 0;
    while i < results.len()
        invariant
            i <= results.len(),
            indices_in_range(results@, documents@.len()),
            forall|k: int|
                0 <= k < i ==> (#[trigger] results@[k]).document@
                    == documents@[results@[k].index as int]@,
        decreases results.len() - i,
    {
        let entry = &results[i];
        assert(results@[i as int].index < documents@.len());
        if entry.document != documents[entry.index] {
            assert(results@[i as int].document@ != documents@[results@[i as int].index as int]@);
            return false;
        }
        i = i + 1;
    }
    true
}

/// Accepts `results` as the answer of a reranker that was handed
/// `documents`, or says why not.
pub fn check_reranking(results: &Vec<RerankResult>, documents: &[String]) -> (r: Result<
    (),
    AppError,
>)
    ensures
        r is Ok <==> valid_reranking(results@, documents@),
        r matches Err(e) ==> e@ == reranking_fault(results@, documents@),
{
    if !is_selection(results, documents.len()) {
        Err(AppError::RerankService { message: "重排序结果不是所提交文档的子集".to_owned() })
    } else if !has_texts_of(results, documents) {
        Err(
            AppError::RerankService {
                message: "重排序结果的文档内容与所提交的文档不一致".to_owned(),
            },
        )
    } else if !is_descending(results) {
        Err(AppError::RerankService { message: "重排序结果未按分数降序排列".to_owned() })
    } else {
        Ok(())
    }
}

/// The error that a reranking is refused with: no selection where it is
/// none; else a wrong text where an entry carries one; else out of order.
pub open spec fn reranking_fault(results: Seq<RerankResult>, documents: Seq<String>) -> ErrorView {
    if !selects(results, documents.len()) {
        reranking_not_a_selection()
    } else if !carries_documents(results, documents) {
        reranking_wrong_document()
    } else {
        reranking_out_of_order()
    }
}

/// Whether `r` is what becomes of the answer of a reranker that was handed
/// `documents`: its failure is handed on as it came, its entries are handed
/// on if they are a valid reranking, and anything else is an error of the
/// rerank service.
pub open spec fn reranking_accepted(
    answer: Result<Vec<RerankResult>, AppError>,
    documents: Seq<String>,
    r: Result<Vec<RerankResult>, AppError>,
) -> bool {
    match answer {
        Err(failure) => r == Err::<Vec<RerankResult>, AppError>(failure),
        Ok(results) => if valid_reranking(results@, documents) {
            r == Ok::<Vec<RerankResult>, AppError>(results)
        } else {
            r matches Err(e) && e@ == reranking_fault(results@, documents)
        },
    }
}

/// What becomes of the answer of a reranker that was handed `documents`,
/// as [`reranking_accepted`] says.
pub fn accept_reranking(answer: Result<Vec<RerankResult>, AppError>, documents: &[String]) -> (r:
    Result<Vec<RerankResult>, AppError>)
    ensures
        reranking_accepted(answer, documents@, r),
{
    match answer {
        Ok(results) => match check_reranking(&results, documents) {
            Ok(()) => Ok(results),
            Err(e) => Err(e),
        },
        Err(failure) => Err(failure),
    }
}

/// The answer to a batch is valid when it holds one valid reranking for
/// each query, each of the documents that belong to its query.
pub open spec fn valid_reranking_batch(
    lists: Seq<Vec<RerankResult>>,
    queries: nat,
    documents: Seq<Vec<String>>,
) -> bool {
    &&& lists.len() == queries
    &&& lists.len() == documents.len()
    &&& forall|i: int|
        0 <= i < lists.len() ==> valid_reranking((#[trigger] lists[i])@, documents[i]@)
}

/// Whether the list at place `k` is the first of the batch that is no valid
/// reranking of its documents.
pub open spec fn first_refused(
    lists: Seq<Vec<RerankResult>>,
    documents: Seq<Vec<String>>,
    k: int,
) -> bool {
    &&& 0 <= k < lists.len()
    &&& !valid_reranking(lists[k]@, documents[k]@)
    &&& forall|j: int| 0 <= j < k ==> valid_reranking((#[trigger] lists[j])@, documents[j]@)
}

/// The error that stands for a batch that does not answer query by query.
pub open spec fn reranking_batch_mismatch() -> ErrorView {
    ErrorView::RerankService { message: "批量重排序结果与查询不一一对应"@ }
}

/// Whether `r` is what becomes of the answer of a reranker to a batch of
/// `queries` queries with their `documents`: its failure is handed on as it
/// came, and its lists are handed on if there is one valid reranking for
/// each query. Else the batch is an error of the rerank service: that of a
/// batch that does not answer query by query where the numbers differ, and
/// else the fault of the first list that is no valid reranking.
pub open spec fn reranking_batch_accepted(
    answer: Result<Vec<Vec<RerankResult>>, AppError>,
    queries: nat,
    documents: Seq<Vec<String>>,
    r: Result<Vec<Vec<RerankResult>>, AppError>,
) -> bool {
    match answer {
        Err(failure) => r == Err::<Vec<Vec<RerankResult>>, AppError>(failure),
        Ok(lists) => if valid_reranking_batch(lists@, queries, documents) {
            r == Ok::<Vec<Vec<RerankResult>>, AppError>(lists)
        } else {
            r matches Err(e) && if lists@.len() != queries || lists@.len() != documents.len() {
                e@ == reranking_batch_mismatch()
            } else {
                exists|k: int| #[trigger]
                    first_refused(lists@, documents, k) && e@ == reranking_fault(
                        lists@[k]@,
                        documents[k]@,
                    )
            }
        },
    }
}

/// What becomes of the answer of a reranker to a batch of `queries`
/// queries with their `documents`, as [`reranking_batch_accepted`] says.
pub fn accept_reranking_batch(
    answer: Result<Vec<Vec<RerankResult>>, AppError>,
    queries: usize,
    documents: &[Vec<String>],
) -> (r: Result<Vec<Vec<RerankResult>>, AppError>)
    ensures
        reranking_batch_accepted(answer, queries as nat, documents@, r),
{
    match answer {
        Err(failure) => Err(failure),
        Ok(lists) => {
            if lists.len() != queries || lists.len() != documents.len() {
                return Err(
                    AppError::RerankService {
                        message: "批量重排序结果与查询不一一对应".to_owned(),
                    },
                );
            }
            let mut i: usize = 0;
            while i < lists.len()
                invariant
                    i <= lists.len(),
                    answer == Ok::<Vec<Vec<RerankResult>>, AppError>(lists),
                    lists@.len() == queries,
                    lists@.len() == documents@.len(),
                    forall|k: int|
                        0 <= k < i ==> valid_reranking((#[trigger] lists@[k])@, documents@[k]@),
                decreases lists.len() - i,
            {
                match check_reranking(&lists[i], documents[i].as_slice()) {
                    Ok(()) => {},
                    Err(e) => {
                        assert(first_refused(lists@, documents@, i as int));
                        return Err(e);
                    },
                }
                i = i + 1;
            }
            Ok(lists)
        },
    }
}

/// A reranking that is valid for the leading documents is valid for all of
/// them.
pub proof fn lemma_valid_for_more_documents(
    results: Seq<RerankResult>,
    documents: Seq<String>,
    count: int,
)
    requires
        0 <= count <= documents.len(),
        valid_reranking(results, documents.subrange(0, count)),
    ensures
        valid_reranking(results, documents),
{
    let handed = documents.subrange(0, count);
    assert forall|i: int|
        0 <= i < results.len() && (#[trigger] results[i]).index < documents.len() implies results[i].document@
        == documents[results[i].index as int]@ by {
        assert(results[i].index < handed.len());
        assert(handed[results[i].index as int] == documents[results[i].index as int]);
    }
}

/// How many documents are handed to a reranker that takes `max_documents`
/// at most: all of them if it takes that many, else the leading ones.
pub open spec fn handed_count(documents: nat, max_documents: nat) -> nat {
    if documents <= max_documents {
        documents
    } else {
        max_documents
    }
}

/// Whether `r` is what comes of letting `service` rerank the leading
/// `count` of `documents` for `query`: with nothing to hand over, the empty
/// selection; else the provider was handed the query and those leading
/// documents, and `r` is what becomes of its answer, as
/// [`reranking_accepted`] says.
pub open spec fn rerank_outcome_of<R: RerankService>(
    service: &R,
    query: Seq<char>,
    documents: Seq<String>,
    count: nat,
    r: Result<Vec<RerankResult>, AppError>,
) -> bool {
    if count == 0 {
        r matches Ok(results) && results@.len() == 0
    } else {
        exists|asked: &str, handed: &[String], answer: Result<Vec<RerankResult>, AppError>|
            asked@ == query && handed@ == documents.subrange(0, count as int)
                && #[trigger] call_ensures(R::rerank, (service, asked, handed), answer)
                && reranking_accepted(answer, documents.subrange(0, count as int), r)
    }
}

/// Whether `r` is what comes of letting `service` rerank `documents` for
/// `query`: the provider was asked how many documents it takes, and was
/// handed no more than that, as [`handed_count`] and [`rerank_outcome_of`]
/// say.
pub open spec fn rerank_outcome<R: RerankService>(
    service: &R,
    query: Seq<char>,
    documents: Seq<String>,
    r: Result<Vec<RerankResult>, AppError>,
) -> bool {
    exists|max_documents: usize| #[trigger]
        call_ensures(R::max_documents, (service,), max_documents) && rerank_outcome_of(
            service,
            query,
            documents,
            handed_count(documents.len(), max_documents as nat),
            r,
        )
}

/// Lets `service` rerank `documents` for `query` and accepts only an answer
/// that keeps the contract. The provider is handed no more documents than it
/// says it takes: where there are more, the leading ones are handed over.
/// Where there is nothing to hand over, the provider is not asked, and the
/// answer is the empty selection.
pub fn checked_rerank<R: RerankService>(service: &R, query: &str, documents: &[String]) -> (r:
    Result<Vec<RerankResult>, AppError>)
    ensures
        rerank_outcome(service, query@, documents@, r),
        r matches Ok(results) ==> valid_reranking(results@, documents@),
        documents@.len() == 0 ==> (r matches Ok(results) && results@.len() == 0),
{
    let max_documents = service.max_documents();
    let count = if documents.len() <= max_documents {
        documents.len()
    } else {
        max_documents
    };
    if count == 0 {
        let nothing: Result<Vec<RerankResult>, AppError> = Ok(Vec::new());
        assert(rerank_outcome_of(service, query@, documents@, 0, nothing));
        return nothing;
    }
    let handed = slice_subrange(documents, 0, count);
    let answer = service.rerank(query, handed);
    let accepted = accept_reranking(answer, handed);
    proof {
        if accepted is Ok {
            lemma_valid_for_more_documents(accepted->Ok_0@, documents@, count as int);
        }
        assert(rerank_outcome_of(service, query@, documents@, count as nat, accepted));
    }
    accepted
}

/// The error that stands for more documents than a reranker takes.
pub open spec fn too_many_documents() -> ErrorView {
    ErrorView::RerankService { message: "提交的文档数量超过了重排序服务的上限"@ }
}

/// Whether every list holds `max_documents` documents at most.
pub fn all_within(documents: &[Vec<String>], max_documents: usize) -> (b: bool)
    ensures
        b == lists_within(documents@, max_documents as nat),
{
    let mut i: usize = 0;
    while i < documents.len()
        invariant
            i <= documents.len(),
            forall|k: int| 0 <= k < i ==> (#[trigger] documents@[k])@.len() <= max_documents,
        decreases documents.len() - i,
    {
        if documents[i].len() > max_documents {
            return false;
        }
        i = i + 1;
    }
    true
}

/// Every list holds `max_documents` documents at most.
pub open spec fn lists_within(documents: Seq<Vec<String>>, max_documents: nat) -> bool {
    forall|i: int| 0 <= i < documents.len() ==> (#[trigger] documents[i])@.len() <= max_documents
}

/// Whether `r` is what comes of letting `service` rerank each list of
/// `documents` for its query: the provider was asked how many documents it
/// takes; where some list holds more, the batch is an error of the rerank
/// service; else the provider was handed the queries and the documents, and
/// `r` is what becomes of its answer, as [`reranking_batch_accepted`] says.
pub open spec fn rerank_batch_outcome<R: RerankService>(
    service: &R,
    queries: &[String],
    documents: &[Vec<String>],
    r: Result<Vec<Vec<RerankResult>>, AppError>,
) -> bool {
    exists|max_documents: usize| #[trigger]
        call_ensures(R::max_documents, (service,), max_documents) && if lists_within(
            documents@,
            max_documents as nat,
        ) {
            exists|answer: Result<Vec<Vec<RerankResult>>, AppError>| #[trigger]
                call_ensures(R::rerank_batch, (service, queries, documents), answer)
                    && reranking_batch_accepted(answer, queries@.len(), documents@, r)
        } else {
            r matches Err(e) && e@ == too_many_documents()
        }
}

/// Lets `service` rerank each list of `documents` for its query and accepts
/// only an answer that keeps the contract. Where some list holds more
/// documents than the provider says it takes, the provider is not asked, and
/// the batch is an error of the rerank service.
pub fn checked_rerank_batch<R: RerankService>(
    service: &R,
    queries: &[String],
    documents: &[Vec<String>],
) -> (r: Result<Vec<Vec<RerankResult>>, AppError>)
    ensures
        rerank_batch_outcome(service, queries, documents, r),
        r matches Ok(lists) ==> valid_reranking_batch(lists@, queries@.len(), documents@),
{
    let max_documents = service.max_documents();
    if !all_within(documents, max_documents) {
        return Err(
            AppError::RerankService {
                message: "提交的文档数量超过了重排序服务的上限".to_owned(),
            },
        );
    }
    let answer = service.rerank_batch(queries, documents);
    accept_reranking_batch(answer, queries.len(), documents)
}

/// In a list whose scores never rise, no entry scores above the first.
pub proof fn lemma_first_scores_highest(results: Seq<RerankResult>, i: int)
    requires
        scores_descend(results),
        0 < i < results.len(),
    ensures
        results[i].score.le(&results[0].score),
{
}

} // verus!
