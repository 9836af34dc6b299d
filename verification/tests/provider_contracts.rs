use ticket_rag::clock::Timestamp;
use ticket_rag::embedding::{accept_embedding, accept_embedding_batch};
use ticket_rag::errors::AppError;
use ticket_rag::llm::{accept_response, accept_response_batch, LLMResponse};
use ticket_rag::reranking::{accept_reranking, accept_reranking_batch, RerankResult};
use ticket_rag::single::Single;
use ticket_rag::vector_db::{
    accept_candidates, accept_hybrid_candidates, accept_vectors, SearchResult, VectorMetadata,
};
use uuid::Uuid;

fn num(x: f32) -> Single {
    Single::from_bits(x.to_bits())
}

fn failure() -> AppError {
    AppError::Network { message: "connection reset".to_string() }
}

fn is_the_failure<T: std::fmt::Debug>(r: Result<T, AppError>) {
    match r {
        Err(AppError::Network { message }) => assert_eq!(message, "connection reset"),
        other => panic!("{other:?}"),
    }
}

fn message_of<T: std::fmt::Debug>(r: Result<T, AppError>) -> (&'static str, String) {
    match r {
        Err(AppError::EmbeddingService { message }) => ("embedding", message),
        Err(AppError::VectorDatabase { message }) => ("store", message),
        Err(AppError::RerankService { message }) => ("rerank", message),
        Err(AppError::LLMService { message }) => ("llm", message),
        other => panic!("{other:?}"),
    }
}

fn candidate(n: u128, similarity: f32) -> SearchResult {
    SearchResult {
        id: Uuid::from_u128(n),
        score: num(similarity),
        metadata: VectorMetadata {
            title: String::new(),
            description: String::new(),
            category: String::new(),
            priority: 1,
            created_at: Timestamp { seconds: 0, nanos: 0 },
            tags: vec![],
        },
        vector: None,
    }
}

fn ranked(index: usize, score: f32) -> RerankResult {
    RerankResult { index, score: num(score), document: "d".to_string() }
}

fn docs(count: usize) -> Vec<String> {
    vec!["d".to_string(); count]
}

fn response(confidence: f32) -> LLMResponse {
    LLMResponse {
        content: "c".to_string(),
        confidence: num(confidence),
        reasoning: "r".to_string(),
        token_usage: None,
    }
}

#[test]
fn a_failure_is_handed_on_as_it_came() {
    is_the_failure(accept_embedding(Err(failure()), 3));
    is_the_failure(accept_embedding_batch(Err(failure()), 2, 3));
    is_the_failure(accept_candidates(Err(failure()), 3));
    is_the_failure(accept_reranking(Err(failure()), &docs(3)));
    is_the_failure(accept_reranking_batch(Err(failure()), 0, &[]));
    is_the_failure(accept_response(Err(failure())));
    is_the_failure(accept_response_batch(Err(failure()), 1));
}

#[test]
fn embeddings_are_accepted_by_their_length() {
    let vector = vec![num(0.1), num(0.2), num(0.3)];
    assert_eq!(accept_embedding(Ok(vector.clone()), 3).unwrap(), vector);
    assert_eq!(
        message_of(accept_embedding(Ok(vector.clone()), 4)),
        ("embedding", "嵌入向量的维度与服务声明的维度不一致".to_string())
    );
    assert_eq!(message_of(accept_embedding(Ok(vec![]), 0)).0, "embedding");
    assert_eq!(message_of(accept_embedding(Ok(vec![]), 3)).0, "embedding");
}

#[test]
fn a_batch_of_embeddings_answers_text_by_text() {
    let v = |n: usize| vec![num(0.5); n];
    assert_eq!(accept_embedding_batch(Ok(vec![v(2), v(2)]), 2, 2).unwrap().len(), 2);
    assert!(accept_embedding_batch(Ok(vec![]), 0, 2).unwrap().is_empty());
    assert_eq!(
        message_of(accept_embedding_batch(Ok(vec![v(2)]), 2, 2)),
        ("embedding", "批量嵌入结果与输入文本不一一对应".to_string())
    );
    assert_eq!(
        message_of(accept_embedding_batch(Ok(vec![v(2), v(2), v(2)]), 2, 2)).1,
        "批量嵌入结果与输入文本不一一对应"
    );
    assert_eq!(
        message_of(accept_embedding_batch(Ok(vec![v(2), v(3)]), 2, 2)).1,
        "嵌入向量的维度与服务声明的维度不一致"
    );
}

#[test]
fn candidates_are_accepted_by_count_and_order() {
    let found = vec![candidate(1, 0.9), candidate(2, 0.9), candidate(3, 0.1)];
    let accepted = accept_candidates(Ok(found.clone()), 3).unwrap();
    assert_eq!(accepted.len(), 3);
    assert_eq!(accepted[2].id, Uuid::from_u128(3));
    assert_eq!(
        message_of(accept_candidates(Ok(found.clone()), 2)),
        ("store", "检索结果数量超过了请求的上限".to_string())
    );
    assert_eq!(
        message_of(accept_candidates(Ok(vec![candidate(1, 0.1), candidate(2, 0.2)]), 2)),
        ("store", "检索结果未按相似度降序排列".to_string())
    );
    assert_eq!(
        message_of(accept_candidates(Ok(vec![candidate(1, 0.1), candidate(2, 0.2)]), 1)).1,
        "检索结果数量超过了请求的上限"
    );
    assert!(accept_candidates(Ok(vec![]), 0).unwrap().is_empty());
}

#[test]
fn fused_candidates_are_accepted_by_count_alone() {
    let unordered = vec![candidate(1, 0.1), candidate(2, 0.9)];
    assert_eq!(accept_hybrid_candidates(Ok(unordered.clone()), 2).unwrap().len(), 2);
    assert_eq!(
        message_of(accept_hybrid_candidates(Ok(unordered), 1)),
        ("store", "检索结果数量超过了请求的上限".to_string())
    );
    is_the_failure(accept_hybrid_candidates(Err(failure()), 1));
}

#[test]
fn rerankings_are_accepted_as_ordered_selections() {
    let accepted = accept_reranking(Ok(vec![ranked(2, 0.9), ranked(0, 0.3)]), &docs(3)).unwrap();
    assert_eq!(accepted.len(), 2);
    assert_eq!(accepted[0].index, 2);
    assert_eq!(
        message_of(accept_reranking(Ok(vec![ranked(3, 0.9)]), &docs(3))),
        ("rerank", "重排序结果不是所提交文档的子集".to_string())
    );
    assert_eq!(
        message_of(accept_reranking(Ok(vec![ranked(1, 0.9), ranked(1, 0.8)]), &docs(3))).1,
        "重排序结果不是所提交文档的子集"
    );
    assert_eq!(
        message_of(accept_reranking(Ok(vec![ranked(1, 0.1), ranked(2, 0.8)]), &docs(3))).1,
        "重排序结果未按分数降序排列"
    );
    assert_eq!(
        message_of(accept_reranking(Ok(vec![ranked(5, 0.1), ranked(2, 0.8)]), &docs(3))).1,
        "重排序结果不是所提交文档的子集"
    );
}

#[test]
fn a_batch_of_rerankings_answers_query_by_query() {
    let documents = vec![docs(2), docs(1)];
    let good = vec![vec![ranked(1, 0.9), ranked(0, 0.1)], vec![]];
    assert_eq!(accept_reranking_batch(Ok(good.clone()), 2, &documents).unwrap().len(), 2);
    assert_eq!(
        message_of(accept_reranking_batch(Ok(good.clone()), 3, &documents)),
        ("rerank", "批量重排序结果与查询不一一对应".to_string())
    );
    assert_eq!(
        message_of(accept_reranking_batch(Ok(vec![vec![]]), 2, &documents)).1,
        "批量重排序结果与查询不一一对应"
    );
    let second_is_bad = vec![vec![], vec![ranked(1, 0.5)]];
    assert_eq!(
        message_of(accept_reranking_batch(Ok(second_is_bad), 2, &documents)).1,
        "重排序结果不是所提交文档的子集"
    );
    assert!(accept_reranking_batch(Ok(vec![]), 0, &[]).unwrap().is_empty());

    let both_are_bad = vec![vec![ranked(1, 0.1), ranked(0, 0.9)], vec![ranked(1, 0.5)]];
    assert_eq!(
        message_of(accept_reranking_batch(Ok(both_are_bad), 2, &documents)).1,
        "重排序结果未按分数降序排列"
    );
    let with_another_text = vec![
        vec![ranked(0, 0.5)],
        vec![RerankResult { index: 0, score: num(0.5), document: "e".to_string() }],
    ];
    assert_eq!(
        message_of(accept_reranking_batch(Ok(with_another_text), 2, &documents)).1,
        "重排序结果的文档内容与所提交的文档不一致"
    );
}

#[test]
fn an_entry_carries_the_text_of_the_document_it_names() {
    let documents = vec!["重置密码".to_string(), "清除缓存".to_string()];
    let entry = |index: usize, score: f32, text: &str| RerankResult {
        index,
        score: num(score),
        document: text.to_string(),
    };
    let good = vec![entry(1, 0.9, "清除缓存"), entry(0, 0.2, "重置密码")];
    let accepted = accept_reranking(Ok(good), &documents).unwrap();
    assert_eq!(accepted[0].document, documents[1]);
    assert_eq!(accepted[1].document, documents[0]);

    for wrong in ["重置密码", "", "清除缓存 "] {
        assert_eq!(
            message_of(accept_reranking(Ok(vec![entry(1, 0.9, wrong)]), &documents)),
            ("rerank", "重排序结果的文档内容与所提交的文档不一致".to_string())
        );
    }
    assert_eq!(
        message_of(accept_reranking(Ok(vec![entry(2, 0.9, "清除缓存")]), &documents)).1,
        "重排序结果不是所提交文档的子集"
    );
    assert_eq!(
        message_of(accept_reranking(
            Ok(vec![entry(1, 0.1, "清除缓存"), entry(0, 0.9, "错")]),
            &documents
        ))
        .1,
        "重排序结果的文档内容与所提交的文档不一致"
    );
}

#[test]
fn responses_are_accepted_by_their_confidence() {
    let accepted = accept_response(Ok(response(0.25))).unwrap();
    assert_eq!(accepted.confidence, num(0.25));
    assert_eq!(accepted.content, "c");
    assert_eq!(accepted.reasoning, "r");
    assert_eq!(
        message_of(accept_response(Ok(response(1.25)))),
        ("llm", "置信度不在0到1之间".to_string())
    );
}

#[test]
fn a_batch_of_responses_answers_request_by_request() {
    assert_eq!(accept_response_batch(Ok(vec![response(0.0), response(1.0)]), 2).unwrap().len(), 2);
    assert_eq!(
        message_of(accept_response_batch(Ok(vec![response(0.0)]), 2)),
        ("llm", "批量生成结果与请求不一一对应".to_string())
    );
    assert_eq!(
        message_of(accept_response_batch(Ok(vec![response(0.0), response(-1.0)]), 2)).1,
        "置信度不在0到1之间"
    );
}

#[test]
fn vectors_of_candidates_are_as_long_as_the_query() {
    let with_vector = |n: u128, len: usize| {
        let mut c = candidate(n, 0.5);
        c.vector = Some(vec![num(0.0); len]);
        c
    };
    let found = vec![with_vector(1, 4), candidate(2, 0.5), with_vector(3, 4)];
    assert_eq!(accept_vectors(Ok(found.clone()), 4).unwrap().len(), 3);
    assert_eq!(
        message_of(accept_vectors(Ok(found), 3)),
        ("store", "检索结果的向量维度与查询向量不一致".to_string())
    );
    assert_eq!(
        message_of(accept_vectors(Ok(vec![with_vector(1, 0)]), 4)).1,
        "检索结果的向量维度与查询向量不一致"
    );
    assert!(accept_vectors(Ok(vec![candidate(1, 0.5)]), 0).is_ok());
    assert!(accept_vectors(Ok(vec![]), 7).unwrap().is_empty());
    is_the_failure(accept_vectors(Err(failure()), 4));
}
