//! The embedding provider: text in, a vector of fixed length out.

use vstd::prelude::*;
use crate::errors::{AppError, ErrorView};
use crate::single::Single;

verus! {

/// What every provider says of the model behind it.
#[derive(Debug, Clone)]
pub struct ModelInfo {
    pub name: String,
    pub version: String,
    pub provider: String,
    pub max_tokens: usize,
    pub cost_per_call: Option<Single>,
}

/// Turns text into vectors.
///
/// `embed` answers with one vector of `dimension()` numbers or fails;
/// `embed_batch` answers with one vector for each text, in the order of the
/// texts, or fails as a whole. `dimension` is fixed and known without a round
/// trip. `health_check` reports trouble as `Ok(false)` or as an error;
/// callers read both as "unhealthy".
///
/// None of this is taken on trust: [`checked_embed`] and
/// [`checked_embed_batch`] test each answer before they hand it on.
pub trait EmbeddingService {
    fn embed(&self, text: &str) -> Result<Vec<Single>, AppError>;

    fn embed_batch(&self, texts: &[String]) -> Result<Vec<Vec<Single>>, AppError>;

    fn dimension(&self) -> usize;

    fn model_info(&self) -> ModelInfo;

    fn health_check(&self) -> Result<bool, AppError>;
}

/// An embedding is valid for a provider of the given dimension when it is
/// not empty and has exactly that many numbers.
pub open spec fn valid_embedding(vector: Seq<Single>, dimension: nat) -> bool {
    vector.len() > 0 && vector.len() == dimension
}

/// The error that stands for an embedding of the wrong length.
pub open spec fn embedding_mismatch() -> ErrorView {
    ErrorView::EmbeddingService { message: "嵌入向量的维度与服务声明的维度不一致"@ }
}

/// Accepts `vector` as the answer of a provider of the given dimension, or
/// says why not.
pub fn check_embedding(vector: &Vec<Single>, dimension: usize) -> (r: Result<(), AppError>)
    ensures
        r is Ok <==> valid_embedding(vector@, dimension as nat),
        r matches Err(e) ==> e@ == embedding_mismatch(),
{
    if vector.len() > 0 && vector.len() == dimension {
        Ok(())
    } else {
        Err(
            AppError::EmbeddingService {
                message: "嵌入向量的维度与服务声明的维度不一致".to_owned(),
            },
        )
    }
}

/// Whether `r` is what becomes of the answer of an embedding provider of
/// the given dimension: its failure is handed on as it came, its vector is
/// handed on if it is valid, and any other vector is an error of the
/// embedding service.
pub open spec fn embedding_accepted(
    answer: Result<Vec<Single>, AppError>,
    dimension: nat,
    r: Result<Vec<Single>, AppError>,
) -> bool {
    match answer {
        Err(failure) => r == Err::<Vec<Single>, AppError>(failure),
        Ok(vector) => if valid_embedding(vector@, dimension) {
            r == Ok::<Vec<Single>, AppError>(vector)
        } else {
            r matches Err(e) && e@ == embedding_mismatch()
        },
    }
}

/// What becomes of the answer of an embedding provider of the given
/// dimension, as [`embedding_accepted`] says.
pub fn accept_embedding(answer: Result<Vec<Single>, AppError>, dimension: usize) -> (r: Result<
    Vec<Single>,
    AppError,
>)
    ensures
        embedding_accepted(answer, dimension as nat, r),
{
    match answer {
        Ok(vector) => match check_embedding(&vector, dimension) {
            Ok(()) => Ok(vector),
            Err(e) => Err(e),
        },
        Err(failure) => Err(failure),
    }
}

/// The answer to a batch of `texts` texts is valid when it holds one valid
/// embedding for each text.
pub open spec fn valid_embedding_batch(vectors: Seq<Vec<Single>>, texts: nat, dimension: nat) -> bool {
    vectors.len() == texts && forall|i: int|
        0 <= i < vectors.len() ==> valid_embedding((#[trigger] vectors[i])@, dimension)
}

/// The error that stands for a batch that does not answer text by text.
pub open spec fn embedding_batch_mismatch() -> ErrorView {
    ErrorView::EmbeddingService { message: "批量嵌入结果与输入文本不一一对应"@ }
}

/// Whether `r` is what becomes of the answer of an embedding provider to a
/// batch of `texts` texts: its failure is handed on as it came, its vectors
/// are handed on if there is one valid vector for each text, and anything
/// else is an error of the embedding service, for the batch as a whole.
pub open spec fn embedding_batch_accepted(
    answer: Result<Vec<Vec<Single>>, AppError>,
    texts: nat,
    dimension: nat,
    r: Result<Vec<Vec<Single>>, AppError>,
) -> bool {
    match answer {
        Err(failure) => r == Err::<Vec<Vec<Single>>, AppError>(failure),
        Ok(vectors) => if valid_embedding_batch(vectors@, texts, dimension) {
            r == Ok::<Vec<Vec<Single>>, AppError>(vectors)
        } else {
            r matches Err(e) && e@ == (if vectors@.len() == texts {
                embedding_mismatch()
            } else {
                embedding_batch_mismatch()
            })
        },
    }
}

/// What becomes of the answer of an embedding provider to a batch of
/// `texts` texts, as [`embedding_batch_accepted`] says.
pub fn accept_embedding_batch(
    answer: Result<Vec<Vec<Single>>, AppError>,
    texts: usize,
    dimension: usize,
) -> (r: Result<Vec<Vec<Single>>, AppError>)
    ensures
        embedding_batch_accepted(answer, texts as nat, dimension as nat, r),
{
    match answer {
        Err(failure) => Err(failure),
        Ok(vectors) => {
            if vectors.len() != texts {
                return Err(
                    AppError::EmbeddingService {
                        message: "批量嵌入结果与输入文本不一一对应".to_owned(),
                    },
                );
            }
            let mut i: usize = 0;
            while i < vectors.len()
                invariant
                    i <= vectors.len(),
                    answer == Ok::<Vec<Vec<Single>>, AppError>(vectors),
                    vectors@.len() == texts,
                    forall|k: int|
                        0 <= k < i ==> valid_embedding((#[trigger] vectors@[k])@, dimension as nat),
                decreases vectors.len() - i,
            {
                match check_embedding(&vectors[i], dimension) {
                    Ok(()) => {},
                    Err(e) => {
                        assert(!valid_embedding(vectors@[i as int]@, dimension as nat));
                        return Err(e);
                    },
                }
                i = i + 1;
            }
            Ok(vectors)
        },
    }
}

/// Whether `r` is what comes of asking `service` for the embedding of
/// `text`: the provider was handed that text and was asked for its
/// dimension, and `r` is what becomes of its answer, as
/// [`embedding_accepted`] says.
pub open spec fn embed_outcome<E: EmbeddingService>(
    service: &E,
    text: Seq<char>,
    r: Result<Vec<Single>, AppError>,
) -> bool {
    exists|handed: &str, answer: Result<Vec<Single>, AppError>, dimension: usize|
        handed@ == text && #[trigger] call_ensures(E::embed, (service, handed), answer)
            && #[trigger] call_ensures(E::dimension, (service,), dimension) && embedding_accepted(
            answer,
            dimension as nat,
            r,
        )
}

/// Whether `r` is what comes of asking `service` for the embeddings of
/// `texts`: the provider was handed those texts and was asked for its
/// dimension, and `r` is what becomes of its answer, as
/// [`embedding_batch_accepted`] says.
pub open spec fn embed_batch_outcome<E: EmbeddingService>(
    service: &E,
    texts: &[String],
    r: Result<Vec<Vec<Single>>, AppError>,
) -> bool {
    exists|answer: Result<Vec<Vec<Single>>, AppError>, dimension: usize| #[trigger]
        call_ensures(E::embed_batch, (service, texts), answer) && #[trigger] call_ensures(
            E::dimension,
            (service,),
            dimension,
        ) && embedding_batch_accepted(answer, texts@.len(), dimension as nat, r)
}

/// Asks `service` for the embedding of `text` and accepts only an answer
/// that keeps the contract.
pub fn checked_embed<E: EmbeddingService>(service: &E, text: &str) -> (r: Result<
    Vec<Single>,
    AppError,
>)
    ensures
        embed_outcome(service, text@, r),
        r matches Ok(vector) ==> exists|dimension: nat| valid_embedding(vector@, dimension),
{
    let answer = service.embed(text);
    let dimension = service.dimension();
    accept_embedding(answer, dimension)
}

/// Asks `service` for the embeddings of `texts` and accepts only an answer
/// that keeps the contract.
pub fn checked_embed_batch<E: EmbeddingService>(service: &E, texts: &[String]) -> (r: Result<
    Vec<Vec<Single>>,
    AppError,
>)
    ensures
        embed_batch_outcome(service, texts, r),
        r matches Ok(vectors) ==> exists|dimension: nat|
            valid_embedding_batch(vectors@, texts@.len(), dimension),
{
    let answer = service.embed_batch(texts);
    let dimension = service.dimension();
    accept_embedding_batch(answer, texts.len(), dimension)
}

} // verus!
