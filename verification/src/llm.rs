//! The generation provider: a ticket and ranked context in, a suggested
//! resolution out.

use vstd::prelude::*;
use crate::embedding::ModelInfo;
use crate::errors::{AppError, ErrorView};
use crate::reranking::RerankResult;
use crate::single::{clamp_to_unit, Single};
use crate::ticket::Ticket;

verus! {

/// How many tokens a call took.
#[derive(Debug, Clone)]
pub struct TokenUsage {
    pub prompt_tokens: u32,
    pub completion_tokens: u32,
    pub total_tokens: u32,
}

/// What the model suggests, how sure it is, and why.
#[derive(Debug, Clone)]
pub struct LLMResponse {
    pub content: String,
    pub confidence: Single,
    pub reasoning: String,
    pub token_usage: Option<TokenUsage>,
}

/// Suggests resolutions.
///
/// `generate_solution` answers with a confidence from zero to one;
/// `generate_solutions_batch` answers with one response for each request, in
/// the order of the requests. `health_check` reports trouble as `Ok(false)`
/// or as an error; callers read both as "unhealthy".
///
/// None of this is taken on trust: [`checked_generate`],
/// [`checked_generate_batch`] and [`checked_chat`] test each answer before
/// they hand it on. A provider that builds its answers with
/// [`LLMResponse::new`] passes that test.
pub trait LLMService {
    fn generate_solution(&self, ticket: &Ticket, similar_cases: &[RerankResult]) -> Result<
        LLMResponse,
        AppError,
    >;

    fn generate_solutions_batch(&self, requests: &[(Ticket, Vec<RerankResult>)]) -> Result<
        Vec<LLMResponse>,
        AppError,
    >;

    fn chat(&self, prompt: &str) -> Result<LLMResponse, AppError>;

    fn model_info(&self) -> ModelInfo;

    fn health_check(&self) -> Result<bool, AppError>;
}

/// A response is valid when its confidence lies from zero to one.
pub open spec fn valid_response(response: LLMResponse) -> bool {
    response.confidence.in_unit_interval()
}

/// The error that stands for a confidence outside of zero to one.
pub open spec fn confidence_out_of_range() -> ErrorView {
    ErrorView::LLMService { message: "置信度不在0到1之间"@ }
}

impl LLMResponse {
    /// The response with the given parts, its confidence moved into the
    /// range from zero to one: what is not a number, or below zero, becomes
    /// zero, and what is above one becomes one.
    pub fn new(
        content: String,
        confidence: Single,
        reasoning: String,
        token_usage: Option<TokenUsage>,
    ) -> (response: LLMResponse)
        ensures
            response == (LLMResponse {
                content,
                confidence: Single { bits: clamp_to_unit(confidence.bits) },
                reasoning,
                token_usage,
            }),
            valid_response(response),
    {
        LLMResponse { content, confidence: confidence.clamped_to_unit(), reasoning, token_usage }
    }
}

/// Accepts `response` as the answer of a generation provider, or says why
/// not.
pub fn check_response(response: &LLMResponse) -> (r: Result<(), AppError>)
    ensures
        r is Ok <==> valid_response(*response),
        r matches Err(e) ==> e@ == confidence_out_of_range(),
{
    if response.confidence.is_in_unit_interval() {
        Ok(())
    } else {
        Err(AppError::LLMService { message: "置信度不在0到1之间".to_owned() })
    }
}

/// Whether `r` is what becomes of the answer of a generation provider: its
/// failure is handed on as it came, its response is handed on untouched if
/// it is valid, and a response with a confidence outside of zero to one is an
/// error of the generation service.
pub open spec fn response_accepted(
    answer: Result<LLMResponse, AppError>,
    r: Result<LLMResponse, AppError>,
) -> bool {
    match answer {
        Err(failure) => r == Err::<LLMResponse, AppError>(failure),
        Ok(response) => if valid_response(response) {
            r == Ok::<LLMResponse, AppError>(response)
        } else {
            r matches Err(e) && e@ == confidence_out_of_range()
        },
    }
}

/// What becomes of the answer of a generation provider, as
/// [`response_accepted`] says.
pub fn accept_response(answer: Result<LLMResponse, AppError>) -> (r: Result<LLMResponse, AppError>)
    ensures
        response_accepted(answer, r),
{
    match answer {
        Ok(response) => match check_response(&response) {
            Ok(()) => Ok(response),
            Err(e) => Err(e),
        },
        Err(failure) => Err(failure),
    }
}

/// The answer to a batch of `requests` requests is valid when it holds one
/// valid response for each request.
pub open spec fn valid_response_batch(responses: Seq<LLMResponse>, requests: nat) -> bool {
    responses.len() == requests && forall|i: int|
        0 <= i < responses.len() ==> valid_response(#[trigger] responses[i])
}

/// The error that stands for a batch that does not answer request by
/// request.
pub open spec fn response_batch_mismatch() -> ErrorView {
    ErrorView::LLMService { message: "批量生成结果与请求不一一对应"@ }
}

/// Whether `r` is what becomes of the answer of a generation provider to a
/// batch of `requests` requests: its failure is handed on as it came, its
/// responses are handed on if there is one valid response for each request,
/// and anything else is an error of the generation service.
pub open spec fn response_batch_accepted(
    answer: Result<Vec<LLMResponse>, AppError>,
    requests: nat,
    r: Result<Vec<LLMResponse>, AppError>,
) -> bool {
    match answer {
        Err(failure) => r == Err::<Vec<LLMResponse>, AppError>(failure),
        Ok(responses) => if valid_response_batch(responses@, requests) {
            r == Ok::<Vec<LLMResponse>, AppError>(responses)
        } else {
            r matches Err(e) && e@ == (if responses@.len() == requests {
                confidence_out_of_range()
            } else {
                response_batch_mismatch()
            })
        },
    }
}

/// What becomes of the answer of a generation provider to a batch of
/// `requests` requests, as [`response_batch_accepted`] says.
pub fn accept_response_batch(answer: Result<Vec<LLMResponse>, AppError>, requests: usize) -> (r:
    Result<Vec<LLMResponse>, AppError>)
    ensures
        response_batch_accepted(answer, requests as nat, r),
{
    match answer {
        Err(failure) => Err(failure),
        Ok(responses) => {
            if responses.len() != requests {
                return Err(
                    AppError::LLMService { message: "批量生成结果与请求不一一对应".to_owned() },
                );
            }
            let mut i: usize = 0;
            while i < responses.len()
                invariant
                    i <= responses.len(),
                    answer == Ok::<Vec<LLMResponse>, AppError>(responses),
                    responses@.len() == requests,
                    forall|k: int| 0 <= k < i ==> valid_response(#[trigger] responses@[k]),
                decreases responses.len() - i,
            {
                match check_response(&responses[i]) {
                    Ok(()) => {},
                    Err(e) => {
                        assert(!valid_response(responses@[i as int]));
                        return Err(e);
                    },
                }
                i = i + 1;
            }
            Ok(responses)
        },
    }
}

/// Whether `r` is what comes of letting `service` suggest a resolution for
/// `ticket` from `similar_cases`: the provider was handed that ticket and
/// those cases, and `r` is what becomes of its answer, as
/// [`response_accepted`] says.
pub open spec fn generate_outcome<L: LLMService>(
    service: &L,
    ticket: &Ticket,
    similar_cases: Seq<RerankResult>,
    r: Result<LLMResponse, AppError>,
) -> bool {
    exists|handed: &[RerankResult], answer: Result<LLMResponse, AppError>|
        handed@ == similar_cases && #[trigger] call_ensures(
            L::generate_solution,
            (service, ticket, handed),
            answer,
        ) && response_accepted(answer, r)
}

/// Whether `r` is what comes of letting `service` suggest a resolution for
/// each request: the provider was handed those requests, and `r` is what
/// becomes of its answer, as [`response_batch_accepted`] says.
pub open spec fn generate_batch_outcome<L: LLMService>(
    service: &L,
    requests: &[(Ticket, Vec<RerankResult>)],
    r: Result<Vec<LLMResponse>, AppError>,
) -> bool {
    exists|answer: Result<Vec<LLMResponse>, AppError>| #[trigger]
        call_ensures(L::generate_solutions_batch, (service, requests), answer)
            && response_batch_accepted(answer, requests@.len(), r)
}

/// Whether `r` is what comes of asking `service` the free question
/// `prompt`: the provider was handed that prompt, and `r` is what becomes of
/// its answer, as [`response_accepted`] says.
pub open spec fn chat_outcome<L: LLMService>(
    service: &L,
    prompt: Seq<char>,
    r: Result<LLMResponse, AppError>,
) -> bool {
    exists|handed: &str, answer: Result<LLMResponse, AppError>|
        handed@ == prompt && #[trigger] call_ensures(L::chat, (service, handed), answer)
            && response_accepted(answer, r)
}

/// Lets `service` suggest a resolution and accepts only an answer that
/// keeps the contract.
pub fn checked_generate<L: LLMService>(
    service: &L,
    ticket: &Ticket,
    similar_cases: &[RerankResult],
) -> (r: Result<LLMResponse, AppError>)
    ensures
        generate_outcome(service, ticket, similar_cases@, r),
        r matches Ok(response) ==> valid_response(response),
{
    let answer = service.generate_solution(ticket, similar_cases);
    accept_response(answer)
}

/// Lets `service` suggest a resolution for each request and accepts only an
/// answer that keeps the contract.
pub fn checked_generate_batch<L: LLMService>(
    service: &L,
    requests: &[(Ticket, Vec<RerankResult>)],
) -> (r: Result<Vec<LLMResponse>, AppError>)
    ensures
        generate_batch_outcome(service, requests, r),
        r matches Ok(responses) ==> valid_response_batch(responses@, requests@.len()),
{
    let answer = service.generate_solutions_batch(requests);
    accept_response_batch(answer, requests.len())
}

/// Asks `service` the free question `prompt` and accepts only an answer
/// that keeps the contract.
pub fn checked_chat<L: LLMService>(service: &L, prompt: &str) -> (r: Result<LLMResponse, AppError>)
    ensures
        chat_outcome(service, prompt@, r),
        r matches Ok(response) ==> valid_response(response),
{
    let answer = service.chat(prompt);
    accept_response(answer)
}

} // verus!
