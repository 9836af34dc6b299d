//! The rules that requests, solutions and provider settings have to meet.

use vstd::prelude::*;
use crate::config::EmbeddingConfig;
use crate::errors::{AppError, ErrorView};
use crate::solution::TicketSolution;
use crate::text::{blank, has_prefix, is_blank, starts_with, utf8_len};
use crate::ticket::{NewTicket, TicketStatus};

verus! {

/// The longest title, in bytes.
pub const MAX_TITLE_BYTES: usize = 200;

/// The longest description, in bytes.
pub const MAX_DESCRIPTION_BYTES: usize = 5000;

/// The most tags that a ticket may carry.
pub const MAX_TAGS: usize = 10;

/// The longest tag, in bytes.
pub const MAX_TAG_BYTES: usize = 50;

/// The longest solution, in bytes.
pub const MAX_SOLUTION_BYTES: usize = 10000;

/// The largest dimension of an embedding.
pub const MAX_DIMENSION: usize = 4096;

/// A broken rule: the field, and what is wrong with it.
pub struct Violation {
    pub field: Seq<char>,
    pub message: Seq<char>,
}

impl Violation {
    /// The error that reports the violation.
    pub open spec fn error(self) -> ErrorView {
        ErrorView::Validation { field: self.field, message: self.message }
    }
}

/// Whether a priority, or a feedback score, lies on the scale from one to
/// five.
pub open spec fn on_scale(value: i32) -> bool {
    1 <= value <= 5
}

/// Whether some tag is longer than a tag may be.
pub open spec fn some_tag_too_long(tags: Seq<String>) -> bool {
    exists|i: int| 0 <= i < tags.len() && utf8_len((#[trigger] tags[i])@) > MAX_TAG_BYTES
}

/// The first rule that a request for a new ticket breaks; none where it
/// keeps them all. The rules, in their order: the title is not blank and no
/// longer than 200 bytes; the description is not blank and no longer than
/// 5000 bytes; the category is not blank; the priority is on the scale; there
/// are no more than ten tags, and none is longer than 50 bytes.
pub open spec fn new_ticket_violation(request: NewTicket) -> Option<Violation> {
    if blank(request.title@) {
        Some(Violation { field: "title"@, message: "工单标题不能为空"@ })
    } else if utf8_len(request.title@) > MAX_TITLE_BYTES {
        Some(Violation { field: "title"@, message: "工单标题不能超过200字符"@ })
    } else if blank(request.description@) {
        Some(Violation { field: "description"@, message: "工单描述不能为空"@ })
    } else if utf8_len(request.description@) > MAX_DESCRIPTION_BYTES {
        Some(Violation { field: "description"@, message: "工单描述不能超过5000字符"@ })
    } else if blank(request.category@) {
        Some(Violation { field: "category"@, message: "工单分类不能为空"@ })
    } else if !on_scale(request.priority) {
        Some(Violation { field: "priority"@, message: "优先级必须在1-5之间"@ })
    } else if request.tags@.len() > MAX_TAGS {
        Some(Violation { field: "tags"@, message: "标签数量不能超过10个"@ })
    } else if some_tag_too_long(request.tags@) {
        Some(Violation { field: "tags"@, message: "单个标签不能超过50字符"@ })
    } else {
        None
    }
}

/// The first rule that a solution breaks; none where it keeps them all. The
/// rules, in their order: the text is not blank and no longer than 10000
/// bytes; the confidence lies from zero to one; a feedback score, where
/// there is one, is on the scale.
pub open spec fn solution_violation(solution: TicketSolution) -> Option<Violation> {
    if blank(solution.solution@) {
        Some(Violation { field: "solution"@, message: "解决方案内容不能为空"@ })
    } else if utf8_len(solution.solution@) > MAX_SOLUTION_BYTES {
        Some(Violation { field: "solution"@, message: "解决方案内容不能超过10000字符"@ })
    } else if !solution.confidence.in_unit_interval() {
        Some(Violation { field: "confidence"@, message: "置信度必须在0-1之间"@ })
    } else if solution.feedback_score matches Some(score) && !on_scale(score) {
        Some(Violation { field: "feedback_score"@, message: "反馈评分必须在1-5之间"@ })
    } else {
        None
    }
}

/// The first rule that the settings of a provider break; none where they
/// keep them all. The rules, in their order: the key is not blank; the
/// endpoint is not blank and begins with `http://` or `https://`; the
/// dimension lies from 1 to 4096.
pub open spec fn api_config_violation(config: EmbeddingConfig) -> Option<Violation> {
    if blank(config.api_key@) {
        Some(Violation { field: "api_key"@, message: "API密钥不能为空"@ })
    } else if blank(config.endpoint@) {
        Some(Violation { field: "endpoint"@, message: "API端点不能为空"@ })
    } else if !has_prefix(config.endpoint@, "http://"@) && !has_prefix(
        config.endpoint@,
        "https://"@,
    ) {
        Some(Violation { field: "endpoint"@, message: "API端点必须是有效的HTTP(S) URL"@ })
    } else if config.dimension == 0 || config.dimension > MAX_DIMENSION {
        Some(Violation { field: "dimension"@, message: "向量维度必须在1-4096之间"@ })
    } else {
        None
    }
}

/// Whether the result of a check says what `violation` says.
pub open spec fn reports(r: Result<(), AppError>, violation: Option<Violation>) -> bool {
    match violation {
        None => r is Ok,
        Some(broken) => r matches Err(e) && e@ == broken.error(),
    }
}

/// The number of bytes of `s`.
fn byte_len(s: &str) -> (n: usize)
    ensures
        n == utf8_len(s@),
{
    s.as_bytes().len()
}

/// Whether some tag is longer than a tag may be.
fn any_tag_too_long(tags: &Vec<String>) -> (b: bool)
    ensures
        b == some_tag_too_long(tags@),
{
    let mut i: usize = 0;
    while i < tags.len()
        invariant
            i <= tags.len(),
            forall|k: int| 0 <= k < i ==> utf8_len((#[trigger] tags@[k])@) <= MAX_TAG_BYTES,
        decreases tags.len() - i,
    {
        if byte_len(tags[i].as_str()) > MAX_TAG_BYTES {
            assert(utf8_len(tags@[i as int]@) > MAX_TAG_BYTES);
            return true;
        }
        i = i + 1;
    }
    false
}

/// The changes that a caller asks for on a ticket; what is `None` stays.
#[derive(Debug, Clone)]
pub struct TicketUpdate {
    pub title: Option<String>,
    pub description: Option<String>,
    pub status: Option<TicketStatus>,
    pub priority: Option<i32>,
    pub tags: Option<Vec<String>>,
}

/// The rules on tickets.
pub struct TicketValidator;

impl TicketValidator {
    /// Checks a request for a new ticket, and reports the first rule it
    /// breaks.
    pub fn validate_new_ticket(request: &NewTicket) -> (r: Result<(), AppError>)
        ensures
            reports(r, new_ticket_violation(*request)),
    {
        if is_blank(request.title.as_str()) {
            return Err(AppError::validation("title", "工单标题不能为空"));
        }
        if byte_len(request.title.as_str()) > MAX_TITLE_BYTES {
            return Err(AppError::validation("title", "工单标题不能超过200字符"));
        }
        if is_blank(request.description.as_str()) {
            return Err(AppError::validation("description", "工单描述不能为空"));
        }
        if byte_len(request.description.as_str()) > MAX_DESCRIPTION_BYTES {
            return Err(AppError::validation("description", "工单描述不能超过5000字符"));
        }
        if is_blank(request.category.as_str()) {
            return Err(AppError::validation("category", "工单分类不能为空"));
        }
        if !(1 <= request.priority && request.priority <= 5) {
            return Err(AppError::validation("priority", "优先级必须在1-5之间"));
        }
        if request.tags.len() > MAX_TAGS {
            return Err(AppError::validation("tags", "标签数量不能超过10个"));
        }
        if any_tag_too_long(&request.tags) {
            return Err(AppError::validation("tags", "单个标签不能超过50字符"));
        }
        Ok(())
    }
}

/// The rules on solutions.
pub struct SolutionValidator;

impl SolutionValidator {
    /// Checks a solution, and reports the first rule it breaks.
    pub fn validate_solution(solution: &TicketSolution) -> (r: Result<(), AppError>)
        ensures
            reports(r, solution_violation(*solution)),
    {
        if is_blank(solution.solution.as_str()) {
            return Err(AppError::validation("solution", "解决方案内容不能为空"));
        }
        if byte_len(solution.solution.as_str()) > MAX_SOLUTION_BYTES {
            return Err(AppError::validation("solution", "解决方案内容不能超过10000字符"));
        }
        if !solution.confidence.is_in_unit_interval() {
            return Err(AppError::validation("confidence", "置信度必须在0-1之间"));
        }
        if let Some(score) = solution.feedback_score {
            if !(1 <= score && score <= 5) {
                return Err(AppError::validation("feedback_score", "反馈评分必须在1-5之间"));
            }
        }
        Ok(())
    }
}

/// The rules on the settings of a provider.
pub struct ConfigValidator;

impl ConfigValidator {
    /// Checks the settings of a provider, and reports the first rule they
    /// break.
    pub fn validate_api_config(config: &EmbeddingConfig) -> (r: Result<(), AppError>)
        ensures
            reports(r, api_config_violation(*config)),
    {
        if is_blank(config.api_key.as_str()) {
            return Err(AppError::validation("api_key", "API密钥不能为空"));
        }
        if is_blank(config.endpoint.as_str()) {
            return Err(AppError::validation("endpoint", "API端点不能为空"));
        }
        if !starts_with(config.endpoint.as_str(), "http://") && !starts_with(
            config.endpoint.as_str(),
            "https://",
        ) {
            return Err(AppError::validation("endpoint", "API端点必须是有效的HTTP(S) URL"));
        }
        if config.dimension == 0 || config.dimension > MAX_DIMENSION {
            return Err(AppError::validation("dimension", "向量维度必须在1-4096之间"));
        }
        Ok(())
    }
}

} // verus!
