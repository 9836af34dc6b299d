//! Solutions, the feedback on them, and what the pipeline hands back.

use vstd::prelude::*;
use uuid::Uuid;
use crate::clock::{now, Timestamp};
use crate::ids::new_id;
use crate::single::Single;

verus! {

/// A resolution suggested for a ticket.
#[derive(Debug, Clone)]
pub struct TicketSolution {
    pub id: Uuid,
    pub ticket_id: Uuid,
    pub solution: String,
    pub confidence: Single,
    pub reasoning: String,
    pub is_accepted: bool,
    pub created_at: Timestamp,
    pub feedback_score: Option<i32>,
    pub feedback_comment: Option<String>,
}

/// An earlier ticket that resembles the one being processed.
#[derive(Debug, Clone)]
pub struct SimilarTicket {
    pub ticket_id: Uuid,
    pub title: String,
    pub description: String,
    pub similarity_score: Single,
    pub rerank_score: Single,
    pub solution: Option<String>,
}

/// What the pipeline hands back for one ticket.
#[derive(Debug, Clone)]
pub struct ProcessResult {
    pub ticket_id: Uuid,
    pub similar_tickets: Vec<SimilarTicket>,
    pub suggested_solution: String,
    pub confidence: Single,
    pub reasoning: String,
    pub processing_time_ms: u64,
}

/// What a user says of a solution.
#[derive(Debug, Clone)]
pub struct Feedback {
    pub solution_id: Uuid,
    pub is_accepted: bool,
    pub score: Option<i32>,
    pub comment: Option<String>,
    pub created_at: Timestamp,
}

/// How many similar tickets a result shows at most.
pub const TOP_SIMILAR: usize = 10;

/// The rerank scores never rise along the list.
pub open spec fn rerank_scores_descend(similar: Seq<SimilarTicket>) -> bool {
    forall|i: int, j: int|
        0 <= i < j < similar.len() ==> (#[trigger] similar[j]).rerank_score.le(
            &(#[trigger] similar[i]).rerank_score,
        )
}

impl ProcessResult {
    /// What holds of every result of the pipeline: at most ten similar
    /// tickets, the best by rerank score first, and a confidence from zero to
    /// one.
    pub open spec fn wf(&self) -> bool {
        &&& self.similar_tickets@.len() <= TOP_SIMILAR
        &&& rerank_scores_descend(self.similar_tickets@)
        &&& self.confidence.in_unit_interval()
    }
}

/// In a well-formed result, no similar ticket has a higher rerank score
/// than the first.
pub proof fn lemma_first_similar_scores_highest(result: ProcessResult, i: int)
    requires
        result.wf(),
        0 < i < result.similar_tickets@.len(),
    ensures
        result.similar_tickets@[i].rerank_score.le(&result.similar_tickets@[0].rerank_score),
{
}

impl TicketSolution {
    /// The solution for `ticket_id` under the identifier `id`, made at the
    /// moment `made`: not accepted, and without feedback.
    pub fn with_identity(
        id: Uuid,
        made: Timestamp,
        ticket_id: Uuid,
        solution: String,
        confidence: Single,
        reasoning: String,
    ) -> (s: TicketSolution)
        ensures
            s == (TicketSolution {
                id,
                ticket_id,
                solution,
                confidence,
                reasoning,
                is_accepted: false,
                created_at: made,
                feedback_score: None,
                feedback_comment: None,
            }),
    {
        TicketSolution {
            id,
            ticket_id,
            solution,
            confidence,
            reasoning,
            is_accepted: false,
            created_at: made,
            feedback_score: None,
            feedback_comment: None,
        }
    }

    /// A solution for `ticket_id` with a fresh identifier, made at the
    /// present moment.
    pub fn new(ticket_id: Uuid, solution: String, confidence: Single, reasoning: String) -> (s:
        TicketSolution)
        ensures
            s == (TicketSolution {
                id: s.id,
                ticket_id,
                solution,
                confidence,
                reasoning,
                is_accepted: false,
                created_at: s.created_at,
                feedback_score: None,
                feedback_comment: None,
            }),
    {
        let made = now();
        TicketSolution::with_identity(new_id(), made, ticket_id, solution, confidence, reasoning)
    }

    /// Marks the solution as accepted; where feedback comes with it, its
    /// score and comment replace those of the solution.
    pub fn accept(&mut self, feedback: Option<Feedback>)
        ensures
            *final(self) == (match feedback {
                Some(given) => TicketSolution {
                    is_accepted: true,
                    feedback_score: given.score,
                    feedback_comment: given.comment,
                    ..*old(self)
                },
                None => TicketSolution { is_accepted: true, ..*old(self) },
            }),
    {
        self.is_accepted = true;
        if let Some(given) = feedback {
            self.feedback_score = given.score;
            self.feedback_comment = given.comment;
        }
    }
}

} // verus!
