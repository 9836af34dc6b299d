//! The steps that the processing of a ticket goes through.

use vstd::prelude::*;
use uuid::Uuid;
use crate::clock::Timestamp;

verus! {

/// How a workflow is doing.
#[derive(Debug, Clone, Copy, PartialEq, Eq, Structural)]
pub enum WorkflowStatus {
    Running,
    Paused,
    Completed,
    Failed,
}

/// The steps of processing a ticket, in their order.
#[derive(Debug, Clone, Copy, PartialEq, Eq, Structural)]
pub enum WorkflowStep {
    Embedding,
    VectorSearch,
    Reranking,
    LLMInference,
    ResultGeneration,
}

/// One run of the processing of one ticket.
#[derive(Debug, Clone)]
pub struct WorkflowInstance {
    pub id: Uuid,
    pub ticket_id: Uuid,
    pub status: WorkflowStatus,
    pub current_step: WorkflowStep,
    pub created_at: Timestamp,
}

impl WorkflowStep {
    /// The place of the step in the order of the steps, from zero.
    pub open spec fn position(self) -> nat {
        match self {
            WorkflowStep::Embedding => 0,
            WorkflowStep::VectorSearch => 1,
            WorkflowStep::Reranking => 2,
            WorkflowStep::LLMInference => 3,
            WorkflowStep::ResultGeneration => 4,
        }
    }

    /// The step that follows; none after the last.
    pub fn next(self) -> (following: Option<WorkflowStep>)
        ensures
            self == WorkflowStep::ResultGeneration <==> following is None,
            following matches Some(step) ==> step.position() == self.position() + 1,
    {
        match self {
            WorkflowStep::Embedding => Some(WorkflowStep::VectorSearch),
            WorkflowStep::VectorSearch => Some(WorkflowStep::Reranking),
            WorkflowStep::Reranking => Some(WorkflowStep::LLMInference),
            WorkflowStep::LLMInference => Some(WorkflowStep::ResultGeneration),
            WorkflowStep::ResultGeneration => None,
        }
    }
}

impl WorkflowInstance {
    /// Moves a running workflow on by one step; after the last step it is
    /// completed. A workflow that is not running stays as it is.
    pub fn advance(&mut self)
        ensures
            old(self).status != WorkflowStatus::Running ==> *final(self) == *old(self),
            old(self).status == WorkflowStatus::Running && old(self).current_step
                == WorkflowStep::ResultGeneration ==> *final(self) == (WorkflowInstance {
                status: WorkflowStatus::Completed,
                ..*old(self)
            }),
            old(self).status == WorkflowStatus::Running && old(self).current_step
                != WorkflowStep::ResultGeneration ==> final(self).status == WorkflowStatus::Running
                && final(self).current_step.position() == old(self).current_step.position() + 1
                && *final(self) == (WorkflowInstance {
                current_step: final(self).current_step,
                ..*old(self)
            }),
            final(self).current_step.position() >= old(self).current_step.position(),
    {
        match self.status {
            WorkflowStatus::Running => {
                match self.current_step.next() {
                    Some(step) => {
                        self.current_step = step;
                    },
                    None => {
                        self.status = WorkflowStatus::Completed;
                    },
                }
            },
            _ => {},
        }
    }
}

} // verus!
