use vstd::prelude::*;

use crate::ids::{id_text, uuid_text, AgentId};

verus! {

/// Errors of the agent core.
#[derive(Debug)]
pub enum AgentError {
    AgentNotFound(String),
    TaskExecutionFailed(String),
    InvalidTaskConfig(String),
    CapabilityMismatch { required: String, available: Vec<String> },
    CoordinationError(String),
    SchedulingError(String),
    SerializationError(String),
    IoError(String),
    Internal(String),
}

/// Whether `e` reports that the agent with id `id` is not registered.
pub open spec fn is_agent_not_found(e: AgentError, id: AgentId) -> bool {
    e matches AgentError::AgentNotFound(m) && m@ == uuid_text(id)
}

impl AgentError {
    /// The error for an agent id that is not registered; it carries the id's text.
    pub fn agent_not_found(id: AgentId) -> (e: AgentError)
        ensures
            is_agent_not_found(e, id),
    {
        AgentError::AgentNotFound(id_text(id))
    }
}

} // verus!
