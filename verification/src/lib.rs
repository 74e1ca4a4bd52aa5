//! Agent coordination core: capabilities, tasks, a dependency-aware
//! priority scheduler, an agent registry, the coordinator that matches
//! scheduled tasks to agents, and the built-in agents.

pub mod agent;
pub mod agents;
pub mod capability;
pub mod coordinator;
pub mod error;
pub mod ids;
pub mod laws;
pub mod manager;
pub mod scheduler;
pub mod standalone;
pub mod task;
pub mod text_map;

pub use agent::{AgentHealth, AgentInfo, AgentType};
pub use agents::{AnalysisAgent, CodeAgent, TestAgent};
pub use capability::{Capability, CapabilityParameter, CapabilitySet, ParameterType};
pub use coordinator::{Coordinator, Dispatch, ExecutionStrategy, HealthCheckResult, SystemStats, TaskExecutionStatus};
pub use error::AgentError;
pub use ids::{AgentId, TaskId};
pub use manager::AgentManager;
pub use scheduler::{SchedulerStats, TaskScheduler};
pub use task::{ParamValue, Priority, Task, TaskResult, TaskStatus};
