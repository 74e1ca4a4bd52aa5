use vstd::prelude::*;

use crate::capability::{CapabilitySet, CapabilityView};
use crate::ids::AgentId;

verus! {

/// A point in wall-clock time, recorded when an agent is registered.
#[verifier::external_type_specification]
#[verifier::external_body]
pub struct ExSystemTime(std::time::SystemTime);

/// The kind of an agent.
#[derive(Debug, PartialEq, Eq, Hash)]
pub enum AgentType {
    CodeAgent,
    AnalysisAgent,
    TestAgent,
    DocAgent,
    SecurityAgent,
    CoordinatorAgent,
    Custom(String),
}

/// Mathematical value of an agent type.
pub ghost enum AgentTypeView {
    CodeAgent,
    AnalysisAgent,
    TestAgent,
    DocAgent,
    SecurityAgent,
    CoordinatorAgent,
    Custom(Seq<char>),
}

impl View for AgentType {
    type V = AgentTypeView;

    open spec fn view(&self) -> AgentTypeView {
        match self {
            AgentType::CodeAgent => AgentTypeView::CodeAgent,
            AgentType::AnalysisAgent => AgentTypeView::AnalysisAgent,
            AgentType::TestAgent => AgentTypeView::TestAgent,
            AgentType::DocAgent => AgentTypeView::DocAgent,
            AgentType::SecurityAgent => AgentTypeView::SecurityAgent,
            AgentType::CoordinatorAgent => AgentTypeView::CoordinatorAgent,
            AgentType::Custom(name) => AgentTypeView::Custom(name@),
        }
    }
}

/// The display text of an agent type.
pub open spec fn agent_type_text(t: AgentTypeView) -> Seq<char> {
    match t {
        AgentTypeView::CodeAgent => "code"@,
        AgentTypeView::AnalysisAgent => "analysis"@,
        AgentTypeView::TestAgent => "test"@,
        AgentTypeView::DocAgent => "doc"@,
        AgentTypeView::SecurityAgent => "security"@,
        AgentTypeView::CoordinatorAgent => "coordinator"@,
        AgentTypeView::Custom(name) => "custom:"@ + name,
    }
}

impl AgentType {
    /// Equality of agent types (custom types by name).
    pub fn same_as(&self, other: &AgentType) -> (r: bool)
        ensures
            r == (self@ == other@),
    {
        match (self, other) {
            (AgentType::CodeAgent, AgentType::CodeAgent) => true,
            (AgentType::AnalysisAgent, AgentType::AnalysisAgent) => true,
            (AgentType::TestAgent, AgentType::TestAgent) => true,
            (AgentType::DocAgent, AgentType::DocAgent) => true,
            (AgentType::SecurityAgent, AgentType::SecurityAgent) => true,
            (AgentType::CoordinatorAgent, AgentType::CoordinatorAgent) => true,
            (AgentType::Custom(a), AgentType::Custom(b)) => *a == *b,
            _ => false,
        }
    }

    /// The display text: "code", "analysis", "test", "doc", "security",
    /// "coordinator", or "custom:" followed by the custom name.
    pub fn to_string(&self) -> (r: String)
        ensures
            r@ == agent_type_text(self@),
    {
        match self {
            AgentType::CodeAgent => String::from_str("code"),
            AgentType::AnalysisAgent => String::from_str("analysis"),
            AgentType::TestAgent => String::from_str("test"),
            AgentType::DocAgent => String::from_str("doc"),
            AgentType::SecurityAgent => String::from_str("security"),
            AgentType::CoordinatorAgent => String::from_str("coordinator"),
            AgentType::Custom(name) => {
                let mut s = String::from_str("custom:");
                s.append(name.as_str());
                s
            },
        }
    }
}

impl Clone for AgentType {
    fn clone(&self) -> (r: Self)
        ensures
            r@ == self@,
    {
        match self {
            AgentType::CodeAgent => AgentType::CodeAgent,
            AgentType::AnalysisAgent => AgentType::AnalysisAgent,
            AgentType::TestAgent => AgentType::TestAgent,
            AgentType::DocAgent => AgentType::DocAgent,
            AgentType::SecurityAgent => AgentType::SecurityAgent,
            AgentType::CoordinatorAgent => AgentType::CoordinatorAgent,
            AgentType::Custom(name) => AgentType::Custom(name.clone()),
        }
    }
}

/// The health an agent reports.
#[derive(Debug, PartialEq, Eq)]
pub enum AgentHealth {
    Healthy,
    Degraded(String),
    Unhealthy(String),
}

/// Mathematical value of an agent's health.
pub ghost enum HealthView {
    Healthy,
    Degraded(Seq<char>),
    Unhealthy(Seq<char>),
}

impl View for AgentHealth {
    type V = HealthView;

    open spec fn view(&self) -> HealthView {
        match self {
            AgentHealth::Healthy => HealthView::Healthy,
            AgentHealth::Degraded(m) => HealthView::Degraded(m@),
            AgentHealth::Unhealthy(m) => HealthView::Unhealthy(m@),
        }
    }
}

impl AgentHealth {
    /// Whether the agent is healthy.
    pub fn is_healthy(&self) -> (r: bool)
        ensures
            r == (self@ is Healthy),
    {
        match self {
            AgentHealth::Healthy => true,
            _ => false,
        }
    }

    /// Whether the agent is degraded.
    pub fn is_degraded(&self) -> (r: bool)
        ensures
            r == (self@ is Degraded),
    {
        match self {
            AgentHealth::Degraded(_) => true,
            _ => false,
        }
    }

    /// Whether the agent is unhealthy.
    pub fn is_unhealthy(&self) -> (r: bool)
        ensures
            r == (self@ is Unhealthy),
    {
        match self {
            AgentHealth::Unhealthy(_) => true,
            _ => false,
        }
    }
}

impl Clone for AgentHealth {
    fn clone(&self) -> (r: Self)
        ensures
            r@ == self@,
    {
        match self {
            AgentHealth::Healthy => AgentHealth::Healthy,
            AgentHealth::Degraded(m) => AgentHealth::Degraded(m.clone()),
            AgentHealth::Unhealthy(m) => AgentHealth::Unhealthy(m.clone()),
        }
    }
}

/// What the registry records of an agent.
#[derive(Debug)]
pub struct AgentInfo {
    pub id: AgentId,
    pub agent_type: AgentType,
    pub name: String,
    pub description: String,
    pub capabilities: CapabilitySet,
    pub health: AgentHealth,
    pub version: String,
    pub created_at: std::time::SystemTime,
}

/// Mathematical value of an agent record.
pub ghost struct AgentInfoView {
    pub id: AgentId,
    pub agent_type: AgentTypeView,
    pub name: Seq<char>,
    pub description: Seq<char>,
    pub capabilities: Seq<CapabilityView>,
    pub health: HealthView,
    pub version: Seq<char>,
    pub created_at: std::time::SystemTime,
}

impl View for AgentInfo {
    type V = AgentInfoView;

    open spec fn view(&self) -> AgentInfoView {
        AgentInfoView {
            id: self.id,
            agent_type: self.agent_type@,
            name: self.name@,
            description: self.description@,
            capabilities: self.capabilities@,
            health: self.health@,
            version: self.version@,
            created_at: self.created_at,
        }
    }
}

/// The version recorded for every agent.
pub open spec fn agent_version() -> Seq<char> {
    "1.0.0"@
}

impl AgentInfo {
    /// The record of a newly registered agent: healthy, version "1.0.0",
    /// created at `created_at`.
    pub fn new(
        id: AgentId,
        agent_type: AgentType,
        name: &str,
        description: &str,
        capabilities: &CapabilitySet,
        created_at: std::time::SystemTime,
    ) -> (info: AgentInfo)
        ensures
            info.id == id,
            info@.agent_type == agent_type@,
            info@.name == name@,
            info@.description == description@,
            info@.capabilities == capabilities@,
            info@.health is Healthy,
            info@.version == agent_version(),
            info.created_at == created_at,
    {
        AgentInfo {
            id,
            agent_type,
            name: String::from_str(name),
            description: String::from_str(description),
            capabilities: capabilities.clone(),
            health: AgentHealth::Healthy,
            version: String::from_str("1.0.0"),
            created_at,
        }
    }
}

impl Clone for AgentInfo {
    fn clone(&self) -> (r: Self)
        ensures
            r@ == self@,
    {
        AgentInfo {
            id: self.id,
            agent_type: self.agent_type.clone(),
            name: self.name.clone(),
            description: self.description.clone(),
            capabilities: self.capabilities.clone(),
            health: self.health.clone(),
            version: self.version.clone(),
            created_at: self.created_at,
        }
    }
}

} // verus!
