use codex_agent_core::agent::{AgentHealth, AgentInfo, AgentType};
use codex_agent_core::capability::{Capability, CapabilitySet};
use codex_agent_core::error::AgentError;
use codex_agent_core::ids::AgentId;
use codex_agent_core::task::Task;

fn id_text(id: u128) -> String {
    uuid::Uuid::from_u128(id).to_string()
}

fn new_id() -> u128 {
    Task::new("id", "fresh id").id
}
use codex_agent_core::manager::AgentManager;

fn test_agent_info(name: &str) -> AgentInfo {
    let mut capabilities = CapabilitySet::new();
    capabilities.add(Capability::new("test_capability"));
    AgentInfo::new(
        new_id(),
        AgentType::Custom("test".to_string()),
        name,
        "Test agent for unit tests",
        &capabilities,
        std::time::SystemTime::UNIX_EPOCH,
    )
}

fn info_with(id: AgentId, agent_type: AgentType, caps: &[&str]) -> AgentInfo {
    let mut capabilities = CapabilitySet::new();
    for c in caps {
        capabilities.add(Capability::new(c));
    }
    AgentInfo::new(id, agent_type, "agent", "an agent", &capabilities, std::time::SystemTime::UNIX_EPOCH)
}

#[test]
fn test_agent_registration() {
    let mut manager = AgentManager::new();
    let agent = test_agent_info("test_agent");
    let agent_id = agent.id;

    let result = manager.register_agent(agent);
    assert!(result.is_ok());
    assert_eq!(result.unwrap(), agent_id);

    assert!(manager.has_agent(agent_id));
    assert_eq!(manager.agent_count(), 1);
}

#[test]
fn test_agent_unregistration() {
    let mut manager = AgentManager::new();
    let agent = test_agent_info("test_agent");
    let agent_id = agent.id;

    manager.register_agent(agent).unwrap();
    assert!(manager.has_agent(agent_id));

    let result = manager.unregister_agent(agent_id);
    assert!(result.is_ok());
    assert!(!manager.has_agent(agent_id));
    assert_eq!(manager.agent_count(), 0);
}

#[test]
fn new_agent_record_is_healthy_version_one() {
    let info = test_agent_info("named");
    assert_eq!(info.name, "named");
    assert_eq!(info.description, "Test agent for unit tests");
    assert_eq!(info.version, "1.0.0");
    assert!(info.health.is_healthy());
    assert!(info.capabilities.has("test_capability"));
    assert_eq!(info.agent_type.to_string(), "custom:test");
}

#[test]
fn duplicate_registration_is_refused() {
    let mut manager = AgentManager::default();
    let first = info_with(42, AgentType::CodeAgent, &["a"]);
    let second = info_with(42, AgentType::TestAgent, &["b"]);
    manager.register_agent(first).unwrap();
    match manager.register_agent(second) {
        Err(AgentError::Internal(m)) => {
            assert_eq!(m, format!("Agent with ID {} already registered", id_text(42)));
        }
        other => panic!("unexpected: {:?}", other),
    }
    assert_eq!(manager.agent_count(), 1);
    let kept = manager.get_agent_info(42).unwrap();
    assert!(kept.capabilities.has("a"));
    assert!(!kept.capabilities.has("b"));
}

#[test]
fn unknown_agent_is_not_found() {
    let mut manager = AgentManager::new();
    let id: AgentId = 0x1234_5678_9abc_def0_1234_5678_9abc_def0;
    match manager.unregister_agent(id) {
        Err(AgentError::AgentNotFound(m)) => {
            assert_eq!(m, "12345678-9abc-def0-1234-56789abcdef0");
        }
        other => panic!("unexpected: {:?}", other),
    }
    assert!(matches!(manager.get_agent_info(id), Err(AgentError::AgentNotFound(_))));
    assert!(matches!(manager.get_agent(id), Err(AgentError::AgentNotFound(_))));
}

#[test]
fn direct_agent_access_is_refused() {
    let mut manager = AgentManager::new();
    manager.register_agent(info_with(1, AgentType::CodeAgent, &[])).unwrap();
    match manager.get_agent(1) {
        Err(AgentError::Internal(m)) => {
            assert_eq!(m, "Direct agent access not implemented - use execute_task instead")
        }
        other => panic!("unexpected: {:?}", other),
    }
}

#[test]
fn register_then_unregister_restores_registry() {
    let mut manager = AgentManager::new();
    manager.register_agent(info_with(1, AgentType::CodeAgent, &["x"])).unwrap();
    manager.register_agent(info_with(2, AgentType::TestAgent, &["y"])).unwrap();
    manager.register_agent(info_with(3, AgentType::DocAgent, &["z"])).unwrap();
    manager.unregister_agent(3).unwrap();
    let ids: Vec<AgentId> = manager.list_agents().iter().map(|a| a.id).collect();
    assert_eq!(ids, vec![1, 2]);
}

#[test]
fn listing_and_lookup_follow_registration_order() {
    let mut manager = AgentManager::new();
    manager.register_agent(info_with(10, AgentType::CodeAgent, &["gen", "review"])).unwrap();
    manager.register_agent(info_with(20, AgentType::AnalysisAgent, &["review"])).unwrap();
    manager.register_agent(info_with(30, AgentType::CodeAgent, &["gen"])).unwrap();

    let all: Vec<AgentId> = manager.list_agents().iter().map(|a| a.id).collect();
    assert_eq!(all, vec![10, 20, 30]);
    let code: Vec<AgentId> =
        manager.find_agents_by_type(&AgentType::CodeAgent).iter().map(|a| a.id).collect();
    assert_eq!(code, vec![10, 30]);
    let custom: Vec<AgentId> = manager
        .find_agents_by_type(&AgentType::Custom("x".to_string()))
        .iter()
        .map(|a| a.id)
        .collect();
    assert!(custom.is_empty());
    let reviewers: Vec<AgentId> =
        manager.find_agents_by_capability("review").iter().map(|a| a.id).collect();
    assert_eq!(reviewers, vec![10, 20]);
    assert!(manager.find_agents_by_capability("none").is_empty());
    assert_eq!(manager.agents().len(), 3);
}

#[test]
fn health_checks_update_records() {
    let mut manager = AgentManager::new();
    manager.register_agent(info_with(1, AgentType::CodeAgent, &[])).unwrap();
    manager.register_agent(info_with(2, AgentType::TestAgent, &[])).unwrap();
    let reports = manager.health_check_all(vec![
        (2, Err("timed out".to_string())),
        (1, Ok(AgentHealth::Degraded("slow".to_string()))),
    ]);
    assert_eq!(reports.len(), 2);
    assert_eq!(reports[0], (2, AgentHealth::Unhealthy("timed out".to_string())));
    assert_eq!(reports[1], (1, AgentHealth::Degraded("slow".to_string())));
    assert!(manager.get_agent_info(1).unwrap().health.is_degraded());
    assert!(manager.get_agent_info(2).unwrap().health.is_unhealthy());
    assert_eq!(manager.agent_count(), 2);
}

#[test]
fn reports_must_cover_the_registry() {
    let mut manager = AgentManager::new();
    manager.register_agent(info_with(1, AgentType::CodeAgent, &[])).unwrap();
    manager.register_agent(info_with(2, AgentType::TestAgent, &[])).unwrap();
    assert!(manager.covers(&vec![1, 2]));
    assert!(manager.covers(&vec![2, 1]));
    assert!(!manager.covers(&vec![1]));
    assert!(!manager.covers(&vec![1, 1]));
    assert!(!manager.covers(&vec![1, 3]));
    assert!(!manager.covers(&vec![1, 2, 3]));
    assert!(AgentManager::new().covers(&vec![]));
}

#[test]
fn registered_record_reads_back() {
    let mut manager = AgentManager::new();
    let info = info_with(5, AgentType::DocAgent, &["write"]);
    manager.register_agent(info).unwrap();
    let read = manager.get_agent_info(5).unwrap();
    assert_eq!(read.id, 5);
    assert_eq!(read.name, "agent");
    assert_eq!(read.description, "an agent");
    assert_eq!(read.agent_type.to_string(), "doc");
    assert!(read.health.is_healthy());
    assert_eq!(read.version, "1.0.0");
    assert_eq!(read.created_at, std::time::SystemTime::UNIX_EPOCH);
    assert!(read.capabilities.has("write"));
}

#[test]
fn health_predicates_are_exclusive() {
    let h = AgentHealth::Healthy;
    let d = AgentHealth::Degraded("d".to_string());
    let u = AgentHealth::Unhealthy("u".to_string());
    assert!(h.is_healthy() && !h.is_degraded() && !h.is_unhealthy());
    assert!(!d.is_healthy() && d.is_degraded() && !d.is_unhealthy());
    assert!(!u.is_healthy() && !u.is_degraded() && u.is_unhealthy());
}

#[test]
fn agent_type_display_texts() {
    assert_eq!(AgentType::CodeAgent.to_string(), "code");
    assert_eq!(AgentType::AnalysisAgent.to_string(), "analysis");
    assert_eq!(AgentType::TestAgent.to_string(), "test");
    assert_eq!(AgentType::DocAgent.to_string(), "doc");
    assert_eq!(AgentType::SecurityAgent.to_string(), "security");
    assert_eq!(AgentType::CoordinatorAgent.to_string(), "coordinator");
    assert_eq!(AgentType::Custom("linter".to_string()).to_string(), "custom:linter");
    assert!(AgentType::Custom("a".to_string()).same_as(&AgentType::Custom("a".to_string())));
    assert!(!AgentType::Custom("a".to_string()).same_as(&AgentType::Custom("b".to_string())));
    assert!(!AgentType::CodeAgent.same_as(&AgentType::TestAgent));
}

#[test]
fn fresh_ids_are_version_four() {
    let id = new_id();
    assert_ne!(id, 0);
    assert_eq!((id >> 76) & 0xf, 4);
    assert_eq!((id >> 62) & 0x3, 2);
    let text = id_text(id);
    assert_eq!(text.len(), 36);
    assert_eq!(text.chars().nth(14), Some('4'));
}
