use codex_agent_core::standalone::{SimpleAgent, SimpleAgentManager, SimpleCoordinator, SimpleTask};

fn agent(id: &str, name: &str, agent_type: &str) -> SimpleAgent {
    SimpleAgent { id: id.to_string(), name: name.to_string(), agent_type: agent_type.to_string() }
}

fn task(id: &str, task_type: &str, description: &str) -> SimpleTask {
    SimpleTask { id: id.to_string(), task_type: task_type.to_string(), description: description.to_string() }
}

#[test]
fn standalone_registration_and_stats() {
    let mut manager = SimpleAgentManager::new();
    let mut coordinator = SimpleCoordinator::new();

    assert_eq!(manager.register_agent(agent("code-1", "CodeAgent", "code")), "code-1");
    assert_eq!(manager.register_agent(agent("analysis-1", "AnalysisAgent", "analysis")), "analysis-1");
    assert_eq!(manager.register_agent(agent("test-1", "TestAgent", "test")), "test-1");

    assert_eq!(coordinator.submit_task(task("task-1", "code_generation", "Generate calculator function")), "task-1");
    assert_eq!(coordinator.submit_task(task("task-2", "security_analysis", "Analyze code security")), "task-2");
    assert_eq!(coordinator.submit_task(task("task-3", "test_generation", "Generate unit tests")), "task-3");

    assert_eq!(coordinator.get_stats(&manager), (3, 3));
}

#[test]
fn standalone_registration_replaces_same_id() {
    let mut manager = SimpleAgentManager::new();
    manager.register_agent(agent("a", "first", "code"));
    manager.register_agent(agent("b", "second", "test"));
    manager.register_agent(agent("a", "renamed", "doc"));
    assert_eq!(manager.agent_count(), 2);
    let listed = manager.list_agents();
    assert_eq!(listed[0].id, "a");
    assert_eq!(listed[0].name, "renamed");
    assert_eq!(listed[0].agent_type, "doc");
    assert_eq!(listed[1].id, "b");
}

#[test]
fn standalone_tasks_are_kept_in_order_with_duplicates() {
    let manager = SimpleAgentManager::new();
    let mut coordinator = SimpleCoordinator::new();
    coordinator.submit_task(task("t", "x", "one"));
    coordinator.submit_task(task("t", "x", "two"));
    assert_eq!(coordinator.get_stats(&manager), (0, 2));
}
