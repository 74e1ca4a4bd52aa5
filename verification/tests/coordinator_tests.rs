use codex_agent_core::agent::{AgentHealth, AgentInfo, AgentType};
use codex_agent_core::capability::{Capability, CapabilitySet};
use codex_agent_core::coordinator::{Coordinator, ExecutionStrategy, TaskExecutionStatus};
use codex_agent_core::error::AgentError;
use codex_agent_core::ids::{AgentId, TaskId};
use codex_agent_core::manager::AgentManager;
use codex_agent_core::scheduler::TaskScheduler;
use codex_agent_core::task::{Task, TaskResult};

fn agent_with(id: AgentId, caps: &[&str]) -> AgentInfo {
    let mut capabilities = CapabilitySet::new();
    for c in caps {
        capabilities.add(Capability::new(c));
    }
    AgentInfo::new(
        id,
        AgentType::Custom("test".to_string()),
        "test_agent",
        "Test agent",
        &capabilities,
        std::time::SystemTime::UNIX_EPOCH,
    )
}

#[test]
fn test_coordinator_task_submission() {
    let mut agent_manager = AgentManager::new();
    let mut scheduler = TaskScheduler::new();
    let mut coordinator = Coordinator::new();

    let agent = agent_with(Task::new("id", "fresh id").id, &["test_capability"]);
    agent_manager.register_agent(agent).unwrap();

    let task = Task::new("test", "Test task").with_capability("test_capability");

    let task_id = coordinator.submit_task(&agent_manager, &mut scheduler, task).unwrap();
    assert!(task_id != 0);

    for d in coordinator.take_dispatches() {
        let id = d.task.id;
        coordinator.finish_execution(&mut scheduler, id, Ok(TaskResult::success(id, None)));
    }

    let stats = coordinator.get_system_stats(&agent_manager, &scheduler);
    assert_eq!(stats.total_agents, 1);
}

#[test]
fn default_strategy_is_parallel_four() {
    assert_eq!(ExecutionStrategy::default(), ExecutionStrategy::Parallel { max_concurrent: 4 });
}

#[test]
fn submission_hands_task_to_first_capable_healthy_agent() {
    let mut manager = AgentManager::new();
    manager.register_agent(agent_with(1, &["other"])).unwrap();
    manager.register_agent(agent_with(2, &["gen"])).unwrap();
    manager.register_agent(agent_with(3, &["gen"])).unwrap();
    let mut scheduler = TaskScheduler::new();
    let mut coordinator = Coordinator::new();

    let task = Task::new("gen", "generate").with_capability("gen");
    let task_id = coordinator.submit_task(&manager, &mut scheduler, task).unwrap();

    match coordinator.get_task_status(&scheduler, task_id).unwrap() {
        TaskExecutionStatus::Running { agent_id } => assert_eq!(agent_id, 2),
        other => panic!("unexpected: {:?}", other),
    }
    let stats = coordinator.get_system_stats(&manager, &scheduler);
    assert_eq!(stats.active_executions, 1);
    assert_eq!(stats.scheduler_stats.running_count, 1);
    assert_eq!(stats.scheduler_stats.pending_count, 0);

    let dispatches = coordinator.take_dispatches();
    assert_eq!(dispatches.len(), 1);
    assert_eq!(dispatches[0].task.id, task_id);
    assert_eq!(dispatches[0].agent_id, 2);
    assert!(coordinator.take_dispatches().is_empty());

    coordinator.finish_execution(&mut scheduler, task_id, Ok(TaskResult::success(task_id, None)));
    let stats = coordinator.get_system_stats(&manager, &scheduler);
    assert_eq!(stats.active_executions, 0);
    assert_eq!(stats.scheduler_stats.running_count, 0);
    assert_eq!(stats.scheduler_stats.completed_count, 1);
    assert!(matches!(
        coordinator.get_task_status(&scheduler, task_id).unwrap(),
        TaskExecutionStatus::Unknown
    ));
}

#[test]
fn missing_capability_is_a_mismatch_listing_all_capabilities() {
    let mut manager = AgentManager::new();
    manager.register_agent(agent_with(1, &["a"])).unwrap();
    manager.register_agent(agent_with(2, &["b", "c"])).unwrap();
    let mut scheduler = TaskScheduler::new();
    let mut coordinator = Coordinator::new();
    let task = Task::new("x", "needs two").with_capability("a").with_capability("z");
    match coordinator.submit_task(&manager, &mut scheduler, task) {
        Err(AgentError::CapabilityMismatch { required, available }) => {
            assert_eq!(required, "a, z");
            assert_eq!(available, vec!["a".to_string(), "b".to_string(), "c".to_string()]);
        }
        other => panic!("unexpected: {:?}", other),
    }
    let stats = coordinator.get_system_stats(&manager, &scheduler);
    assert_eq!(stats.scheduler_stats.pending_count, 0);
    assert_eq!(stats.active_executions, 0);
}

#[test]
fn task_without_requirements_always_validates() {
    let manager = AgentManager::new();
    let coordinator = Coordinator::new();
    let task = Task::new("free", "no requirements");
    assert!(coordinator.validate_task_requirements(&manager, &task).is_ok());
}

#[test]
fn no_healthy_agent_is_a_mismatch_with_nothing_available() {
    let mut manager = AgentManager::new();
    manager.register_agent(agent_with(1, &["gen"])).unwrap();
    manager.health_check_all(vec![(1, Ok(AgentHealth::Unhealthy("down".to_string())))]);
    let mut scheduler = TaskScheduler::new();
    let mut coordinator = Coordinator::new();

    let task = Task::new("gen", "generate").with_capability("gen");
    assert!(coordinator.validate_task_requirements(&manager, &task).is_ok());
    match coordinator.find_suitable_agent(&manager, &task) {
        Err(AgentError::CapabilityMismatch { required, available }) => {
            assert_eq!(required, "gen");
            assert!(available.is_empty());
        }
        other => panic!("unexpected: {:?}", other),
    }
    match coordinator.submit_task(&manager, &mut scheduler, task) {
        Err(AgentError::CapabilityMismatch { required, available }) => {
            assert_eq!(required, "gen");
            assert!(available.is_empty());
        }
        other => panic!("unexpected: {:?}", other),
    }
    // The task was taken from the ready tasks and not handed out.
    let stats = coordinator.get_system_stats(&manager, &scheduler);
    assert_eq!(stats.scheduler_stats.pending_count, 0);
    assert_eq!(stats.active_executions, 0);
}

#[test]
fn sequential_strategy_runs_one_at_a_time() {
    let mut manager = AgentManager::new();
    manager.register_agent(agent_with(1, &[])).unwrap();
    let mut scheduler = TaskScheduler::new();
    let mut coordinator = Coordinator::new().with_execution_strategy(ExecutionStrategy::Sequential);

    let a = Task::new("a", "a");
    let b = Task::new("b", "b");
    let a_id = coordinator.submit_task(&manager, &mut scheduler, a).unwrap();
    let b_id = coordinator.submit_task(&manager, &mut scheduler, b).unwrap();
    let stats = coordinator.get_system_stats(&manager, &scheduler);
    assert_eq!(stats.active_executions, 1);
    assert_eq!(stats.scheduler_stats.pending_count, 1);

    coordinator.finish_execution(&mut scheduler, a_id, Ok(TaskResult::success(a_id, None)));
    let c_id = coordinator.submit_task(&manager, &mut scheduler, Task::new("c", "c")).unwrap();
    let handed: Vec<TaskId> = coordinator.take_dispatches().iter().map(|d| d.task.id).collect();
    assert_eq!(handed, vec![a_id, b_id]);
    let stats = coordinator.get_system_stats(&manager, &scheduler);
    assert_eq!(stats.active_executions, 1);
    assert_eq!(stats.scheduler_stats.pending_count, 1);
    assert_eq!(coordinator.cancel_task(&mut scheduler, c_id).unwrap(), true);
    assert_eq!(coordinator.cancel_task(&mut scheduler, b_id).unwrap(), false);
}

#[test]
fn parallel_strategy_respects_its_limit() {
    let mut manager = AgentManager::new();
    manager.register_agent(agent_with(1, &[])).unwrap();
    let mut scheduler = TaskScheduler::new();
    let mut coordinator = Coordinator::new()
        .with_execution_strategy(ExecutionStrategy::Parallel { max_concurrent: 2 });
    let tasks = vec![Task::new("1", "1"), Task::new("2", "2"), Task::new("3", "3")];
    let expected: Vec<TaskId> = tasks.iter().map(|t| t.id).collect();
    let ids = coordinator.submit_task_batch(&manager, &mut scheduler, tasks).unwrap();
    assert_eq!(ids, expected);
    let stats = coordinator.get_system_stats(&manager, &scheduler);
    assert_eq!(stats.active_executions, 2);
    assert_eq!(stats.scheduler_stats.pending_count, 1);
    assert_eq!(stats.scheduler_stats.running_count, 2);
}

#[test]
fn pipeline_and_collaborative_limits() {
    for (strategy, limit) in [(ExecutionStrategy::Pipeline, 4usize), (ExecutionStrategy::Collaborative, 8)] {
        let mut manager = AgentManager::new();
        manager.register_agent(agent_with(1, &[])).unwrap();
        let mut scheduler = TaskScheduler::new();
        let mut coordinator = Coordinator::new().with_execution_strategy(strategy);
        let tasks: Vec<Task> = (0..10).map(|_| Task::new("t", "t")).collect();
        coordinator.submit_task_batch(&manager, &mut scheduler, tasks).unwrap();
        let stats = coordinator.get_system_stats(&manager, &scheduler);
        assert_eq!(stats.active_executions, limit);
        assert_eq!(stats.scheduler_stats.pending_count, 10 - limit);
    }
}

#[test]
fn failures_are_recorded_with_their_result() {
    let mut manager = AgentManager::new();
    manager.register_agent(agent_with(1, &[])).unwrap();
    let mut scheduler = TaskScheduler::new();
    let mut coordinator = Coordinator::new();
    let a = coordinator.submit_task(&manager, &mut scheduler, Task::new("a", "a")).unwrap();
    let b = coordinator.submit_task(&manager, &mut scheduler, Task::new("b", "b")).unwrap();
    coordinator.finish_execution(&mut scheduler, a, Ok(TaskResult::failure(a, "bad input")));
    coordinator.finish_execution(&mut scheduler, b, Err("agent vanished".to_string()));
    let stats = coordinator.get_system_stats(&manager, &scheduler);
    assert_eq!(stats.scheduler_stats.failed_count, 2);
    assert_eq!(stats.scheduler_stats.completed_count, 0);
    assert_eq!(stats.active_executions, 0);

    let dependent = Task::new("c", "c").with_dependency(a);
    assert!(matches!(
        coordinator.submit_task(&manager, &mut scheduler, dependent),
        Err(AgentError::SchedulingError(_))
    ));
}

#[test]
fn dependent_task_is_handed_out_after_completion() {
    let mut manager = AgentManager::new();
    manager.register_agent(agent_with(1, &[])).unwrap();
    let mut scheduler = TaskScheduler::new();
    let mut coordinator = Coordinator::new();
    let first = Task::new("first", "first");
    let first_id = first.id;
    let second = Task::new("second", "second").with_dependency(first_id);
    let second_id = second.id;
    coordinator.submit_task(&manager, &mut scheduler, first).unwrap();
    coordinator.submit_task(&manager, &mut scheduler, second).unwrap();
    assert_eq!(coordinator.get_system_stats(&manager, &scheduler).scheduler_stats.waiting_count, 1);
    coordinator.finish_execution(&mut scheduler, first_id, Ok(TaskResult::success(first_id, None)));
    let third = coordinator.submit_task(&manager, &mut scheduler, Task::new("t", "t")).unwrap();
    let handed: Vec<TaskId> = coordinator.take_dispatches().iter().map(|d| d.task.id).collect();
    assert_eq!(handed, vec![first_id, second_id, third]);
}

#[test]
fn status_falls_back_to_scheduler_records() {
    let mut scheduler = TaskScheduler::new();
    let coordinator = Coordinator::default();
    let t = Task::new("t", "t");
    let id = t.id;
    scheduler.mark_task_running(t, 77).unwrap();
    match coordinator.get_task_status(&scheduler, id).unwrap() {
        TaskExecutionStatus::Running { agent_id } => assert_eq!(agent_id, 77),
        other => panic!("unexpected: {:?}", other),
    }
    assert!(matches!(coordinator.get_task_status(&scheduler, 1).unwrap(), TaskExecutionStatus::Unknown));
}

#[test]
fn health_check_counts_unhealthy_reports() {
    let mut manager = AgentManager::new();
    manager.register_agent(agent_with(1, &[])).unwrap();
    manager.register_agent(agent_with(2, &[])).unwrap();
    manager.register_agent(agent_with(3, &[])).unwrap();
    let scheduler = TaskScheduler::new();
    let coordinator = Coordinator::new();
    let reports = manager.health_check_all(vec![
        (1, Ok(AgentHealth::Healthy)),
        (2, Ok(AgentHealth::Degraded("slow".to_string()))),
        (3, Err("no answer".to_string())),
    ]);
    let result = coordinator.health_check(&manager, &scheduler, &reports);
    assert!(!result.overall_healthy);
    assert_eq!(result.total_agents, 3);
    assert_eq!(result.healthy_agents, 1);
    assert_eq!(result.unhealthy_agents, 2);
    assert_eq!(result.system_stats.total_agents, 3);

    let all_good =
        vec![(3, AgentHealth::Healthy), (1, AgentHealth::Healthy), (2, AgentHealth::Healthy)];
    let result = coordinator.health_check(&manager, &scheduler, &all_good);
    assert!(result.overall_healthy);
    assert_eq!(result.total_agents, 3);
    assert_eq!(result.healthy_agents, 3);
    assert_eq!(result.unhealthy_agents, 0);
}

#[test]
fn batch_stops_at_first_refused_task() {
    let mut manager = AgentManager::new();
    manager.register_agent(agent_with(1, &["a"])).unwrap();
    let mut scheduler = TaskScheduler::new();
    let mut coordinator = Coordinator::new();
    let tasks = vec![
        Task::new("1", "1").with_capability("a"),
        Task::new("2", "2").with_capability("missing"),
        Task::new("3", "3"),
    ];
    match coordinator.submit_task_batch(&manager, &mut scheduler, tasks) {
        Err(AgentError::CapabilityMismatch { required, available }) => {
            assert_eq!(required, "missing");
            assert_eq!(available, vec!["a".to_string()]);
        }
        other => panic!("unexpected: {:?}", other),
    }
    let stats = coordinator.get_system_stats(&manager, &scheduler);
    assert_eq!(stats.active_executions, 1);
    assert_eq!(stats.scheduler_stats.pending_count, 0);
    assert_eq!(coordinator.take_dispatches().len(), 1);
}
