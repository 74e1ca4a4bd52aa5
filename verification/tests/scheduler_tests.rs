use codex_agent_core::error::AgentError;
use codex_agent_core::scheduler::{DependencyStatus, TaskScheduler};
use codex_agent_core::task::{Priority, Task};

fn id_text(id: u128) -> String {
    uuid::Uuid::from_u128(id).to_string()
}

#[test]
fn test_task_scheduling() {
    let mut scheduler = TaskScheduler::new();
    let task = Task::new("test", "Test task");
    let task_id = task.id;

    scheduler.schedule_task(task).unwrap();

    let stats = scheduler.get_stats();
    assert_eq!(stats.pending_count, 1);
    assert_eq!(stats.running_count, 0);

    let next_task = scheduler.get_next_task();
    assert!(next_task.is_some());
    assert_eq!(next_task.unwrap().id, task_id);
}

#[test]
fn test_task_priority_ordering() {
    let mut scheduler = TaskScheduler::new();

    let low_task = Task::new("low", "Low priority task").with_priority(Priority::Low);
    let high_task = Task::new("high", "High priority task").with_priority(Priority::High);

    scheduler.schedule_task(low_task).unwrap();
    scheduler.schedule_task(high_task.clone()).unwrap();

    let next_task = scheduler.get_next_task();
    assert!(next_task.is_some());
    assert_eq!(next_task.unwrap().id, high_task.id);
}

#[test]
fn test_task_dependencies() {
    let mut scheduler = TaskScheduler::new();

    let task1 = Task::new("task1", "First task");
    let task1_id = task1.id;

    let task2 = Task::new("task2", "Second task").with_dependency(task1_id);

    scheduler.schedule_task(task1).unwrap();
    scheduler.schedule_task(task2).unwrap();

    let next_task = scheduler.get_next_task();
    assert!(next_task.is_some());
    assert_eq!(next_task.unwrap().id, task1_id);

    let next_task = scheduler.get_next_task();
    assert!(next_task.is_none());

    scheduler.mark_task_completed(task1_id).unwrap();

    let next_task = scheduler.get_next_task();
    assert!(next_task.is_some());
}

#[test]
fn empty_scheduler_hands_out_nothing() {
    let mut scheduler = TaskScheduler::default();
    assert!(scheduler.get_next_task().is_none());
    let stats = scheduler.get_stats();
    assert_eq!(stats.pending_count, 0);
    assert_eq!(stats.waiting_count, 0);
    assert_eq!(stats.running_count, 0);
    assert_eq!(stats.completed_count, 0);
    assert_eq!(stats.failed_count, 0);
}

#[test]
fn equal_priorities_come_out_in_scheduling_order() {
    let mut scheduler = TaskScheduler::new();
    let a = Task::new("a", "first");
    let b = Task::new("b", "second");
    let c = Task::new("c", "third").with_priority(Priority::Critical);
    let (a_id, b_id, c_id) = (a.id, b.id, c.id);
    scheduler.schedule_task(a).unwrap();
    scheduler.schedule_task(b).unwrap();
    scheduler.schedule_task(c).unwrap();
    assert_eq!(scheduler.get_next_task().unwrap().id, c_id);
    assert_eq!(scheduler.get_next_task().unwrap().id, a_id);
    assert_eq!(scheduler.get_next_task().unwrap().id, b_id);
    assert!(scheduler.get_next_task().is_none());
}

#[test]
fn priority_levels_follow_declaration() {
    assert_eq!(Priority::Low.level(), 1);
    assert_eq!(Priority::Normal.level(), 2);
    assert_eq!(Priority::High.level(), 3);
    assert_eq!(Priority::Critical.level(), 4);
    assert_eq!(Priority::default(), Priority::Normal);
}

#[test]
fn dependent_task_waits_until_dependency_completes() {
    let mut scheduler = TaskScheduler::new();
    let first = Task::new("first", "runs first");
    let first_id = first.id;
    let second = Task::new("second", "runs second").with_dependency(first_id);
    let second_id = second.id;

    scheduler.schedule_task(second).unwrap();
    let stats = scheduler.get_stats();
    assert_eq!(stats.pending_count, 0);
    assert_eq!(stats.waiting_count, 1);
    assert!(scheduler.get_next_task().is_none());

    scheduler.schedule_task(first).unwrap();
    let handed = scheduler.get_next_task().unwrap();
    assert_eq!(handed.id, first_id);
    scheduler.mark_task_running(handed, 7).unwrap();
    assert_eq!(scheduler.get_stats().running_count, 1);

    scheduler.mark_task_completed(first_id).unwrap();
    let stats = scheduler.get_stats();
    assert_eq!(stats.running_count, 0);
    assert_eq!(stats.completed_count, 1);
    assert_eq!(stats.waiting_count, 0);
    assert_eq!(stats.pending_count, 1);
    assert_eq!(scheduler.get_next_task().unwrap().id, second_id);
}

#[test]
fn dependency_on_failed_task_is_refused() {
    let mut scheduler = TaskScheduler::new();
    let failed = Task::new("broken", "will fail");
    let failed_id = failed.id;
    scheduler.schedule_task(failed).unwrap();
    let t = scheduler.get_next_task().unwrap();
    scheduler.mark_task_running(t, 3).unwrap();
    scheduler.mark_task_failed(failed_id, "boom").unwrap();
    let stats = scheduler.get_stats();
    assert_eq!(stats.failed_count, 1);
    assert_eq!(stats.running_count, 0);

    let dependent = Task::new("after", "depends on the failed one").with_dependency(failed_id);
    let dependent_id = dependent.id;
    assert!(matches!(
        scheduler.are_dependencies_satisfied(&dependent),
        Err(AgentError::SchedulingError(_))
    ));
    match scheduler.schedule_task(dependent) {
        Err(AgentError::SchedulingError(m)) => {
            let expected = format!(
                "Task {} depends on failed task {}",
                id_text(dependent_id),
                id_text(failed_id)
            );
            assert_eq!(m, expected);
        }
        other => panic!("unexpected result: {:?}", other),
    }
    let stats = scheduler.get_stats();
    assert_eq!(stats.pending_count, 0);
    assert_eq!(stats.waiting_count, 0);
}

#[test]
fn dependency_status_reports_each_case() {
    let mut scheduler = TaskScheduler::new();
    let done = Task::new("done", "d");
    let done_id = done.id;
    let bad = Task::new("bad", "b");
    let bad_id = bad.id;
    scheduler.schedule_task(done).unwrap();
    scheduler.schedule_task(bad).unwrap();
    scheduler.mark_task_completed(done_id).unwrap();
    scheduler.mark_task_failed(bad_id, "no").unwrap();

    assert_eq!(scheduler.dependency_status_of(&vec![]), DependencyStatus::Satisfied);
    assert_eq!(scheduler.dependency_status_of(&vec![done_id]), DependencyStatus::Satisfied);
    assert_eq!(scheduler.dependency_status_of(&vec![done_id, 99]), DependencyStatus::Waiting);
    assert_eq!(
        scheduler.dependency_status_of(&vec![done_id, bad_id]),
        DependencyStatus::DependsOnFailed(bad_id)
    );
    // The first dependency that has not completed decides.
    assert_eq!(scheduler.dependency_status_of(&vec![99, bad_id]), DependencyStatus::Waiting);

    let waiting = Task::new("w", "w").with_dependency(99);
    assert_eq!(scheduler.are_dependencies_satisfied(&waiting).unwrap(), false);
    let ready = Task::new("r", "r").with_dependency(done_id);
    assert_eq!(scheduler.are_dependencies_satisfied(&ready).unwrap(), true);
}

#[test]
fn completing_twice_counts_once() {
    let mut scheduler = TaskScheduler::new();
    scheduler.mark_task_completed(5).unwrap();
    scheduler.mark_task_completed(5).unwrap();
    assert_eq!(scheduler.get_stats().completed_count, 1);
    scheduler.mark_task_failed(6, "x").unwrap();
    scheduler.mark_task_failed(6, "y").unwrap();
    assert_eq!(scheduler.get_stats().failed_count, 1);
}

#[test]
fn running_records_are_replaced_and_listed() {
    let mut scheduler = TaskScheduler::new();
    let t = Task::new("t", "t");
    let id = t.id;
    scheduler.mark_task_running(t.clone(), 1).unwrap();
    scheduler.mark_task_running(t, 2).unwrap();
    let running = scheduler.get_running_tasks();
    assert_eq!(running.len(), 1);
    assert_eq!(running[0].0, id);
    assert_eq!(running[0].1, 2);
}

#[test]
fn cancel_removes_only_ready_tasks() {
    let mut scheduler = TaskScheduler::new();
    let ready = Task::new("ready", "r");
    let ready_id = ready.id;
    let other = Task::new("other", "o");
    let other_id = other.id;
    let blocked = Task::new("blocked", "b").with_dependency(1234);
    let blocked_id = blocked.id;
    scheduler.schedule_task(ready).unwrap();
    scheduler.schedule_task(other).unwrap();
    scheduler.schedule_task(blocked).unwrap();

    assert_eq!(scheduler.cancel_task(ready_id).unwrap(), true);
    assert_eq!(scheduler.cancel_task(ready_id).unwrap(), false);
    // A task waiting for its dependencies is not cancelled.
    assert_eq!(scheduler.cancel_task(blocked_id).unwrap(), false);
    let stats = scheduler.get_stats();
    assert_eq!(stats.pending_count, 1);
    assert_eq!(stats.waiting_count, 1);
    assert_eq!(scheduler.get_next_task().unwrap().id, other_id);
    assert!(scheduler.get_next_task().is_none());
}

#[test]
fn cancel_leaves_running_tasks() {
    let mut scheduler = TaskScheduler::new();
    let t = Task::new("t", "t");
    let id = t.id;
    scheduler.schedule_task(t).unwrap();
    let t = scheduler.get_next_task().unwrap();
    scheduler.mark_task_running(t, 9).unwrap();
    assert_eq!(scheduler.cancel_task(id).unwrap(), false);
    assert_eq!(scheduler.get_stats().running_count, 1);
}
