use vstd::prelude::*;

use crate::error::AgentError;
use crate::ids::{id_text, uuid_text, AgentId, TaskId};
use crate::task::{priority_level, Task};

verus! {

/// A point on the monotonic clock, used only to report how long tasks have run.
#[verifier::external_type_specification]
#[verifier::external_body]
pub struct ExInstant(std::time::Instant);

/// Calls `std::time::Instant::now`; nothing is claimed of the reading.
#[verifier::external_body]
fn instant_now() -> std::time::Instant {
    std::time::Instant::now()
}

/// Calls `std::time::Instant::duration_since` (zero when `earlier` is in fact
/// later); nothing is claimed of the duration.
#[verifier::external_body]
fn duration_between(later: std::time::Instant, earlier: std::time::Instant) -> std::time::Duration {
    later.duration_since(earlier)
}

/// What the dependencies of a task allow.
#[derive(Debug, Clone, Copy, PartialEq, Eq, Structural)]
pub enum DependencyStatus {
    /// Every dependency has completed.
    Satisfied,
    /// Some dependency has not completed yet (and none before it failed).
    Waiting,
    /// The first dependency that has not completed has failed.
    DependsOnFailed(TaskId),
}

/// The status of `deps[k..]`, inspecting dependencies in order: the first that
/// failed or has not completed decides.
pub open spec fn dependency_status_from(
    deps: Seq<TaskId>,
    completed: Seq<TaskId>,
    failed: Seq<TaskId>,
    k: int,
) -> DependencyStatus
    decreases deps.len() - k,
{
    if k < 0 || k >= deps.len() {
        DependencyStatus::Satisfied
    } else if failed.contains(deps[k]) {
        DependencyStatus::DependsOnFailed(deps[k])
    } else if !completed.contains(deps[k]) {
        DependencyStatus::Waiting
    } else {
        dependency_status_from(deps, completed, failed, k + 1)
    }
}

/// The status of a whole list of dependencies.
pub open spec fn dependency_status(
    deps: Seq<TaskId>,
    completed: Seq<TaskId>,
    failed: Seq<TaskId>,
) -> DependencyStatus {
    dependency_status_from(deps, completed, failed, 0)
}

/// The message with which a task whose dependency failed is refused.
pub open spec fn failed_dependency_message(task: TaskId, dep: TaskId) -> Seq<char> {
    "Task "@ + uuid_text(task) + " depends on failed task "@ + uuid_text(dep)
}

/// The index of the task to run next: the highest priority, and among equal
/// priorities the one scheduled first.
pub open spec fn best_index(s: Seq<Task>) -> int
    decreases s.len(),
{
    if s.len() <= 1 {
        0
    } else {
        let i = best_index(s.drop_last());
        if priority_level(s.last().priority) > priority_level(s[i].priority) {
            s.len() - 1
        } else {
            i
        }
    }
}

/// `best_index` picks a task of maximal priority, and no earlier task has that
/// priority.
pub proof fn lemma_best_index(s: Seq<Task>)
    requires
        s.len() > 0,
    ensures
        0 <= best_index(s) < s.len(),
        forall|j: int|
            0 <= j < s.len() ==> priority_level(#[trigger] s[j].priority) <= priority_level(
                s[best_index(s)].priority,
            ),
        forall|j: int|
            0 <= j < best_index(s) ==> priority_level(#[trigger] s[j].priority) < priority_level(
                s[best_index(s)].priority,
            ),
    decreases s.len(),
{
    if s.len() > 1 {
        let d = s.drop_last();
        lemma_best_index(d);
        let i = best_index(d);
        let b = best_index(s);
        assert(d[i] == s[i]);
        assert forall|j: int| 0 <= j < s.len() implies priority_level(#[trigger] s[j].priority)
            <= priority_level(s[b].priority) by {
            if j < d.len() {
                assert(d[j] == s[j]);
            }
        }
        assert forall|j: int| 0 <= j < b implies priority_level(#[trigger] s[j].priority)
            < priority_level(s[b].priority) by {
            assert(d[j] == s[j]);
        }
    }
}

/// The tasks of `ws` whose dependencies are satisfied, in order.
pub open spec fn ready_part(ws: Seq<Task>, completed: Seq<TaskId>, failed: Seq<TaskId>) -> Seq<Task>
    decreases ws.len(),
{
    if ws.len() == 0 {
        Seq::empty()
    } else {
        let r = ready_part(ws.drop_last(), completed, failed);
        if dependency_status(ws.last().dependencies@, completed, failed)
            == DependencyStatus::Satisfied {
            r.push(ws.last())
        } else {
            r
        }
    }
}

/// The tasks of `ws` whose dependencies are not satisfied, in order.
pub open spec fn blocked_part(ws: Seq<Task>, completed: Seq<TaskId>, failed: Seq<TaskId>) -> Seq<
    Task,
>
    decreases ws.len(),
{
    if ws.len() == 0 {
        Seq::empty()
    } else {
        let r = blocked_part(ws.drop_last(), completed, failed);
        if dependency_status(ws.last().dependencies@, completed, failed)
            == DependencyStatus::Satisfied {
            r
        } else {
            r.push(ws.last())
        }
    }
}

/// The tasks of `ts` whose id is not `id`, in order.
pub open spec fn without_id(ts: Seq<Task>, id: TaskId) -> Seq<Task>
    decreases ts.len(),
{
    if ts.len() == 0 {
        Seq::empty()
    } else {
        let r = without_id(ts.drop_last(), id);
        if ts.last().id == id {
            r
        } else {
            r.push(ts.last())
        }
    }
}

/// Whether some task of `ts` has id `id`.
pub open spec fn has_task(ts: Seq<Task>, id: TaskId) -> bool {
    exists|i: int| 0 <= i < ts.len() && #[trigger] ts[i].id == id
}

/// The keys of a sequence of (task, agent) pairs.
pub open spec fn keys_of(s: Seq<(TaskId, AgentId)>) -> Seq<TaskId> {
    s.map_values(|e: (TaskId, AgentId)| e.0)
}

/// Whether `s` has an entry for task `id`.
pub open spec fn has_key(s: Seq<(TaskId, AgentId)>, id: TaskId) -> bool {
    exists|i: int| 0 <= i < s.len() && #[trigger] s[i].0 == id
}

/// The entries of `s` not for task `id`, in order.
pub open spec fn without_key(s: Seq<(TaskId, AgentId)>, id: TaskId) -> Seq<(TaskId, AgentId)>
    decreases s.len(),
{
    if s.len() == 0 {
        Seq::empty()
    } else {
        let r = without_key(s.drop_last(), id);
        if s.last().0 == id {
            r
        } else {
            r.push(s.last())
        }
    }
}

/// `s` with the entry for `e.0` replaced by `e` (in place), or `e` appended.
pub open spec fn put_entry(s: Seq<(TaskId, AgentId)>, e: (TaskId, AgentId)) -> Seq<
    (TaskId, AgentId),
> {
    if has_key(s, e.0) {
        s.update(choose|i: int| 0 <= i < s.len() && #[trigger] s[i].0 == e.0, e)
    } else {
        s.push(e)
    }
}

/// `s` with `x` appended unless it is there already.
pub open spec fn add_id(s: Seq<TaskId>, x: TaskId) -> Seq<TaskId> {
    if s.contains(x) {
        s
    } else {
        s.push(x)
    }
}

/// Mathematical state of the scheduler.
pub ghost struct SchedulerView {
    /// Tasks ready to run, in the order in which they became ready.
    pub pending: Seq<Task>,
    /// Tasks whose dependencies have not all completed, in scheduling order.
    pub waiting: Seq<Task>,
    /// Running tasks with the agent running each, in the order they started.
    pub running: Seq<(TaskId, AgentId)>,
    /// Completed task ids, each once, in completion order.
    pub completed: Seq<TaskId>,
    /// Failed task ids, each once, in failure order.
    pub failed: Seq<TaskId>,
}

impl SchedulerView {
    /// The dependency status of `t` in this state.
    pub open spec fn status_of(self, t: Task) -> DependencyStatus {
        dependency_status(t.dependencies@, self.completed, self.failed)
    }

    /// The state after scheduling `t`.
    pub open spec fn after_schedule(self, t: Task) -> SchedulerView {
        match self.status_of(t) {
            DependencyStatus::Satisfied => SchedulerView { pending: self.pending.push(t), ..self },
            DependencyStatus::Waiting => SchedulerView { waiting: self.waiting.push(t), ..self },
            DependencyStatus::DependsOnFailed(_) => self,
        }
    }

    /// The task handed out next (if any) and the state afterwards.
    pub open spec fn take_next(self) -> (Option<Task>, SchedulerView) {
        if self.pending.len() == 0 {
            (None, self)
        } else {
            let i = best_index(self.pending);
            let t = self.pending[i];
            if self.status_of(t) == DependencyStatus::Satisfied {
                (Some(t), SchedulerView { pending: self.pending.remove(i), ..self })
            } else {
                (None, self)
            }
        }
    }

    /// The state after task `id` starts running on `agent`.
    pub open spec fn after_running(self, id: TaskId, agent: AgentId) -> SchedulerView {
        SchedulerView { running: put_entry(self.running, (id, agent)), ..self }
    }

    /// The state after task `id` completes: it stops running, is recorded as
    /// completed, and the waiting tasks whose dependencies are now satisfied
    /// become ready, in order.
    pub open spec fn after_completed(self, id: TaskId) -> SchedulerView {
        let completed = add_id(self.completed, id);
        SchedulerView {
            pending: self.pending + ready_part(self.waiting, completed, self.failed),
            waiting: blocked_part(self.waiting, completed, self.failed),
            running: without_key(self.running, id),
            completed,
            failed: self.failed,
        }
    }

    /// The state after task `id` fails: it stops running and is recorded as failed.
    pub open spec fn after_failed(self, id: TaskId) -> SchedulerView {
        SchedulerView {
            running: without_key(self.running, id),
            failed: add_id(self.failed, id),
            ..self
        }
    }

    /// The state after cancelling task `id`: every ready task with that id is
    /// dropped; waiting and running tasks stay.
    pub open spec fn after_cancel(self, id: TaskId) -> SchedulerView {
        SchedulerView {
            pending: without_id(self.pending, id),
            ..self
        }
    }
}

#[derive(Debug)]
struct RunningTask {
    task: Task,
    agent_id: AgentId,
    started_at: std::time::Instant,
}

spec fn running_entries(rs: Seq<RunningTask>) -> Seq<(TaskId, AgentId)> {
    rs.map_values(|r: RunningTask| (r.task.id, r.agent_id))
}

/// Counters describing the scheduler.
#[derive(Debug, Clone)]
pub struct SchedulerStats {
    pub pending_count: usize,
    pub waiting_count: usize,
    pub running_count: usize,
    pub completed_count: usize,
    pub failed_count: usize,
}

/// A priority scheduler that holds tasks back until their dependencies complete.
#[derive(Debug)]
pub struct TaskScheduler {
    pending_tasks: Vec<Task>,
    waiting_tasks: Vec<Task>,
    running_tasks: Vec<RunningTask>,
    completed_tasks: Vec<TaskId>,
    failed_tasks: Vec<TaskId>,
}

fn contains_id(v: &Vec<TaskId>, x: TaskId) -> (r: bool)
    ensures
        r == v@.contains(x),
{
    let mut i: usize = 0;
    while i < v.len()
        invariant
            i <= v@.len(),
            forall|j: int| 0 <= j < i ==> v@[j] != x,
        decreases v.len() - i,
    {
        if v[i] == x {
            return true;
        }
        i = i + 1;
    }
    false
}

fn push_id(v: &mut Vec<TaskId>, x: TaskId)
    ensures
        final(v)@ == add_id(old(v)@, x),
{
    if !contains_id(v, x) {
        v.push(x);
    }
}

proof fn lemma_add_id_no_duplicates(s: Seq<TaskId>, x: TaskId)
    requires
        s.no_duplicates(),
    ensures
        add_id(s, x).no_duplicates(),
{
    if !s.contains(x) {
        let t = s.push(x);
        assert forall|a: int, b: int| 0 <= a < t.len() && 0 <= b < t.len() && a != b implies t[a]
            != t[b] by {
            if a < s.len() && b < s.len() {
            } else if a < s.len() {
                assert(t[a] == s[a]);
            } else {
                assert(t[b] == s[b]);
            }
        }
    }
}

impl TaskScheduler {
    /// The mathematical state.
    pub closed spec fn view(&self) -> SchedulerView {
        SchedulerView {
            pending: self.pending_tasks@,
            waiting: self.waiting_tasks@,
            running: running_entries(self.running_tasks@),
            completed: self.completed_tasks@,
            failed: self.failed_tasks@,
        }
    }

    /// Each task runs on one agent at a time, and completed and failed ids are
    /// each recorded once.
    pub open spec fn wf(&self) -> bool {
        &&& keys_of(self.view().running).no_duplicates()
        &&& self.view().completed.no_duplicates()
        &&& self.view().failed.no_duplicates()
    }

    /// An empty scheduler.
    pub fn new() -> (s: TaskScheduler)
        ensures
            s.wf(),
            s.view().pending.len() == 0,
            s.view().waiting.len() == 0,
            s.view().running.len() == 0,
            s.view().completed.len() == 0,
            s.view().failed.len() == 0,
    {
        let s = TaskScheduler {
            pending_tasks: Vec::new(),
            waiting_tasks: Vec::new(),
            running_tasks: Vec::new(),
            completed_tasks: Vec::new(),
            failed_tasks: Vec::new(),
        };
        proof {
            assert(keys_of(s.view().running) =~= Seq::<TaskId>::empty());
        }
        s
    }

    /// The status of a list of dependencies against the completed and failed ids.
    pub fn dependency_status_of(&self, deps: &Vec<TaskId>) -> (r: DependencyStatus)
        ensures
            r == dependency_status(deps@, self.view().completed, self.view().failed),
    {
        let mut k: usize = 0;
        while k < deps.len()
            invariant
                k <= deps@.len(),
                dependency_status(deps@, self.view().completed, self.view().failed)
                    == dependency_status_from(
                    deps@,
                    self.view().completed,
                    self.view().failed,
                    k as int,
                ),
            decreases deps.len() - k,
        {
            let d = deps[k];
            if contains_id(&self.failed_tasks, d) {
                return DependencyStatus::DependsOnFailed(d);
            }
            if !contains_id(&self.completed_tasks, d) {
                return DependencyStatus::Waiting;
            }
            k = k + 1;
        }
        DependencyStatus::Satisfied
    }

    /// Whether the dependencies of `task` are all completed: `Ok(true)` if so,
    /// `Ok(false)` while one has not completed, and a scheduling error when the
    /// first dependency that has not completed has failed.
    pub fn are_dependencies_satisfied(&self, task: &Task) -> (r: Result<bool, AgentError>)
        ensures
            match self.view().status_of(*task) {
                DependencyStatus::Satisfied => r == Ok::<bool, AgentError>(true),
                DependencyStatus::Waiting => r == Ok::<bool, AgentError>(false),
                DependencyStatus::DependsOnFailed(d) => r matches Err(
                    AgentError::SchedulingError(m),
                ) && m@ == failed_dependency_message(task.id, d),
            },
    {
        match self.dependency_status_of(&task.dependencies) {
            DependencyStatus::Satisfied => Ok(true),
            DependencyStatus::Waiting => Ok(false),
            DependencyStatus::DependsOnFailed(d) => {
                let mut m = String::from_str("Task ");
                let a = id_text(task.id);
                m.append(a.as_str());
                m.append(" depends on failed task ");
                let b = id_text(d);
                m.append(b.as_str());
                Err(AgentError::SchedulingError(m))
            },
        }
    }

    /// Schedules `task`: it becomes ready when its dependencies have all
    /// completed, waits otherwise, and is refused when the first dependency that
    /// has not completed has failed.
    pub fn schedule_task(&mut self, task: Task) -> (r: Result<(), AgentError>)
        requires
            old(self).wf(),
        ensures
            final(self).wf(),
            final(self).view() == old(self).view().after_schedule(task),
            r is Ok <==> !(old(self).view().status_of(task) is DependsOnFailed),
            old(self).view().status_of(task) matches DependencyStatus::DependsOnFailed(d) ==> r matches Err(
                AgentError::SchedulingError(m),
            ) && m@ == failed_dependency_message(task.id, d),
    {
        match self.are_dependencies_satisfied(&task) {
            Ok(true) => {
                self.pending_tasks.push(task);
                Ok(())
            },
            Ok(false) => {
                self.waiting_tasks.push(task);
                Ok(())
            },
            Err(e) => Err(e),
        }
    }

    /// The index of the ready task to hand out next.
    fn best_pending_index(&self) -> (r: usize)
        requires
            self.pending_tasks@.len() > 0,
        ensures
            r == best_index(self.pending_tasks@),
    {
        let ghost s = self.pending_tasks@;
        let mut best: usize = 0;
        let mut i: usize = 1;
        proof {
            assert(s.take(1).len() == 1);
        }
        while i < self.pending_tasks.len()
            invariant
                1 <= i <= s.len(),
                s == self.pending_tasks@,
                best == best_index(s.take(i as int)),
                best < i,
            decreases self.pending_tasks.len() - i,
        {
            proof {
                assert(s.take(i + 1).drop_last() =~= s.take(i as int));
                assert(s.take(i as int)[best as int] == s[best as int]);
            }
            if self.pending_tasks[i].priority.level() > self.pending_tasks[best].priority.level() {
                best = i;
            }
            i = i + 1;
        }
        proof {
            assert(s.take(s.len() as int) =~= s);
        }
        best
    }

    /// Hands out the ready task of highest priority (earliest scheduled among
    /// equals), provided its dependencies are satisfied; otherwise nothing.
    pub fn get_next_task(&mut self) -> (r: Option<Task>)
        requires
            old(self).wf(),
        ensures
            final(self).wf(),
            (r, final(self).view()) == old(self).view().take_next(),
    {
        if self.pending_tasks.len() == 0 {
            return None;
        }
        let i = self.best_pending_index();
        proof {
            lemma_best_index(self.pending_tasks@);
        }
        let status = self.dependency_status_of(&self.pending_tasks[i].dependencies);
        match status {
            DependencyStatus::Satisfied => {
                let t = self.pending_tasks.remove(i);
                Some(t)
            },
            _ => None,
        }
    }

    fn running_index(&self, task_id: TaskId) -> (r: Option<usize>)
        ensures
            match r {
                Some(i) => i < self.view().running.len() && self.view().running[i as int].0
                    == task_id,
                None => !has_key(self.view().running, task_id),
            },
    {
        let mut i: usize = 0;
        while i < self.running_tasks.len()
            invariant
                i <= self.running_tasks@.len(),
                forall|j: int| 0 <= j < i ==> #[trigger] self.view().running[j].0 != task_id,
            decreases self.running_tasks.len() - i,
        {
            if self.running_tasks[i].task.id == task_id {
                return Some(i);
            }
            i = i + 1;
        }
        None
    }

    /// Records that `task` runs on `agent_id`, replacing any earlier record for it.
    pub fn mark_task_running(&mut self, task: Task, agent_id: AgentId) -> (r: Result<(), AgentError>)
        requires
            old(self).wf(),
        ensures
            final(self).wf(),
            final(self).view() == old(self).view().after_running(task.id, agent_id),
            r is Ok,
    {
        let ghost before = self.view();
        let task_id = task.id;
        let entry = RunningTask { task, agent_id, started_at: instant_now() };
        match self.running_index(task_id) {
            Some(i) => {
                self.running_tasks.set(i, entry);
                proof {
                    let keys = keys_of(before.running);
                    assert(before.running[i as int].0 == task_id);
                    assert forall|j: int|
                        0 <= j < before.running.len() && #[trigger] before.running[j].0
                            == task_id implies j == i by {
                        assert(keys[j] == keys[i as int]);
                    }
                    let c = choose|j: int|
                        0 <= j < before.running.len() && #[trigger] before.running[j].0 == task_id;
                    assert(c == i);
                    assert(self.view().running =~= before.running.update(i as int, (task_id, agent_id)));
                    assert(keys_of(self.view().running) =~= keys);
                }
            },
            None => {
                self.running_tasks.push(entry);
                proof {
                    let keys = keys_of(before.running);
                    assert(self.view().running =~= before.running.push((task_id, agent_id)));
                    assert(keys_of(self.view().running) =~= keys.push(task_id));
                    assert(!keys.contains(task_id)) by {
                        if keys.contains(task_id) {
                            let j = choose|j: int| 0 <= j < keys.len() && keys[j] == task_id;
                            assert(before.running[j].0 == task_id);
                        }
                    }
                    let nk = keys.push(task_id);
                    assert forall|a: int, b: int| 0 <= a < nk.len() && 0 <= b < nk.len() && a != b implies nk[a]
                        != nk[b] by {
                        if a < keys.len() && b < keys.len() {
                        } else if a < keys.len() {
                            assert(nk[a] == keys[a]);
                        } else {
                            assert(nk[b] == keys[b]);
                        }
                    }
                }
            },
        }
        Ok(())
    }

    fn remove_running(&mut self, task_id: TaskId)
        requires
            old(self).wf(),
        ensures
            final(self).wf(),
            final(self).view() == (SchedulerView {
                running: without_key(old(self).view().running, task_id),
                ..old(self).view()
            }),
    {
        let ghost before = self.view();
        match self.running_index(task_id) {
            Some(i) => {
                let _ = self.running_tasks.remove(i);
                proof {
                    lemma_without_key_remove(before.running, i as int);
                    assert(self.view().running =~= before.running.remove(i as int));
                    lemma_keys_remove(before.running, i as int);
                }
            },
            None => {
                proof {
                    lemma_without_key_absent(before.running, task_id);
                }
            },
        }
    }

    /// Records that task `task_id` completed: it stops running, is counted once
    /// as completed, and waiting tasks whose dependencies are now all completed
    /// become ready, in the order they were scheduled.
    pub fn mark_task_completed(&mut self, task_id: TaskId) -> (r: Result<(), AgentError>)
        requires
            old(self).wf(),
        ensures
            final(self).wf(),
            final(self).view() == old(self).view().after_completed(task_id),
            r is Ok,
    {
        self.remove_running(task_id);
        proof {
            lemma_add_id_no_duplicates(self.completed_tasks@, task_id);
        }
        push_id(&mut self.completed_tasks, task_id);
        self.release_waiting();
        Ok(())
    }

    /// Moves every waiting task whose dependencies are satisfied to the end of the
    /// ready tasks, keeping their order.
    fn release_waiting(&mut self)
        requires
            old(self).wf(),
        ensures
            final(self).wf(),
            final(self).view() == (SchedulerView {
                pending: old(self).view().pending + ready_part(
                    old(self).view().waiting,
                    old(self).view().completed,
                    old(self).view().failed,
                ),
                waiting: blocked_part(
                    old(self).view().waiting,
                    old(self).view().completed,
                    old(self).view().failed,
                ),
                ..old(self).view()
            }),
    {
        let ghost before = self.view();
        let ghost ws = before.waiting;
        let mut waiting: Vec<Task> = Vec::new();
        std::mem::swap(&mut waiting, &mut self.waiting_tasks);
        let mut still: Vec<Task> = Vec::new();
        while waiting.len() > 0
            invariant
                self.completed_tasks@ == before.completed,
                self.failed_tasks@ == before.failed,
                running_entries(self.running_tasks@) == before.running,
                self.waiting_tasks@.len() == 0,
                waiting@.len() <= ws.len(),
                waiting@ == ws.skip(ws.len() - waiting@.len()),
                self.pending_tasks@ == before.pending + ready_part(
                    ws.take(ws.len() - waiting@.len()),
                    before.completed,
                    before.failed,
                ),
                still@ == blocked_part(
                    ws.take(ws.len() - waiting@.len()),
                    before.completed,
                    before.failed,
                ),
            decreases waiting.len(),
        {
            let ghost k = ws.len() - waiting@.len();
            let t = waiting.remove(0);
            proof {
                assert(ws.take(k + 1).drop_last() =~= ws.take(k));
                assert(ws.take(k + 1).last() == t);
                assert(waiting@ =~= ws.skip(k + 1));
            }
            let st = self.dependency_status_of(&t.dependencies);
            if st == DependencyStatus::Satisfied {
                self.pending_tasks.push(t);
            } else {
                still.push(t);
            }
        }
        proof {
            assert(ws.take(ws.len() as int) =~= ws);
        }
        self.waiting_tasks = still;
    }

    /// Records that task `task_id` failed: it stops running and is counted once
    /// as failed.
    pub fn mark_task_failed(&mut self, task_id: TaskId, error: &str) -> (r: Result<(), AgentError>)
        requires
            old(self).wf(),
        ensures
            final(self).wf(),
            final(self).view() == old(self).view().after_failed(task_id),
            r is Ok,
    {
        self.remove_running(task_id);
        proof {
            lemma_add_id_no_duplicates(self.failed_tasks@, task_id);
        }
        push_id(&mut self.failed_tasks, task_id);
        Ok(())
    }

    /// Counts of ready, waiting, running, completed and failed tasks.
    pub fn get_stats(&self) -> (r: SchedulerStats)
        ensures
            r.pending_count == self.view().pending.len(),
            r.waiting_count == self.view().waiting.len(),
            r.running_count == self.view().running.len(),
            r.completed_count == self.view().completed.len(),
            r.failed_count == self.view().failed.len(),
    {
        SchedulerStats {
            pending_count: self.pending_tasks.len(),
            waiting_count: self.waiting_tasks.len(),
            running_count: self.running_tasks.len(),
            completed_count: self.completed_tasks.len(),
            failed_count: self.failed_tasks.len(),
        }
    }

    /// The running tasks, in the order they started, with their agents and how
    /// long each has been running.
    pub fn get_running_tasks(&self) -> (r: Vec<(TaskId, AgentId, std::time::Duration)>)
        ensures
            r@.len() == self.view().running.len(),
            forall|i: int|
                0 <= i < r@.len() ==> (#[trigger] r@[i].0, r@[i].1) == self.view().running[i],
    {
        let now = instant_now();
        let mut r: Vec<(TaskId, AgentId, std::time::Duration)> = Vec::new();
        let mut i: usize = 0;
        while i < self.running_tasks.len()
            invariant
                i <= self.running_tasks@.len(),
                r@.len() == i,
                forall|j: int|
                    0 <= j < i ==> (#[trigger] r@[j].0, r@[j].1) == self.view().running[j],
            decreases self.running_tasks.len() - i,
        {
            let rt = &self.running_tasks[i];
            r.push((rt.task.id, rt.agent_id, duration_between(now, rt.started_at)));
            i = i + 1;
        }
        r
    }

    /// Cancels every ready task with id `task_id`; tells whether there was one.
    /// Tasks waiting for their dependencies and running tasks are not affected.
    pub fn cancel_task(&mut self, task_id: TaskId) -> (r: Result<bool, AgentError>)
        requires
            old(self).wf(),
        ensures
            final(self).wf(),
            final(self).view() == old(self).view().after_cancel(task_id),
            r == Ok::<bool, AgentError>(has_task(old(self).view().pending, task_id)),
    {
        let mut pending: Vec<Task> = Vec::new();
        std::mem::swap(&mut pending, &mut self.pending_tasks);
        let (kept_pending, removed_pending) = drop_task_id(pending, task_id);
        self.pending_tasks = kept_pending;
        Ok(removed_pending)
    }
}

/// Splits off the tasks with id `id`: returns the others, in order, and whether
/// there was one.
fn drop_task_id(v: Vec<Task>, id: TaskId) -> (r: (Vec<Task>, bool))
    ensures
        r.0@ == without_id(v@, id),
        r.1 == has_task(v@, id),
{
    let ghost ws = v@;
    let mut rest = v;
    let mut kept: Vec<Task> = Vec::new();
    let mut found = false;
    while rest.len() > 0
        invariant
            rest@.len() <= ws.len(),
            rest@ == ws.skip(ws.len() - rest@.len()),
            kept@ == without_id(ws.take(ws.len() - rest@.len()), id),
            found == has_task(ws.take(ws.len() - rest@.len()), id),
        decreases rest.len(),
    {
        let ghost k = ws.len() - rest@.len();
        let t = rest.remove(0);
        proof {
            let p = ws.take(k + 1);
            assert(p.drop_last() =~= ws.take(k));
            assert(p.last() == t);
            assert(rest@ =~= ws.skip(k + 1));
            if has_task(p, id) && !has_task(ws.take(k), id) {
                let i = choose|i: int| 0 <= i < p.len() && #[trigger] p[i].id == id;
                if i < k {
                    assert(ws.take(k)[i].id == id);
                }
            }
            if has_task(ws.take(k), id) {
                let i = choose|i: int| 0 <= i < k && #[trigger] ws.take(k)[i].id == id;
                assert(p[i].id == id);
            }
            if t.id == id {
                assert(p[k].id == id);
            }
        }
        if t.id == id {
            found = true;
        } else {
            kept.push(t);
        }
    }
    proof {
        assert(ws.take(ws.len() as int) =~= ws);
    }
    (kept, found)
}

/// Without an entry for `id`, removing its entries changes nothing.
pub proof fn lemma_without_key_absent(s: Seq<(TaskId, AgentId)>, id: TaskId)
    requires
        !has_key(s, id),
    ensures
        without_key(s, id) == s,
    decreases s.len(),
{
    if s.len() > 0 {
        let d = s.drop_last();
        assert(!has_key(d, id)) by {
            if has_key(d, id) {
                let i = choose|i: int| 0 <= i < d.len() && #[trigger] d[i].0 == id;
                assert(s[i].0 == id);
            }
        }
        lemma_without_key_absent(d, id);
        assert(s.last().0 != id);
        assert(d.push(s.last()) =~= s);
    }
}

/// With distinct keys, removing the entries for the key at `i` removes just `i`.
pub proof fn lemma_without_key_remove(s: Seq<(TaskId, AgentId)>, i: int)
    requires
        keys_of(s).no_duplicates(),
        0 <= i < s.len(),
    ensures
        without_key(s, s[i].0) == s.remove(i),
    decreases s.len(),
{
    let id = s[i].0;
    let d = s.drop_last();
    let k = keys_of(s);
    assert(keys_of(d) =~= k.drop_last());
    assert(keys_of(d).no_duplicates()) by {
        assert forall|a: int, b: int|
            0 <= a < keys_of(d).len() && 0 <= b < keys_of(d).len() && a != b implies keys_of(d)[a]
            != keys_of(d)[b] by {
            assert(keys_of(d)[a] == k[a] && keys_of(d)[b] == k[b]);
        }
    }
    if i == s.len() - 1 {
        assert(!has_key(d, id)) by {
            if has_key(d, id) {
                let j = choose|j: int| 0 <= j < d.len() && #[trigger] d[j].0 == id;
                assert(k[j] == k[i]);
            }
        }
        lemma_without_key_absent(d, id);
        assert(s.remove(i) =~= d);
    } else {
        assert(d[i] == s[i]);
        lemma_without_key_remove(d, i);
        assert(k[s.len() - 1] != k[i]);
        assert(s.remove(i) =~= d.remove(i).push(s.last()));
    }
}

/// Removing one entry keeps the keys distinct.
pub proof fn lemma_keys_remove(s: Seq<(TaskId, AgentId)>, i: int)
    requires
        keys_of(s).no_duplicates(),
        0 <= i < s.len(),
    ensures
        keys_of(s.remove(i)).no_duplicates(),
{
    let k = keys_of(s);
    let r = s.remove(i);
    assert(keys_of(r) =~= k.remove(i));
    assert forall|a: int, b: int|
        0 <= a < keys_of(r).len() && 0 <= b < keys_of(r).len() && a != b implies keys_of(r)[a]
        != keys_of(r)[b] by {
        let a2 = if a < i { a } else { a + 1 };
        let b2 = if b < i { b } else { b + 1 };
        assert(keys_of(r)[a] == k[a2] && keys_of(r)[b] == k[b2]);
    }
}

impl Default for TaskScheduler {
    fn default() -> (s: TaskScheduler)
        ensures
            s.wf(),
            s.view().pending.len() == 0,
            s.view().waiting.len() == 0,
            s.view().running.len() == 0,
            s.view().completed.len() == 0,
            s.view().failed.len() == 0,
    {
        TaskScheduler::new()
    }
}

} // verus!
